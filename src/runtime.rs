use vstd::prelude::*;

use crate::error::BridgeError;

verus! {

/// The scheduler handle of an instance together with the resource and
/// controller it was bound to when it was created.
#[derive(Debug, Clone, Copy, PartialEq, Eq, Structural)]
pub struct TaskerBinding {
    pub tasker: u64,
    pub resource: u64,
    pub controller: u64,
}

/// One native release call that the host has to perform, in the order given.
#[derive(Debug, Clone, Copy, PartialEq, Eq, Structural)]
pub enum Release {
    DisconnectAgent(u64),
    DestroyAgent(u64),
    KillAgentProcess(u32),
    DestroyTasker(u64),
    DestroyController(u64),
    DestroyResource(u64),
}

/// Position of a release in the engine's teardown order.
pub open spec fn release_rank(r: Release) -> int {
    match r {
        Release::DisconnectAgent(_) => 0,
        Release::DestroyAgent(_) => 1,
        Release::KillAgentProcess(_) => 2,
        Release::DestroyTasker(_) => 3,
        Release::DestroyController(_) => 4,
        Release::DestroyResource(_) => 5,
    }
}

/// What a command step returns: its result, and the native releases that the
/// host has to perform, in order, whatever the result.
pub struct Outcome<T> {
    pub result: Result<T, BridgeError>,
    pub releases: Vec<Release>,
}

/// Mathematical model of the native handles owned by one instance.
pub struct RuntimeView {
    pub resource: Option<u64>,
    pub controller: Option<u64>,
    pub tasker: Option<TaskerBinding>,
    pub agent_client: Option<u64>,
    pub agent_child: Option<u32>,
    pub task_ids: Seq<i64>,
}

impl RuntimeView {
    pub open spec fn empty() -> RuntimeView {
        RuntimeView {
            resource: None,
            controller: None,
            tasker: None,
            agent_client: None,
            agent_child: None,
            task_ids: Seq::empty(),
        }
    }

    /// No native handle and no agent process is held.
    pub open spec fn holds_nothing(self) -> bool {
        &&& self.resource is None
        &&& self.controller is None
        &&& self.tasker is None
        &&& self.agent_client is None
        &&& self.agent_child is None
    }

    /// Handles are non-null, and a scheduler exists only while the exact
    /// resource and controller it was bound to are still held.
    pub open spec fn wf(self) -> bool {
        &&& (self.resource matches Some(r) ==> r != 0)
        &&& (self.controller matches Some(c) ==> c != 0)
        &&& (self.agent_client matches Some(a) ==> a != 0)
        &&& (self.tasker matches Some(b) ==> {
            &&& b.tasker != 0
            &&& self.resource == Some(b.resource)
            &&& self.controller == Some(b.controller)
        })
    }

    /// The releases of the scheduler, then the controller, if held.
    pub open spec fn controller_release_plan(self) -> Seq<Release> {
        let tasker = match self.tasker {
            Some(b) => seq![Release::DestroyTasker(b.tasker)],
            None => Seq::empty(),
        };
        let controller = match self.controller {
            Some(c) => seq![Release::DestroyController(c)],
            None => Seq::empty(),
        };
        tasker + controller
    }

    /// The releases of the scheduler, then the resource, if held.
    pub open spec fn resource_release_plan(self) -> Seq<Release> {
        let tasker = match self.tasker {
            Some(b) => seq![Release::DestroyTasker(b.tasker)],
            None => Seq::empty(),
        };
        let resource = match self.resource {
            Some(r) => seq![Release::DestroyResource(r)],
            None => Seq::empty(),
        };
        tasker + resource
    }

    /// The releases of the agent client (disconnect, then destroy) and of the
    /// agent process, if held.
    pub open spec fn agent_release_plan(self) -> Seq<Release> {
        let agent = match self.agent_client {
            Some(a) => seq![Release::DisconnectAgent(a), Release::DestroyAgent(a)],
            None => Seq::empty(),
        };
        let child = match self.agent_child {
            Some(p) => seq![Release::KillAgentProcess(p)],
            None => Seq::empty(),
        };
        agent + child
    }

    /// The releases that tear this runtime down: agent client (disconnect,
    /// then destroy), agent process, scheduler, controller, resource.
    pub open spec fn teardown_plan(self) -> Seq<Release> {
        let agent = match self.agent_client {
            Some(a) => seq![Release::DisconnectAgent(a), Release::DestroyAgent(a)],
            None => Seq::empty(),
        };
        let child = match self.agent_child {
            Some(p) => seq![Release::KillAgentProcess(p)],
            None => Seq::empty(),
        };
        let tasker = match self.tasker {
            Some(b) => seq![Release::DestroyTasker(b.tasker)],
            None => Seq::empty(),
        };
        let controller = match self.controller {
            Some(c) => seq![Release::DestroyController(c)],
            None => Seq::empty(),
        };
        let resource = match self.resource {
            Some(r) => seq![Release::DestroyResource(r)],
            None => Seq::empty(),
        };
        agent + child + tasker + controller + resource
    }
}

/// Tearing an instance down releases, in strictly increasing teardown order,
/// exactly the agent client (disconnect, then destroy), agent process,
/// scheduler, controller and resource that it holds, each once.
pub proof fn teardown_is_ordered_and_complete(rt: RuntimeView)
    ensures
        forall|i: int, j: int|
            0 <= i < j < rt.teardown_plan().len() ==> release_rank(
                #[trigger] rt.teardown_plan()[i],
            ) < release_rank(#[trigger] rt.teardown_plan()[j]),
        rt.agent_client matches Some(a) ==> rt.teardown_plan().contains(Release::DisconnectAgent(a))
            && rt.teardown_plan().contains(Release::DestroyAgent(a)),
        rt.agent_child matches Some(p) ==> rt.teardown_plan().contains(Release::KillAgentProcess(p)),
        rt.tasker matches Some(b) ==> rt.teardown_plan().contains(Release::DestroyTasker(b.tasker)),
        rt.controller matches Some(c) ==> rt.teardown_plan().contains(Release::DestroyController(c)),
        rt.resource matches Some(r) ==> rt.teardown_plan().contains(Release::DestroyResource(r)),
        rt.teardown_plan().len() == (if rt.agent_client is Some { 2int } else { 0 }) + (if rt.agent_child
            is Some { 1int } else { 0 }) + (if rt.tasker is Some { 1int } else { 0 }) + (
        if rt.controller is Some { 1int } else { 0 }) + (if rt.resource is Some { 1int } else { 0 }),
{
    let plan = rt.teardown_plan();
    let agent = match rt.agent_client {
        Some(a) => seq![Release::DisconnectAgent(a), Release::DestroyAgent(a)],
        None => Seq::empty(),
    };
    let child = match rt.agent_child {
        Some(p) => seq![Release::KillAgentProcess(p)],
        None => Seq::empty(),
    };
    let tasker = match rt.tasker {
        Some(b) => seq![Release::DestroyTasker(b.tasker)],
        None => Seq::empty(),
    };
    let controller = match rt.controller {
        Some(c) => seq![Release::DestroyController(c)],
        None => Seq::empty(),
    };
    let resource = match rt.resource {
        Some(r) => seq![Release::DestroyResource(r)],
        None => Seq::empty(),
    };
    let s1 = agent + child;
    let s2 = s1 + tasker;
    let s3 = s2 + controller;
    assert(plan == s3 + resource);
    assert forall|i: int| 0 <= i < s1.len() implies release_rank(#[trigger] s1[i]) <= 2 && (i
        < agent.len() ==> release_rank(s1[i]) == i) by {
        if i < agent.len() {
        } else {
            assert(s1[i] == child[i - agent.len()]);
        }
    }
    assert forall|i: int, j: int| 0 <= i < j < plan.len() implies release_rank(#[trigger] plan[i])
        < release_rank(#[trigger] plan[j]) by {
        if j < s1.len() {
            assert(plan[i] == s1[i] && plan[j] == s1[j]);
            if j < agent.len() {
            } else {
                assert(s1[j] == child[j - agent.len()]);
            }
        } else if j < s2.len() {
            assert(plan[j] == tasker[j - s1.len()]);
            if i < s1.len() {
                assert(plan[i] == s1[i]);
            }
        } else if j < s3.len() {
            assert(plan[j] == controller[j - s2.len()]);
            if i < s1.len() {
                assert(plan[i] == s1[i]);
            } else if i < s2.len() {
                assert(plan[i] == tasker[i - s1.len()]);
            }
        } else {
            assert(plan[j] == resource[j - s3.len()]);
            if i < s1.len() {
                assert(plan[i] == s1[i]);
            } else if i < s2.len() {
                assert(plan[i] == tasker[i - s1.len()]);
            } else if i < s3.len() {
                assert(plan[i] == controller[i - s2.len()]);
            }
        }
    }
    if let Some(a) = rt.agent_client {
        assert(plan[0] == Release::DisconnectAgent(a));
        assert(plan[1] == Release::DestroyAgent(a));
    }
    if let Some(p) = rt.agent_child {
        assert(plan[agent.len() as int] == Release::KillAgentProcess(p));
    }
    if let Some(b) = rt.tasker {
        assert(plan[s1.len() as int] == Release::DestroyTasker(b.tasker));
    }
    if let Some(c) = rt.controller {
        assert(plan[s2.len() as int] == Release::DestroyController(c));
    }
    if let Some(r) = rt.resource {
        assert(plan[s3.len() as int] == Release::DestroyResource(r));
    }
}

/// The native handles and posted task ids of one instance.
pub struct InstanceRuntime {
    pub resource: Option<u64>,
    pub controller: Option<u64>,
    pub tasker: Option<TaskerBinding>,
    pub agent_client: Option<u64>,
    pub agent_child: Option<u32>,
    pub task_ids: Vec<i64>,
}

impl View for InstanceRuntime {
    type V = RuntimeView;

    open spec fn view(&self) -> RuntimeView {
        RuntimeView {
            resource: self.resource,
            controller: self.controller,
            tasker: self.tasker,
            agent_client: self.agent_client,
            agent_child: self.agent_child,
            task_ids: self.task_ids@,
        }
    }
}

impl InstanceRuntime {
    /// A runtime that holds no handle and no task id.
    pub fn new() -> (r: InstanceRuntime)
        ensures
            r@ == RuntimeView::empty(),
    {
        InstanceRuntime {
            resource: None,
            controller: None,
            tasker: None,
            agent_client: None,
            agent_child: None,
            task_ids: Vec::new(),
        }
    }

    /// Takes every handle out of the runtime and returns the releases for
    /// them in teardown order.
    pub fn teardown(&mut self) -> (plan: Vec<Release>)
        ensures
            plan@ == old(self)@.teardown_plan(),
            final(self)@.holds_nothing(),
            final(self)@.task_ids == old(self)@.task_ids,
    {
        let mut plan: Vec<Release> = Vec::new();
        if let Some(a) = self.agent_client.take() {
            plan.push(Release::DisconnectAgent(a));
            plan.push(Release::DestroyAgent(a));
        }
        if let Some(p) = self.agent_child.take() {
            plan.push(Release::KillAgentProcess(p));
        }
        if let Some(b) = self.tasker.take() {
            plan.push(Release::DestroyTasker(b.tasker));
        }
        if let Some(c) = self.controller.take() {
            plan.push(Release::DestroyController(c));
        }
        if let Some(r) = self.resource.take() {
            plan.push(Release::DestroyResource(r));
        }
        proof {
            assert(plan@ =~= old(self)@.teardown_plan());
        }
        plan
    }
}

} // verus!
