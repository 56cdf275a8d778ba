use vstd::prelude::*;

use crate::error::{BridgeError, HandleKind, Precondition, RequestKind};
use crate::native::MAA_INVALID_ID;
use crate::registry::{only_instance_changed, Registry};
use crate::agent::{with_agent, without_agent};
use crate::controller::with_controller;
use crate::resource::{accepted_ids, accepted_request_ids, with_resource, without_resource};
use crate::runtime::{Outcome, Release, RuntimeView, TaskerBinding};

verus! {

/// What posting tasks needs first: the existing scheduler, or a new one bound
/// to the given resource and controller.
#[derive(Debug, Clone, Copy, PartialEq, Eq, Structural)]
pub enum TaskerPlan {
    Ready(u64),
    Create { resource: u64, controller: u64 },
}

/// The plan owed for a registered runtime.
pub open spec fn tasker_plan_of(rt: RuntimeView) -> Result<TaskerPlan, BridgeError> {
    match (rt.resource, rt.controller) {
        (None, _) => Err(BridgeError::PreconditionViolation(Precondition::ResourceNotLoaded)),
        (Some(_), None) => Err(BridgeError::PreconditionViolation(Precondition::ControllerNotConnected)),
        (Some(r), Some(c)) => match rt.tasker {
            Some(b) => Ok(TaskerPlan::Ready(b.tasker)),
            None => Ok(TaskerPlan::Create { resource: r, controller: c }),
        },
    }
}

pub open spec fn with_tasker(rt: RuntimeView, b: TaskerBinding) -> RuntimeView {
    RuntimeView {
        resource: rt.resource,
        controller: rt.controller,
        tasker: Some(b),
        agent_client: rt.agent_client,
        agent_child: rt.agent_child,
        task_ids: rt.task_ids,
    }
}

pub open spec fn with_task_ids(rt: RuntimeView, ids: Seq<i64>) -> RuntimeView {
    RuntimeView {
        resource: rt.resource,
        controller: rt.controller,
        tasker: rt.tasker,
        agent_client: rt.agent_client,
        agent_child: rt.agent_child,
        task_ids: ids,
    }
}

proof fn lemma_accepted_ids_are_valid(posted: Seq<i64>)
    ensures
        forall|i: int| 0 <= i < accepted_ids(posted).len() ==> #[trigger] accepted_ids(posted)[i]
            != MAA_INVALID_ID,
        accepted_ids(posted).len() <= posted.len(),
    decreases posted.len(),
{
    if posted.len() > 0 {
        lemma_accepted_ids_are_valid(posted.drop_last());
    }
}

/// A scheduler exists only next to the resource and controller it was bound
/// to; dropping the resource, or replacing the controller, drops the
/// scheduler too, and its release comes before theirs.
pub proof fn scheduler_needs_its_resource_and_controller(rt: RuntimeView, c: u64)
    requires
        rt.wf(),
    ensures
        rt.tasker matches Some(b) ==> rt.resource == Some(b.resource) && rt.controller == Some(
            b.controller,
        ),
        rt.resource is None || rt.controller is None ==> rt.tasker is None,
        without_resource(rt).tasker is None,
        with_controller(rt, c).tasker is None,
        rt.tasker matches Some(b) ==> rt.resource_release_plan()[0] == Release::DestroyTasker(b.tasker)
            && rt.controller_release_plan()[0] == Release::DestroyTasker(b.tasker),
        c != 0 ==> with_controller(rt, c).wf(),
        without_resource(rt).wf(),
{
}

/// Posted task ids change only by recording accepted posts, which appends
/// ids other than the invalid one, or by a stop, which empties them; every
/// other step on a runtime keeps them as they are.
pub proof fn task_ids_grow_by_posts_and_reset_by_stop(
    rt: RuntimeView,
    posted: Seq<i64>,
    handle: u64,
    binding: TaskerBinding,
    client: Option<u64>,
    child: u32,
)
    ensures
        with_controller(rt, handle).task_ids == rt.task_ids,
        with_resource(rt, handle).task_ids == rt.task_ids,
        without_resource(rt).task_ids == rt.task_ids,
        with_tasker(rt, binding).task_ids == rt.task_ids,
        with_agent(rt, client, child).task_ids == rt.task_ids,
        without_agent(rt).task_ids == rt.task_ids,
        forall|i: int| 0 <= i < accepted_ids(posted).len() ==> #[trigger] accepted_ids(posted)[i]
            != MAA_INVALID_ID,
        (rt.task_ids + accepted_ids(posted)).subrange(0, rt.task_ids.len() as int) == rt.task_ids,
        with_task_ids(rt, Seq::empty()).task_ids.len() == 0,
{
    lemma_accepted_ids_are_valid(posted);
    assert((rt.task_ids + accepted_ids(posted)).subrange(0, rt.task_ids.len() as int) =~= rt.task_ids);
}

/// A scheduler that does not report itself initialised cannot take tasks.
pub fn require_inited(inited: bool) -> (r: Result<(), BridgeError>)
    ensures
        inited ==> r is Ok,
        !inited ==> r == Err::<(), BridgeError>(
            BridgeError::PreconditionViolation(Precondition::TaskerNotInitialized),
        ),
{
    if inited {
        Ok(())
    } else {
        Err(BridgeError::PreconditionViolation(Precondition::TaskerNotInitialized))
    }
}

impl Registry {
    /// Checks that an instance can run tasks: it needs a resource and a
    /// controller; says whether its scheduler exists or has to be created.
    pub fn tasker_plan(&self, id: &str) -> (r: Result<TaskerPlan, BridgeError>)
        requires
            self.wf(),
        ensures
            !self@.contains_key(id@) ==> r == Err::<TaskerPlan, BridgeError>(
                BridgeError::InstanceNotFound,
            ),
            self@.contains_key(id@) ==> r == tasker_plan_of(self@[id@]),
    {
        match self.runtime(id) {
            None => Err(BridgeError::InstanceNotFound),
            Some(rt) => match (rt.resource, rt.controller) {
                (None, _) => Err(BridgeError::PreconditionViolation(Precondition::ResourceNotLoaded)),
                (Some(_), None) => Err(
                    BridgeError::PreconditionViolation(Precondition::ControllerNotConnected),
                ),
                (Some(r), Some(c)) => match rt.tasker {
                    Some(b) => Ok(TaskerPlan::Ready(b.tasker)),
                    None => Ok(TaskerPlan::Create { resource: r, controller: c }),
                },
            },
        }
    }

    /// Stores a scheduler created (`created`, 0 for null) and bound to
    /// `resource` and `controller`. It is kept only while the instance still
    /// holds exactly that pair and has no scheduler; otherwise it is released.
    pub fn install_tasker(&mut self, id: &str, created: u64, resource: u64, controller: u64) -> (out:
        Outcome<u64>)
        requires
            old(self).wf(),
        ensures
            final(self).wf(),
            only_instance_changed(old(self)@, final(self)@, id@),
            created == 0 ==> {
                &&& out.result == Err::<u64, BridgeError>(
                    BridgeError::HandleCreationFailed(HandleKind::Tasker),
                )
                &&& out.releases@ == Seq::<Release>::empty()
                &&& final(self)@ == old(self)@
            },
            created != 0 && !old(self)@.contains_key(id@) ==> {
                &&& out.result == Err::<u64, BridgeError>(BridgeError::InstanceNotFound)
                &&& out.releases@ == seq![Release::DestroyTasker(created)]
                &&& final(self)@ == old(self)@
            },
            created != 0 && old(self)@.contains_key(id@) ==> {
                let rt = old(self)@[id@];
                if rt.resource != Some(resource) {
                    &&& out.result == Err::<u64, BridgeError>(
                        BridgeError::PreconditionViolation(Precondition::ResourceNotLoaded),
                    )
                    &&& out.releases@ == seq![Release::DestroyTasker(created)]
                    &&& final(self)@ == old(self)@
                } else if rt.controller != Some(controller) {
                    &&& out.result == Err::<u64, BridgeError>(
                        BridgeError::PreconditionViolation(Precondition::ControllerNotConnected),
                    )
                    &&& out.releases@ == seq![Release::DestroyTasker(created)]
                    &&& final(self)@ == old(self)@
                } else {
                    match rt.tasker {
                        Some(b) => {
                            &&& out.result == Ok::<u64, BridgeError>(b.tasker)
                            &&& out.releases@ == seq![Release::DestroyTasker(created)]
                            &&& final(self)@ == old(self)@
                        },
                        None => {
                            &&& out.result == Ok::<u64, BridgeError>(created)
                            &&& out.releases@ == Seq::<Release>::empty()
                            &&& final(self)@ == old(self)@.insert(
                                id@,
                                with_tasker(
                                    rt,
                                    TaskerBinding { tasker: created, resource, controller },
                                ),
                            )
                        },
                    }
                }
            },
    {
        let mut releases: Vec<Release> = Vec::new();
        if created == 0 {
            return Outcome {
                result: Err(BridgeError::HandleCreationFailed(HandleKind::Tasker)),
                releases,
            };
        }
        match self.take_runtime(id) {
            None => {
                releases.push(Release::DestroyTasker(created));
                Outcome { result: Err(BridgeError::InstanceNotFound), releases }
            },
            Some(mut rt) => {
                let ghost before = rt@;
                let result = if rt.resource != Some(resource) {
                    releases.push(Release::DestroyTasker(created));
                    Err(BridgeError::PreconditionViolation(Precondition::ResourceNotLoaded))
                } else if rt.controller != Some(controller) {
                    releases.push(Release::DestroyTasker(created));
                    Err(BridgeError::PreconditionViolation(Precondition::ControllerNotConnected))
                } else {
                    match rt.tasker {
                        Some(b) => {
                            releases.push(Release::DestroyTasker(created));
                            Ok(b.tasker)
                        },
                        None => {
                            rt.tasker = Some(TaskerBinding { tasker: created, resource, controller });
                            Ok(created)
                        },
                    }
                };
                self.put_runtime(id, rt);
                proof {
                    if rt@ == before {
                        assert(self@ =~= old(self)@);
                    }
                }
                Outcome { result, releases }
            },
        }
    }

    /// Records the id of a task posted with `run_task`; the invalid id means
    /// the post failed and nothing is recorded.
    pub fn record_task(&mut self, id: &str, task_id: i64) -> (r: Result<i64, BridgeError>)
        requires
            old(self).wf(),
        ensures
            final(self).wf(),
            only_instance_changed(old(self)@, final(self)@, id@),
            task_id == MAA_INVALID_ID ==> r == Err::<i64, BridgeError>(
                BridgeError::RequestPostFailed(RequestKind::Task),
            ) && final(self)@ == old(self)@,
            task_id != MAA_INVALID_ID && !old(self)@.contains_key(id@) ==> r == Err::<
                i64,
                BridgeError,
            >(BridgeError::InstanceNotFound) && final(self)@ == old(self)@,
            task_id != MAA_INVALID_ID && old(self)@.contains_key(id@) ==> r == Ok::<i64, BridgeError>(
                task_id,
            ) && final(self)@ == old(self)@.insert(
                id@,
                with_task_ids(old(self)@[id@], old(self)@[id@].task_ids.push(task_id)),
            ),
    {
        if task_id == MAA_INVALID_ID {
            return Err(BridgeError::RequestPostFailed(RequestKind::Task));
        }
        match self.take_runtime(id) {
            None => Err(BridgeError::InstanceNotFound),
            Some(mut rt) => {
                let ghost before = rt@;
                rt.task_ids.push(task_id);
                self.put_runtime(id, rt);
                proof {
                    assert(self@ =~= old(self)@.insert(
                        id@,
                        with_task_ids(before, before.task_ids.push(task_id)),
                    ));
                }
                Ok(task_id)
            },
        }
    }

    /// Records the ids of a batch of posted tasks: the invalid ids are
    /// skipped, the others are appended in order and returned.
    pub fn record_tasks(&mut self, id: &str, posted: &Vec<i64>) -> (r: Result<Vec<i64>, BridgeError>)
        requires
            old(self).wf(),
        ensures
            final(self).wf(),
            only_instance_changed(old(self)@, final(self)@, id@),
            !old(self)@.contains_key(id@) ==> {
                &&& r matches Err(e) && e == BridgeError::InstanceNotFound
                &&& final(self)@ == old(self)@
            },
            old(self)@.contains_key(id@) ==> {
                &&& r matches Ok(ids) && ids@ == accepted_ids(posted@)
                &&& final(self)@ == old(self)@.insert(
                    id@,
                    with_task_ids(old(self)@[id@], old(self)@[id@].task_ids + accepted_ids(posted@)),
                )
            },
    {
        match self.take_runtime(id) {
            None => Err(BridgeError::InstanceNotFound),
            Some(mut rt) => {
                let ghost before = rt@;
                let accepted = accepted_request_ids(posted);
                let mut i: usize = 0;
                while i < accepted.len()
                    invariant
                        i <= accepted@.len(),
                        rt@ == with_task_ids(before, before.task_ids + accepted@.subrange(0, i as int)),
                        before.wf(),
                    decreases accepted@.len() - i,
                {
                    rt.task_ids.push(accepted[i]);
                    proof {
                        assert(before.task_ids + accepted@.subrange(0, i as int + 1) =~= (before.task_ids
                            + accepted@.subrange(0, i as int)).push(accepted@[i as int]));
                    }
                    i = i + 1;
                }
                proof {
                    assert(accepted@.subrange(0, i as int) =~= accepted@);
                }
                self.put_runtime(id, rt);
                Ok(accepted)
            },
        }
    }

    /// A stop request: forgets the posted task ids, then hands back the
    /// scheduler to post the stop to.
    pub fn stop_tasks(&mut self, id: &str) -> (r: Result<u64, BridgeError>)
        requires
            old(self).wf(),
        ensures
            final(self).wf(),
            only_instance_changed(old(self)@, final(self)@, id@),
            !old(self)@.contains_key(id@) ==> r == Err::<u64, BridgeError>(
                BridgeError::InstanceNotFound,
            ) && final(self)@ == old(self)@,
            old(self)@.contains_key(id@) ==> {
                &&& final(self)@ == old(self)@.insert(
                    id@,
                    with_task_ids(old(self)@[id@], Seq::empty()),
                )
                &&& r == match old(self)@[id@].tasker {
                    Some(b) => Ok::<u64, BridgeError>(b.tasker),
                    None => Err(BridgeError::PreconditionViolation(Precondition::TaskerNotCreated)),
                }
            },
    {
        match self.take_runtime(id) {
            None => Err(BridgeError::InstanceNotFound),
            Some(mut rt) => {
                let ghost before = rt@;
                rt.task_ids.clear();
                let r = match rt.tasker {
                    Some(b) => Ok(b.tasker),
                    None => Err(BridgeError::PreconditionViolation(Precondition::TaskerNotCreated)),
                };
                self.put_runtime(id, rt);
                proof {
                    assert(self@ =~= old(self)@.insert(id@, with_task_ids(before, Seq::empty())));
                }
                r
            },
        }
    }

    /// The scheduler of an instance, for status queries and overrides.
    pub fn tasker_of(&self, id: &str) -> (r: Result<u64, BridgeError>)
        requires
            self.wf(),
        ensures
            !self@.contains_key(id@) ==> r == Err::<u64, BridgeError>(BridgeError::InstanceNotFound),
            self@.contains_key(id@) ==> r == match self@[id@].tasker {
                Some(b) => Ok::<u64, BridgeError>(b.tasker),
                None => Err(BridgeError::PreconditionViolation(Precondition::TaskerNotCreated)),
            },
    {
        match self.runtime(id) {
            None => Err(BridgeError::InstanceNotFound),
            Some(rt) => match rt.tasker {
                Some(b) => Ok(b.tasker),
                None => Err(BridgeError::PreconditionViolation(Precondition::TaskerNotCreated)),
            },
        }
    }

    /// The scheduler to ask whether tasks run; `None` when there is none yet,
    /// which means nothing runs.
    pub fn running_query(&self, id: &str) -> (r: Result<Option<u64>, BridgeError>)
        requires
            self.wf(),
        ensures
            !self@.contains_key(id@) ==> r == Err::<Option<u64>, BridgeError>(
                BridgeError::InstanceNotFound,
            ),
            self@.contains_key(id@) ==> r == Ok::<Option<u64>, BridgeError>(
                match self@[id@].tasker {
                    Some(b) => Some(b.tasker),
                    None => None,
                },
            ),
    {
        match self.runtime(id) {
            None => Err(BridgeError::InstanceNotFound),
            Some(rt) => match rt.tasker {
                Some(b) => Ok(Some(b.tasker)),
                None => Ok(None),
            },
        }
    }
}

} // verus!
