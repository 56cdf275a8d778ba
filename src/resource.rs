use vstd::prelude::*;

use crate::error::{BridgeError, HandleKind};
use crate::native::MAA_INVALID_ID;
use crate::registry::{only_instance_changed, Registry};
use crate::runtime::{Outcome, Release, RuntimeView};

verus! {

/// The request ids of a batch of posts that the engine accepted, in order.
pub open spec fn accepted_ids(posted: Seq<i64>) -> Seq<i64>
    decreases posted.len(),
{
    if posted.len() == 0 {
        Seq::empty()
    } else {
        let before = accepted_ids(posted.drop_last());
        if posted.last() != MAA_INVALID_ID {
            before.push(posted.last())
        } else {
            before
        }
    }
}

/// Keeps the request ids of a batch that are not the invalid id; the posts
/// that failed are skipped, not fatal.
pub fn accepted_request_ids(posted: &Vec<i64>) -> (r: Vec<i64>)
    ensures
        r@ == accepted_ids(posted@),
{
    let mut r: Vec<i64> = Vec::new();
    let mut i: usize = 0;
    while i < posted.len()
        invariant
            i <= posted@.len(),
            r@ == accepted_ids(posted@.subrange(0, i as int)),
        decreases posted@.len() - i,
    {
        proof {
            assert(posted@.subrange(0, i as int + 1).drop_last() =~= posted@.subrange(0, i as int));
        }
        if posted[i] != MAA_INVALID_ID {
            r.push(posted[i]);
        }
        i = i + 1;
    }
    proof {
        assert(posted@.subrange(0, i as int) =~= posted@);
    }
    r
}

pub open spec fn with_resource(rt: RuntimeView, r: u64) -> RuntimeView {
    RuntimeView {
        resource: Some(r),
        controller: rt.controller,
        tasker: rt.tasker,
        agent_client: rt.agent_client,
        agent_child: rt.agent_child,
        task_ids: rt.task_ids,
    }
}

pub open spec fn without_resource(rt: RuntimeView) -> RuntimeView {
    RuntimeView {
        resource: None,
        controller: rt.controller,
        tasker: None,
        agent_client: rt.agent_client,
        agent_child: rt.agent_child,
        task_ids: rt.task_ids,
    }
}

impl Registry {
    /// The resource of an instance, `None` when it has none yet.
    pub fn resource_of(&self, id: &str) -> (r: Result<Option<u64>, BridgeError>)
        requires
            self.wf(),
        ensures
            !self@.contains_key(id@) ==> r == Err::<Option<u64>, BridgeError>(
                BridgeError::InstanceNotFound,
            ),
            self@.contains_key(id@) ==> r == Ok::<Option<u64>, BridgeError>(self@[id@].resource),
    {
        match self.runtime(id) {
            None => Err(BridgeError::InstanceNotFound),
            Some(rt) => Ok(rt.resource),
        }
    }

    /// Stores a freshly created resource (`created`, 0 for null) unless the
    /// instance already has one, in which case the existing one is used and
    /// the new one released. Returns the resource to post bundles to.
    pub fn install_resource(&mut self, id: &str, created: u64) -> (out: Outcome<u64>)
        requires
            old(self).wf(),
        ensures
            final(self).wf(),
            only_instance_changed(old(self)@, final(self)@, id@),
            created == 0 ==> {
                &&& out.result == Err::<u64, BridgeError>(
                    BridgeError::HandleCreationFailed(HandleKind::Resource),
                )
                &&& out.releases@ == Seq::<Release>::empty()
                &&& final(self)@ == old(self)@
            },
            created != 0 && !old(self)@.contains_key(id@) ==> {
                &&& out.result == Err::<u64, BridgeError>(BridgeError::InstanceNotFound)
                &&& out.releases@ == seq![Release::DestroyResource(created)]
                &&& final(self)@ == old(self)@
            },
            created != 0 && old(self)@.contains_key(id@) ==> match old(self)@[id@].resource {
                Some(existing) => {
                    &&& out.result == Ok::<u64, BridgeError>(existing)
                    &&& out.releases@ == seq![Release::DestroyResource(created)]
                    &&& final(self)@ == old(self)@
                },
                None => {
                    &&& out.result == Ok::<u64, BridgeError>(created)
                    &&& out.releases@ == Seq::<Release>::empty()
                    &&& final(self)@ == old(self)@.insert(id@, with_resource(old(self)@[id@], created))
                },
            },
    {
        let mut releases: Vec<Release> = Vec::new();
        if created == 0 {
            return Outcome {
                result: Err(BridgeError::HandleCreationFailed(HandleKind::Resource)),
                releases,
            };
        }
        match self.take_runtime(id) {
            None => {
                releases.push(Release::DestroyResource(created));
                Outcome { result: Err(BridgeError::InstanceNotFound), releases }
            },
            Some(mut rt) => {
                let ghost before = rt@;
                let result = match rt.resource {
                    Some(existing) => {
                        releases.push(Release::DestroyResource(created));
                        existing
                    },
                    None => {
                        rt.resource = Some(created);
                        created
                    },
                };
                self.put_runtime(id, rt);
                proof {
                    if before.resource is Some {
                        assert(self@ =~= old(self)@);
                    }
                }
                Outcome { result: Ok(result), releases }
            },
        }
    }

    /// Drops the resource of an instance together with the scheduler bound
    /// to it; returns their releases, scheduler first.
    pub fn destroy_resource(&mut self, id: &str) -> (r: Result<Vec<Release>, BridgeError>)
        requires
            old(self).wf(),
        ensures
            final(self).wf(),
            only_instance_changed(old(self)@, final(self)@, id@),
            !old(self)@.contains_key(id@) ==> {
                &&& r matches Err(e) && e == BridgeError::InstanceNotFound
                &&& final(self)@ == old(self)@
            },
            old(self)@.contains_key(id@) ==> {
                &&& r matches Ok(plan) && plan@ == old(self)@[id@].resource_release_plan()
                &&& final(self)@ == old(self)@.insert(id@, without_resource(old(self)@[id@]))
            },
    {
        match self.take_runtime(id) {
            None => Err(BridgeError::InstanceNotFound),
            Some(mut rt) => {
                let ghost before = rt@;
                let mut releases: Vec<Release> = Vec::new();
                if let Some(b) = rt.tasker.take() {
                    releases.push(Release::DestroyTasker(b.tasker));
                }
                if let Some(res) = rt.resource.take() {
                    releases.push(Release::DestroyResource(res));
                }
                proof {
                    assert(releases@ =~= before.resource_release_plan());
                }
                self.put_runtime(id, rt);
                proof {
                    assert(self@ =~= old(self)@.insert(id@, without_resource(before)));
                }
                Ok(releases)
            },
        }
    }
}

} // verus!
