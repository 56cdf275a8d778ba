use vstd::prelude::*;
use vstd::utf8::{decode_utf8, valid_utf8};

use crate::error::{BridgeError, HandleKind, Precondition};
use crate::registry::{only_instance_changed, Registry};
use crate::runtime::{Outcome, Release, RuntimeView};

verus! {

/// How to start and reach the external agent process of an instance.
#[derive(Debug, Clone)]
pub struct AgentConfig {
    pub child_exec: String,
    pub child_args: Option<Vec<String>>,
    pub identifier: Option<String>,
    /// Connect timeout in milliseconds; absent or -1 means wait indefinitely.
    pub timeout: Option<i64>,
}

/// The connect timeout handed to the engine: the configured one, or -1 for
/// no limit.
pub fn agent_timeout(config: &AgentConfig) -> (r: i64)
    ensures
        r == match config.timeout {
            Some(t) => t,
            None => -1i64,
        },
{
    match config.timeout {
        Some(t) => t,
        None => -1,
    }
}

/// The configured arguments of the agent process, as texts.
pub open spec fn configured_args(config: AgentConfig) -> Seq<Seq<char>> {
    match config.child_args {
        Some(args) => args@.map_values(|a: String| a@),
        None => Seq::empty(),
    }
}

/// The argument list of the agent process: the configured arguments, then
/// the rendezvous identifier that the agent client reported.
pub fn agent_arguments(config: &AgentConfig, identifier: &str) -> (r: Vec<String>)
    ensures
        r@.map_values(|a: String| a@) == configured_args(*config).push(identifier@),
{
    let mut r: Vec<String> = Vec::new();
    match &config.child_args {
        Some(args) => {
            let mut i: usize = 0;
            while i < args.len()
                invariant
                    i <= args@.len(),
                    r@.len() == i,
                    r@.map_values(|a: String| a@) == args@.subrange(0, i as int).map_values(
                        |a: String| a@,
                    ),
                decreases args@.len() - i,
            {
                let ghost prev = r@;
                r.push(args[i].clone());
                proof {
                    assert(r@[i as int] == args@[i as int]);
                    assert forall|j: int| 0 <= j < i implies #[trigger] r@[j]@ == args@[j]@ by {
                        assert(r@[j] == prev[j]);
                        assert(prev.map_values(|a: String| a@)[j] == args@.subrange(0, i as int).map_values(
                            |a: String| a@,
                        )[j]);
                    }
                    assert(r@.map_values(|a: String| a@) =~= args@.subrange(0, i as int + 1).map_values(
                        |a: String| a@,
                    ));
                }
                i = i + 1;
            }
            proof {
                assert(args@.subrange(0, i as int) =~= args@);
            }
        },
        None => {
            proof {
                assert(r@.map_values(|a: String| a@) =~= Seq::<Seq<char>>::empty());
            }
        },
    }
    let ghost before = r@;
    r.push(identifier.to_owned());
    proof {
        assert(r@.map_values(|a: String| a@) =~= before.map_values(|a: String| a@).push(identifier@));
    }
    r
}

/// Which output stream of the agent process a line came from.
#[derive(Debug, Clone, Copy, PartialEq, Eq, Structural)]
pub enum AgentStream {
    Stdout,
    Stderr,
}

pub open spec fn stream_label(s: AgentStream) -> Seq<char> {
    match s {
        AgentStream::Stdout => "stdout"@,
        AgentStream::Stderr => "stderr"@,
    }
}

impl AgentStream {
    /// The stream's name as it appears in log lines and events.
    pub fn label(&self) -> (r: &'static str)
        ensures
            r@ == stream_label(*self),
    {
        match self {
            AgentStream::Stdout => "stdout",
            AgentStream::Stderr => "stderr",
        }
    }
}

/// A line read from the agent without its terminator: one trailing `\n`,
/// then one trailing `\r`, are dropped.
pub open spec fn strip_line_end(b: Seq<u8>) -> Seq<u8> {
    let without_lf = if b.len() > 0 && b.last() == 10u8 {
        b.drop_last()
    } else {
        b
    };
    if without_lf.len() > 0 && without_lf.last() == 13u8 {
        without_lf.drop_last()
    } else {
        without_lf
    }
}

/// The text that lossy UTF-8 decoding gives for some bytes.
pub uninterp spec fn lossy_utf8(b: Seq<u8>) -> Seq<char>;

/// Relies on `String::from_utf8_lossy`: malformed sequences become
/// replacement characters, and valid UTF-8 is decoded as it is.
#[verifier::external_body]
fn decode_lossy(b: &[u8]) -> (r: String)
    ensures
        r@ == lossy_utf8(b@),
        valid_utf8(b@) ==> r@ == decode_utf8(b@),
{
    String::from_utf8_lossy(b).into_owned()
}

/// The text of one raw line of agent output: the line terminator is
/// removed, then the bytes are decoded lossily, never failing.
pub fn agent_line_text(raw: Vec<u8>) -> (r: String)
    ensures
        r@ == lossy_utf8(strip_line_end(raw@)),
        valid_utf8(strip_line_end(raw@)) ==> r@ == decode_utf8(strip_line_end(raw@)),
{
    let mut b = raw;
    let n = b.len();
    if n > 0 && b[n - 1] == 10u8 {
        b.pop();
    }
    let m = b.len();
    if m > 0 && b[m - 1] == 13u8 {
        b.pop();
    }
    proof {
        assert(b@ =~= strip_line_end(raw@));
    }
    decode_lossy(b.as_slice())
}

/// The line written to the agent log file: `<timestamp> [<stream>] <text>`.
pub fn agent_log_record(timestamp: &str, stream: AgentStream, text: &str) -> (r: String)
    ensures
        r@ == timestamp@ + " ["@ + stream_label(stream) + "] "@ + text@,
{
    let mut r = timestamp.to_owned();
    r.append(" [");
    r.append(stream.label());
    r.append("] ");
    r.append(text);
    r
}

pub open spec fn with_agent(rt: RuntimeView, client: Option<u64>, child: u32) -> RuntimeView {
    RuntimeView {
        resource: rt.resource,
        controller: rt.controller,
        tasker: rt.tasker,
        agent_client: client,
        agent_child: Some(child),
        task_ids: rt.task_ids,
    }
}

pub open spec fn without_agent(rt: RuntimeView) -> RuntimeView {
    RuntimeView {
        resource: rt.resource,
        controller: rt.controller,
        tasker: rt.tasker,
        agent_client: None,
        agent_child: None,
        task_ids: rt.task_ids,
    }
}

/// The rendezvous identifier reported by an agent client; when none could be
/// read the client is released.
pub fn agent_identifier(client: u64, reported: Option<String>) -> (out: Outcome<String>)
    ensures
        reported is None ==> {
            &&& out.result == Err::<String, BridgeError>(
                BridgeError::PreconditionViolation(Precondition::AgentIdentifierUnavailable),
            )
            &&& out.releases@ == seq![Release::DestroyAgent(client)]
        },
        reported matches Some(s) ==> {
            &&& out.result matches Ok(t) && t@ == s@
            &&& out.releases@ == Seq::<Release>::empty()
        },
{
    let mut releases: Vec<Release> = Vec::new();
    match reported {
        Some(s) => Outcome { result: Ok(s), releases },
        None => {
            releases.push(Release::DestroyAgent(client));
            Outcome {
                result: Err(BridgeError::PreconditionViolation(Precondition::AgentIdentifierUnavailable)),
                releases,
            }
        },
    }
}

/// The agent process could not be started: the client is released and the
/// instance's handles are left as they are.
pub fn agent_spawn_failed(client: u64, reason: String) -> (out: Outcome<()>)
    ensures
        out.result matches Err(BridgeError::AgentSpawnFailed(t)) && t@ == reason@,
        out.releases@ == seq![Release::DestroyAgent(client)],
{
    let mut releases: Vec<Release> = Vec::new();
    releases.push(Release::DestroyAgent(client));
    Outcome { result: Err(BridgeError::AgentSpawnFailed(reason)), releases }
}

impl Registry {
    /// The resource an agent client is bound to.
    pub fn agent_resource(&self, id: &str) -> (r: Result<u64, BridgeError>)
        requires
            self.wf(),
        ensures
            !self@.contains_key(id@) ==> r == Err::<u64, BridgeError>(BridgeError::InstanceNotFound),
            self@.contains_key(id@) ==> r == match self@[id@].resource {
                Some(res) => Ok::<u64, BridgeError>(res),
                None => Err(BridgeError::PreconditionViolation(Precondition::ResourceNotLoaded)),
            },
    {
        match self.runtime(id) {
            None => Err(BridgeError::InstanceNotFound),
            Some(rt) => match rt.resource {
                Some(res) => Ok(res),
                None => Err(BridgeError::PreconditionViolation(Precondition::ResourceNotLoaded)),
            },
        }
    }

    /// Records a spawned agent process (`child`) and the outcome of connecting
    /// its client. The process is kept either way, so that a stop can kill
    /// it; the client is kept only when connected and released otherwise. An
    /// agent the instance had before is released first.
    pub fn record_agent(&mut self, id: &str, client: u64, child: u32, connected: bool) -> (out:
        Outcome<()>)
        requires
            old(self).wf(),
        ensures
            final(self).wf(),
            only_instance_changed(old(self)@, final(self)@, id@),
            client == 0 ==> {
                &&& out.result == Err::<(), BridgeError>(
                    BridgeError::HandleCreationFailed(HandleKind::AgentClient),
                )
                &&& out.releases@ == seq![Release::KillAgentProcess(child)]
                &&& final(self)@ == old(self)@
            },
            client != 0 && !old(self)@.contains_key(id@) ==> {
                &&& out.result == Err::<(), BridgeError>(BridgeError::InstanceNotFound)
                &&& out.releases@ == (if connected {
                    seq![Release::DisconnectAgent(client)]
                } else {
                    Seq::empty()
                }) + seq![Release::DestroyAgent(client), Release::KillAgentProcess(child)]
                &&& final(self)@ == old(self)@
            },
            client != 0 && old(self)@.contains_key(id@) ==> {
                &&& out.result == if connected {
                    Ok::<(), BridgeError>(())
                } else {
                    Err(BridgeError::AgentConnectFailed)
                }
                &&& out.releases@ == old(self)@[id@].agent_release_plan() + (if connected {
                    Seq::empty()
                } else {
                    seq![Release::DestroyAgent(client)]
                })
                &&& final(self)@ == old(self)@.insert(
                    id@,
                    with_agent(
                        old(self)@[id@],
                        if connected {
                            Some(client)
                        } else {
                            None
                        },
                        child,
                    ),
                )
            },
    {
        let mut releases: Vec<Release> = Vec::new();
        if client == 0 {
            releases.push(Release::KillAgentProcess(child));
            return Outcome {
                result: Err(BridgeError::HandleCreationFailed(HandleKind::AgentClient)),
                releases,
            };
        }
        match self.take_runtime(id) {
            None => {
                if connected {
                    releases.push(Release::DisconnectAgent(client));
                }
                releases.push(Release::DestroyAgent(client));
                releases.push(Release::KillAgentProcess(child));
                proof {
                    assert(releases@ =~= (if connected {
                        seq![Release::DisconnectAgent(client)]
                    } else {
                        Seq::empty()
                    }) + seq![Release::DestroyAgent(client), Release::KillAgentProcess(child)]);
                }
                Outcome { result: Err(BridgeError::InstanceNotFound), releases }
            },
            Some(mut rt) => {
                let ghost before = rt@;
                if let Some(a) = rt.agent_client.take() {
                    releases.push(Release::DisconnectAgent(a));
                    releases.push(Release::DestroyAgent(a));
                }
                if let Some(p) = rt.agent_child.take() {
                    releases.push(Release::KillAgentProcess(p));
                }
                rt.agent_child = Some(child);
                let result = if connected {
                    rt.agent_client = Some(client);
                    Ok(())
                } else {
                    releases.push(Release::DestroyAgent(client));
                    Err(BridgeError::AgentConnectFailed)
                };
                proof {
                    assert(releases@ =~= before.agent_release_plan() + (if connected {
                        Seq::empty()
                    } else {
                        seq![Release::DestroyAgent(client)]
                    }));
                }
                self.put_runtime(id, rt);
                Outcome { result, releases }
            },
        }
    }

    /// Stops the agent of an instance: returns the releases of its client
    /// (disconnect, then destroy) and of its process. Calling it again finds
    /// nothing left to release.
    pub fn stop_agent(&mut self, id: &str) -> (r: Result<Vec<Release>, BridgeError>)
        requires
            old(self).wf(),
        ensures
            final(self).wf(),
            only_instance_changed(old(self)@, final(self)@, id@),
            !old(self)@.contains_key(id@) ==> {
                &&& r matches Err(e) && e == BridgeError::InstanceNotFound
                &&& final(self)@ == old(self)@
            },
            old(self)@.contains_key(id@) ==> {
                &&& r matches Ok(plan) && plan@ == old(self)@[id@].agent_release_plan()
                &&& final(self)@ == old(self)@.insert(id@, without_agent(old(self)@[id@]))
            },
    {
        match self.take_runtime(id) {
            None => Err(BridgeError::InstanceNotFound),
            Some(mut rt) => {
                let ghost before = rt@;
                let mut releases: Vec<Release> = Vec::new();
                if let Some(a) = rt.agent_client.take() {
                    releases.push(Release::DisconnectAgent(a));
                    releases.push(Release::DestroyAgent(a));
                }
                if let Some(p) = rt.agent_child.take() {
                    releases.push(Release::KillAgentProcess(p));
                }
                proof {
                    assert(releases@ =~= before.agent_release_plan());
                }
                self.put_runtime(id, rt);
                proof {
                    assert(self@ =~= old(self)@.insert(id@, without_agent(before)));
                }
                Ok(releases)
            },
        }
    }
}

} // verus!
