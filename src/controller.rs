use vstd::prelude::*;

use crate::error::{BridgeError, HandleKind, MaskField, Precondition, RequestKind};
use crate::registry::{only_instance_changed, Registry};
use crate::runtime::{Outcome, Release, RuntimeView};
use crate::native::{
    MAA_INVALID_ID, MAA_GAMEPAD_TYPE_DUALSHOCK4, MAA_GAMEPAD_TYPE_XBOX360, MAA_WIN32_SCREENCAP_DXGI_DESKTOPDUP,
};
use crate::text::{decimal_u64, parse_u64_decimal, text_eq};

verus! {

/// How the host asks for a controller. Method masks of the ADB variant come
/// as decimal text so that hosts with floating-point numbers keep every bit.
#[derive(Debug, Clone)]
pub enum ControllerConfig {
    Adb {
        adb_path: String,
        address: String,
        screencap_methods: String,
        input_methods: String,
        config: String,
    },
    Win32 { handle: u64, screencap_method: u64, mouse_method: u64, keyboard_method: u64 },
    Gamepad { handle: u64, gamepad_type: Option<String>, screencap_method: Option<u64> },
    PlayCover { address: String },
}

/// The arguments of the native factory call that creates a controller.
#[derive(Debug, Clone)]
pub enum ControllerRequest {
    Adb {
        adb_path: String,
        address: String,
        screencap_methods: u64,
        input_methods: u64,
        config: String,
        agent_path: String,
    },
    Win32 { handle: u64, screencap_method: u64, mouse_method: u64, keyboard_method: u64 },
    Gamepad { handle: u64, gamepad_type: u64, screencap_method: u64 },
}

/// The gamepad kind code for a kind name; unknown or absent names mean Xbox 360.
pub open spec fn gamepad_type_code(name: Option<Seq<char>>) -> u64 {
    match name {
        Some(n) => if n == "DualShock4"@ || n == "DS4"@ {
            MAA_GAMEPAD_TYPE_DUALSHOCK4
        } else {
            MAA_GAMEPAD_TYPE_XBOX360
        },
        None => MAA_GAMEPAD_TYPE_XBOX360,
    }
}

pub open spec fn opt_view(s: Option<String>) -> Option<Seq<char>> {
    match s {
        Some(t) => Some(t@),
        None => None,
    }
}

/// `r` is what `controller_request` owes for `config` and `agent_path`.
pub open spec fn is_controller_request(
    config: ControllerConfig,
    agent_path: Option<String>,
    r: Result<ControllerRequest, BridgeError>,
) -> bool {
    match config {
        ControllerConfig::Adb { adb_path, address, screencap_methods, input_methods, config } => {
            match (decimal_u64(screencap_methods@), decimal_u64(input_methods@)) {
                (None, _) => r matches Err(BridgeError::InvalidMethodMask(f, t))
                    && f == MaskField::ScreencapMethods && t@ == screencap_methods@,
                (Some(_), None) => r matches Err(BridgeError::InvalidMethodMask(f, t))
                    && f == MaskField::InputMethods && t@ == input_methods@,
                (Some(sm), Some(im)) => r matches Ok(ControllerRequest::Adb {
                    adb_path: p,
                    address: a,
                    screencap_methods: s,
                    input_methods: i,
                    config: c,
                    agent_path: g,
                }) && p@ == adb_path@ && a@ == address@ && s == sm && i == im && c@ == config@
                    && g@ == (match agent_path {
                    Some(x) => x@,
                    None => Seq::empty(),
                }),
            }
        },
        ControllerConfig::Win32 { handle, screencap_method, mouse_method, keyboard_method } => r
            == Ok::<ControllerRequest, BridgeError>(
            ControllerRequest::Win32 { handle, screencap_method, mouse_method, keyboard_method },
        ),
        ControllerConfig::Gamepad { handle, gamepad_type, screencap_method } => r == Ok::<
            ControllerRequest,
            BridgeError,
        >(
            ControllerRequest::Gamepad {
                handle,
                gamepad_type: gamepad_type_code(opt_view(gamepad_type)),
                screencap_method: match screencap_method {
                    Some(m) => m,
                    None => MAA_WIN32_SCREENCAP_DXGI_DESKTOPDUP,
                },
            },
        ),
        ControllerConfig::PlayCover { .. } => r == Err::<ControllerRequest, BridgeError>(
            BridgeError::UnsupportedController,
        ),
    }
}

/// Turns a host controller configuration into the factory arguments: method
/// masks are read as decimal, the gamepad kind and screencap method get their
/// defaults, and PlayCover is refused on this platform.
pub fn controller_request(config: &ControllerConfig, agent_path: Option<String>) -> (r: Result<
    ControllerRequest,
    BridgeError,
>)
    ensures
        is_controller_request(*config, agent_path, r),
{
    match config {
        ControllerConfig::Adb { adb_path, address, screencap_methods, input_methods, config } => {
            let sm = match parse_u64_decimal(screencap_methods.as_str()) {
                Some(v) => v,
                None => {
                    return Err(
                        BridgeError::InvalidMethodMask(
                            MaskField::ScreencapMethods,
                            screencap_methods.clone(),
                        ),
                    );
                },
            };
            let im = match parse_u64_decimal(input_methods.as_str()) {
                Some(v) => v,
                None => {
                    return Err(
                        BridgeError::InvalidMethodMask(MaskField::InputMethods, input_methods.clone()),
                    );
                },
            };
            let agent = match agent_path {
                Some(p) => p,
                None => String::new(),
            };
            Ok(
                ControllerRequest::Adb {
                    adb_path: adb_path.clone(),
                    address: address.clone(),
                    screencap_methods: sm,
                    input_methods: im,
                    config: config.clone(),
                    agent_path: agent,
                },
            )
        },
        ControllerConfig::Win32 { handle, screencap_method, mouse_method, keyboard_method } => {
            Ok(
                ControllerRequest::Win32 {
                    handle: *handle,
                    screencap_method: *screencap_method,
                    mouse_method: *mouse_method,
                    keyboard_method: *keyboard_method,
                },
            )
        },
        ControllerConfig::Gamepad { handle, gamepad_type, screencap_method } => {
            let kind = match gamepad_type {
                Some(name) => {
                    if text_eq(name.as_str(), "DualShock4") || text_eq(name.as_str(), "DS4") {
                        MAA_GAMEPAD_TYPE_DUALSHOCK4
                    } else {
                        MAA_GAMEPAD_TYPE_XBOX360
                    }
                },
                None => MAA_GAMEPAD_TYPE_XBOX360,
            };
            let screencap = match screencap_method {
                Some(m) => *m,
                None => MAA_WIN32_SCREENCAP_DXGI_DESKTOPDUP,
            };
            Ok(ControllerRequest::Gamepad { handle: *handle, gamepad_type: kind, screencap_method: screencap })
        },
        ControllerConfig::PlayCover { .. } => Err(BridgeError::UnsupportedController),
    }
}

/// The runtime after a new controller replaced the old one: the scheduler,
/// bound to the old controller, is gone.
pub open spec fn with_controller(rt: RuntimeView, c: u64) -> RuntimeView {
    RuntimeView {
        resource: rt.resource,
        controller: Some(c),
        tasker: None,
        agent_client: rt.agent_client,
        agent_child: rt.agent_child,
        task_ids: rt.task_ids,
    }
}

impl Registry {
    /// First step of connecting: the instance must exist, then the
    /// configuration is turned into factory arguments.
    pub fn prepare_controller(
        &self,
        id: &str,
        config: &ControllerConfig,
        agent_path: Option<String>,
    ) -> (r: Result<ControllerRequest, BridgeError>)
        requires
            self.wf(),
        ensures
            !self@.contains_key(id@) ==> r == Err::<ControllerRequest, BridgeError>(
                BridgeError::InstanceNotFound,
            ),
            self@.contains_key(id@) ==> is_controller_request(*config, agent_path, r),
    {
        if !self.contains(id) {
            return Err(BridgeError::InstanceNotFound);
        }
        controller_request(config, agent_path)
    }

    /// Last step of connecting: `created` is the handle the factory returned
    /// (0 for null) and `conn_id` the id of the posted connection request.
    /// On success the new controller replaces the old one, which is released
    /// after the scheduler bound to it; on failure the registry is unchanged
    /// and a created controller is released.
    pub fn install_controller(&mut self, id: &str, created: u64, conn_id: i64) -> (out: Outcome<
        i64,
    >)
        requires
            old(self).wf(),
        ensures
            final(self).wf(),
            only_instance_changed(old(self)@, final(self)@, id@),
            created == 0 ==> {
                &&& out.result == Err::<i64, BridgeError>(
                    BridgeError::HandleCreationFailed(HandleKind::Controller),
                )
                &&& out.releases@ == Seq::<Release>::empty()
                &&& final(self)@ == old(self)@
            },
            created != 0 && conn_id == MAA_INVALID_ID ==> {
                &&& out.result == Err::<i64, BridgeError>(
                    BridgeError::RequestPostFailed(RequestKind::Connection),
                )
                &&& out.releases@ == seq![Release::DestroyController(created)]
                &&& final(self)@ == old(self)@
            },
            created != 0 && conn_id != MAA_INVALID_ID && !old(self)@.contains_key(id@) ==> {
                &&& out.result == Err::<i64, BridgeError>(BridgeError::InstanceNotFound)
                &&& out.releases@ == seq![Release::DestroyController(created)]
                &&& final(self)@ == old(self)@
            },
            created != 0 && conn_id != MAA_INVALID_ID && old(self)@.contains_key(id@) ==> {
                &&& out.result == Ok::<i64, BridgeError>(conn_id)
                &&& out.releases@ == old(self)@[id@].controller_release_plan()
                &&& final(self)@ == old(self)@.insert(id@, with_controller(old(self)@[id@], created))
            },
    {
        let mut releases: Vec<Release> = Vec::new();
        if created == 0 {
            return Outcome {
                result: Err(BridgeError::HandleCreationFailed(HandleKind::Controller)),
                releases,
            };
        }
        if conn_id == MAA_INVALID_ID {
            releases.push(Release::DestroyController(created));
            return Outcome {
                result: Err(BridgeError::RequestPostFailed(RequestKind::Connection)),
                releases,
            };
        }
        match self.take_runtime(id) {
            None => {
                releases.push(Release::DestroyController(created));
                Outcome { result: Err(BridgeError::InstanceNotFound), releases }
            },
            Some(mut rt) => {
                let ghost before = rt@;
                if let Some(b) = rt.tasker.take() {
                    releases.push(Release::DestroyTasker(b.tasker));
                }
                if let Some(c) = rt.controller.take() {
                    releases.push(Release::DestroyController(c));
                }
                rt.controller = Some(created);
                proof {
                    assert(releases@ =~= before.controller_release_plan());
                    assert(rt@ == with_controller(before, created));
                }
                self.put_runtime(id, rt);
                proof {
                    assert(self@ =~= old(self)@.insert(id@, with_controller(before, created)));
                }
                Outcome { result: Ok(conn_id), releases }
            },
        }
    }

    /// The controller of an instance, for screencap requests and image reads.
    pub fn controller_of(&self, id: &str) -> (r: Result<u64, BridgeError>)
        requires
            self.wf(),
        ensures
            !self@.contains_key(id@) ==> r == Err::<u64, BridgeError>(BridgeError::InstanceNotFound),
            self@.contains_key(id@) ==> r == match self@[id@].controller {
                Some(c) => Ok::<u64, BridgeError>(c),
                None => Err(BridgeError::PreconditionViolation(Precondition::ControllerNotConnected)),
            },
    {
        match self.runtime(id) {
            None => Err(BridgeError::InstanceNotFound),
            Some(rt) => match rt.controller {
                Some(c) => Ok(c),
                None => Err(BridgeError::PreconditionViolation(Precondition::ControllerNotConnected)),
            },
        }
    }
}

/// A request id that a post call returned; the invalid id means the post failed.
pub fn require_request(id: i64, kind: RequestKind) -> (r: Result<i64, BridgeError>)
    ensures
        id == MAA_INVALID_ID ==> r == Err::<i64, BridgeError>(BridgeError::RequestPostFailed(kind)),
        id != MAA_INVALID_ID ==> r == Ok::<i64, BridgeError>(id),
{
    if id == MAA_INVALID_ID {
        Err(BridgeError::RequestPostFailed(kind))
    } else {
        Ok(id)
    }
}

/// A handle that a native factory returned; null means the creation failed.
pub fn require_handle(created: u64, kind: HandleKind) -> (r: Result<u64, BridgeError>)
    ensures
        created == 0 ==> r == Err::<u64, BridgeError>(BridgeError::HandleCreationFailed(kind)),
        created != 0 ==> r == Ok::<u64, BridgeError>(created),
{
    if created == 0 {
        Err(BridgeError::HandleCreationFailed(kind))
    } else {
        Ok(created)
    }
}

} // verus!
