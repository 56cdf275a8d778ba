use vstd::prelude::*;

verus! {

/// Terminal and in-flight states of a posted task, as seen by the host.
#[derive(Debug, Clone, Copy, PartialEq, Eq, Structural)]
pub enum TaskStatus {
    Pending,
    Running,
    Succeeded,
    Failed,
}

/// Request id that every post call of the engine answers with on failure.
pub const MAA_INVALID_ID: i64 = 0;

/// Gamepad kind code for an emulated Xbox 360 pad.
pub const MAA_GAMEPAD_TYPE_XBOX360: u64 = 0;
/// Gamepad kind code for an emulated DualShock 4 pad.
pub const MAA_GAMEPAD_TYPE_DUALSHOCK4: u64 = 1;
/// Win32 screencap method bit for DXGI desktop duplication.
pub const MAA_WIN32_SCREENCAP_DXGI_DESKTOPDUP: u64 = 4;
/// Controller option key for the short side of downscaled screenshots.
pub const MAA_CTRL_OPTION_SCREENSHOT_TARGET_SHORT_SIDE: i32 = 2;
/// Short side, in pixels, applied to every new controller's screenshots.
pub const DEFAULT_SCREENSHOT_SHORT_SIDE: i32 = 720;

/// Status code the engine reports for a request that is queued.
pub const MAA_STATUS_PENDING: i32 = 1000;
/// Status code the engine reports for a request that is executing.
pub const MAA_STATUS_RUNNING: i32 = 2000;
/// Status code the engine reports for a request that finished successfully.
pub const MAA_STATUS_SUCCEEDED: i32 = 3000;

pub open spec fn status_of_code(code: i32) -> TaskStatus {
    if code == MAA_STATUS_PENDING {
        TaskStatus::Pending
    } else if code == MAA_STATUS_RUNNING {
        TaskStatus::Running
    } else if code == MAA_STATUS_SUCCEEDED {
        TaskStatus::Succeeded
    } else {
        TaskStatus::Failed
    }
}

/// Maps a raw engine status code to the host-visible task status; every
/// unrecognised code is reported as a failure.
pub fn task_status_from_code(code: i32) -> (r: TaskStatus)
    ensures
        r == status_of_code(code),
{
    if code == MAA_STATUS_PENDING {
        TaskStatus::Pending
    } else if code == MAA_STATUS_RUNNING {
        TaskStatus::Running
    } else if code == MAA_STATUS_SUCCEEDED {
        TaskStatus::Succeeded
    } else {
        TaskStatus::Failed
    }
}

/// Whether a controller answers the engine's connectivity query.
#[derive(Debug, Clone, PartialEq, Eq)]
pub enum ConnectionStatus {
    Disconnected,
    Connecting,
    Connected,
    Failed(String),
}

/// The connection status of an instance: `probe` is the answer of the
/// connectivity query, or `None` when the instance has no controller.
pub fn connection_status(probe: Option<bool>) -> (r: ConnectionStatus)
    ensures
        (r is Connected) == (probe == Some(true)),
        (r is Disconnected) == (probe != Some(true)),
{
    match probe {
        Some(true) => ConnectionStatus::Connected,
        _ => ConnectionStatus::Disconnected,
    }
}

/// Every native status code maps to exactly one host status: the three known
/// codes to their own status, and every other code to `Failed`.
pub proof fn status_mapping_is_total(code: i32)
    ensures
        code == MAA_STATUS_PENDING <==> status_of_code(code) == TaskStatus::Pending,
        code == MAA_STATUS_RUNNING <==> status_of_code(code) == TaskStatus::Running,
        code == MAA_STATUS_SUCCEEDED <==> status_of_code(code) == TaskStatus::Succeeded,
        code != MAA_STATUS_PENDING && code != MAA_STATUS_RUNNING && code != MAA_STATUS_SUCCEEDED
            <==> status_of_code(code) == TaskStatus::Failed,
{
}

} // verus!
