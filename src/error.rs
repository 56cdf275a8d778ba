use vstd::prelude::*;

verus! {

/// Which kind of native object a factory call failed to produce.
#[derive(Debug, Clone, Copy, PartialEq, Eq, Structural)]
pub enum HandleKind {
    Resource,
    Controller,
    Tasker,
    AgentClient,
    StringBuffer,
    ImageBuffer,
    DeviceList,
    WindowList,
}

/// Which kind of post call answered with the invalid request id.
#[derive(Debug, Clone, Copy, PartialEq, Eq, Structural)]
pub enum RequestKind {
    Connection,
    Task,
    Screencap,
}

/// Which precondition of a command was not met.
#[derive(Debug, Clone, Copy, PartialEq, Eq, Structural)]
pub enum Precondition {
    ResourceNotLoaded,
    ControllerNotConnected,
    TaskerNotCreated,
    TaskerNotInitialized,
    AgentIdentifierUnavailable,
    CachedImageUnavailable,
    NoImageData,
}

/// Which textual method mask of a controller configuration was malformed.
#[derive(Debug, Clone, Copy, PartialEq, Eq, Structural)]
pub enum MaskField {
    ScreencapMethods,
    InputMethods,
}

/// Everything a bridge command can fail with.
#[derive(Debug, Clone, PartialEq, Eq)]
pub enum BridgeError {
    LibraryNotLoaded,
    InstanceNotFound,
    HandleCreationFailed(HandleKind),
    RequestPostFailed(RequestKind),
    PreconditionViolation(Precondition),
    InvalidMethodMask(MaskField, String),
    UnsupportedController,
    AgentSpawnFailed(String),
    AgentConnectFailed,
    LockPoisoned(String),
}

impl HandleKind {
    pub open spec fn name_spec(self) -> Seq<char> {
        match self {
            HandleKind::Resource => "resource"@,
            HandleKind::Controller => "controller"@,
            HandleKind::Tasker => "tasker"@,
            HandleKind::AgentClient => "agent client"@,
            HandleKind::StringBuffer => "string buffer"@,
            HandleKind::ImageBuffer => "image buffer"@,
            HandleKind::DeviceList => "device list"@,
            HandleKind::WindowList => "window list"@,
        }
    }

    pub fn name(&self) -> (r: &'static str)
        ensures
            r@ == self.name_spec(),
    {
        match self {
            HandleKind::Resource => "resource",
            HandleKind::Controller => "controller",
            HandleKind::Tasker => "tasker",
            HandleKind::AgentClient => "agent client",
            HandleKind::StringBuffer => "string buffer",
            HandleKind::ImageBuffer => "image buffer",
            HandleKind::DeviceList => "device list",
            HandleKind::WindowList => "window list",
        }
    }
}

impl RequestKind {
    pub open spec fn name_spec(self) -> Seq<char> {
        match self {
            RequestKind::Connection => "connection"@,
            RequestKind::Task => "task"@,
            RequestKind::Screencap => "screencap"@,
        }
    }

    pub fn name(&self) -> (r: &'static str)
        ensures
            r@ == self.name_spec(),
    {
        match self {
            RequestKind::Connection => "connection",
            RequestKind::Task => "task",
            RequestKind::Screencap => "screencap",
        }
    }
}

impl Precondition {
    pub open spec fn text_spec(self) -> Seq<char> {
        match self {
            Precondition::ResourceNotLoaded => "Resource not loaded"@,
            Precondition::ControllerNotConnected => "Controller not connected"@,
            Precondition::TaskerNotCreated => "Tasker not created"@,
            Precondition::TaskerNotInitialized => "Tasker not properly initialized"@,
            Precondition::AgentIdentifierUnavailable => "Failed to get agent identifier"@,
            Precondition::CachedImageUnavailable => "Failed to get cached image"@,
            Precondition::NoImageData => "No image data available"@,
        }
    }

    pub fn text(&self) -> (r: &'static str)
        ensures
            r@ == self.text_spec(),
    {
        match self {
            Precondition::ResourceNotLoaded => "Resource not loaded",
            Precondition::ControllerNotConnected => "Controller not connected",
            Precondition::TaskerNotCreated => "Tasker not created",
            Precondition::TaskerNotInitialized => "Tasker not properly initialized",
            Precondition::AgentIdentifierUnavailable => "Failed to get agent identifier",
            Precondition::CachedImageUnavailable => "Failed to get cached image",
            Precondition::NoImageData => "No image data available",
        }
    }
}

impl MaskField {
    pub open spec fn name_spec(self) -> Seq<char> {
        match self {
            MaskField::ScreencapMethods => "screencap_methods"@,
            MaskField::InputMethods => "input_methods"@,
        }
    }

    pub fn name(&self) -> (r: &'static str)
        ensures
            r@ == self.name_spec(),
    {
        match self {
            MaskField::ScreencapMethods => "screencap_methods",
            MaskField::InputMethods => "input_methods",
        }
    }
}

impl BridgeError {
    /// The text a host shows for the error.
    pub open spec fn message_spec(self) -> Seq<char> {
        match self {
            BridgeError::LibraryNotLoaded => "MaaFramework not initialized"@,
            BridgeError::InstanceNotFound => "Instance not found"@,
            BridgeError::HandleCreationFailed(k) => "Failed to create "@ + k.name_spec(),
            BridgeError::RequestPostFailed(k) => "Failed to post "@ + k.name_spec(),
            BridgeError::PreconditionViolation(p) => p.text_spec(),
            BridgeError::InvalidMethodMask(f, t) => "Invalid "@ + f.name_spec() + " '"@ + t@ + "'"@,
            BridgeError::UnsupportedController => "PlayCover controller is only supported on macOS"@,
            BridgeError::AgentSpawnFailed(reason) => "Failed to start agent process: "@ + reason@,
            BridgeError::AgentConnectFailed => "Failed to connect to agent"@,
            BridgeError::LockPoisoned(reason) => "Lock poisoned: "@ + reason@,
        }
    }

    /// A human-readable description naming the precondition or native call
    /// that failed.
    pub fn message(&self) -> (r: String)
        ensures
            r@ == self.message_spec(),
    {
        match self {
            BridgeError::LibraryNotLoaded => String::from_str("MaaFramework not initialized"),
            BridgeError::InstanceNotFound => String::from_str("Instance not found"),
            BridgeError::HandleCreationFailed(k) => {
                let mut r = String::from_str("Failed to create ");
                r.append(k.name());
                r
            },
            BridgeError::RequestPostFailed(k) => {
                let mut r = String::from_str("Failed to post ");
                r.append(k.name());
                r
            },
            BridgeError::PreconditionViolation(p) => String::from_str(p.text()),
            BridgeError::InvalidMethodMask(f, t) => {
                let mut r = String::from_str("Invalid ");
                r.append(f.name());
                r.append(" '");
                r.append(t.as_str());
                r.append("'");
                r
            },
            BridgeError::UnsupportedController => String::from_str(
                "PlayCover controller is only supported on macOS",
            ),
            BridgeError::AgentSpawnFailed(reason) => {
                let mut r = String::from_str("Failed to start agent process: ");
                r.append(reason.as_str());
                r
            },
            BridgeError::AgentConnectFailed => String::from_str("Failed to connect to agent"),
            BridgeError::LockPoisoned(reason) => {
                let mut r = String::from_str("Lock poisoned: ");
                r.append(reason.as_str());
                r
            },
        }
    }
}

} // verus!
