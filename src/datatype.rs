//! Messages exchanged with the host and the values they carry.
use vstd::prelude::*;

verus! {

/// A JSON value of the host's, carried through untouched (callback arguments,
/// API result payloads).
#[verifier::external_type_specification]
#[verifier::external_body]
pub struct ExValue(serde_json::Value);

/// The closed set of failure codes shared by host and client.
#[derive(Clone, Copy, Debug, PartialEq, Eq, Structural)]
pub enum ErrorCode {
    GeneralError,
    ArgumentInvalid,
    NameIllegal,
    NameExists,
    NameNotFound,
    InternalError,
    ChunkUnloaded,
}

impl ErrorCode {
    /// The negative integer that stands for the code on the wire.
    pub open spec fn spec_code(self) -> int {
        match self {
            ErrorCode::GeneralError => -1,
            ErrorCode::ArgumentInvalid => -2,
            ErrorCode::NameIllegal => -3,
            ErrorCode::NameExists => -4,
            ErrorCode::NameNotFound => -5,
            ErrorCode::InternalError => -6,
            ErrorCode::ChunkUnloaded => -7,
        }
    }

    pub fn code(self) -> (r: i32)
        ensures
            r as int == self.spec_code(),
    {
        match self {
            ErrorCode::GeneralError => -1,
            ErrorCode::ArgumentInvalid => -2,
            ErrorCode::NameIllegal => -3,
            ErrorCode::NameExists => -4,
            ErrorCode::NameNotFound => -5,
            ErrorCode::InternalError => -6,
            ErrorCode::ChunkUnloaded => -7,
        }
    }

    /// The code that the integer stands for, if any.
    pub fn from_code(c: i32) -> (r: Option<ErrorCode>)
        ensures
            match r {
                Some(e) => e.spec_code() == c as int,
                None => forall|e: ErrorCode| #[trigger] e.spec_code() != c as int,
            },
            r is Some <==> -7 <= c <= -1,
    {
        match c {
            -1 => Some(ErrorCode::GeneralError),
            -2 => Some(ErrorCode::ArgumentInvalid),
            -3 => Some(ErrorCode::NameIllegal),
            -4 => Some(ErrorCode::NameExists),
            -5 => Some(ErrorCode::NameNotFound),
            -6 => Some(ErrorCode::InternalError),
            -7 => Some(ErrorCode::ChunkUnloaded),
            _ => None,
        }
    }
}

/// Why a session ended in failure.
#[derive(Clone, Copy, Debug, PartialEq, Eq, Structural)]
pub enum Error {
    /// The connection failed underneath the protocol.
    WebsocketError,
    /// An API result arrived while no API request was pending.
    UnexpectedApiResult,
    /// A frame was neither an event nor an API result.
    InvalidServerMessage,
    /// The connection closed while an API result was awaited.
    UnexpectedDisconnect,
    /// The initialization callback failed.
    InitializeFailed,
    /// A message could not be turned into text.
    SerializeFailed,
    /// The host answered a request with an error code.
    ErrorCode(ErrorCode),
}

impl From<Error> for ErrorCode {
    /// Any failure of the client surfaces to the host as an internal error.
    fn from(_value: Error) -> (r: ErrorCode)
        ensures
            r == ErrorCode::InternalError,
    {
        ErrorCode::InternalError
    }
}

impl vstd::std_specs::convert::FromSpecImpl<Error> for ErrorCode {
    open spec fn obeys_from_spec() -> bool {
        true
    }

    open spec fn from_spec(v: Error) -> ErrorCode {
        ErrorCode::InternalError
    }
}

/// Severity of a log message sent to the host.
#[derive(Clone, Copy, Debug, PartialEq, Eq, Structural)]
pub enum LogLevel {
    Debug,
    Info,
    Warn,
    Error,
    Fatal,
}

/// Which event kind a subscription asks for.
pub enum SubscribeParam {
    ScriptRun {},
    InterfaceChange(InterfaceChangeParam),
    BlockUpdate(BlockUpdateParam),
    Alarm(AlarmParam),
}

pub struct InterfaceChangeParam {
    pub name: String,
}

pub struct BlockUpdateParam {
    pub pos: BlockPos,
    pub type_: BlockUpdateType,
}

pub struct AlarmParam {
    pub gametime: i64,
    pub at: AlarmAt,
}

/// A block position: x, y, z and the dimension's name.
pub struct BlockPos(pub i32, pub i32, pub i32, pub String);

#[derive(Clone, Copy, Debug, PartialEq, Eq, Structural)]
pub enum BlockUpdateType {
    NeighborUpdate,
    PostPlacement,
    Any,
}

#[derive(Clone, Copy, Debug, PartialEq, Eq, Structural)]
pub enum AlarmAt {
    Start,
    End,
}

/// A request issued by the client; each is answered by exactly one result.
pub enum ApiRequest {
    Subscribe(SubscribeParam),
    ReadInterface { name: String },
    WriteInterface { name: String, value: String },
    QueryGametime {},
    ExecuteCommand { command: String },
    Log { message: String, level: LogLevel },
}

/// The host's answer to the pending request.
pub enum ApiResult {
    Success(serde_json::Value),
    Failure(ErrorCode),
}

impl ApiResult {
    pub open spec fn spec_into_result(self) -> Result<serde_json::Value, ErrorCode> {
        match self {
            ApiResult::Success(v) => Ok(v),
            ApiResult::Failure(c) => Err(c),
        }
    }

    pub fn into_result(self) -> (r: Result<serde_json::Value, ErrorCode>)
        ensures
            r == self.spec_into_result(),
    {
        match self {
            ApiResult::Success(v) => Ok(v),
            ApiResult::Failure(c) => Err(c),
        }
    }
}

pub struct ReadInterfaceResult {
    pub value: String,
}

pub struct QueryGametimeResult {
    pub gametime: i64,
}

pub struct ExecuteCommandResult {
    pub feedback: String,
    pub error: String,
    pub result: i32,
}

/// The arguments that a script run is invoked with.
pub struct ScriptRunContent {
    pub argument: Vec<serde_json::Value>,
}

pub struct InterfaceChangeContent {
    pub previous: String,
    pub current: String,
}

/// A notification pushed by the host; each is answered by one response.
#[allow(inconsistent_fields)]
pub enum Event {
    ScriptInitialize {},
    ScriptRun { content: ScriptRunContent },
    InterfaceChange { param: InterfaceChangeParam, content: InterfaceChangeContent },
    BlockUpdate { param: BlockUpdateParam },
    Alarm { param: AlarmParam },
}

/// The client's answer to an event.
#[derive(Clone, Copy, Debug, PartialEq, Eq, Structural)]
pub enum EventResponse {
    /// Success with an empty payload.
    Empty,
    /// Success of a script run, with the run's integer result.
    ScriptRun { result: i32 },
    /// Failure with an error code.
    Failure(ErrorCode),
}

impl EventResponse {
    pub fn empty() -> (r: EventResponse)
        ensures
            r == EventResponse::Empty,
    {
        EventResponse::Empty
    }
}

} // verus!
