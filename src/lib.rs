//! Client side of the scripting host's message protocol: the message types,
//! their wire text, the script configuration and the session state machine
//! that multiplexes host events with in-flight API requests.
pub mod codec;
pub mod datatype;
pub mod json;
pub mod laws;
pub mod script;
pub mod session;

pub use crate::codec::{encode_api_request, encode_event_response};
pub use crate::datatype::{
    AlarmAt, AlarmParam, ApiRequest, ApiResult, BlockPos, BlockUpdateParam, BlockUpdateType,
    Error, ErrorCode, Event, EventResponse, ExecuteCommandResult, InterfaceChangeContent,
    InterfaceChangeParam, LogLevel, QueryGametimeResult, ReadInterfaceResult, ScriptRunContent,
    SubscribeParam,
};
pub use crate::script::{url_encode_query, Script};
pub use crate::session::{api_result, classify, Action, Frame, Input, Session, Task};
