//! The wire text of the messages that the client sends.
use vstd::prelude::*;
use crate::json::{json_quoted, json_string};
use crate::datatype::{
    AlarmAt, AlarmParam, ApiRequest, BlockPos, BlockUpdateParam, BlockUpdateType,
    EventResponse, InterfaceChangeParam, LogLevel, SubscribeParam,
};

verus! {

pub open spec fn digit_char(d: int) -> char {
    if d == 0 {
        '0'
    } else if d == 1 {
        '1'
    } else if d == 2 {
        '2'
    } else if d == 3 {
        '3'
    } else if d == 4 {
        '4'
    } else if d == 5 {
        '5'
    } else if d == 6 {
        '6'
    } else if d == 7 {
        '7'
    } else if d == 8 {
        '8'
    } else {
        '9'
    }
}

/// The decimal digits of `n`, most significant first, without leading zeros.
pub open spec fn digits(n: nat) -> Seq<char>
    decreases n,
{
    if n < 10 {
        seq![digit_char(n as int)]
    } else {
        digits(n / 10).push(digit_char((n % 10) as int))
    }
}

/// The decimal text of an integer, with a leading minus sign when negative.
pub open spec fn decimal(n: int) -> Seq<char> {
    if n < 0 {
        seq!['-'] + digits((-n) as nat)
    } else {
        digits(n as nat)
    }
}

/// Relies on the `Display` of `i64` (through `to_string`): the decimal text
/// of `n`.
#[verifier::external_body]
fn int_text(n: i64) -> (r: String)
    ensures
        r@ == decimal(n as int),
{
    n.to_string()
}

/// The text of a response message.
pub open spec fn response_text(r: EventResponse) -> Seq<char> {
    match r {
        EventResponse::Empty => "{\"finish\":{}}"@,
        EventResponse::ScriptRun { result } => "{\"finish\":{\"result\":"@ + decimal(result as int)
            + "}}"@,
        EventResponse::Failure(c) => "{\"finish\":"@ + decimal(c.spec_code()) + "}"@,
    }
}

/// Encodes the response to an event.
pub fn encode_event_response(r: &EventResponse) -> (t: String)
    ensures
        t@ == response_text(*r),
{
    match r {
        EventResponse::Empty => String::from_str("{\"finish\":{}}"),
        EventResponse::ScriptRun { result } => {
            let n = int_text(*result as i64);
            let mut t = String::from_str("{\"finish\":{\"result\":");
            t.append(n.as_str());
            t.append("}}");
            t
        },
        EventResponse::Failure(c) => {
            let n = int_text(c.code() as i64);
            let mut t = String::from_str("{\"finish\":");
            t.append(n.as_str());
            t.append("}");
            t
        },
    }
}

pub open spec fn level_text(l: LogLevel) -> Seq<char> {
    match l {
        LogLevel::Debug => "\"debug\""@,
        LogLevel::Info => "\"info\""@,
        LogLevel::Warn => "\"warn\""@,
        LogLevel::Error => "\"error\""@,
        LogLevel::Fatal => "\"fatal\""@,
    }
}

fn level_str(l: LogLevel) -> (r: &'static str)
    ensures
        r@ == level_text(l),
{
    match l {
        LogLevel::Debug => "\"debug\"",
        LogLevel::Info => "\"info\"",
        LogLevel::Warn => "\"warn\"",
        LogLevel::Error => "\"error\"",
        LogLevel::Fatal => "\"fatal\"",
    }
}

pub open spec fn block_update_type_text(t: BlockUpdateType) -> Seq<char> {
    match t {
        BlockUpdateType::NeighborUpdate => "\"neighborUpdate\""@,
        BlockUpdateType::PostPlacement => "\"postPlacement\""@,
        BlockUpdateType::Any => "\"any\""@,
    }
}

fn block_update_type_str(t: BlockUpdateType) -> (r: &'static str)
    ensures
        r@ == block_update_type_text(t),
{
    match t {
        BlockUpdateType::NeighborUpdate => "\"neighborUpdate\"",
        BlockUpdateType::PostPlacement => "\"postPlacement\"",
        BlockUpdateType::Any => "\"any\"",
    }
}

pub open spec fn alarm_at_text(a: AlarmAt) -> Seq<char> {
    match a {
        AlarmAt::Start => "\"start\""@,
        AlarmAt::End => "\"end\""@,
    }
}

fn alarm_at_str(a: AlarmAt) -> (r: &'static str)
    ensures
        r@ == alarm_at_text(a),
{
    match a {
        AlarmAt::Start => "\"start\"",
        AlarmAt::End => "\"end\"",
    }
}

/// The text of a subscription's parameter.
pub open spec fn subscribe_text(p: SubscribeParam) -> Seq<char> {
    match p {
        SubscribeParam::ScriptRun {  } => "{\"name\":\"scriptRun\",\"param\":{}}"@,
        SubscribeParam::InterfaceChange(InterfaceChangeParam { name }) =>
            "{\"name\":\"interfaceChange\",\"param\":{\"name\":"@ + json_quoted(name@) + "}}"@,
        SubscribeParam::BlockUpdate(BlockUpdateParam { pos: BlockPos(x, y, z, d), type_ }) =>
            "{\"name\":\"blockUpdate\",\"param\":{\"pos\":["@ + decimal(x as int) + ","@ + decimal(
            y as int,
        ) + ","@ + decimal(z as int) + ","@ + json_quoted(d@) + "],\"type\":"@
            + block_update_type_text(type_) + "}}"@,
        SubscribeParam::Alarm(AlarmParam { gametime, at }) =>
            "{\"name\":\"alarm\",\"param\":{\"gametime\":"@ + decimal(gametime as int) + ",\"at\":"@
            + alarm_at_text(at) + "}}"@,
    }
}

/// The text of a request message.
pub open spec fn request_text(req: ApiRequest) -> Seq<char> {
    match req {
        ApiRequest::Subscribe(p) => "{\"api\":\"subscribe\",\"param\":"@ + subscribe_text(p) + "}"@,
        ApiRequest::ReadInterface { name } => "{\"api\":\"readInterface\",\"param\":{\"name\":"@
            + json_quoted(name@) + "}}"@,
        ApiRequest::WriteInterface { name, value } =>
            "{\"api\":\"writeInterface\",\"param\":{\"name\":"@ + json_quoted(name@) + ",\"value\":"@
            + json_quoted(value@) + "}}"@,
        ApiRequest::QueryGametime {  } => "{\"api\":\"queryGametime\",\"param\":{}}"@,
        ApiRequest::ExecuteCommand { command } =>
            "{\"api\":\"executeCommand\",\"param\":{\"command\":"@ + json_quoted(command@) + "}}"@,
        ApiRequest::Log { message, level } => "{\"api\":\"log\",\"param\":{\"message\":"@
            + json_quoted(message@) + ",\"level\":"@ + level_text(level) + "}}"@,
    }
}

/// Appends the JSON string literal for `s`.
fn append_quoted(out: &mut String, s: &str)
    ensures
        final(out)@ == old(out)@ + json_quoted(s@),
{
    if let Some(q) = json_string(s) {
        out.append(q.as_str());
    }
}

/// Appends the text of a subscription's parameter.
fn append_subscribe(out: &mut String, p: &SubscribeParam)
    ensures
        final(out)@ == old(out)@ + subscribe_text(*p),
{
    let ghost start = out@;
    match p {
        SubscribeParam::ScriptRun {  } => {
            out.append("{\"name\":\"scriptRun\",\"param\":{}}");
        },
        SubscribeParam::InterfaceChange(InterfaceChangeParam { name }) => {
            out.append("{\"name\":\"interfaceChange\",\"param\":{\"name\":");
            append_quoted(out, name.as_str());
            out.append("}}");
        },
        SubscribeParam::BlockUpdate(BlockUpdateParam { pos: BlockPos(x, y, z, d), type_ }) => {
            out.append("{\"name\":\"blockUpdate\",\"param\":{\"pos\":[");
            out.append(int_text(*x as i64).as_str());
            out.append(",");
            out.append(int_text(*y as i64).as_str());
            out.append(",");
            out.append(int_text(*z as i64).as_str());
            out.append(",");
            append_quoted(out, d.as_str());
            out.append("],\"type\":");
            out.append(block_update_type_str(*type_));
            out.append("}}");
        },
        SubscribeParam::Alarm(AlarmParam { gametime, at }) => {
            out.append("{\"name\":\"alarm\",\"param\":{\"gametime\":");
            out.append(int_text(*gametime).as_str());
            out.append(",\"at\":");
            out.append(alarm_at_str(*at));
            out.append("}}");
        },
    }
    assert(out@ =~= start + subscribe_text(*p));
}

/// Encodes a request.
pub fn encode_api_request(req: &ApiRequest) -> (t: String)
    ensures
        t@ == request_text(*req),
{
    let mut out = String::new();
    match req {
        ApiRequest::Subscribe(p) => {
            out.append("{\"api\":\"subscribe\",\"param\":");
            append_subscribe(&mut out, p);
            out.append("}");
        },
        ApiRequest::ReadInterface { name } => {
            out.append("{\"api\":\"readInterface\",\"param\":{\"name\":");
            append_quoted(&mut out, name.as_str());
            out.append("}}");
        },
        ApiRequest::WriteInterface { name, value } => {
            out.append("{\"api\":\"writeInterface\",\"param\":{\"name\":");
            append_quoted(&mut out, name.as_str());
            out.append(",\"value\":");
            append_quoted(&mut out, value.as_str());
            out.append("}}");
        },
        ApiRequest::QueryGametime {  } => {
            out.append("{\"api\":\"queryGametime\",\"param\":{}}");
        },
        ApiRequest::ExecuteCommand { command } => {
            out.append("{\"api\":\"executeCommand\",\"param\":{\"command\":");
            append_quoted(&mut out, command.as_str());
            out.append("}}");
        },
        ApiRequest::Log { message, level } => {
            out.append("{\"api\":\"log\",\"param\":{\"message\":");
            append_quoted(&mut out, message.as_str());
            out.append(",\"level\":");
            out.append(level_str(*level));
            out.append("}}");
        },
    }
    assert(out@ =~= request_text(*req));
    out
}

} // verus!
