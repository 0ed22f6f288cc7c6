use redstone_computer_utilities::{
    encode_api_request, encode_event_response, AlarmAt, AlarmParam, ApiRequest, ApiResult,
    BlockPos, BlockUpdateParam, BlockUpdateType, Error, ErrorCode, EventResponse,
    InterfaceChangeParam, LogLevel, SubscribeParam,
};

fn text(req: ApiRequest) -> String {
    encode_api_request(&req)
}

#[test]
fn responses_encode() {
    assert_eq!(encode_event_response(&EventResponse::empty()), "{\"finish\":{}}");
    assert_eq!(
        encode_event_response(&EventResponse::ScriptRun { result: -12 }),
        "{\"finish\":{\"result\":-12}}"
    );
    assert_eq!(
        encode_event_response(&EventResponse::ScriptRun { result: i32::MAX }),
        "{\"finish\":{\"result\":2147483647}}"
    );
    assert_eq!(
        encode_event_response(&EventResponse::Failure(ErrorCode::ChunkUnloaded)),
        "{\"finish\":-7}"
    );
}

#[test]
fn requests_encode() {
    assert_eq!(
        text(ApiRequest::ReadInterface { name: "in\"1".to_string() }),
        "{\"api\":\"readInterface\",\"param\":{\"name\":\"in\\\"1\"}}"
    );
    assert_eq!(
        text(ApiRequest::WriteInterface { name: "o".to_string(), value: "a\nb".to_string() }),
        "{\"api\":\"writeInterface\",\"param\":{\"name\":\"o\",\"value\":\"a\\nb\"}}"
    );
    assert_eq!(
        text(ApiRequest::ExecuteCommand { command: "say hi".to_string() }),
        "{\"api\":\"executeCommand\",\"param\":{\"command\":\"say hi\"}}"
    );
    assert_eq!(
        text(ApiRequest::Log { message: "m".to_string(), level: LogLevel::Warn }),
        "{\"api\":\"log\",\"param\":{\"message\":\"m\",\"level\":\"warn\"}}"
    );
    assert_eq!(
        text(ApiRequest::Log { message: "".to_string(), level: LogLevel::Fatal }),
        "{\"api\":\"log\",\"param\":{\"message\":\"\",\"level\":\"fatal\"}}"
    );
}

#[test]
fn subscriptions_encode() {
    assert_eq!(
        text(ApiRequest::Subscribe(SubscribeParam::InterfaceChange(InterfaceChangeParam {
            name: "lamp".to_string()
        }))),
        "{\"api\":\"subscribe\",\"param\":{\"name\":\"interfaceChange\",\"param\":{\"name\":\"lamp\"}}}"
    );
    assert_eq!(
        text(ApiRequest::Subscribe(SubscribeParam::BlockUpdate(BlockUpdateParam {
            pos: BlockPos(1, -64, 300, "minecraft:overworld".to_string()),
            type_: BlockUpdateType::NeighborUpdate,
        }))),
        "{\"api\":\"subscribe\",\"param\":{\"name\":\"blockUpdate\",\"param\":{\"pos\":[1,-64,300,\"minecraft:overworld\"],\"type\":\"neighborUpdate\"}}}"
    );
    assert_eq!(
        text(ApiRequest::Subscribe(SubscribeParam::Alarm(AlarmParam {
            gametime: 24000,
            at: AlarmAt::Start
        }))),
        "{\"api\":\"subscribe\",\"param\":{\"name\":\"alarm\",\"param\":{\"gametime\":24000,\"at\":\"start\"}}}"
    );
}

#[test]
fn encoded_requests_are_json() {
    let t = text(ApiRequest::WriteInterface { name: "n\\".to_string(), value: "\u{1}é".to_string() });
    let v: serde_json::Value = serde_json::from_str(&t).unwrap();
    assert_eq!(v["api"], serde_json::Value::from("writeInterface"));
    assert_eq!(v["param"]["name"], serde_json::Value::from("n\\"));
    assert_eq!(v["param"]["value"], serde_json::Value::from("\u{1}é"));
}

#[test]
fn error_codes_round_trip() {
    let all = [
        (ErrorCode::GeneralError, -1),
        (ErrorCode::ArgumentInvalid, -2),
        (ErrorCode::NameIllegal, -3),
        (ErrorCode::NameExists, -4),
        (ErrorCode::NameNotFound, -5),
        (ErrorCode::InternalError, -6),
        (ErrorCode::ChunkUnloaded, -7),
    ];
    for (e, c) in all {
        assert_eq!(e.code(), c);
        assert_eq!(ErrorCode::from_code(c), Some(e));
    }
    assert_eq!(ErrorCode::from_code(0), None);
    assert_eq!(ErrorCode::from_code(-8), None);
    assert_eq!(ErrorCode::from_code(1), None);
}

#[test]
fn session_errors_surface_as_internal_error() {
    assert_eq!(ErrorCode::from(Error::UnexpectedDisconnect), ErrorCode::InternalError);
    assert_eq!(ErrorCode::from(Error::ErrorCode(ErrorCode::NameExists)), ErrorCode::InternalError);
}

#[test]
fn api_result_into_result() {
    assert_eq!(
        ApiResult::Success(serde_json::Value::from(3)).into_result(),
        Ok(serde_json::Value::from(3))
    );
    assert_eq!(ApiResult::Failure(ErrorCode::ArgumentInvalid).into_result(), Err(ErrorCode::ArgumentInvalid));
}

#[test]
fn string_escapes() {
    assert_eq!(
        text(ApiRequest::ExecuteCommand { command: "\u{8}\t\n\u{c}\r\"\\\u{1}\u{1f}\u{7f}é/".to_string() }),
        "{\"api\":\"executeCommand\",\"param\":{\"command\":\"\\b\\t\\n\\f\\r\\\"\\\\\\u0001\\u001f\u{7f}é/\"}}"
    );
}

#[test]
fn convenience_request_texts() {
    assert_eq!(
        text(ApiRequest::ReadInterface { name: "power".to_string() }),
        "{\"api\":\"readInterface\",\"param\":{\"name\":\"power\"}}"
    );
    assert_eq!(
        text(ApiRequest::Log { message: "hi".to_string(), level: LogLevel::Warn }),
        "{\"api\":\"log\",\"param\":{\"message\":\"hi\",\"level\":\"warn\"}}"
    );
    assert_eq!(
        text(ApiRequest::Log { message: "d".to_string(), level: LogLevel::Debug }),
        "{\"api\":\"log\",\"param\":{\"message\":\"d\",\"level\":\"debug\"}}"
    );
    assert_eq!(
        text(ApiRequest::Log { message: "i".to_string(), level: LogLevel::Info }),
        "{\"api\":\"log\",\"param\":{\"message\":\"i\",\"level\":\"info\"}}"
    );
    assert_eq!(
        text(ApiRequest::Log { message: "e".to_string(), level: LogLevel::Error }),
        "{\"api\":\"log\",\"param\":{\"message\":\"e\",\"level\":\"error\"}}"
    );
    assert_eq!(
        text(ApiRequest::Subscribe(SubscribeParam::ScriptRun {})),
        "{\"api\":\"subscribe\",\"param\":{\"name\":\"scriptRun\",\"param\":{}}}"
    );
}
