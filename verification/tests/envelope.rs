use agent::data_processor::envelope::{
    decode_action, decode_command, decode_envelope, decode_members, decode_metric, Command,
    DecodeError,
};
use agent::data_processor::store::{
    ActionType, BaseCommandData, CommandType, MetricType, ProcessActionInfo, ProcessMetricInfo,
};
use agent::helper::json::{find_member, JsonMember, JsonValue};

fn member(name: &str, value: JsonValue) -> JsonMember {
    JsonMember { name: name.to_string(), value }
}

fn text(value: &str) -> JsonValue {
    JsonValue::Text(value.to_string())
}

fn is_malformed(result: &Result<Command, DecodeError>) -> bool {
    matches!(result, Err(DecodeError::Malformed(_)))
}

#[test]
fn metric_line_decodes_to_its_payload() {
    let decoded = decode_command(r#"{"command_type":"metric","process_id":7,"metric_type":"cpu"}"#);
    assert_eq!(
        decoded,
        Ok(Command::Metric(ProcessMetricInfo {
            process_id: 7,
            thread_id: None,
            metric_type: MetricType::Cpu,
            command_type: CommandType::Metric,
        }))
    );
}

#[test]
fn metric_round_trip_is_a_fixed_point() {
    let first =
        decode_command(r#"{"command_type":"metric","process_id":7,"metric_type":"cpu"}"#).unwrap();
    let info = match first {
        Command::Metric(info) => info,
        Command::Action(_) => panic!("a metric was sent"),
    };
    let written = info.to_json();
    assert_eq!(
        written,
        r#"{"command_type":"metric","metric_type":"cpu","process_id":7,"thread_id":null}"#
    );
    let second = decode_command(&written).unwrap();
    assert_eq!(second, first);
    let again = match second {
        Command::Metric(info) => info.to_json(),
        Command::Action(_) => panic!("a metric was written"),
    };
    assert_eq!(again, written);
}

#[test]
fn metric_with_thread_and_memory_round_trips() {
    let info = ProcessMetricInfo {
        process_id: 65535,
        thread_id: Some(12),
        metric_type: MetricType::Memory,
        command_type: CommandType::Metric,
    };
    let written = info.to_json();
    assert_eq!(
        written,
        r#"{"command_type":"metric","metric_type":"memory","process_id":65535,"thread_id":12}"#
    );
    assert_eq!(decode_command(&written), Ok(Command::Metric(info)));
    assert_eq!(decode_members(&info.to_members()), Ok(Command::Metric(info)));
}

#[test]
fn action_round_trips() {
    let info = ProcessActionInfo {
        process_id: 0,
        thread_id: None,
        action_type: ActionType::GetMemoryProfile,
        command_type: CommandType::Action,
    };
    let written = info.to_json();
    assert_eq!(
        written,
        r#"{"action_type":"get_memory_profile","command_type":"action","process_id":0,"thread_id":null}"#
    );
    assert_eq!(decode_command(&written), Ok(Command::Action(info)));
    assert_eq!(decode_members(&info.to_members()), Ok(Command::Action(info)));
}

#[test]
fn action_line_decodes_to_its_payload() {
    let decoded = decode_command(
        r#"{"command_type":"action","process_id":9,"thread_id":3,"action_type":"get_cpu_profile"}"#,
    );
    assert_eq!(
        decoded,
        Ok(Command::Action(ProcessActionInfo {
            process_id: 9,
            thread_id: Some(3),
            action_type: ActionType::GetCpuProfile,
            command_type: CommandType::Action,
        }))
    );
}

#[test]
fn unknown_members_are_ignored() {
    let decoded = decode_command(
        r#"{"extra":[1,2,{"a":true}],"command_type":"metric","process_id":1,"metric_type":"memory","more":1.5}"#,
    );
    assert_eq!(
        decoded,
        Ok(Command::Metric(ProcessMetricInfo {
            process_id: 1,
            thread_id: None,
            metric_type: MetricType::Memory,
            command_type: CommandType::Metric,
        }))
    );
}

#[test]
fn text_that_is_no_json_object_is_malformed() {
    assert!(is_malformed(&decode_command("not json")));
    assert!(is_malformed(&decode_command("")));
    assert!(is_malformed(&decode_command("{")));
    assert!(is_malformed(&decode_command("[1,2]")));
    assert!(is_malformed(&decode_command("7")));
    assert!(is_malformed(&decode_command(r#""metric""#)));
    assert!(is_malformed(&decode_command(r#"{"command_type":"metric"} trailing"#)));
    assert!(is_malformed(&decode_command("null")));
    assert!(is_malformed(&decode_command(r#"{"command_type":"metric","process_id":}"#)));
    assert!(is_malformed(&decode_command(r#"{"command_type":"metric","x":[1,2}"#)));
    assert!(is_malformed(&decode_command(r#"{"command_type":"metric","x":"\q"}"#)));
}

#[test]
fn malformed_error_carries_the_parser_message() {
    match decode_command("{") {
        Err(DecodeError::Malformed(detail)) => {
            assert_eq!(detail, "EOF while parsing an object at line 1 column 1")
        }
        other => panic!("unexpected {:?}", other),
    }
}

#[test]
fn object_without_a_known_command_type_fails_the_first_phase() {
    assert_eq!(decode_command("{}"), Err(DecodeError::Envelope));
    assert_eq!(decode_command(r#"{"process_id":7,"metric_type":"cpu"}"#), Err(DecodeError::Envelope));
    assert_eq!(
        decode_command(r#"{"command_type":"other","process_id":7}"#),
        Err(DecodeError::Envelope)
    );
    assert_eq!(decode_command(r#"{"command_type":1}"#), Err(DecodeError::Envelope));
    assert_eq!(decode_command(r#"{"command_type":null}"#), Err(DecodeError::Envelope));
    assert_eq!(decode_command(r#"{"command_type":"Metric"}"#), Err(DecodeError::Envelope));
}

#[test]
fn metric_payload_that_does_not_fit_fails_the_second_phase() {
    assert_eq!(decode_command(r#"{"command_type":"metric"}"#), Err(DecodeError::Metric));
    assert_eq!(
        decode_command(r#"{"command_type":"metric","metric_type":"cpu"}"#),
        Err(DecodeError::Metric)
    );
    assert_eq!(
        decode_command(r#"{"command_type":"metric","process_id":7}"#),
        Err(DecodeError::Metric)
    );
    assert_eq!(
        decode_command(r#"{"command_type":"metric","process_id":65536,"metric_type":"cpu"}"#),
        Err(DecodeError::Metric)
    );
    assert_eq!(
        decode_command(r#"{"command_type":"metric","process_id":-1,"metric_type":"cpu"}"#),
        Err(DecodeError::Metric)
    );
    assert_eq!(
        decode_command(r#"{"command_type":"metric","process_id":7.0,"metric_type":"cpu"}"#),
        Err(DecodeError::Metric)
    );
    assert_eq!(
        decode_command(r#"{"command_type":"metric","process_id":"7","metric_type":"cpu"}"#),
        Err(DecodeError::Metric)
    );
    assert_eq!(
        decode_command(r#"{"command_type":"metric","process_id":7,"metric_type":"disk"}"#),
        Err(DecodeError::Metric)
    );
    assert_eq!(
        decode_command(r#"{"command_type":"metric","process_id":7,"action_type":"get_cpu_profile"}"#),
        Err(DecodeError::Metric)
    );
    assert_eq!(
        decode_command(
            r#"{"command_type":"metric","process_id":7,"metric_type":"cpu","thread_id":"x"}"#
        ),
        Err(DecodeError::Metric)
    );
    assert_eq!(
        decode_command(
            r#"{"command_type":"metric","process_id":7,"metric_type":"cpu","thread_id":70000}"#
        ),
        Err(DecodeError::Metric)
    );
}

#[test]
fn action_payload_that_does_not_fit_fails_the_second_phase() {
    assert_eq!(decode_command(r#"{"command_type":"action"}"#), Err(DecodeError::Action));
    assert_eq!(
        decode_command(r#"{"command_type":"action","process_id":7,"metric_type":"cpu"}"#),
        Err(DecodeError::Action)
    );
    assert_eq!(
        decode_command(r#"{"command_type":"action","process_id":7,"action_type":"cpu"}"#),
        Err(DecodeError::Action)
    );
    assert_eq!(
        decode_command(r#"{"command_type":"action","action_type":"get_cpu_profile"}"#),
        Err(DecodeError::Action)
    );
}

#[test]
fn thread_id_may_be_missing_null_or_a_number() {
    let with = |thread: &str| {
        decode_command(&format!(
            r#"{{"command_type":"metric","process_id":7,"metric_type":"cpu"{}}}"#,
            thread
        ))
    };
    let expect = |thread_id| {
        Ok(Command::Metric(ProcessMetricInfo {
            process_id: 7,
            thread_id,
            metric_type: MetricType::Cpu,
            command_type: CommandType::Metric,
        }))
    };
    assert_eq!(with(""), expect(None));
    assert_eq!(with(r#","thread_id":null"#), expect(None));
    assert_eq!(with(r#","thread_id":0"#), expect(Some(0)));
    assert_eq!(with(r#","thread_id":65535"#), expect(Some(65535)));
    assert_eq!(with(r#","thread_id":65536"#), Err(DecodeError::Metric));
    assert_eq!(with(r#","thread_id":true"#), Err(DecodeError::Metric));
}

#[test]
fn members_built_by_hand_decode_in_two_phases() {
    let members = vec![
        member("process_id", JsonValue::Number(Some(7))),
        member("noise", JsonValue::Other),
        member("command_type", text("metric")),
        member("metric_type", text("memory")),
    ];
    assert_eq!(decode_envelope(&members), Some(BaseCommandData { command_type: CommandType::Metric }));
    let info = ProcessMetricInfo {
        process_id: 7,
        thread_id: None,
        metric_type: MetricType::Memory,
        command_type: CommandType::Metric,
    };
    assert_eq!(decode_metric(&members), Some(info));
    assert_eq!(decode_action(&members), None);
    assert_eq!(decode_members(&members), Ok(Command::Metric(info)));
}

#[test]
fn the_first_member_of_a_name_counts() {
    let members = vec![
        member("command_type", text("action")),
        member("command_type", text("metric")),
        member("process_id", JsonValue::Number(Some(1))),
        member("action_type", text("get_cpu_profile")),
    ];
    assert_eq!(find_member(&members, "command_type"), Some(&text("action")));
    assert_eq!(find_member(&members, "missing"), None);
    assert_eq!(
        decode_members(&members),
        Ok(Command::Action(ProcessActionInfo {
            process_id: 1,
            thread_id: None,
            action_type: ActionType::GetCpuProfile,
            command_type: CommandType::Action,
        }))
    );
}

#[test]
fn members_that_are_no_command_fail_by_phase() {
    assert_eq!(decode_members(&vec![]), Err(DecodeError::Envelope));
    assert_eq!(
        decode_members(&vec![member("command_type", JsonValue::Other)]),
        Err(DecodeError::Envelope)
    );
    assert_eq!(
        decode_members(&vec![
            member("command_type", text("metric")),
            member("process_id", JsonValue::Number(None)),
            member("metric_type", text("cpu")),
        ]),
        Err(DecodeError::Metric)
    );
    assert_eq!(
        decode_members(&vec![
            member("command_type", text("metric")),
            member("process_id", JsonValue::Number(Some(65536))),
            member("metric_type", text("cpu")),
        ]),
        Err(DecodeError::Metric)
    );
    assert_eq!(
        decode_members(&vec![
            member("command_type", text("action")),
            member("process_id", JsonValue::Number(Some(5))),
            member("action_type", JsonValue::Null),
        ]),
        Err(DecodeError::Action)
    );
}

#[test]
fn written_text_escapes_what_json_asks_for() {
    let info = ProcessMetricInfo {
        process_id: 3,
        thread_id: Some(4),
        metric_type: MetricType::Cpu,
        command_type: CommandType::Metric,
    };
    let written = info.to_json();
    assert_ne!(written, "");
    assert!(written.starts_with('{') && written.ends_with('}'));
}

#[test]
fn wire_names_of_the_enums() {
    assert_eq!(MetricType::Cpu.to_string(), "cpu");
    assert_eq!(MetricType::Memory.to_string(), "memory");
    assert_eq!(ActionType::GetCpuProfile.to_string(), "get_cpu_profile");
    assert_eq!(ActionType::GetMemoryProfile.to_string(), "get_memory_profile");
    assert_eq!(CommandType::Action.to_string(), "action");
    assert_eq!(CommandType::Metric.to_string(), "metric");
    assert_eq!(MetricType::from_name("cpu"), Some(MetricType::Cpu));
    assert_eq!(MetricType::from_name("memory"), Some(MetricType::Memory));
    assert_eq!(MetricType::from_name("Cpu"), None);
    assert_eq!(ActionType::from_name("get_cpu_profile"), Some(ActionType::GetCpuProfile));
    assert_eq!(ActionType::from_name("get_memory_profile"), Some(ActionType::GetMemoryProfile));
    assert_eq!(ActionType::from_name(""), None);
    assert_eq!(CommandType::from_name("action"), Some(CommandType::Action));
    assert_eq!(CommandType::from_name("metric"), Some(CommandType::Metric));
    assert_eq!(CommandType::from_name("metrics"), None);
}

#[test]
fn unknown_members_are_skipped_whatever_they_hold() {
    let expected = Ok(Command::Metric(ProcessMetricInfo {
        process_id: 7,
        thread_id: None,
        metric_type: MetricType::Cpu,
        command_type: CommandType::Metric,
    }));
    assert_eq!(
        decode_command(
            r#"{"command_type":"metric","process_id":7,"metric_type":"cpu","big":1e999}"#
        ),
        expected
    );
    assert_eq!(
        decode_command(
            r#"{"huge":123456789012345678901234567890e400,"command_type":"metric","process_id":7,"metric_type":"cpu"}"#
        ),
        expected
    );
    let deep = format!(
        r#"{{"command_type":"metric","process_id":7,"metric_type":"cpu","deep":{}{}}}"#,
        "[".repeat(300),
        "]".repeat(300)
    );
    assert_eq!(decode_command(&deep), expected);
}

#[test]
fn known_members_that_cannot_be_read_fail_the_payload() {
    assert_eq!(
        decode_command(r#"{"command_type":"metric","process_id":1e999,"metric_type":"cpu"}"#),
        Err(DecodeError::Metric)
    );
    let deep = format!(
        r#"{{"command_type":"action","action_type":"get_cpu_profile","process_id":{}{}}}"#,
        "[".repeat(300),
        "]".repeat(300)
    );
    assert_eq!(decode_command(&deep), Err(DecodeError::Action));
    assert_eq!(decode_command(r#"{"command_type":1e999}"#), Err(DecodeError::Envelope));
}

#[test]
fn of_a_repeated_member_the_last_counts() {
    assert_eq!(
        decode_command(
            r#"{"command_type":"metric","process_id":1,"metric_type":"cpu","process_id":2}"#
        ),
        Ok(Command::Metric(ProcessMetricInfo {
            process_id: 2,
            thread_id: None,
            metric_type: MetricType::Cpu,
            command_type: CommandType::Metric,
        }))
    );
}
