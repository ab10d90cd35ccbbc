//! The command envelope: a JSON object whose `command_type` says which
//! payload the other members make up.

use crate::data_processor::store::{
    ActionType, BaseCommandData, CommandType, MetricType, ProcessActionInfo, ProcessMetricInfo,
};
use crate::helper::json::{
    error_text, find_member, json_members, json_text, member_named, members_view, one_line,
    parse_members, render_members, JsonMember, JsonMemberView, JsonValue, JsonValueView,
};
use vstd::prelude::*;
use vstd::string::StringExecFns;

verus! {

/// A decoded command.
#[derive(Debug, Clone, Copy, PartialEq, Eq, Structural)]
pub enum Command {
    Metric(ProcessMetricInfo),
    Action(ProcessActionInfo),
}

/// Why a message was dropped.
#[derive(Debug, Clone, PartialEq, Eq)]
pub enum DecodeError {
    /// The message is no JSON object; the text says where it went wrong.
    Malformed(String),
    /// The object has no `command_type` that names a command.
    Envelope,
    /// The members do not make up a metric command.
    Metric,
    /// The members do not make up an action command.
    Action,
}

/// The kind of a decode error, without its text.
pub enum DecodeFailure {
    Malformed,
    Envelope,
    Metric,
    Action,
}

impl DecodeError {
    /// The kind of this error.
    pub open spec fn failure(self) -> DecodeFailure {
        match self {
            DecodeError::Malformed(_) => DecodeFailure::Malformed,
            DecodeError::Envelope => DecodeFailure::Envelope,
            DecodeError::Metric => DecodeFailure::Metric,
            DecodeError::Action => DecodeFailure::Action,
        }
    }
}

/// The unsigned 16-bit number that a member holds: the member must be there
/// and be a number in range.
pub open spec fn required_u16(value: Option<JsonValueView>) -> Option<u16> {
    match value {
        Some(JsonValueView::Number(Some(number))) => if number <= u16::MAX {
            Some(number as u16)
        } else {
            None
        },
        _ => None,
    }
}

/// The same of a member that may be missing or `null`: the outer `None`
/// stands for a member that is there and is no number in range.
pub open spec fn optional_u16(value: Option<JsonValueView>) -> Option<Option<u16>> {
    match value {
        None => Some(None),
        Some(JsonValueView::Null) => Some(None),
        Some(JsonValueView::Number(Some(number))) => if number <= u16::MAX {
            Some(Some(number as u16))
        } else {
            None
        },
        _ => None,
    }
}

/// The text that a member holds.
pub open spec fn required_text(value: Option<JsonValueView>) -> Option<Seq<char>> {
    match value {
        Some(JsonValueView::Text(text)) => Some(text),
        _ => None,
    }
}

/// The discriminator of an object: its `command_type`, read alone.
pub open spec fn envelope_of(members: Seq<JsonMemberView>) -> Option<BaseCommandData> {
    match required_text(member_named(members, "command_type"@)) {
        Some(text) => match CommandType::named(text) {
            Some(command_type) => Some(BaseCommandData { command_type }),
            None => None,
        },
        None => None,
    }
}

/// The metric command that the members make up.
pub open spec fn metric_of(members: Seq<JsonMemberView>) -> Option<ProcessMetricInfo> {
    match (
        envelope_of(members),
        required_u16(member_named(members, "process_id"@)),
        optional_u16(member_named(members, "thread_id"@)),
        required_text(member_named(members, "metric_type"@)),
    ) {
        (Some(base), Some(process_id), Some(thread_id), Some(text)) => match MetricType::named(
            text,
        ) {
            Some(metric_type) => Some(
                ProcessMetricInfo {
                    process_id,
                    thread_id,
                    metric_type,
                    command_type: base.command_type,
                },
            ),
            None => None,
        },
        _ => None,
    }
}

/// The action command that the members make up.
pub open spec fn action_of(members: Seq<JsonMemberView>) -> Option<ProcessActionInfo> {
    match (
        envelope_of(members),
        required_u16(member_named(members, "process_id"@)),
        optional_u16(member_named(members, "thread_id"@)),
        required_text(member_named(members, "action_type"@)),
    ) {
        (Some(base), Some(process_id), Some(thread_id), Some(text)) => match ActionType::named(
            text,
        ) {
            Some(action_type) => Some(
                ProcessActionInfo {
                    process_id,
                    thread_id,
                    action_type,
                    command_type: base.command_type,
                },
            ),
            None => None,
        },
        _ => None,
    }
}

/// The command that an object decodes to: first its discriminator, then the
/// payload that the discriminator names.
pub open spec fn decoded(members: Seq<JsonMemberView>) -> Result<Command, DecodeFailure> {
    match envelope_of(members) {
        None => Err(DecodeFailure::Envelope),
        Some(base) => match base.command_type {
            CommandType::Metric => match metric_of(members) {
                Some(info) => Ok(Command::Metric(info)),
                None => Err(DecodeFailure::Metric),
            },
            CommandType::Action => match action_of(members) {
                Some(info) => Ok(Command::Action(info)),
                None => Err(DecodeFailure::Action),
            },
        },
    }
}

/// The command that a message decodes to.
pub open spec fn decoded_text(text: Seq<char>) -> Result<Command, DecodeFailure> {
    match json_members(text) {
        None => Err(DecodeFailure::Malformed),
        Some(members) => decoded(members),
    }
}

/// Whether what was returned is what the message decodes to.
pub open spec fn agrees(
    returned: Result<Command, DecodeError>,
    expected: Result<Command, DecodeFailure>,
) -> bool {
    match returned {
        Ok(command) => expected == Ok::<Command, DecodeFailure>(command),
        Err(error) => expected == Err::<Command, DecodeFailure>(error.failure()),
    }
}

fn read_u16(value: Option<&JsonValue>) -> (number: Option<u16>)
    ensures
        number == required_u16(
            match value {
                Some(v) => Some(v@),
                None => None,
            },
        ),
{
    match value {
        Some(JsonValue::Number(Some(number))) => if *number <= 65535 {
            Some(*number as u16)
        } else {
            None
        },
        _ => None,
    }
}

fn read_optional_u16(value: Option<&JsonValue>) -> (number: Option<Option<u16>>)
    ensures
        number == optional_u16(
            match value {
                Some(v) => Some(v@),
                None => None,
            },
        ),
{
    match value {
        None => Some(None),
        Some(JsonValue::Null) => Some(None),
        Some(JsonValue::Number(Some(number))) => if *number <= 65535 {
            Some(Some(*number as u16))
        } else {
            None
        },
        _ => None,
    }
}

/// The first phase: the discriminator alone, whatever else the object holds.
pub fn decode_envelope(members: &Vec<JsonMember>) -> (base: Option<BaseCommandData>)
    ensures
        base == envelope_of(members_view(members@)),
{
    match find_member(members, "command_type") {
        Some(JsonValue::Text(text)) => match CommandType::from_name(text.as_str()) {
            Some(command_type) => Some(BaseCommandData { command_type }),
            None => None,
        },
        _ => None,
    }
}

/// The second phase for a metric command.
pub fn decode_metric(members: &Vec<JsonMember>) -> (info: Option<ProcessMetricInfo>)
    ensures
        info == metric_of(members_view(members@)),
{
    let base = decode_envelope(members);
    let process_id = read_u16(find_member(members, "process_id"));
    let thread_id = read_optional_u16(find_member(members, "thread_id"));
    let metric_type = match find_member(members, "metric_type") {
        Some(JsonValue::Text(text)) => MetricType::from_name(text.as_str()),
        _ => None,
    };
    match (base, process_id, thread_id, metric_type) {
        (Some(base), Some(process_id), Some(thread_id), Some(metric_type)) => Some(
            ProcessMetricInfo { process_id, thread_id, metric_type, command_type: base.command_type },
        ),
        _ => None,
    }
}

/// The second phase for an action command.
pub fn decode_action(members: &Vec<JsonMember>) -> (info: Option<ProcessActionInfo>)
    ensures
        info == action_of(members_view(members@)),
{
    let base = decode_envelope(members);
    let process_id = read_u16(find_member(members, "process_id"));
    let thread_id = read_optional_u16(find_member(members, "thread_id"));
    let action_type = match find_member(members, "action_type") {
        Some(JsonValue::Text(text)) => ActionType::from_name(text.as_str()),
        _ => None,
    };
    match (base, process_id, thread_id, action_type) {
        (Some(base), Some(process_id), Some(thread_id), Some(action_type)) => Some(
            ProcessActionInfo { process_id, thread_id, action_type, command_type: base.command_type },
        ),
        _ => None,
    }
}

/// Decodes the members of a JSON object in two phases: the discriminator
/// first, then the payload that it names.
pub fn decode_members(members: &Vec<JsonMember>) -> (command: Result<Command, DecodeError>)
    ensures
        agrees(command, decoded(members_view(members@))),
        !(command matches Err(DecodeError::Malformed(_))),
{
    match decode_envelope(members) {
        None => Err(DecodeError::Envelope),
        Some(base) => match base.command_type {
            CommandType::Metric => match decode_metric(members) {
                Some(info) => Ok(Command::Metric(info)),
                None => Err(DecodeError::Metric),
            },
            CommandType::Action => match decode_action(members) {
                Some(info) => Ok(Command::Action(info)),
                None => Err(DecodeError::Action),
            },
        },
    }
}

/// Decodes one message: a JSON object with a `command_type` and the payload
/// that it names.
pub fn decode_command(text: &str) -> (command: Result<Command, DecodeError>)
    ensures
        agrees(command, decoded_text(text@)),
{
    match parse_members(text) {
        Ok(members) => decode_members(&members),
        Err(error) => Err(DecodeError::Malformed(error_text(&error))),
    }
}

/// The member value of a number that may be missing.
pub open spec fn optional_number(value: Option<u16>) -> JsonValueView {
    match value {
        Some(number) => JsonValueView::Number(Some(number as u64)),
        None => JsonValueView::Null,
    }
}

/// The members that a metric command is written with.
pub open spec fn metric_members(info: ProcessMetricInfo) -> Seq<JsonMemberView> {
    seq![
        JsonMemberView {
            name: "command_type"@,
            value: JsonValueView::Text(info.command_type.name()),
        },
        JsonMemberView { name: "metric_type"@, value: JsonValueView::Text(info.metric_type.name()) },
        JsonMemberView {
            name: "process_id"@,
            value: JsonValueView::Number(Some(info.process_id as u64)),
        },
        JsonMemberView { name: "thread_id"@, value: optional_number(info.thread_id) },
    ]
}

/// The members that an action command is written with.
pub open spec fn action_members(info: ProcessActionInfo) -> Seq<JsonMemberView> {
    seq![
        JsonMemberView { name: "action_type"@, value: JsonValueView::Text(info.action_type.name()) },
        JsonMemberView {
            name: "command_type"@,
            value: JsonValueView::Text(info.command_type.name()),
        },
        JsonMemberView {
            name: "process_id"@,
            value: JsonValueView::Number(Some(info.process_id as u64)),
        },
        JsonMemberView { name: "thread_id"@, value: optional_number(info.thread_id) },
    ]
}

fn write_optional_u16(value: Option<u16>) -> (written: JsonValue)
    ensures
        written@ == optional_number(value),
{
    match value {
        Some(number) => JsonValue::Number(Some(number as u64)),
        None => JsonValue::Null,
    }
}

impl ProcessMetricInfo {
    /// The members of the JSON object that stands for this command.
    pub fn to_members(&self) -> (members: Vec<JsonMember>)
        ensures
            members_view(members@) == metric_members(*self),
    {
        let mut members: Vec<JsonMember> = Vec::new();
        members.push(
            JsonMember {
                name: String::from_str("command_type"),
                value: JsonValue::Text(self.command_type.to_string()),
            },
        );
        members.push(
            JsonMember {
                name: String::from_str("metric_type"),
                value: JsonValue::Text(self.metric_type.to_string()),
            },
        );
        members.push(
            JsonMember {
                name: String::from_str("process_id"),
                value: JsonValue::Number(Some(self.process_id as u64)),
            },
        );
        members.push(
            JsonMember { name: String::from_str("thread_id"), value: write_optional_u16(self.thread_id) },
        );
        assert(members_view(members@) =~= metric_members(*self));
        members
    }

    /// The JSON text of this command, which holds no line feed.
    pub fn to_json(&self) -> (text: String)
        ensures
            text@ == json_text(metric_members(*self)),
            one_line(text@),
    {
        let members = self.to_members();
        render_members(&members)
    }
}

impl ProcessActionInfo {
    /// The members of the JSON object that stands for this command.
    pub fn to_members(&self) -> (members: Vec<JsonMember>)
        ensures
            members_view(members@) == action_members(*self),
    {
        let mut members: Vec<JsonMember> = Vec::new();
        members.push(
            JsonMember {
                name: String::from_str("action_type"),
                value: JsonValue::Text(self.action_type.to_string()),
            },
        );
        members.push(
            JsonMember {
                name: String::from_str("command_type"),
                value: JsonValue::Text(self.command_type.to_string()),
            },
        );
        members.push(
            JsonMember {
                name: String::from_str("process_id"),
                value: JsonValue::Number(Some(self.process_id as u64)),
            },
        );
        members.push(
            JsonMember { name: String::from_str("thread_id"), value: write_optional_u16(self.thread_id) },
        );
        assert(members_view(members@) =~= action_members(*self));
        members
    }

    /// The JSON text of this command, which holds no line feed.
    pub fn to_json(&self) -> (text: String)
        ensures
            text@ == json_text(action_members(*self)),
            one_line(text@),
    {
        let members = self.to_members();
        render_members(&members)
    }
}

/// The names of the members differ from one another.
proof fn member_names_differ()
    ensures
        "command_type"@ != "metric_type"@,
        "command_type"@ != "action_type"@,
        "command_type"@ != "process_id"@,
        "command_type"@ != "thread_id"@,
        "metric_type"@ != "process_id"@,
        "metric_type"@ != "thread_id"@,
        "action_type"@ != "process_id"@,
        "action_type"@ != "thread_id"@,
        "process_id"@ != "thread_id"@,
{
    reveal_strlit("command_type");
    reveal_strlit("metric_type");
    reveal_strlit("action_type");
    reveal_strlit("process_id");
    reveal_strlit("thread_id");
    assert("command_type"@.len() == 12);
    assert("metric_type"@.len() == 11);
    assert("action_type"@.len() == 11);
    assert("process_id"@.len() == 10);
    assert("thread_id"@.len() == 9);
}

/// A metric command that is written and decoded again is the same command:
/// decoding what `to_members` gives yields the command it was given.
pub proof fn metric_round_trip(info: ProcessMetricInfo)
    requires
        info.command_type == CommandType::Metric,
    ensures
        decoded(metric_members(info)) == Ok::<Command, DecodeFailure>(Command::Metric(info)),
        forall|again: ProcessMetricInfo|
            decoded(metric_members(info)) == Ok::<Command, DecodeFailure>(Command::Metric(again))
                ==> metric_members(again) == metric_members(info),
{
    member_names_differ();
    info.command_type.name_round_trip();
    info.metric_type.name_round_trip();
    let members = metric_members(info);
    reveal_with_fuel(member_named, 5);
    assert(member_named(members, "command_type"@) == Some(members[0].value));
    assert(members.drop_first()[0] == members[1]);
    assert(member_named(members, "metric_type"@) == Some(members[1].value));
    assert(members.drop_first().drop_first()[0] == members[2]);
    assert(member_named(members, "process_id"@) == Some(members[2].value));
    assert(members.drop_first().drop_first().drop_first()[0] == members[3]);
    assert(member_named(members, "thread_id"@) == Some(members[3].value));
}

/// The same of an action command.
pub proof fn action_round_trip(info: ProcessActionInfo)
    requires
        info.command_type == CommandType::Action,
    ensures
        decoded(action_members(info)) == Ok::<Command, DecodeFailure>(Command::Action(info)),
        forall|again: ProcessActionInfo|
            decoded(action_members(info)) == Ok::<Command, DecodeFailure>(Command::Action(again))
                ==> action_members(again) == action_members(info),
{
    member_names_differ();
    info.command_type.name_round_trip();
    info.action_type.name_round_trip();
    let members = action_members(info);
    reveal_with_fuel(member_named, 5);
    assert(member_named(members, "action_type"@) == Some(members[0].value));
    assert(members.drop_first()[0] == members[1]);
    assert(member_named(members, "command_type"@) == Some(members[1].value));
    assert(members.drop_first().drop_first()[0] == members[2]);
    assert(member_named(members, "process_id"@) == Some(members[2].value));
    assert(members.drop_first().drop_first().drop_first()[0] == members[3]);
    assert(member_named(members, "thread_id"@) == Some(members[3].value));
}

/// Decoding is a fixed point of writing and decoding again: the command
/// that an object decodes to, written with its own members, decodes to the
/// same command.
pub proof fn decode_round_trip(members: Seq<JsonMemberView>)
    ensures
        match decoded(members) {
            Ok(Command::Metric(info)) => decoded(metric_members(info)) == decoded(members),
            Ok(Command::Action(info)) => decoded(action_members(info)) == decoded(members),
            Err(_) => true,
        },
{
    match decoded(members) {
        Ok(Command::Metric(info)) => {
            metric_round_trip(info);
        },
        Ok(Command::Action(info)) => {
            action_round_trip(info);
        },
        Err(_) => {},
    }
}

} // verus!
