//! JSON objects as the agent reads and writes them: a list of named members
//! whose values are texts, unsigned numbers or `null`.

use vstd::prelude::*;

verus! {

/// The value of one member of a JSON object, as far as the agent reads it.
#[derive(Debug, Clone, PartialEq, Eq)]
pub enum JsonValue {
    /// `null`.
    Null,
    /// A string.
    Text(String),
    /// A number; `None` where it is no unsigned integer of 64 bits.
    Number(Option<u64>),
    /// A boolean, an array or an object, or a value that the parser cannot
    /// hold, such as a number too large for it.
    Other,
}

/// One member of a JSON object.
#[derive(Debug, Clone, PartialEq, Eq)]
pub struct JsonMember {
    pub name: String,
    pub value: JsonValue,
}

/// A member's value, with its text as a sequence of characters.
pub enum JsonValueView {
    Null,
    Text(Seq<char>),
    Number(Option<u64>),
    Other,
}

/// A member, with its name as a sequence of characters.
pub struct JsonMemberView {
    pub name: Seq<char>,
    pub value: JsonValueView,
}

impl View for JsonValue {
    type V = JsonValueView;

    open spec fn view(&self) -> JsonValueView {
        match self {
            JsonValue::Null => JsonValueView::Null,
            JsonValue::Text(text) => JsonValueView::Text(text@),
            JsonValue::Number(number) => JsonValueView::Number(*number),
            JsonValue::Other => JsonValueView::Other,
        }
    }
}

impl View for JsonMember {
    type V = JsonMemberView;

    open spec fn view(&self) -> JsonMemberView {
        JsonMemberView { name: self.name@, value: self.value@ }
    }
}

/// The views of a list of members, in order.
pub open spec fn members_view(members: Seq<JsonMember>) -> Seq<JsonMemberView> {
    members.map_values(|member: JsonMember| member@)
}

/// Whether a value can be written as JSON: all but `Other` and a number that
/// is no unsigned integer.
pub open spec fn writable(value: JsonValueView) -> bool {
    match value {
        JsonValueView::Null => true,
        JsonValueView::Text(_) => true,
        JsonValueView::Number(number) => number is Some,
        JsonValueView::Other => false,
    }
}

/// Whether every member's value can be written as JSON.
pub open spec fn all_writable(members: Seq<JsonMemberView>) -> bool {
    forall|i: int| 0 <= i < members.len() ==> writable(#[trigger] members[i].value)
}

/// The value of the first member called `name`.
pub open spec fn member_named(members: Seq<JsonMemberView>, name: Seq<char>) -> Option<
    JsonValueView,
>
    decreases members.len(),
{
    if members.len() == 0 {
        None
    } else if members[0].name == name {
        Some(members[0].value)
    } else {
        member_named(members.drop_first(), name)
    }
}

/// The members of the JSON object that `text` holds, as the parser hands
/// them out: in the order of their names, and of members of one name the
/// last. `None` where the parser does not take `text` for one JSON object.
pub uninterp spec fn json_members(text: Seq<char>) -> Option<Seq<JsonMemberView>>;

/// The compact JSON text of the object with these members.
pub uninterp spec fn json_text(members: Seq<JsonMemberView>) -> Seq<char>;

/// Whether `text` holds no line feed.
pub open spec fn one_line(text: Seq<char>) -> bool {
    forall|i: int| 0 <= i < text.len() ==> text[i] != '\n'
}

/// `serde_json::Error`, carried from the parser to the text of a decode
/// error; nothing is read of it but its message.
#[verifier::external_type_specification]
#[verifier::external_body]
pub struct ExJsonError(serde_json::Error);

/// `serde_json::from_str`, first of the whole text into a map from names to
/// raw values, which skips each value without reading it, then of each raw
/// value by itself. Whether `text` is a JSON object, and which members it
/// has, depends on `text` alone. Each value is handed out by its variant, a
/// number as `Number::as_u64` gives it, and one that cannot be read as
/// `Other`.
#[verifier::external_body]
pub(crate) fn parse_members(text: &str) -> (parsed: Result<Vec<JsonMember>, serde_json::Error>)
    ensures
        parsed is Ok <==> json_members(text@) is Some,
        parsed matches Ok(members) ==> Some(members_view(members@)) == json_members(text@),
{
    let object: std::collections::BTreeMap<String, Box<serde_json::value::RawValue>> =
        serde_json::from_str(text)?;
    let mut members = Vec::new();
    for (name, raw) in object {
        let value = match serde_json::from_str::<serde_json::Value>(raw.get()) {
            Ok(serde_json::Value::Null) => JsonValue::Null,
            Ok(serde_json::Value::String(text)) => JsonValue::Text(text),
            Ok(serde_json::Value::Number(number)) => JsonValue::Number(number.as_u64()),
            _ => JsonValue::Other,
        };
        members.push(JsonMember { name, value });
    }
    Ok(members)
}

/// The `Display` of a `serde_json::Error`: its message. Nothing is claimed
/// of the text.
#[verifier::external_body]
pub(crate) fn error_text(error: &serde_json::Error) -> (text: String) {
    error.to_string()
}

/// The `Display` of a `serde_json::Value` that is an object with these
/// members: its compact text depends on the members alone. The text holds no
/// line feed: the compact form puts none between its parts, and one inside a
/// name or a string is written as an escape.
#[verifier::external_body]
pub(crate) fn render_members(members: &Vec<JsonMember>) -> (text: String)
    requires
        all_writable(members_view(members@)),
    ensures
        text@ == json_text(members_view(members@)),
        one_line(text@),
{
    let mut object = serde_json::Map::new();
    for member in members {
        let value = match &member.value {
            JsonValue::Text(text) => serde_json::Value::String(text.clone()),
            JsonValue::Number(Some(number)) => serde_json::Value::from(*number),
            _ => serde_json::Value::Null,
        };
        object.insert(member.name.clone(), value);
    }
    serde_json::Value::Object(object).to_string()
}

/// The value of the first member called `name`.
pub fn find_member<'a>(members: &'a Vec<JsonMember>, name: &str) -> (found: Option<&'a JsonValue>)
    ensures
        match found {
            Some(value) => member_named(members_view(members@), name@) == Some(value@),
            None => member_named(members_view(members@), name@) is None,
        },
{
    let mut i: usize = 0;
    assert(members_view(members@).skip(0) =~= members_view(members@));
    while i < members.len()
        invariant
            i <= members.len(),
            member_named(members_view(members@), name@) == member_named(
                members_view(members@).skip(i as int),
                name@,
            ),
        decreases members.len() - i,
    {
        let ghost rest = members_view(members@).skip(i as int);
        assert(rest.len() > 0);
        assert(rest[0] == members@[i as int]@);
        assert(rest.drop_first() =~= members_view(members@).skip(i + 1));
        if crate::helper::text::same_text(members[i].name.as_str(), name) {
            return Some(&members[i].value);
        }
        i += 1;
    }
    assert(members_view(members@).skip(i as int).len() == 0);
    None
}

} // verus!
