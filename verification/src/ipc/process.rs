//! The control channel: one JSON line per event, written to a descriptor
//! that the parent opened.

use crate::helper::constants::IpcMessageCode;
use crate::helper::json::{
    json_text, members_view, one_line, render_members, JsonMember, JsonMemberView, JsonValue,
    JsonValueView,
};
use vstd::prelude::*;
use vstd::string::StringExecFns;

verus! {

/// A status message for the parent.
#[derive(Debug, Clone, PartialEq, Eq)]
pub struct IpcMessage {
    pub code: IpcMessageCode,
    pub message: String,
}

/// A message with its text as a sequence of characters.
pub struct IpcMessageView {
    pub code: IpcMessageCode,
    pub message: Seq<char>,
}

impl View for IpcMessage {
    type V = IpcMessageView;

    open spec fn view(&self) -> IpcMessageView {
        IpcMessageView { code: self.code, message: self.message@ }
    }
}

/// The members that a message is written with: its code as a number, then
/// its text.
pub open spec fn message_members(message: IpcMessageView) -> Seq<JsonMemberView> {
    seq![
        JsonMemberView { name: "code"@, value: JsonValueView::Number(Some(message.code.number())) },
        JsonMemberView { name: "message"@, value: JsonValueView::Text(message.message) },
    ]
}

/// The line that a message is written as: its JSON text and a line feed.
pub open spec fn message_line(message: IpcMessageView) -> Seq<char> {
    json_text(message_members(message)) + "\n"@
}

impl IpcMessage {
    /// The members of the JSON object that stands for this message.
    pub fn to_members(&self) -> (members: Vec<JsonMember>)
        ensures
            members_view(members@) == message_members(self@),
    {
        let mut members: Vec<JsonMember> = Vec::new();
        members.push(
            JsonMember {
                name: String::from_str("code"),
                value: JsonValue::Number(Some(self.code.code())),
            },
        );
        members.push(
            JsonMember {
                name: String::from_str("message"),
                value: JsonValue::Text(self.message.clone()),
            },
        );
        assert(members_view(members@) =~= message_members(self@));
        members
    }

    /// The JSON text of this message, which holds no line feed.
    pub fn to_json(&self) -> (text: String)
        ensures
            text@ == json_text(message_members(self@)),
            one_line(text@),
    {
        let members = self.to_members();
        render_members(&members)
    }

    /// The line to write to the control channel: exactly one line, whatever
    /// the message's text holds.
    pub fn to_line(&self) -> (line: String)
        ensures
            line@ == message_line(self@),
            line@.len() > 0,
            line@.last() == '\n',
            one_line(line@.drop_last()),
    {
        let text = self.to_json();
        let line = text.concat("\n");
        proof {
            reveal_strlit("\n");
            assert("\n"@ =~= seq!['\n']);
            assert(line@.drop_last() =~= json_text(message_members(self@)));
        }
        line
    }
}

/// The path under which the inherited descriptor can be opened.
pub fn get_ipc_path(macos: bool) -> (path: &'static str)
    ensures
        path@ == (if macos {
            "/dev/fd/3"@
        } else {
            "/proc/self/fd/3"@
        }),
{
    if macos {
        "/dev/fd/3"
    } else {
        "/proc/self/fd/3"
    }
}

} // verus!
