//! What becomes of one message that a connection delivers.

use crate::data_processor::envelope::{
    decode_command, decoded_text, Command, DecodeError, DecodeFailure,
};
use crate::data_processor::store::{ActionType, MetricType, ProcessActionInfo, ProcessMetricInfo};
use crate::helper::text::{trim, trimmed};
use vstd::prelude::*;
use vstd::string::StringExecFns;

verus! {

/// What a failure of this kind reads as in a log, given the text that a
/// malformed message came with.
pub open spec fn failure_message(failure: DecodeFailure, detail: Seq<char>) -> Seq<char> {
    match failure {
        DecodeFailure::Malformed => "解析基础命令数据失败: "@ + detail,
        DecodeFailure::Envelope => "解析基础命令数据失败: no known command_type"@,
        DecodeFailure::Metric => "解析指标数据失败: not a metric command"@,
        DecodeFailure::Action => "解析操作数据失败: not an action command"@,
    }
}

impl DecodeError {
    /// The text that a malformed message came with; empty of the other
    /// errors.
    pub open spec fn detail(self) -> Seq<char> {
        match self {
            DecodeError::Malformed(detail) => detail@,
            _ => Seq::<char>::empty(),
        }
    }

    /// What this error reads as in a log.
    pub open spec fn message(self) -> Seq<char> {
        failure_message(self.failure(), self.detail())
    }

    /// What this error reads as in a log.
    pub fn to_string(&self) -> (text: String)
        ensures
            text@ == self.message(),
    {
        match self {
            DecodeError::Malformed(detail) => String::from_str("解析基础命令数据失败: ").concat(
                detail.as_str(),
            ),
            DecodeError::Envelope => String::from_str("解析基础命令数据失败: no known command_type"),
            DecodeError::Metric => String::from_str("解析指标数据失败: not a metric command"),
            DecodeError::Action => String::from_str("解析操作数据失败: not an action command"),
        }
    }
}

/// Whether `text` reports why `data` does not decode.
pub open spec fn reports_failure(text: Seq<char>, data: Seq<char>) -> bool {
    exists|detail: Seq<char>| text == failure_message(decoded_text(data)->Err_0, detail)
}

/// Handles a metric command. Neither kind of metric is acted on yet, so
/// every command succeeds.
pub fn handle_metric(metric_info: ProcessMetricInfo) -> (done: Result<(), String>)
    ensures
        done == Ok::<(), String>(()),
{
    match metric_info.metric_type {
        MetricType::Cpu => Ok(()),
        MetricType::Memory => Ok(()),
    }
}

/// Handles an action command. Neither kind of action is acted on yet, so
/// every command succeeds.
pub fn handle_action(action_info: ProcessActionInfo) -> (done: Result<(), String>)
    ensures
        done == Ok::<(), String>(()),
{
    match action_info.action_type {
        ActionType::GetCpuProfile => Ok(()),
        ActionType::GetMemoryProfile => Ok(()),
    }
}

/// Hands a decoded command to the handler of its kind.
pub fn dispatch(command: Command) -> (done: Result<(), String>)
    ensures
        done == Ok::<(), String>(()),
{
    match command {
        Command::Metric(info) => handle_metric(info),
        Command::Action(info) => handle_action(info),
    }
}

/// Decodes one message and hands the command to its handler. A message that
/// does not decode is an error, with the text for the log.
pub fn process_data(data: &str) -> (done: Result<(), String>)
    ensures
        done is Ok <==> decoded_text(data@) is Ok,
        done matches Err(text) ==> reports_failure(text@, data@),
{
    match decode_command(data) {
        Ok(command) => dispatch(command),
        Err(error) => {
            let text = error.to_string();
            assert(text@ == failure_message(decoded_text(data@)->Err_0, error.detail()));
            Err(text)
        },
    }
}

/// What became of one message.
#[derive(Debug, Clone, PartialEq, Eq)]
pub enum Delivery {
    /// The message held white space only and was passed over.
    Blank,
    /// The message was decoded and its command handled.
    Handled,
    /// The message was dropped; the text is for the log.
    Failed(String),
}

/// What becomes of a message: `None` where it is blank, else whether it
/// decodes.
pub open spec fn delivered(data: Seq<char>) -> Option<bool> {
    if trimmed(data).len() == 0 {
        None
    } else {
        Some(decoded_text(data) is Ok)
    }
}

impl Delivery {
    /// Whether this delivery is the one that `expected` stands for.
    pub open spec fn is_as(self, expected: Option<bool>) -> bool {
        match self {
            Delivery::Blank => expected is None,
            Delivery::Handled => expected == Some(true),
            Delivery::Failed(_) => expected == Some(false),
        }
    }
}

/// Receives one message from a connection: a blank one is passed over, any
/// other is decoded and handled.
pub fn data_subscription(data: &str) -> (delivery: Delivery)
    ensures
        delivery.is_as(delivered(data@)),
        delivery matches Delivery::Failed(text) ==> reports_failure(text@, data@),
{
    if trim(data).is_empty() {
        return Delivery::Blank;
    }
    match process_data(data) {
        Ok(()) => Delivery::Handled,
        Err(text) => Delivery::Failed(text),
    }
}

} // verus!
