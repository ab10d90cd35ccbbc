//! The errors of the application.

use crate::helper::json::error_text;
use vstd::prelude::*;
use vstd::string::StringExecFns;

verus! {

/// An error of the application, with its text.
#[derive(Debug, Clone, PartialEq, Eq)]
pub enum AppError {
    /// An error of input or output.
    Io(String),
    /// A configuration that cannot be used.
    Config(String),
    /// An error on the network.
    Network(String),
    /// An error while data was processed.
    DataProcessing(String),
    /// Data that could not be read or written in its format.
    Serialization(String),
    /// Any other error.
    Unknown(String),
}

impl AppError {
    /// The text that the error carries.
    pub open spec fn detail(self) -> Seq<char> {
        match self {
            AppError::Io(text) => text@,
            AppError::Config(text) => text@,
            AppError::Network(text) => text@,
            AppError::DataProcessing(text) => text@,
            AppError::Serialization(text) => text@,
            AppError::Unknown(text) => text@,
        }
    }

    /// What stands before the text when the error is shown.
    pub open spec fn label(self) -> Seq<char> {
        match self {
            AppError::Io(_) => "IO 错误: "@,
            AppError::Config(_) => "配置错误: "@,
            AppError::Network(_) => "网络错误: "@,
            AppError::DataProcessing(_) => "数据处理错误: "@,
            AppError::Serialization(_) => "序列化错误: "@,
            AppError::Unknown(_) => "未知错误: "@,
        }
    }

    /// What the user is told of an error of this kind.
    pub open spec fn friendly(self) -> Seq<char> {
        match self {
            AppError::Io(_) => "系统 IO 操作失败"@,
            AppError::Config(_) => "配置参数错误"@,
            AppError::Network(_) => "网络连接失败"@,
            AppError::DataProcessing(_) => "数据处理失败"@,
            AppError::Serialization(_) => "数据格式错误"@,
            AppError::Unknown(_) => "未知错误"@,
        }
    }

    /// The error as it is shown: the label of its kind, then its text.
    pub fn to_string(&self) -> (shown: String)
        ensures
            shown@ == self.label() + self.detail(),
    {
        match self {
            AppError::Io(text) => String::from_str("IO 错误: ").concat(text.as_str()),
            AppError::Config(text) => String::from_str("配置错误: ").concat(text.as_str()),
            AppError::Network(text) => String::from_str("网络错误: ").concat(text.as_str()),
            AppError::DataProcessing(text) => String::from_str("数据处理错误: ").concat(
                text.as_str(),
            ),
            AppError::Serialization(text) => String::from_str("序列化错误: ").concat(text.as_str()),
            AppError::Unknown(text) => String::from_str("未知错误: ").concat(text.as_str()),
        }
    }

    /// The error that stands for a text alone.
    pub fn from_text(text: &str) -> (error: AppError)
        ensures
            error is Unknown,
            error.detail() == text@,
    {
        AppError::Unknown(String::from_str(text))
    }

    /// The error that stands for a failure of input or output, by the
    /// failure's text.
    pub fn from_io_text(text: &str) -> (error: AppError)
        ensures
            error is Io,
            error.detail() == text@,
    {
        AppError::Io(String::from_str(text))
    }

    /// The error that stands for a failure to read or write JSON; it carries
    /// the failure's message.
    pub fn from_json(error: &serde_json::Error) -> (converted: AppError)
        ensures
            converted is Serialization,
    {
        AppError::Serialization(error_text(error))
    }
}

impl From<String> for AppError {
    /// The error that stands for a text alone.
    fn from(msg: String) -> (error: AppError) {
        AppError::Unknown(msg)
    }
}

impl vstd::std_specs::convert::FromSpecImpl<String> for AppError {
    open spec fn obeys_from_spec() -> bool {
        true
    }

    open spec fn from_spec(msg: String) -> AppError {
        AppError::Unknown(msg)
    }
}

/// What a function of the application returns.
pub type AppResult<T> = Result<T, AppError>;

/// What the user is told of an error: a sentence for its kind, without the
/// text.
pub fn to_user_friendly(error: &AppError) -> (told: String)
    ensures
        told@ == error.friendly(),
{
    match error {
        AppError::Io(_) => String::from_str("系统 IO 操作失败"),
        AppError::Config(_) => String::from_str("配置参数错误"),
        AppError::Network(_) => String::from_str("网络连接失败"),
        AppError::DataProcessing(_) => String::from_str("数据处理失败"),
        AppError::Serialization(_) => String::from_str("数据格式错误"),
        AppError::Unknown(_) => String::from_str("未知错误"),
    }
}

/// The line that reports an error in the log.
pub fn log_error(error: &AppError) -> (line: String)
    ensures
        line@ == "[Agent] ERROR: 错误: "@ + error.label() + error.detail(),
{
    let shown = error.to_string();
    let line = String::from_str("[Agent] ERROR: 错误: ").concat(shown.as_str());
    assert(line@ =~= "[Agent] ERROR: 错误: "@ + error.label() + error.detail());
    line
}

} // verus!
