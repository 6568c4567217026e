//! Error kinds and the messages shown to the user for them.

use vstd::prelude::*;

verus! {

/// An error as the user sees it: a message without internal details, and
/// whether trying again may help.
#[derive(Clone, Debug, PartialEq, Eq)]
pub struct UserFacingError {
    message: String,
    retryable: bool,
}

impl UserFacingError {
    pub closed spec fn message_view(&self) -> Seq<char> {
        self.message@
    }

    pub closed spec fn retryable_view(&self) -> bool {
        self.retryable
    }

    /// An error with the given message.
    pub fn new(message: &str, retryable: bool) -> (r: Self)
        ensures
            r.message_view() == message@,
            r.retryable_view() == retryable,
    {
        UserFacingError { message: message.to_owned(), retryable }
    }

    /// The message shown to the user.
    pub fn message(&self) -> (r: &str)
        ensures
            r@ == self.message_view(),
    {
        self.message.as_str()
    }

    /// Whether trying again may help.
    pub fn retryable(&self) -> (r: bool)
        ensures
            r == self.retryable_view(),
    {
        self.retryable
    }
}

/// A tool was called with input it cannot work with; the text says why.
#[derive(Clone, Copy, Debug, PartialEq, Eq)]
pub struct ToolInputError(pub &'static str);

impl ToolInputError {
    /// The explanation, as text.
    pub fn to_string(&self) -> (r: String)
        ensures
            r@ == self.0@,
    {
        self.0.to_owned()
    }
}

/// Why a model reply failed.
#[derive(Clone, Copy, Debug, PartialEq, Eq)]
pub enum AppError {
    /// The streaming request to the model failed.
    ModelRequest,
    /// The model's stream ended without a final response.
    MissingFinalResponse,
}

/// The message shown for a failed model request.
pub open spec fn model_failure_message() -> Seq<char> {
    "请求失败：模型请求失败，请检查网络、模型配置和服务状态后重试。"@
}

impl AppError {
    /// What went wrong, for logs and error chains.
    pub fn to_string(&self) -> (r: String)
        ensures
            r@ == match self {
                AppError::ModelRequest => "模型流式请求失败"@,
                AppError::MissingFinalResponse => "模型流式响应未返回结束事件"@,
            },
    {
        match self {
            AppError::ModelRequest => "模型流式请求失败".to_owned(),
            AppError::MissingFinalResponse => "模型流式响应未返回结束事件".to_owned(),
        }
    }

    /// The user-facing form: every model failure gets the same message
    /// without internal details, and may be retried.
    pub fn user_facing(&self) -> (r: UserFacingError)
        ensures
            r.message_view() == model_failure_message(),
            r.retryable_view(),
    {
        match self {
            AppError::ModelRequest | AppError::MissingFinalResponse => UserFacingError::new(
                "请求失败：模型请求失败，请检查网络、模型配置和服务状态后重试。",
                true,
            ),
        }
    }
}

} // verus!
