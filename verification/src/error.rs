//! The error type of the proxy's job runner.

use vstd::prelude::*;

verus! {

/// An error of the job runner, each with its message.
#[derive(PartialEq, Eq)]
pub enum PdaRunnerError {
    InternalError(String),
    ZkClientError(String),
    DaClientError(String),
    InvalidParameter(String),
}

/// `prefix` followed by `inner`.
pub(crate) fn prefixed(prefix: &str, inner: &str) -> (out: String)
    ensures
        out@ == prefix@ + inner@,
{
    let mut out = String::from_str(prefix);
    out.append(inner);
    out
}

/// `inner` between `prefix` and `suffix`.
pub(crate) fn wrap(prefix: &str, inner: &str, suffix: &str) -> (out: String)
    ensures
        out@ == prefix@ + inner@ + suffix@,
{
    let mut out = String::from_str(prefix);
    out.append(inner);
    out.append(suffix);
    out
}

/// The model of a runner error: its kind and its message.
pub enum ErrorView {
    InternalError(Seq<char>),
    ZkClientError(Seq<char>),
    DaClientError(Seq<char>),
    InvalidParameter(Seq<char>),
}

impl ErrorView {
    /// The text `to_string` gives: the error's kind, then its message.
    pub open spec fn display_text(self) -> Seq<char> {
        match self {
            ErrorView::InternalError(s) => "Service: "@ + s,
            ErrorView::ZkClientError(s) => "ZK Prover: "@ + s,
            ErrorView::DaClientError(s) => "Data Availability Node: "@ + s,
            ErrorView::InvalidParameter(s) => "Invalid parameter: "@ + s,
        }
    }

    /// The debug text: the variant's name and the message, unescaped, in
    /// parentheses (kept free of escapes to read well inside JSON).
    pub open spec fn debug_text(self) -> Seq<char> {
        match self {
            ErrorView::InternalError(s) => "InternalError("@ + s + ")"@,
            ErrorView::ZkClientError(s) => "ZkClientError("@ + s + ")"@,
            ErrorView::DaClientError(s) => "DaClientError("@ + s + ")"@,
            ErrorView::InvalidParameter(s) => "InvalidParameter("@ + s + ")"@,
        }
    }
}

impl View for PdaRunnerError {
    type V = ErrorView;

    open spec fn view(&self) -> ErrorView {
        match self {
            PdaRunnerError::InternalError(s) => ErrorView::InternalError(s@),
            PdaRunnerError::ZkClientError(s) => ErrorView::ZkClientError(s@),
            PdaRunnerError::DaClientError(s) => ErrorView::DaClientError(s@),
            PdaRunnerError::InvalidParameter(s) => ErrorView::InvalidParameter(s@),
        }
    }
}

impl Clone for PdaRunnerError {
    fn clone(&self) -> (copy: Self)
        ensures
            copy@ == self@,
    {
        match self {
            PdaRunnerError::InternalError(s) => PdaRunnerError::InternalError(s.clone()),
            PdaRunnerError::ZkClientError(s) => PdaRunnerError::ZkClientError(s.clone()),
            PdaRunnerError::DaClientError(s) => PdaRunnerError::DaClientError(s.clone()),
            PdaRunnerError::InvalidParameter(s) => PdaRunnerError::InvalidParameter(s.clone()),
        }
    }
}

impl PdaRunnerError {
    /// The error as text: its kind, then its message.
    pub fn to_string(&self) -> (text: String)
        ensures
            text@ == self@.display_text(),
    {
        match self {
            PdaRunnerError::InternalError(s) => prefixed("Service: ", s.as_str()),
            PdaRunnerError::ZkClientError(s) => prefixed("ZK Prover: ", s.as_str()),
            PdaRunnerError::DaClientError(s) => prefixed("Data Availability Node: ", s.as_str()),
            PdaRunnerError::InvalidParameter(s) => prefixed("Invalid parameter: ", s.as_str()),
        }
    }

    /// The error as debug text, such as `InternalError(message)`.
    pub fn debug_string(&self) -> (text: String)
        ensures
            text@ == self@.debug_text(),
    {
        match self {
            PdaRunnerError::InternalError(s) => wrap("InternalError(", s.as_str(), ")"),
            PdaRunnerError::ZkClientError(s) => wrap("ZkClientError(", s.as_str(), ")"),
            PdaRunnerError::DaClientError(s) => wrap("DaClientError(", s.as_str(), ")"),
            PdaRunnerError::InvalidParameter(s) => wrap("InvalidParameter(", s.as_str(), ")"),
        }
    }
}

} // verus!
