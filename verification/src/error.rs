//! The errors that the router answers a request with.

use vstd::prelude::*;
use crate::json::{Json, JsonModel};

verus! {

/// What went wrong, in one word.
#[derive(Clone, Copy, Debug, PartialEq, Eq, Structural)]
pub enum ErrorCode {
    AutomationPaused,
    DaemonNotRunning,
    ElementNotFound,
    ElementNotInteractable,
    FileNotFound,
    InternalError,
    InvalidInput,
    IpcTimeout,
    SessionBusy,
    StaleSnapshot,
    WaitTimeout,
}

/// The name of an error code.
pub open spec fn code_name(code: ErrorCode) -> Seq<char> {
    match code {
        ErrorCode::AutomationPaused => "AUTOMATION_PAUSED"@,
        ErrorCode::DaemonNotRunning => "DAEMON_NOT_RUNNING"@,
        ErrorCode::ElementNotFound => "ELEMENT_NOT_FOUND"@,
        ErrorCode::ElementNotInteractable => "ELEMENT_NOT_INTERACTABLE"@,
        ErrorCode::FileNotFound => "FILE_NOT_FOUND"@,
        ErrorCode::InternalError => "INTERNAL_ERROR"@,
        ErrorCode::InvalidInput => "INVALID_INPUT"@,
        ErrorCode::IpcTimeout => "IPC_TIMEOUT"@,
        ErrorCode::SessionBusy => "SESSION_BUSY"@,
        ErrorCode::StaleSnapshot => "STALE_SNAPSHOT"@,
        ErrorCode::WaitTimeout => "WAIT_TIMEOUT"@,
    }
}

impl ErrorCode {
    /// The name of the code.
    pub fn as_str(self) -> (r: &'static str)
        ensures
            r@ == code_name(self),
    {
        match self {
            ErrorCode::AutomationPaused => "AUTOMATION_PAUSED",
            ErrorCode::DaemonNotRunning => "DAEMON_NOT_RUNNING",
            ErrorCode::ElementNotFound => "ELEMENT_NOT_FOUND",
            ErrorCode::ElementNotInteractable => "ELEMENT_NOT_INTERACTABLE",
            ErrorCode::FileNotFound => "FILE_NOT_FOUND",
            ErrorCode::InternalError => "INTERNAL_ERROR",
            ErrorCode::InvalidInput => "INVALID_INPUT",
            ErrorCode::IpcTimeout => "IPC_TIMEOUT",
            ErrorCode::SessionBusy => "SESSION_BUSY",
            ErrorCode::StaleSnapshot => "STALE_SNAPSHOT",
            ErrorCode::WaitTimeout => "WAIT_TIMEOUT",
        }
    }
}

/// An error as a client reads it.
#[derive(Debug)]
pub struct ErrorEnvelope {
    pub code: ErrorCode,
    pub message: String,
    pub suggestion: String,
    pub context: Option<Json>,
}

/// An error of the router: one that a client can act on, or a fault inside.
#[derive(Debug)]
pub enum RubError {
    Domain(ErrorEnvelope),
    Internal(String),
}

/// What an error says.
#[verifier::ext_equal]
pub struct EnvelopeModel {
    pub code: ErrorCode,
    pub message: Seq<char>,
    pub suggestion: Seq<char>,
    pub context: Option<JsonModel>,
}

/// What an error of the router says.
#[verifier::ext_equal]
pub enum ErrorModel {
    Domain(EnvelopeModel),
    Internal(Seq<char>),
}

pub open spec fn opt_error(o: Option<RubError>) -> Option<ErrorModel> {
    match o {
        Some(e) => Some(e@),
        None => None,
    }
}

pub open spec fn opt_context(o: Option<Json>) -> Option<JsonModel> {
    match o {
        Some(j) => Some(j@),
        None => None,
    }
}

impl View for ErrorEnvelope {
    type V = EnvelopeModel;

    open spec fn view(&self) -> EnvelopeModel {
        EnvelopeModel {
            code: self.code,
            message: self.message@,
            suggestion: self.suggestion@,
            context: opt_context(self.context),
        }
    }
}

impl View for RubError {
    type V = ErrorModel;

    open spec fn view(&self) -> ErrorModel {
        match self {
            RubError::Domain(e) => ErrorModel::Domain(e@),
            RubError::Internal(s) => ErrorModel::Internal(s@),
        }
    }
}

/// An error without context or suggestion.
pub open spec fn plain(code: ErrorCode, message: Seq<char>) -> ErrorModel {
    ErrorModel::Domain(
        EnvelopeModel { code, message, suggestion: Seq::empty(), context: None },
    )
}

/// An error with context.
pub open spec fn with_context(
    code: ErrorCode,
    message: Seq<char>,
    context: JsonModel,
) -> ErrorModel {
    ErrorModel::Domain(
        EnvelopeModel { code, message, suggestion: Seq::empty(), context: Some(context) },
    )
}

/// An error with context and a suggestion.
pub open spec fn with_suggestion(
    code: ErrorCode,
    message: Seq<char>,
    context: JsonModel,
    suggestion: Seq<char>,
) -> ErrorModel {
    ErrorModel::Domain(EnvelopeModel { code, message, suggestion, context: Some(context) })
}

/// The envelope that a client reads for an error.
pub open spec fn envelope_of(e: ErrorModel) -> EnvelopeModel {
    match e {
        ErrorModel::Domain(envelope) => envelope,
        ErrorModel::Internal(message) => EnvelopeModel {
            code: ErrorCode::InternalError,
            message,
            suggestion: Seq::empty(),
            context: None,
        },
    }
}

/// The error of a failed result.
pub open spec fn err_model<T>(r: Result<T, RubError>) -> Option<ErrorModel> {
    match r {
        Ok(_) => None,
        Err(e) => Some(e@),
    }
}

impl RubError {
    /// An error without context or suggestion.
    pub fn domain(code: ErrorCode, message: &str) -> (r: RubError)
        ensures
            r@ == plain(code, message@),
    {
        RubError::Domain(
            ErrorEnvelope {
                code,
                message: message.to_owned(),
                suggestion: String::new(),
                context: None,
            },
        )
    }

    /// An error with context.
    pub fn domain_with_context(code: ErrorCode, message: &str, context: Json) -> (r: RubError)
        ensures
            r@ == with_context(code, message@, context@),
    {
        RubError::Domain(
            ErrorEnvelope {
                code,
                message: message.to_owned(),
                suggestion: String::new(),
                context: Some(context),
            },
        )
    }

    /// An error with context and a suggestion.
    pub fn domain_with_context_and_suggestion(
        code: ErrorCode,
        message: &str,
        context: Json,
        suggestion: &str,
    ) -> (r: RubError)
        ensures
            r@ == with_suggestion(code, message@, context@, suggestion@),
    {
        RubError::Domain(
            ErrorEnvelope {
                code,
                message: message.to_owned(),
                suggestion: suggestion.to_owned(),
                context: Some(context),
            },
        )
    }

    /// The envelope that a client reads.
    pub fn into_envelope(self) -> (r: ErrorEnvelope)
        ensures
            r@ == envelope_of(self@),
    {
        match self {
            RubError::Domain(envelope) => envelope,
            RubError::Internal(message) => ErrorEnvelope {
                code: ErrorCode::InternalError,
                message,
                suggestion: String::new(),
                context: None,
            },
        }
    }
}

/// The codes of errors go by different names.
pub proof fn codes_are_told_apart(a: ErrorCode, b: ErrorCode)
    ensures
        code_name(a) == code_name(b) <==> a == b,
{
    reveal_strlit("AUTOMATION_PAUSED");
    reveal_strlit("DAEMON_NOT_RUNNING");
    reveal_strlit("ELEMENT_NOT_FOUND");
    reveal_strlit("ELEMENT_NOT_INTERACTABLE");
    reveal_strlit("FILE_NOT_FOUND");
    reveal_strlit("INTERNAL_ERROR");
    reveal_strlit("INVALID_INPUT");
    reveal_strlit("IPC_TIMEOUT");
    reveal_strlit("SESSION_BUSY");
    reveal_strlit("STALE_SNAPSHOT");
    reveal_strlit("WAIT_TIMEOUT");
    assert("AUTOMATION_PAUSED"@.len() != "DAEMON_NOT_RUNNING"@.len());
    assert("AUTOMATION_PAUSED"@[0] != "ELEMENT_NOT_FOUND"@[0]);
    assert("AUTOMATION_PAUSED"@.len() != "ELEMENT_NOT_INTERACTABLE"@.len());
    assert("AUTOMATION_PAUSED"@.len() != "FILE_NOT_FOUND"@.len());
    assert("AUTOMATION_PAUSED"@.len() != "INTERNAL_ERROR"@.len());
    assert("AUTOMATION_PAUSED"@.len() != "INVALID_INPUT"@.len());
    assert("AUTOMATION_PAUSED"@.len() != "IPC_TIMEOUT"@.len());
    assert("AUTOMATION_PAUSED"@.len() != "SESSION_BUSY"@.len());
    assert("AUTOMATION_PAUSED"@.len() != "STALE_SNAPSHOT"@.len());
    assert("AUTOMATION_PAUSED"@.len() != "WAIT_TIMEOUT"@.len());
    assert("DAEMON_NOT_RUNNING"@.len() != "ELEMENT_NOT_FOUND"@.len());
    assert("DAEMON_NOT_RUNNING"@.len() != "ELEMENT_NOT_INTERACTABLE"@.len());
    assert("DAEMON_NOT_RUNNING"@.len() != "FILE_NOT_FOUND"@.len());
    assert("DAEMON_NOT_RUNNING"@.len() != "INTERNAL_ERROR"@.len());
    assert("DAEMON_NOT_RUNNING"@.len() != "INVALID_INPUT"@.len());
    assert("DAEMON_NOT_RUNNING"@.len() != "IPC_TIMEOUT"@.len());
    assert("DAEMON_NOT_RUNNING"@.len() != "SESSION_BUSY"@.len());
    assert("DAEMON_NOT_RUNNING"@.len() != "STALE_SNAPSHOT"@.len());
    assert("DAEMON_NOT_RUNNING"@.len() != "WAIT_TIMEOUT"@.len());
    assert("ELEMENT_NOT_FOUND"@.len() != "ELEMENT_NOT_INTERACTABLE"@.len());
    assert("ELEMENT_NOT_FOUND"@.len() != "FILE_NOT_FOUND"@.len());
    assert("ELEMENT_NOT_FOUND"@.len() != "INTERNAL_ERROR"@.len());
    assert("ELEMENT_NOT_FOUND"@.len() != "INVALID_INPUT"@.len());
    assert("ELEMENT_NOT_FOUND"@.len() != "IPC_TIMEOUT"@.len());
    assert("ELEMENT_NOT_FOUND"@.len() != "SESSION_BUSY"@.len());
    assert("ELEMENT_NOT_FOUND"@.len() != "STALE_SNAPSHOT"@.len());
    assert("ELEMENT_NOT_FOUND"@.len() != "WAIT_TIMEOUT"@.len());
    assert("ELEMENT_NOT_INTERACTABLE"@.len() != "FILE_NOT_FOUND"@.len());
    assert("ELEMENT_NOT_INTERACTABLE"@.len() != "INTERNAL_ERROR"@.len());
    assert("ELEMENT_NOT_INTERACTABLE"@.len() != "INVALID_INPUT"@.len());
    assert("ELEMENT_NOT_INTERACTABLE"@.len() != "IPC_TIMEOUT"@.len());
    assert("ELEMENT_NOT_INTERACTABLE"@.len() != "SESSION_BUSY"@.len());
    assert("ELEMENT_NOT_INTERACTABLE"@.len() != "STALE_SNAPSHOT"@.len());
    assert("ELEMENT_NOT_INTERACTABLE"@.len() != "WAIT_TIMEOUT"@.len());
    assert("FILE_NOT_FOUND"@[0] != "INTERNAL_ERROR"@[0]);
    assert("FILE_NOT_FOUND"@.len() != "INVALID_INPUT"@.len());
    assert("FILE_NOT_FOUND"@.len() != "IPC_TIMEOUT"@.len());
    assert("FILE_NOT_FOUND"@.len() != "SESSION_BUSY"@.len());
    assert("FILE_NOT_FOUND"@[0] != "STALE_SNAPSHOT"@[0]);
    assert("FILE_NOT_FOUND"@.len() != "WAIT_TIMEOUT"@.len());
    assert("INTERNAL_ERROR"@.len() != "INVALID_INPUT"@.len());
    assert("INTERNAL_ERROR"@.len() != "IPC_TIMEOUT"@.len());
    assert("INTERNAL_ERROR"@.len() != "SESSION_BUSY"@.len());
    assert("INTERNAL_ERROR"@[0] != "STALE_SNAPSHOT"@[0]);
    assert("INTERNAL_ERROR"@.len() != "WAIT_TIMEOUT"@.len());
    assert("INVALID_INPUT"@.len() != "IPC_TIMEOUT"@.len());
    assert("INVALID_INPUT"@.len() != "SESSION_BUSY"@.len());
    assert("INVALID_INPUT"@.len() != "STALE_SNAPSHOT"@.len());
    assert("INVALID_INPUT"@.len() != "WAIT_TIMEOUT"@.len());
    assert("IPC_TIMEOUT"@.len() != "SESSION_BUSY"@.len());
    assert("IPC_TIMEOUT"@.len() != "STALE_SNAPSHOT"@.len());
    assert("IPC_TIMEOUT"@.len() != "WAIT_TIMEOUT"@.len());
    assert("SESSION_BUSY"@.len() != "STALE_SNAPSHOT"@.len());
    assert("SESSION_BUSY"@[0] != "WAIT_TIMEOUT"@[0]);
    assert("STALE_SNAPSHOT"@.len() != "WAIT_TIMEOUT"@.len());
}

/// An error is read with the code, the message, the context and the advice that it was made
/// with; one from within has its own code and its message alone.
pub proof fn envelopes_hold_what_errors_say(
    code: ErrorCode,
    message: Seq<char>,
    context: JsonModel,
    suggestion: Seq<char>,
)
    ensures
        ({
            let e = envelope_of(plain(code, message));
            e.code == code && e.message == message && e.suggestion.len() == 0 && e.context is None
        }),
        ({
            let e = envelope_of(with_context(code, message, context));
            e.code == code && e.message == message && e.suggestion.len() == 0 && e.context == Some(
                context,
            )
        }),
        ({
            let e = envelope_of(with_suggestion(code, message, context, suggestion));
            e.code == code && e.message == message && e.suggestion == suggestion && e.context
                == Some(context)
        }),
        ({
            let e = envelope_of(ErrorModel::Internal(message));
            e.code == ErrorCode::InternalError && e.message == message && e.suggestion.len() == 0
                && e.context is None
        }),
{
}

/// Each code of an error goes by its own name.
pub proof fn codes_go_by_their_names(x: ErrorCode)
    ensures
        x == ErrorCode::AutomationPaused <==> code_name(x) == "AUTOMATION_PAUSED"@,
        x == ErrorCode::DaemonNotRunning <==> code_name(x) == "DAEMON_NOT_RUNNING"@,
        x == ErrorCode::ElementNotFound <==> code_name(x) == "ELEMENT_NOT_FOUND"@,
        x == ErrorCode::ElementNotInteractable <==> code_name(x) == "ELEMENT_NOT_INTERACTABLE"@,
        x == ErrorCode::FileNotFound <==> code_name(x) == "FILE_NOT_FOUND"@,
        x == ErrorCode::InternalError <==> code_name(x) == "INTERNAL_ERROR"@,
        x == ErrorCode::InvalidInput <==> code_name(x) == "INVALID_INPUT"@,
        x == ErrorCode::IpcTimeout <==> code_name(x) == "IPC_TIMEOUT"@,
        x == ErrorCode::SessionBusy <==> code_name(x) == "SESSION_BUSY"@,
        x == ErrorCode::StaleSnapshot <==> code_name(x) == "STALE_SNAPSHOT"@,
        x == ErrorCode::WaitTimeout <==> code_name(x) == "WAIT_TIMEOUT"@,
{
    reveal_strlit("AUTOMATION_PAUSED");
    reveal_strlit("DAEMON_NOT_RUNNING");
    reveal_strlit("ELEMENT_NOT_FOUND");
    reveal_strlit("ELEMENT_NOT_INTERACTABLE");
    reveal_strlit("FILE_NOT_FOUND");
    reveal_strlit("INTERNAL_ERROR");
    reveal_strlit("INVALID_INPUT");
    reveal_strlit("IPC_TIMEOUT");
    reveal_strlit("SESSION_BUSY");
    reveal_strlit("STALE_SNAPSHOT");
    reveal_strlit("WAIT_TIMEOUT");
    assert("AUTOMATION_PAUSED"@.len() != "DAEMON_NOT_RUNNING"@.len());
    assert("AUTOMATION_PAUSED"@[0] != "ELEMENT_NOT_FOUND"@[0]);
    assert("AUTOMATION_PAUSED"@.len() != "ELEMENT_NOT_INTERACTABLE"@.len());
    assert("AUTOMATION_PAUSED"@.len() != "FILE_NOT_FOUND"@.len());
    assert("AUTOMATION_PAUSED"@.len() != "INTERNAL_ERROR"@.len());
    assert("AUTOMATION_PAUSED"@.len() != "INVALID_INPUT"@.len());
    assert("AUTOMATION_PAUSED"@.len() != "IPC_TIMEOUT"@.len());
    assert("AUTOMATION_PAUSED"@.len() != "SESSION_BUSY"@.len());
    assert("AUTOMATION_PAUSED"@.len() != "STALE_SNAPSHOT"@.len());
    assert("AUTOMATION_PAUSED"@.len() != "WAIT_TIMEOUT"@.len());
    assert("DAEMON_NOT_RUNNING"@.len() != "ELEMENT_NOT_FOUND"@.len());
    assert("DAEMON_NOT_RUNNING"@.len() != "ELEMENT_NOT_INTERACTABLE"@.len());
    assert("DAEMON_NOT_RUNNING"@.len() != "FILE_NOT_FOUND"@.len());
    assert("DAEMON_NOT_RUNNING"@.len() != "INTERNAL_ERROR"@.len());
    assert("DAEMON_NOT_RUNNING"@.len() != "INVALID_INPUT"@.len());
    assert("DAEMON_NOT_RUNNING"@.len() != "IPC_TIMEOUT"@.len());
    assert("DAEMON_NOT_RUNNING"@.len() != "SESSION_BUSY"@.len());
    assert("DAEMON_NOT_RUNNING"@.len() != "STALE_SNAPSHOT"@.len());
    assert("DAEMON_NOT_RUNNING"@.len() != "WAIT_TIMEOUT"@.len());
    assert("ELEMENT_NOT_FOUND"@.len() != "ELEMENT_NOT_INTERACTABLE"@.len());
    assert("ELEMENT_NOT_FOUND"@.len() != "FILE_NOT_FOUND"@.len());
    assert("ELEMENT_NOT_FOUND"@.len() != "INTERNAL_ERROR"@.len());
    assert("ELEMENT_NOT_FOUND"@.len() != "INVALID_INPUT"@.len());
    assert("ELEMENT_NOT_FOUND"@.len() != "IPC_TIMEOUT"@.len());
    assert("ELEMENT_NOT_FOUND"@.len() != "SESSION_BUSY"@.len());
    assert("ELEMENT_NOT_FOUND"@.len() != "STALE_SNAPSHOT"@.len());
    assert("ELEMENT_NOT_FOUND"@.len() != "WAIT_TIMEOUT"@.len());
    assert("ELEMENT_NOT_INTERACTABLE"@.len() != "FILE_NOT_FOUND"@.len());
    assert("ELEMENT_NOT_INTERACTABLE"@.len() != "INTERNAL_ERROR"@.len());
    assert("ELEMENT_NOT_INTERACTABLE"@.len() != "INVALID_INPUT"@.len());
    assert("ELEMENT_NOT_INTERACTABLE"@.len() != "IPC_TIMEOUT"@.len());
    assert("ELEMENT_NOT_INTERACTABLE"@.len() != "SESSION_BUSY"@.len());
    assert("ELEMENT_NOT_INTERACTABLE"@.len() != "STALE_SNAPSHOT"@.len());
    assert("ELEMENT_NOT_INTERACTABLE"@.len() != "WAIT_TIMEOUT"@.len());
    assert("FILE_NOT_FOUND"@[0] != "INTERNAL_ERROR"@[0]);
    assert("FILE_NOT_FOUND"@.len() != "INVALID_INPUT"@.len());
    assert("FILE_NOT_FOUND"@.len() != "IPC_TIMEOUT"@.len());
    assert("FILE_NOT_FOUND"@.len() != "SESSION_BUSY"@.len());
    assert("FILE_NOT_FOUND"@[0] != "STALE_SNAPSHOT"@[0]);
    assert("FILE_NOT_FOUND"@.len() != "WAIT_TIMEOUT"@.len());
    assert("INTERNAL_ERROR"@.len() != "INVALID_INPUT"@.len());
    assert("INTERNAL_ERROR"@.len() != "IPC_TIMEOUT"@.len());
    assert("INTERNAL_ERROR"@.len() != "SESSION_BUSY"@.len());
    assert("INTERNAL_ERROR"@[0] != "STALE_SNAPSHOT"@[0]);
    assert("INTERNAL_ERROR"@.len() != "WAIT_TIMEOUT"@.len());
    assert("INVALID_INPUT"@.len() != "IPC_TIMEOUT"@.len());
    assert("INVALID_INPUT"@.len() != "SESSION_BUSY"@.len());
    assert("INVALID_INPUT"@.len() != "STALE_SNAPSHOT"@.len());
    assert("INVALID_INPUT"@.len() != "WAIT_TIMEOUT"@.len());
    assert("IPC_TIMEOUT"@.len() != "SESSION_BUSY"@.len());
    assert("IPC_TIMEOUT"@.len() != "STALE_SNAPSHOT"@.len());
    assert("IPC_TIMEOUT"@.len() != "WAIT_TIMEOUT"@.len());
    assert("SESSION_BUSY"@.len() != "STALE_SNAPSHOT"@.len());
    assert("SESSION_BUSY"@[0] != "WAIT_TIMEOUT"@[0]);
    assert("STALE_SNAPSHOT"@.len() != "WAIT_TIMEOUT"@.len());
}

} // verus!
