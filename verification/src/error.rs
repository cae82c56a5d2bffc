//! The library's error type and the answer that a client gets for it.

use vstd::prelude::*;

use crate::pattern;
use crate::text;

verus! {

/// Why a request was refused or a policy not loaded.
#[allow(inconsistent_fields)]
#[derive(Debug)]
pub enum GateError {
    InvalidRequest(String),
    InvalidAgent(String),
    InvalidSession(String),
    Unauthorized,
    Forbidden,
    PolicyIo { path: String, source: String },
    PolicyParse(String),
    BadRegex { id: u32, source: regex::Error },
    BadGlob { id: u32, source: globset::Error },
    EmptyRule { id: u32 },
}

/// A [`GateError`] with its texts as sequences of characters.
#[allow(inconsistent_fields)]
pub enum GateErrorView {
    InvalidRequest(Seq<char>),
    InvalidAgent(Seq<char>),
    InvalidSession(Seq<char>),
    Unauthorized,
    Forbidden,
    PolicyIo { path: Seq<char>, source: Seq<char> },
    PolicyParse(Seq<char>),
    BadRegex { id: u32, source: regex::Error },
    BadGlob { id: u32, source: globset::Error },
    EmptyRule { id: u32 },
}

impl View for GateError {
    type V = GateErrorView;

    open spec fn view(&self) -> GateErrorView {
        match *self {
            GateError::InvalidRequest(s) => GateErrorView::InvalidRequest(s@),
            GateError::InvalidAgent(s) => GateErrorView::InvalidAgent(s@),
            GateError::InvalidSession(s) => GateErrorView::InvalidSession(s@),
            GateError::Unauthorized => GateErrorView::Unauthorized,
            GateError::Forbidden => GateErrorView::Forbidden,
            GateError::PolicyIo { path, source } => GateErrorView::PolicyIo {
                path: path@,
                source: source@,
            },
            GateError::PolicyParse(s) => GateErrorView::PolicyParse(s@),
            GateError::BadRegex { id, source } => GateErrorView::BadRegex { id, source },
            GateError::BadGlob { id, source } => GateErrorView::BadGlob { id, source },
            GateError::EmptyRule { id } => GateErrorView::EmptyRule { id },
        }
    }
}

impl GateErrorView {
    /// The error lies in the request, not in the policy or the service.
    pub open spec fn is_clients(self) -> bool {
        ||| self is InvalidRequest
        ||| self is InvalidAgent
        ||| self is InvalidSession
        ||| self is Unauthorized
        ||| self is Forbidden
    }

    /// The HTTP status of the answer.
    pub open spec fn status(self) -> u16 {
        match self {
            GateErrorView::InvalidRequest(_)
            | GateErrorView::InvalidAgent(_)
            | GateErrorView::InvalidSession(_) => 422,
            GateErrorView::Unauthorized => 401,
            GateErrorView::Forbidden => 403,
            _ => 500,
        }
    }

    /// The error in words.
    pub open spec fn message(self) -> Seq<char> {
        match self {
            GateErrorView::InvalidRequest(s) => "invalid request: "@ + s,
            GateErrorView::InvalidAgent(s) => "invalid agent name: "@ + text::quoted(s),
            GateErrorView::InvalidSession(s) => "invalid session id: "@ + text::quoted(s),
            GateErrorView::Unauthorized => "missing or invalid admin key"@,
            GateErrorView::Forbidden => "reload endpoint is disabled (no admin key configured)"@,
            GateErrorView::PolicyIo { path, source } => "failed to read policy file "@ + path
                + ": "@ + source,
            GateErrorView::PolicyParse(s) => "failed to parse policy file: "@ + s,
            GateErrorView::BadRegex { id, source } => "invalid regex in rule "@
                + text::decimal_text(id as nat) + ": "@ + pattern::regex_error_text(source),
            GateErrorView::BadGlob { id, source } => "invalid glob in rule "@
                + text::decimal_text(id as nat) + ": "@ + pattern::glob_error_text(source),
            GateErrorView::EmptyRule { id } => "rule "@ + text::decimal_text(id as nat)
                + " has an empty pattern that would match every command"@,
        }
    }

    /// What the client is told: the error in words where it lies in the
    /// request, and nothing of it where it does not.
    pub open spec fn answer(self) -> Seq<char> {
        if self.is_clients() {
            self.message()
        } else {
            "internal error"@
        }
    }
}

/// An HTTP status, and the text under `error` in the body.
#[derive(Debug)]
pub struct ErrorResponse {
    pub status: u16,
    pub error: String,
}

impl GateError {
    /// The error in words.
    pub fn message(&self) -> (r: String)
        ensures
            r@ == self@.message(),
    {
        match self {
            GateError::InvalidRequest(s) => text::join("invalid request: ", s.as_str()),
            GateError::InvalidAgent(s) => text::join(
                "invalid agent name: ",
                text::quote(s.as_str()).as_str(),
            ),
            GateError::InvalidSession(s) => text::join(
                "invalid session id: ",
                text::quote(s.as_str()).as_str(),
            ),
            GateError::Unauthorized => "missing or invalid admin key".to_owned(),
            GateError::Forbidden => {
                "reload endpoint is disabled (no admin key configured)".to_owned()
            },
            GateError::PolicyIo { path, source } => text::join3(
                "failed to read policy file ",
                path.as_str(),
                ": ",
            ).concat(source.as_str()),
            GateError::PolicyParse(s) => text::join("failed to parse policy file: ", s.as_str()),
            GateError::BadRegex { id, source } => text::join3(
                "invalid regex in rule ",
                text::decimal(*id).as_str(),
                ": ",
            ).concat(pattern::regex_error(source).as_str()),
            GateError::BadGlob { id, source } => text::join3(
                "invalid glob in rule ",
                text::decimal(*id).as_str(),
                ": ",
            ).concat(pattern::glob_error(source).as_str()),
            GateError::EmptyRule { id } => text::join3(
                "rule ",
                text::decimal(*id).as_str(),
                " has an empty pattern that would match every command",
            ),
        }
    }

    /// The HTTP status of the answer.
    pub fn status(&self) -> (r: u16)
        ensures
            r == self@.status(),
    {
        match self {
            GateError::InvalidRequest(_)
            | GateError::InvalidAgent(_)
            | GateError::InvalidSession(_) => 422,
            GateError::Unauthorized => 401,
            GateError::Forbidden => 403,
            GateError::PolicyIo { .. }
            | GateError::PolicyParse(_)
            | GateError::BadRegex { .. }
            | GateError::BadGlob { .. }
            | GateError::EmptyRule { .. } => 500,
        }
    }

    /// The answer to a request that ended in this error. Client errors carry
    /// an actionable message; server errors are redacted, so that internal
    /// details (paths, parser internals) never reach the client.
    pub fn into_response(self) -> (r: ErrorResponse)
        ensures
            r.status == self@.status(),
            r.error@ == self@.answer(),
    {
        let status: u16 = self.status();
        let error = if 400 <= status && status < 500 {
            self.message()
        } else {
            "internal error".to_owned()
        };
        ErrorResponse { status, error }
    }
}

/// Redaction: two errors that are not the client's get the same answer,
/// whatever they hold.
pub proof fn law_server_errors_are_redacted(a: GateErrorView, b: GateErrorView)
    requires
        !a.is_clients(),
        !b.is_clients(),
    ensures
        a.status() == b.status(),
        a.answer() == b.answer(),
{
}

/// A client error is answered by its own words, under a status that says so;
/// and only client errors have such a status.
pub proof fn law_client_errors_are_explained(e: GateErrorView)
    ensures
        e.is_clients() <==> 400 <= e.status() < 500,
        e.is_clients() ==> e.answer() == e.message(),
{
}

/// Requests that cannot be taken are unprocessable (422); a wrong key is
/// unauthorized (401); without a configured key reloading is forbidden (403);
/// what is wrong with the policy is the service's own fault (500).
pub proof fn law_status_by_kind(e: GateErrorView)
    ensures
        e is InvalidRequest || e is InvalidAgent || e is InvalidSession <==> e.status() == 422,
        e is Unauthorized <==> e.status() == 401,
        e is Forbidden <==> e.status() == 403,
        e is PolicyIo || e is PolicyParse || e is BadRegex || e is BadGlob || e is EmptyRule
            <==> e.status() == 500,
{
}

/// What a client is told: the detail of its own error, and of any other two
/// words only.
pub proof fn law_answer_by_kind(e: GateErrorView)
    ensures
        e matches GateErrorView::InvalidRequest(s) ==> e.answer() == "invalid request: "@ + s,
        e matches GateErrorView::InvalidAgent(s) ==> e.answer() == "invalid agent name: "@
            + text::quoted(s),
        e matches GateErrorView::InvalidSession(s) ==> e.answer() == "invalid session id: "@
            + text::quoted(s),
        e is Unauthorized ==> e.answer() == "missing or invalid admin key"@,
        e is Forbidden ==> e.answer()
            == "reload endpoint is disabled (no admin key configured)"@,
        e is PolicyIo || e is PolicyParse || e is BadRegex || e is BadGlob || e is EmptyRule
            ==> e.answer() == "internal error"@,
{
}

/// In the log an error that is not the client's has all of its detail: the
/// file, the number of the rule in decimal, and what the system or the parser
/// said.
pub proof fn law_log_has_the_detail(e: GateErrorView)
    ensures
        e matches GateErrorView::PolicyIo { path, source } ==> e.message()
            == "failed to read policy file "@ + path + ": "@ + source,
        e matches GateErrorView::PolicyParse(s) ==> e.message()
            == "failed to parse policy file: "@ + s,
        e matches GateErrorView::BadRegex { id, source } ==> e.message()
            == "invalid regex in rule "@ + text::decimal_text(id as nat) + ": "@
            + pattern::regex_error_text(source),
        e matches GateErrorView::BadGlob { id, source } ==> e.message()
            == "invalid glob in rule "@ + text::decimal_text(id as nat) + ": "@
            + pattern::glob_error_text(source),
        e matches GateErrorView::EmptyRule { id } ==> e.message() == "rule "@ + text::decimal_text(
            id as nat,
        ) + " has an empty pattern that would match every command"@,
{
}

/// The model of an error is of the same kind and holds the same.
pub proof fn law_model_of_an_error(e: GateError)
    ensures
        match e {
            GateError::InvalidRequest(s) => e@ == GateErrorView::InvalidRequest(s@),
            GateError::InvalidAgent(s) => e@ == GateErrorView::InvalidAgent(s@),
            GateError::InvalidSession(s) => e@ == GateErrorView::InvalidSession(s@),
            GateError::Unauthorized => e@ is Unauthorized,
            GateError::Forbidden => e@ is Forbidden,
            GateError::PolicyIo { path, source } => e@ == (GateErrorView::PolicyIo {
                path: path@,
                source: source@,
            }),
            GateError::PolicyParse(s) => e@ == GateErrorView::PolicyParse(s@),
            GateError::BadRegex { id, source } => e@ == (GateErrorView::BadRegex { id, source }),
            GateError::BadGlob { id, source } => e@ == (GateErrorView::BadGlob { id, source }),
            GateError::EmptyRule { id } => e@ == (GateErrorView::EmptyRule { id }),
        },
{
}

} // verus!
