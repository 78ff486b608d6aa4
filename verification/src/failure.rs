use vstd::prelude::*;
use vstd::string::StringExecFns;
use crate::status::{code_digits, status_line, HttpStatus};

verus! {

/// The five ways in which an invocation can fail.
#[derive(Clone, Copy, Debug, PartialEq, Eq, Structural)]
pub enum FailureKind {
    /// The HTTP client could not be built.
    ClientBuild,
    /// The request could not be sent, or no response came.
    Network,
    /// The response body could not be read as text.
    Read,
    /// The upstream answered with a status outside the 2xx class.
    Upstream,
    /// The upstream answered with success, but the body is no document.
    Parse,
}

/// A failure as a mathematical value: `ProxyError` with texts as sequences of
/// characters and the status as its code.
pub enum Failure {
    ClientBuild { cause: Seq<char> },
    Network { cause: Seq<char> },
    Read { cause: Seq<char> },
    Upstream { status: u16, body: Seq<char> },
    Parse { cause: Seq<char>, body: Seq<char> },
}

impl Failure {
    /// The class of the failure.
    pub open spec fn kind(self) -> FailureKind {
        match self {
            Failure::ClientBuild { .. } => FailureKind::ClientBuild,
            Failure::Network { .. } => FailureKind::Network,
            Failure::Read { .. } => FailureKind::Read,
            Failure::Upstream { .. } => FailureKind::Upstream,
            Failure::Parse { .. } => FailureKind::Parse,
        }
    }

    /// The message shown to the caller: a prefix that tells the class, then
    /// what the failure carries, the raw body last where there is one.
    pub open spec fn message(self) -> Seq<char> {
        match self {
            Failure::ClientBuild { cause } => "Failed to build client: "@ + cause,
            Failure::Network { cause } => "Network error: "@ + cause,
            Failure::Read { cause } => "Failed to read text: "@ + cause,
            Failure::Upstream { status, body } => "API Error ("@ + status_line(status) + "): "@
                + body,
            Failure::Parse { cause, body } => "JSON Parse Error: "@ + cause
                + " | Response body: "@ + body,
        }
    }
}

/// Why an invocation failed, with what is known of the cause.
#[derive(Clone, Debug, PartialEq, Eq)]
pub enum ProxyError {
    /// The HTTP client could not be built.
    ClientBuild { cause: String },
    /// The request could not be sent, or no response came.
    Network { cause: String },
    /// The response body could not be read as text.
    Read { cause: String },
    /// The upstream answered with a status outside the 2xx class; `body` is
    /// the response text as it came.
    Upstream { status: HttpStatus, body: String },
    /// The body of a successful response is no document; `cause` is the
    /// parser's message and `body` the response text as it came.
    Parse { cause: String, body: String },
}

impl View for ProxyError {
    type V = Failure;

    open spec fn view(&self) -> Failure {
        match self {
            ProxyError::ClientBuild { cause } => Failure::ClientBuild { cause: cause@ },
            ProxyError::Network { cause } => Failure::Network { cause: cause@ },
            ProxyError::Read { cause } => Failure::Read { cause: cause@ },
            ProxyError::Upstream { status, body } => Failure::Upstream {
                status: status@,
                body: body@,
            },
            ProxyError::Parse { cause, body } => Failure::Parse { cause: cause@, body: body@ },
        }
    }
}

impl ProxyError {
    /// The class of the failure.
    pub fn kind(&self) -> (kind: FailureKind)
        ensures
            kind == self@.kind(),
    {
        match self {
            ProxyError::ClientBuild { .. } => FailureKind::ClientBuild,
            ProxyError::Network { .. } => FailureKind::Network,
            ProxyError::Read { .. } => FailureKind::Read,
            ProxyError::Upstream { .. } => FailureKind::Upstream,
            ProxyError::Parse { .. } => FailureKind::Parse,
        }
    }

    /// The message shown to the caller. That of an upstream failure shows
    /// the three digits of the status code right after its opening words.
    pub fn message(&self) -> (text: String)
        ensures
            text@ == self@.message(),
            self matches ProxyError::Upstream { status, .. } ==> ("API Error ("@ + code_digits(
                status@,
            )).is_prefix_of(text@),
    {
        match self {
            ProxyError::ClientBuild { cause } => {
                let mut text = String::from_str("Failed to build client: ");
                text.append(cause.as_str());
                text
            },
            ProxyError::Network { cause } => {
                let mut text = String::from_str("Network error: ");
                text.append(cause.as_str());
                text
            },
            ProxyError::Read { cause } => {
                let mut text = String::from_str("Failed to read text: ");
                text.append(cause.as_str());
                text
            },
            ProxyError::Upstream { status, body } => {
                let line = status.line();
                let mut text = String::from_str("API Error (");
                text.append(line.as_str());
                text.append("): ");
                text.append(body.as_str());
                text
            },
            ProxyError::Parse { cause, body } => {
                let mut text = String::from_str("JSON Parse Error: ");
                text.append(cause.as_str());
                text.append(" | Response body: ");
                text.append(body.as_str());
                text
            },
        }
    }
}

/// The message of a failure that carries a response body ends with that body
/// as it came, and every message begins with the words of its class.
pub proof fn message_shape(failure: Failure)
    ensures
        failure matches Failure::ClientBuild { .. } ==> "Failed to build client: "@.is_prefix_of(
            failure.message(),
        ),
        failure matches Failure::Network { .. } ==> "Network error: "@.is_prefix_of(
            failure.message(),
        ),
        failure matches Failure::Read { .. } ==> "Failed to read text: "@.is_prefix_of(
            failure.message(),
        ),
        failure matches Failure::Upstream { .. } ==> "API Error ("@.is_prefix_of(
            failure.message(),
        ),
        failure matches Failure::Parse { .. } ==> "JSON Parse Error: "@.is_prefix_of(
            failure.message(),
        ),
        failure matches Failure::ClientBuild { cause } ==> cause.is_suffix_of(failure.message()),
        failure matches Failure::Network { cause } ==> cause.is_suffix_of(failure.message()),
        failure matches Failure::Read { cause } ==> cause.is_suffix_of(failure.message()),
        failure matches Failure::Upstream { body, .. } ==> body.is_suffix_of(failure.message()),
        failure matches Failure::Parse { body, .. } ==> body.is_suffix_of(failure.message()),
{
}

/// The class of a failure can be read off its message: failures of
/// different classes never have the same message.
pub proof fn message_tells_kind(one: Failure, other: Failure)
    requires
        one.kind() != other.kind(),
    ensures
        one.message() != other.message(),
{
    reveal_strlit("Failed to build client: ");
    reveal_strlit("Network error: ");
    reveal_strlit("Failed to read text: ");
    reveal_strlit("API Error (");
    reveal_strlit("JSON Parse Error: ");
    let first = one.message();
    let second = other.message();
    assert(first[0] != second[0] || first[10] != second[10]);
}

} // verus!
