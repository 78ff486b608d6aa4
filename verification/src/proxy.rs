use vstd::prelude::*;
use vstd::string::StringExecFns;
use crate::document::{json_reading, read_json};
use crate::failure::{Failure, FailureKind, ProxyError};
use crate::status::{is_success_code, HttpStatus};

verus! {

/// The address of the upstream search endpoint.
pub open spec fn upstream_url() -> Seq<char> {
    "https://p2p.binance.com/bapi/c2c/v2/friendly/c2c/adv/search"@
}

/// The content encodings that the HTTP client accepts in a response.
#[derive(Clone, Copy, Debug, PartialEq, Eq, Structural)]
pub struct Encodings {
    pub gzip: bool,
    pub deflate: bool,
    pub brotli: bool,
}

/// The client accepts gzip, deflate and brotli.
pub fn accepted_encodings() -> (encodings: Encodings)
    ensures
        encodings == (Encodings { gzip: true, deflate: true, brotli: true }),
{
    Encodings { gzip: true, deflate: true, brotli: true }
}

/// The one POST request of an invocation: where it goes and the document
/// that the transport serialises as its body.
#[derive(Debug, PartialEq, Eq)]
pub struct PostRequest {
    pub url: String,
    pub payload: serde_json::Value,
}

/// The request for `payload`: to the upstream endpoint, with the payload as
/// it was given.
pub fn upstream_request(payload: serde_json::Value) -> (request: PostRequest)
    ensures
        request.url@ == upstream_url(),
        request.payload == payload,
{
    PostRequest {
        url: String::from_str("https://p2p.binance.com/bapi/c2c/v2/friendly/c2c/adv/search"),
        payload,
    }
}

/// What came of the exchange with the upstream, as the host reports it.
#[derive(Clone, Debug, PartialEq, Eq)]
pub enum Reply {
    /// The HTTP client could not be built; nothing was sent.
    ClientFailed { cause: String },
    /// No response was obtained; no body was read.
    SendFailed { cause: String },
    /// A response came, but its body could not be read as text.
    ReadFailed { cause: String },
    /// A response came and its body was read in full.
    Received { status: HttpStatus, body: String },
}

/// A reply as a mathematical value.
pub enum Exchange {
    ClientFailed { cause: Seq<char> },
    SendFailed { cause: Seq<char> },
    ReadFailed { cause: Seq<char> },
    Received { status: u16, body: Seq<char> },
}

impl View for Reply {
    type V = Exchange;

    open spec fn view(&self) -> Exchange {
        match self {
            Reply::ClientFailed { cause } => Exchange::ClientFailed { cause: cause@ },
            Reply::SendFailed { cause } => Exchange::SendFailed { cause: cause@ },
            Reply::ReadFailed { cause } => Exchange::ReadFailed { cause: cause@ },
            Reply::Received { status, body } => Exchange::Received {
                status: status@,
                body: body@,
            },
        }
    }
}

/// What a response that was read in full comes to, given what the parser
/// makes of its body: a status outside 2xx is an upstream failure with the
/// raw body, whatever the body holds; with a 2xx status the document, or a
/// parse failure with the parser's message and the raw body.
pub open spec fn response_outcome(
    status: u16,
    body: Seq<char>,
    reading: Result<serde_json::Value, Seq<char>>,
) -> Result<serde_json::Value, Failure> {
    if !is_success_code(status) {
        Err(Failure::Upstream { status, body })
    } else {
        match reading {
            Ok(document) => Ok(document),
            Err(cause) => Err(Failure::Parse { cause, body }),
        }
    }
}

/// What an invocation returns for an exchange.
pub open spec fn outcome(exchange: Exchange) -> Result<serde_json::Value, Failure> {
    match exchange {
        Exchange::ClientFailed { cause } => Err(Failure::ClientBuild { cause }),
        Exchange::SendFailed { cause } => Err(Failure::Network { cause }),
        Exchange::ReadFailed { cause } => Err(Failure::Read { cause }),
        Exchange::Received { status, body } => response_outcome(
            status,
            body,
            json_reading(body),
        ),
    }
}

/// Whether `result` is the executable form of `model`: the same document, or
/// an error whose view is the same failure.
pub open spec fn renders(
    result: Result<serde_json::Value, ProxyError>,
    model: Result<serde_json::Value, Failure>,
) -> bool {
    match result {
        Ok(document) => model == Ok::<serde_json::Value, Failure>(document),
        Err(error) => model == Err::<serde_json::Value, Failure>(error@),
    }
}

/// Lets a response through if its status is in the 2xx class, and gives its
/// body back; else fails with the status and the body as it came.
pub fn check_status(status: HttpStatus, body: String) -> (checked: Result<String, ProxyError>)
    ensures
        match checked {
            Ok(text) => is_success_code(status@) && text@ == body@,
            Err(error) => !is_success_code(status@) && error@ == (Failure::Upstream {
                status: status@,
                body: body@,
            }),
        },
{
    if status.is_success() {
        Ok(body)
    } else {
        Err(ProxyError::Upstream { status, body })
    }
}

/// Ends an invocation whose response had a 2xx status, given what the parser
/// made of `body`: the document, or a parse failure that carries the parser's
/// message and the body.
pub fn accept_reading(body: String, reading: Result<serde_json::Value, String>) -> (result: Result<
    serde_json::Value,
    ProxyError,
>)
    ensures
        match reading {
            Ok(document) => result == Ok::<serde_json::Value, ProxyError>(document),
            Err(cause) => result matches Err(error) && error@ == (Failure::Parse {
                cause: cause@,
                body: body@,
            }),
        },
{
    match reading {
        Ok(document) => Ok(document),
        Err(cause) => Err(ProxyError::Parse { cause, body }),
    }
}

/// Turns what came of the exchange into what the invocation returns. The
/// body of a response is parsed only where the status is in the 2xx class.
pub fn conclude(reply: Reply) -> (result: Result<serde_json::Value, ProxyError>)
    ensures
        renders(result, outcome(reply@)),
{
    match reply {
        Reply::ClientFailed { cause } => Err(ProxyError::ClientBuild { cause }),
        Reply::SendFailed { cause } => Err(ProxyError::Network { cause }),
        Reply::ReadFailed { cause } => Err(ProxyError::Read { cause }),
        Reply::Received { status, body } => {
            match check_status(status, body) {
                Err(error) => Err(error),
                Ok(text) => {
                    let reading = read_json(text.as_str());
                    accept_reading(text, reading)
                },
            }
        },
    }
}

/// A response with a 2xx status whose body spells a document gives that
/// document, whatever the payload was.
pub proof fn success_gives_document(status: u16, body: Seq<char>, document: serde_json::Value)
    requires
        is_success_code(status),
        json_reading(body) == Ok::<serde_json::Value, Seq<char>>(document),
    ensures
        outcome(Exchange::Received { status, body }) == Ok::<serde_json::Value, Failure>(
            document,
        ),
{
}

/// Each exchange falls in exactly one class. An invocation succeeds only on
/// a response with a 2xx status whose body spells a document; each of the
/// five failures comes from one kind of exchange and from no other, and a
/// failure of the transport carries the cause that the host reported.
pub proof fn outcome_by_exchange(exchange: Exchange)
    ensures
        outcome(exchange) is Ok <==> (exchange matches Exchange::Received { status, body }
            && is_success_code(status) && json_reading(body) is Ok),
        outcome(exchange) matches Err(failure) ==> {
            &&& failure.kind() == FailureKind::ClientBuild <==> exchange is ClientFailed
            &&& failure.kind() == FailureKind::Network <==> exchange is SendFailed
            &&& failure.kind() == FailureKind::Read <==> exchange is ReadFailed
            &&& failure.kind() == FailureKind::Upstream <==> (exchange matches Exchange::Received {
                status,
                ..
            } && !is_success_code(status))
            &&& failure.kind() == FailureKind::Parse <==> (exchange matches Exchange::Received {
                status,
                body,
            } && is_success_code(status) && json_reading(body) is Err)
        },
        exchange matches Exchange::ClientFailed { cause } ==> outcome(exchange) == Err::<
            serde_json::Value,
            Failure,
        >(Failure::ClientBuild { cause }),
        exchange matches Exchange::SendFailed { cause } ==> outcome(exchange) == Err::<
            serde_json::Value,
            Failure,
        >(Failure::Network { cause }),
        exchange matches Exchange::ReadFailed { cause } ==> outcome(exchange) == Err::<
            serde_json::Value,
            Failure,
        >(Failure::Read { cause }),
{
}

/// A status outside the 2xx class decides alone: the failure is the same
/// whether or not the body spells a document.
pub proof fn refused_status_ignores_body(
    status: u16,
    body: Seq<char>,
    reading: Result<serde_json::Value, Seq<char>>,
)
    requires
        !is_success_code(status),
    ensures
        response_outcome(status, body, reading) == Err::<serde_json::Value, Failure>(
            Failure::Upstream { status, body },
        ),
{
}

/// Nothing is kept between invocations: two exchanges that are equal as
/// values give the same document, or failures of the same kind with the same
/// message.
pub proof fn equal_exchanges_same_result(
    first: Reply,
    second: Reply,
    first_result: Result<serde_json::Value, ProxyError>,
    second_result: Result<serde_json::Value, ProxyError>,
)
    requires
        first@ == second@,
        renders(first_result, outcome(first@)),
        renders(second_result, outcome(second@)),
    ensures
        match (first_result, second_result) {
            (Ok(a), Ok(b)) => a == b,
            (Err(a), Err(b)) => a@ == b@ && a@.kind() == b@.kind() && a@.message()
                == b@.message(),
            _ => false,
        },
{
}

} // verus!
