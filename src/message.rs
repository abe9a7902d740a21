use vstd::prelude::*;

verus! {

/// Content of the error reply to a request that is malformed or names no known request.
pub const BAD_REQUEST: &'static str = "Bad Request!";

/// Content of the error reply broadcast to live connections when the server stops.
pub const SHUTTING_DOWN: &'static str = "Server is shutting down.";

/// A request sent by a client, as the codec hands it over once decoded.
#[derive(Debug, PartialEq, Eq)]
pub enum ClientRequest {
    /// Asks the server to send `content` back unchanged.
    Echo { content: String },
    /// Asks the server for the sum of two 32-bit integers.
    Add { a: i32, b: i32 },
    /// A well-formed message that names no known request.
    Empty,
}

/// A reply sent by the server.
#[derive(Debug, PartialEq, Eq)]
pub enum ServerReply {
    Echo { content: String },
    Add { result: i32 },
    Error { content: String },
}

/// The mathematical value of a request: strings become sequences of characters.
pub ghost enum RequestModel {
    Echo(Seq<char>),
    Add(i32, i32),
    Empty,
}

/// The mathematical value of a reply.
pub ghost enum ReplyModel {
    Echo(Seq<char>),
    Add(i32),
    Error(Seq<char>),
}

impl View for ClientRequest {
    type V = RequestModel;

    open spec fn view(&self) -> RequestModel {
        match self {
            ClientRequest::Echo { content } => RequestModel::Echo(content@),
            ClientRequest::Add { a, b } => RequestModel::Add(*a, *b),
            ClientRequest::Empty => RequestModel::Empty,
        }
    }
}

impl View for ServerReply {
    type V = ReplyModel;

    open spec fn view(&self) -> ReplyModel {
        match self {
            ServerReply::Echo { content } => ReplyModel::Echo(content@),
            ServerReply::Add { result } => ReplyModel::Add(*result),
            ServerReply::Error { content } => ReplyModel::Error(content@),
        }
    }
}

/// The sum of two 32-bit integers, wrapped to 32 bits; the plain sum whenever it fits.
pub open spec fn sum32(a: i32, b: i32) -> i32 {
    a.wrapping_add(b)
}

/// Where the sum of two 32-bit integers fits in 32 bits, the reply carries exactly that sum.
pub proof fn lemma_sum32_exact(a: i32, b: i32)
    requires
        i32::MIN <= a + b <= i32::MAX,
    ensures
        sum32(a, b) == a + b,
{
}

/// The reply owed to a request, or to bytes that did not decode (`None`).
pub open spec fn reply_for(req: Option<RequestModel>) -> ReplyModel {
    match req {
        Some(RequestModel::Echo(s)) => ReplyModel::Echo(s),
        Some(RequestModel::Add(a, b)) => ReplyModel::Add(sum32(a, b)),
        _ => ReplyModel::Error(BAD_REQUEST@),
    }
}

/// The error reply to a bad request.
pub fn bad_request() -> (r: ServerReply)
    ensures
        r@ == ReplyModel::Error(BAD_REQUEST@),
{
    ServerReply::Error { content: BAD_REQUEST.to_owned() }
}

/// The notice sent to every live connection when the server stops.
pub fn shutdown_notice() -> (r: ServerReply)
    ensures
        r@ == ReplyModel::Error(SHUTTING_DOWN@),
{
    ServerReply::Error { content: SHUTTING_DOWN.to_owned() }
}

/// The model of a decoding outcome; `None` stands for bytes that did not decode.
pub open spec fn decoded_model(req: Option<ClientRequest>) -> Option<RequestModel> {
    match req {
        Some(q) => Some(q@),
        None => None,
    }
}

/// Computes the reply to one decoded request; `None` stands for bytes that did not decode.
pub fn respond(req: Option<ClientRequest>) -> (r: ServerReply)
    ensures
        r@ == reply_for(decoded_model(req)),
{
    match req {
        Some(ClientRequest::Echo { content }) => ServerReply::Echo { content: content },
        Some(ClientRequest::Add { a, b }) => ServerReply::Add { result: a.wrapping_add(b) },
        Some(ClientRequest::Empty) => bad_request(),
        None => bad_request(),
    }
}

} // verus!
