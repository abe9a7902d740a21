use vstd::prelude::*;

use crate::message::{decoded_model, reply_for, respond, ClientRequest, ReplyModel, RequestModel, ServerReply};

verus! {

/// Bytes taken from the socket in one read; one read holds one whole encoded request.
pub const BUFFER_SIZE: usize = 512;

/// What a connection does after one read.
#[derive(Debug, PartialEq, Eq)]
pub enum Action {
    /// The peer closed the connection: nothing is sent and serving ends.
    Close,
    /// This reply is encoded and written back.
    Reply(ServerReply),
}

/// The mathematical value of an action.
pub ghost enum ActionModel {
    Close,
    Reply(ReplyModel),
}

impl View for Action {
    type V = ActionModel;

    open spec fn view(&self) -> ActionModel {
        match self {
            Action::Close => ActionModel::Close,
            Action::Reply(r) => ActionModel::Reply(r@),
        }
    }
}

/// One read as the connection saw it: how many bytes came, and what they decoded to.
pub ghost struct Input {
    pub bytes_read: nat,
    pub decoded: Option<RequestModel>,
}

/// The action owed to one read.
pub open spec fn action_for(input: Input) -> ActionModel {
    if input.bytes_read == 0 {
        ActionModel::Close
    } else {
        ActionModel::Reply(reply_for(input.decoded))
    }
}

/// The actions of a connection over a run of reads: each read is answered in turn,
/// until a read that closes the connection, which is the last one looked at.
pub open spec fn session(inputs: Seq<Input>) -> Seq<ActionModel>
    decreases inputs.len(),
{
    if inputs.len() == 0 {
        Seq::empty()
    } else if action_for(inputs[0]) == ActionModel::Close {
        seq![ActionModel::Close]
    } else {
        seq![action_for(inputs[0])] + session(inputs.drop_first())
    }
}

/// Requests on one connection are answered independently and in order: the answer to
/// each read that the session reaches is the answer that read would get on its own,
/// whatever came before it, and every read before a close is answered.
pub proof fn lemma_session_answers_in_order(inputs: Seq<Input>, i: int)
    requires
        0 <= i < inputs.len(),
        forall|j: int| 0 <= j < i ==> action_for(#[trigger] inputs[j]) != ActionModel::Close,
    ensures
        session(inputs).len() > i,
        session(inputs)[i] == action_for(inputs[i]),
    decreases i,
{
    if i > 0 {
        let rest = inputs.drop_first();
        assert forall|j: int| 0 <= j < i - 1 implies action_for(#[trigger] rest[j]) != ActionModel::Close by {
            assert(rest[j] == inputs[j + 1]);
        }
        assert(action_for(inputs[0]) != ActionModel::Close);
        lemma_session_answers_in_order(rest, i - 1);
        assert(rest[i - 1] == inputs[i]);
    }
}

/// The server side of one accepted connection.
pub struct Client {
    id: u64,
}

impl Client {
    /// The registry key of the connection that this client serves.
    pub closed spec fn spec_id(&self) -> u64 {
        self.id
    }

    /// Creates the handler of the connection registered under `id`.
    pub fn new(id: u64) -> (r: Client)
        ensures
            r.spec_id() == id,
    {
        Client { id }
    }

    /// The registry key of the connection that this client serves.
    pub fn id(&self) -> (r: u64)
        ensures
            r == self.spec_id(),
    {
        self.id
    }

    /// Decides what to do with one read of `bytes_read` bytes whose decoding gave `decoded`
    /// (`None` where the bytes did not decode): close on an empty read, else reply.
    pub fn handle(&self, bytes_read: usize, decoded: Option<ClientRequest>) -> (r: Action)
        requires
            bytes_read <= BUFFER_SIZE,
        ensures
            r@ == action_for(Input { bytes_read: bytes_read as nat, decoded: decoded_model(decoded) }),
    {
        if bytes_read == 0 {
            Action::Close
        } else {
            Action::Reply(respond(decoded))
        }
    }
}

} // verus!
