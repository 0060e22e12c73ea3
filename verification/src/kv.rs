//! The commands of the replicated key-value store and the messages that
//! clients and servers exchange about them.
use vstd::prelude::*;

verus! {

/// The identifier a client gives each command it submits.
pub type CommandId = usize;

/// The identifier of a client.
pub type ClientId = u64;

/// The identifier of a server node.
pub type NodeId = u64;

/// A command on the key-value store.
#[derive(Debug, PartialEq, Eq)]
pub enum KVCommand {
    Put(String, String),
    Delete(String),
    Get(String),
    Cas { key: String, from: String, to: String, create_if_not_exists: bool },
}

/// A command with its strings taken as character sequences.
pub ghost enum KVCommandView {
    Put(Seq<char>, Seq<char>),
    Delete(Seq<char>),
    Get(Seq<char>),
    Cas { key: Seq<char>, from: Seq<char>, to: Seq<char>, create_if_not_exists: bool },
}

impl View for KVCommand {
    type V = KVCommandView;

    open spec fn view(&self) -> KVCommandView {
        match self {
            KVCommand::Put(k, v) => KVCommandView::Put(k@, v@),
            KVCommand::Delete(k) => KVCommandView::Delete(k@),
            KVCommand::Get(k) => KVCommandView::Get(k@),
            KVCommand::Cas { key, from, to, create_if_not_exists } => KVCommandView::Cas {
                key: key@,
                from: from@,
                to: to@,
                create_if_not_exists: *create_if_not_exists,
            },
        }
    }
}

/// A message from a client to a server.
#[derive(Debug, PartialEq, Eq)]
pub enum ClientMessage {
    Append(CommandId, KVCommand),
}

/// A message from a server to a client.
#[derive(Debug, PartialEq, Eq)]
pub enum ServerMessage {
    Write(CommandId),
    Read(CommandId, Option<String>),
    StartSignal(i64),
}

/// The command a reply answers; a start signal answers none.
pub open spec fn reply_command_id(msg: ServerMessage) -> Option<CommandId> {
    match msg {
        ServerMessage::Write(id) => Some(id),
        ServerMessage::Read(id, _) => Some(id),
        ServerMessage::StartSignal(_) => None,
    }
}

impl ServerMessage {
    /// The identifier of the command that this reply answers.
    pub fn command_id(&self) -> (id: CommandId)
        requires
            !(self is StartSignal),
        ensures
            reply_command_id(*self) == Some(id),
    {
        match self {
            ServerMessage::Write(id) => *id,
            ServerMessage::Read(id, _) => *id,
            ServerMessage::StartSignal(_) => 0,
        }
    }
}

} // verus!
