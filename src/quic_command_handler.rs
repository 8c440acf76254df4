//! The handler of the QUIC test commands: ping, echo and send-data.
use crate::dispatch::{CommandResult, TaskCommand};
use vstd::prelude::*;

verus! {

/// The command types this handler knows.
#[derive(Debug, Clone, Copy, PartialEq, Eq, Structural)]
pub enum QuicCommandType {
    /// Connection test (type 0x01); unknown types are read as this.
    Ping,
    /// Returns the received bytes (type 0x02).
    Echo,
    /// Reports the received length (type 0x10).
    SendData,
}

/// The command that a type byte names; unknown bytes read as `Ping`.
pub open spec fn command_of(value: u8) -> QuicCommandType {
    if value == 0x02 {
        QuicCommandType::Echo
    } else if value == 0x10 {
        QuicCommandType::SendData
    } else {
        QuicCommandType::Ping
    }
}

impl QuicCommandType {
    /// The type byte of this command.
    pub fn code(self) -> (r: u8)
        ensures
            command_of(r) == self,
            r == match self {
                QuicCommandType::Ping => 0x01u8,
                QuicCommandType::Echo => 0x02u8,
                QuicCommandType::SendData => 0x10u8,
            },
    {
        match self {
            QuicCommandType::Ping => 0x01,
            QuicCommandType::Echo => 0x02,
            QuicCommandType::SendData => 0x10,
        }
    }
}

impl From<u8> for QuicCommandType {
    fn from(value: u8) -> QuicCommandType {
        if value == 0x02 {
            QuicCommandType::Echo
        } else if value == 0x10 {
            QuicCommandType::SendData
        } else {
            QuicCommandType::Ping
        }
    }
}

impl vstd::std_specs::convert::FromSpecImpl<u8> for QuicCommandType {
    open spec fn obeys_from_spec() -> bool {
        true
    }

    open spec fn from_spec(v: u8) -> QuicCommandType {
        command_of(v)
    }
}

/// What the handler decided for a command.
#[derive(Debug, Clone, PartialEq)]
pub enum QuicReply {
    /// The result is ready.
    Done(CommandResult),
    /// Copy `len` bytes from `src` into a fresh block of the memory manager
    /// and finish with `QuicCommandHandler::echo_result`.
    CopyEcho { src: usize, len: usize },
}

/// Handler of the QUIC test commands.
#[derive(Debug, Clone)]
pub struct QuicCommandHandler;

impl QuicCommandHandler {
    /// A new handler.
    pub fn new() -> (r: QuicCommandHandler)
        ensures
            r == QuicCommandHandler,
    {
        QuicCommandHandler
    }

    /// Decides a command: ping answers `true`; echo with data asks for a
    /// copy of it, and without data answers with no data; send-data answers
    /// the length received.
    pub fn plan(&self, command: &TaskCommand) -> (r: QuicReply)
        ensures
            command_of(command.command_type) is Ping ==> r == QuicReply::Done(CommandResult::Bool(true)),
            command_of(command.command_type) is Echo ==> r == if command.data_ptr != 0
                && command.data_len > 0 {
                QuicReply::CopyEcho { src: command.data_ptr, len: command.data_len }
            } else {
                QuicReply::Done(CommandResult::NoData)
            },
            command_of(command.command_type) is SendData ==> r == QuicReply::Done(
                CommandResult::U64(command.data_len as u64),
            ),
    {
        let command_type = QuicCommandType::from(command.command_type);
        match command_type {
            QuicCommandType::Ping => QuicReply::Done(CommandResult::Bool(true)),
            QuicCommandType::Echo => {
                if command.data_ptr != 0 && command.data_len > 0 {
                    QuicReply::CopyEcho { src: command.data_ptr, len: command.data_len }
                } else {
                    QuicReply::Done(CommandResult::NoData)
                }
            },
            QuicCommandType::SendData => QuicReply::Done(CommandResult::U64(command.data_len as u64)),
        }
    }

    /// The result of an echo whose copy went to `out_ptr`: the copied buffer,
    /// or an error when no block could be allocated (null).
    pub fn echo_result(len: usize, out_ptr: usize) -> (r: CommandResult)
        ensures
            out_ptr != 0 ==> r == CommandResult::WithData(out_ptr, len),
            out_ptr == 0 ==> (r matches CommandResult::Error(s) && s@ == "Echo allocate failed"@),
    {
        if out_ptr != 0 {
            CommandResult::WithData(out_ptr, len)
        } else {
            proof {
                reveal_strlit("Echo allocate failed");
            }
            CommandResult::Error(String::from_str("Echo allocate failed"))
        }
    }
}

} // verus!
