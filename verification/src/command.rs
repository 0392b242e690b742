//! The commands that a frame can carry.

use vstd::prelude::*;
use crate::frame::{CommandFrame, FrameView};
use crate::led::Color;

verus! {

/// Opcode of the command that sets the whole strip to one colour.
pub const OP_SET_SOLID_COLOR: u8 = 0;

/// Opcode of the command that loads and starts a program.
pub const OP_LOAD_PROGRAM: u8 = 1;

/// Opcode of the command that stops the running program.
pub const OP_STOP: u8 = 2;

/// Opcode of the command that delivers bytes to the running program.
pub const OP_FEED_INPUT: u8 = 3;

/// A command to the controller.
#[derive(Clone, Debug, PartialEq, Eq)]
pub enum Command {
    /// Set every LED to one colour, bypassing any program.
    SetSolidColor(Color),
    /// Load the bytecode module and run it.
    LoadProgram(Vec<u8>),
    /// Stop the running program.
    Stop,
    /// Deliver the bytes to the running program.
    FeedInput(Vec<u8>),
}

/// A command over mathematical bytes.
pub enum CommandView {
    SetSolidColor(Color),
    LoadProgram(Seq<u8>),
    Stop,
    FeedInput(Seq<u8>),
}

impl View for Command {
    type V = CommandView;

    open spec fn view(&self) -> CommandView {
        match self {
            Command::SetSolidColor(color) => CommandView::SetSolidColor(*color),
            Command::LoadProgram(module) => CommandView::LoadProgram(module@),
            Command::Stop => CommandView::Stop,
            Command::FeedInput(input) => CommandView::FeedInput(input@),
        }
    }
}

/// Why a frame holds no command.  The frame is dropped and the connection stays open.
#[derive(Clone, Copy, Debug, PartialEq, Eq, Structural)]
pub enum ProtocolError {
    /// No command has this opcode.
    UnknownOpcode(u8),
    /// The opcode is known, but its body has the wrong shape.
    MalformedBody(u8),
}

/// The command that a frame carries.
pub open spec fn parsed(frame: FrameView) -> Result<CommandView, ProtocolError> {
    if frame.opcode == OP_SET_SOLID_COLOR {
        if frame.payload.len() == 3 {
            Ok(
                CommandView::SetSolidColor(
                    Color {
                        red: frame.payload[0],
                        green: frame.payload[1],
                        blue: frame.payload[2],
                    },
                ),
            )
        } else {
            Err(ProtocolError::MalformedBody(frame.opcode))
        }
    } else if frame.opcode == OP_LOAD_PROGRAM {
        Ok(CommandView::LoadProgram(frame.payload))
    } else if frame.opcode == OP_STOP {
        Ok(CommandView::Stop)
    } else if frame.opcode == OP_FEED_INPUT {
        Ok(CommandView::FeedInput(frame.payload))
    } else {
        Err(ProtocolError::UnknownOpcode(frame.opcode))
    }
}

/// Reads the command that a frame carries.  The body of a program or of an
/// input goes into the command as the frame's own bytes.
pub fn parse_command(frame: CommandFrame) -> (r: Result<Command, ProtocolError>)
    ensures
        match r {
            Ok(command) => parsed(frame@) == Ok::<CommandView, ProtocolError>(command@),
            Err(e) => parsed(frame@) == Err::<CommandView, ProtocolError>(e),
        },
{
    let CommandFrame { opcode, payload } = frame;
    if opcode == OP_SET_SOLID_COLOR {
        if payload.len() == 3 {
            Ok(Command::SetSolidColor(Color { red: payload[0], green: payload[1], blue: payload[2] }))
        } else {
            Err(ProtocolError::MalformedBody(opcode))
        }
    } else if opcode == OP_LOAD_PROGRAM {
        Ok(Command::LoadProgram(payload))
    } else if opcode == OP_STOP {
        Ok(Command::Stop)
    } else if opcode == OP_FEED_INPUT {
        Ok(Command::FeedInput(payload))
    } else {
        Err(ProtocolError::UnknownOpcode(opcode))
    }
}

} // verus!
