//! The messages that components exchange, and the interface of a component
//! that takes part in the frame loop.
use vstd::prelude::*;

use crate::constants::{N, RAM_BYTES};
use crate::isa::EmulationError;
use crate::router::Router;

verus! {

/// A message exchanged between components through their queues.
#[derive(Clone, Copy)]
pub enum Command {
    Memory(MemoryCommand),
    Audio(AudioCommand),
    Display(DisplayCommand),
    Key(KeyCommand),
    GameState(GameCommand),
}

/// Memory traffic: a snapshot of the whole address space.
#[derive(Clone, Copy)]
pub enum MemoryCommand {
    SendRAM([u8; RAM_BYTES]),
}

/// Audio traffic: the tone is on or off.
#[derive(Clone, Copy, Debug, PartialEq, Eq, Structural)]
pub enum AudioCommand {
    Play,
    Pause,
}

/// Display traffic: a snapshot of the frame buffer, a repaint request, or a
/// request to blank the screen.
#[derive(Clone, Copy)]
pub enum DisplayCommand {
    SendPixels([bool; N]),
    SendDraw,
    SendClearDisplay,
}

/// Keypad traffic: key index and whether it is now pressed.
#[derive(Clone, Copy, Debug, PartialEq, Eq, Structural)]
pub enum KeyCommand {
    KeyDownUp(usize, bool),
}

/// Run control: stop the frame loop.
#[derive(Clone, Copy, Debug, PartialEq, Eq, Structural)]
pub enum GameCommand {
    Exit,
}

/// `c` is a frame-buffer snapshot equal to `pixels`.
pub open spec fn is_pixel_snapshot(c: Command, pixels: Seq<bool>) -> bool {
    match c {
        Command::Display(DisplayCommand::SendPixels(p)) => p@ == pixels,
        _ => false,
    }
}

/// `c` is a memory snapshot equal to `memory`.
pub open spec fn is_memory_snapshot(c: Command, memory: Seq<u8>) -> bool {
    match c {
        Command::Memory(MemoryCommand::SendRAM(m)) => m@ == memory,
        _ => false,
    }
}

/// `c` is a screen-clear request.
pub open spec fn is_clear(c: Command) -> bool {
    match c {
        Command::Display(DisplayCommand::SendClearDisplay) => true,
        _ => false,
    }
}

/// `c` is a repaint request.
pub open spec fn is_draw(c: Command) -> bool {
    match c {
        Command::Display(DisplayCommand::SendDraw) => true,
        _ => false,
    }
}

/// `c` is the audio command `a`.
pub open spec fn is_audio(c: Command, a: AudioCommand) -> bool {
    match c {
        Command::Audio(b) => a == b,
        _ => false,
    }
}

/// A component that takes part in the frame loop: it consumes its inbound
/// messages, runs one cycle, and leaves what it produced in its outbound
/// queue.
pub trait CommandEmulator {
    /// Whether the component's state is one its cycle accepts.
    spec fn ready(&self) -> bool;

    /// The component's queues.
    fn get_commands(&mut self) -> &mut Router<Command>;

    /// Applies one inbound message.
    fn process_inbound_command(&mut self, command: &Command)
        requires
            old(self).ready(),
        ensures
            final(self).ready(),
    ;

    /// Drains the inbound queue and applies its messages in order.
    fn process_inbound_commands(&mut self)
        requires
            old(self).ready(),
        ensures
            final(self).ready(),
    ;

    /// Runs one cycle.
    fn emulate_cycle(&mut self) -> (r: Result<(), EmulationError>)
        requires
            old(self).ready(),
        ensures
            final(self).ready(),
    ;
}

} // verus!
