//! The host adapter's decisions: what to do with each message routed to it.
//! Performing the action (painting, playing a tone) is the adapter's work.
use vstd::prelude::*;

use crate::command::{AudioCommand, Command, DisplayCommand};
use crate::constants::N;

verus! {

/// The state of the host's audio device.
#[derive(Clone, Copy, Debug, PartialEq, Eq, Structural)]
pub enum AudioState {
    Stopped,
    Playing,
    Paused,
}

/// One thing for the host adapter to do.
#[derive(Clone, Copy)]
pub enum HostAction {
    /// Blank the screen's frame buffer.
    ClearScreen,
    /// Paint the frame buffer to the window.
    Repaint,
    /// Replace the screen's frame buffer.
    ShowPixels([bool; N]),
    /// Start the tone.
    ResumeAudio,
    /// Stop the tone.
    PauseAudio,
    /// Nothing.
    Ignore,
}

/// The adapter's rule. Display messages act on the screen. Audio messages
/// are level-triggered: `Play` resumes a paused device and `Pause` pauses a
/// playing one; repeated in the same state they do nothing. Other messages
/// are not for the host.
pub open spec fn host_action_for(c: Command, audio: AudioState) -> HostAction {
    match c {
        Command::Display(DisplayCommand::SendClearDisplay) => HostAction::ClearScreen,
        Command::Display(DisplayCommand::SendDraw) => HostAction::Repaint,
        Command::Display(DisplayCommand::SendPixels(p)) => HostAction::ShowPixels(p),
        Command::Audio(AudioCommand::Play) => if audio == AudioState::Paused {
            HostAction::ResumeAudio
        } else {
            HostAction::Ignore
        },
        Command::Audio(AudioCommand::Pause) => if audio == AudioState::Playing {
            HostAction::PauseAudio
        } else {
            HostAction::Ignore
        },
        _ => HostAction::Ignore,
    }
}

/// Applies the adapter's rule (see `host_action_for`) to one message.
pub fn host_action(command: &Command, audio: AudioState) -> (r: HostAction)
    ensures
        r == host_action_for(*command, audio),
{
    match command {
        Command::Display(DisplayCommand::SendClearDisplay) => HostAction::ClearScreen,
        Command::Display(DisplayCommand::SendDraw) => HostAction::Repaint,
        Command::Display(DisplayCommand::SendPixels(p)) => HostAction::ShowPixels(*p),
        Command::Audio(AudioCommand::Play) => if audio == AudioState::Paused {
            HostAction::ResumeAudio
        } else {
            HostAction::Ignore
        },
        Command::Audio(AudioCommand::Pause) => if audio == AudioState::Playing {
            HostAction::PauseAudio
        } else {
            HostAction::Ignore
        },
        _ => HostAction::Ignore,
    }
}

} // verus!
