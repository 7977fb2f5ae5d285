use chip8::command::{AudioCommand, Command, DisplayCommand, KeyCommand};
use chip8::constants::N;
use chip8::host::{host_action, AudioState, HostAction};

#[test]
fn audio_messages_are_level_triggered() {
    let play = Command::Audio(AudioCommand::Play);
    let pause = Command::Audio(AudioCommand::Pause);
    assert!(matches!(host_action(&play, AudioState::Paused), HostAction::ResumeAudio));
    assert!(matches!(host_action(&play, AudioState::Playing), HostAction::Ignore));
    assert!(matches!(host_action(&play, AudioState::Stopped), HostAction::Ignore));
    assert!(matches!(host_action(&pause, AudioState::Playing), HostAction::PauseAudio));
    assert!(matches!(host_action(&pause, AudioState::Paused), HostAction::Ignore));
}

#[test]
fn display_messages_act_on_the_screen() {
    let mut pixels = [false; N];
    pixels[9] = true;
    let show = Command::Display(DisplayCommand::SendPixels(pixels));
    match host_action(&show, AudioState::Stopped) {
        HostAction::ShowPixels(p) => assert!(p[9] && !p[8]),
        _ => panic!("expected the pixels to be shown"),
    }
    let clear = Command::Display(DisplayCommand::SendClearDisplay);
    assert!(matches!(host_action(&clear, AudioState::Stopped), HostAction::ClearScreen));
    let draw = Command::Display(DisplayCommand::SendDraw);
    assert!(matches!(host_action(&draw, AudioState::Stopped), HostAction::Repaint));
    let key = Command::Key(KeyCommand::KeyDownUp(2, true));
    assert!(matches!(host_action(&key, AudioState::Playing), HostAction::Ignore));
}
