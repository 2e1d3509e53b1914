//! The reducer, message by message.
use kiri_tui::application::keymap::WHEEL_STEP;
use kiri_tui::application::msg::{Msg, StreamKind};
use kiri_tui::application::update::update;
use kiri_tui::clock::Duration;
use kiri_tui::domain::model::Model;
use kiri_tui::domain::selection::{Granularity, ScreenSelection};
use kiri_tui::domain::transcript::{ToolStatus, TranscriptItem};
use kiri_tui::domain::wizard::{ProviderWizard, WizardStep};

#[test]
fn stream_deltas_build_transcript_items() {
    let mut m = Model::default();
    update(&mut m, Msg::StreamDelta(StreamKind::Content, "Hel".into()));
    update(&mut m, Msg::StreamDelta(StreamKind::Content, "lo".into()));
    assert_eq!(
        m.transcript.items(),
        &[TranscriptItem::Assistant("Hello".to_string())]
    );
}

#[test]
fn tool_started_then_finished_build_one_tool_item() {
    let mut m = Model::default();
    update(
        &mut m,
        Msg::ToolStarted {
            command: "cat a.txt".into(),
            diff: None,
            is_run_command: false,
        },
    );
    match m.transcript.items().as_slice() {
        [TranscriptItem::Tool(a)] => assert!(a.result.is_none(), "should be running"),
        other => panic!("expected one running tool item, got {other:?}"),
    }
    update(
        &mut m,
        Msg::ToolFinished {
            status: ToolStatus::Success,
            output: "hello".into(),
            elapsed: Duration::from_millis(3),
        },
    );
    match m.transcript.items().as_slice() {
        [TranscriptItem::Tool(a)] => {
            let (status, output, _) = a.result.as_ref().expect("finished");
            assert_eq!(*status, ToolStatus::Success);
            assert_eq!(output, "hello");
        }
        other => panic!("expected one finished tool item, got {other:?}"),
    }
}

#[test]
fn turn_ended_resets_per_turn_state() {
    let mut m = Model {
        busy: true,
        ..Model::default()
    };
    m.status.streaming = true;
    update(&mut m, Msg::TurnEnded);
    assert!(!m.busy);
    assert!(!m.status.streaming);
}

// --- screen selection invalidation --------------------------------------------

/// A non-empty three-cell character selection.
fn a_selection() -> ScreenSelection {
    let mut s = ScreenSelection::new(1, 1, Granularity::Char);
    s.extend(3, 1);
    s
}

#[test]
fn scroll_clears_the_screen_selection() {
    let mut m = Model::default();
    m.selection.active = Some(a_selection());
    update(&mut m, Msg::ScrollUp);
    assert!(m.selection.active.is_none());
    m.selection.active = Some(a_selection());
    update(&mut m, Msg::ScrollDown);
    assert!(m.selection.active.is_none());
}

#[test]
fn wheel_step_named_and_used() {
    // A wheel notch moves the named WHEEL_STEP lines, not a bare literal.
    let mut m = Model::default();
    update(&mut m, Msg::ScrollUp);
    assert_eq!(m.scroll.scrollback, WHEEL_STEP);
    update(&mut m, Msg::ScrollDown);
    assert_eq!(m.scroll.scrollback, 0);
}

#[test]
fn paste_into_an_open_wizard_fills_the_field_not_the_composer() {
    // Regression: a pasted API key (the common way keys are entered) must land in the wizard's
    // masked, Secret-staged field — never in the plaintext composer, where it would be unmasked,
    // survive the modal, and could be sent to the provider as a prompt.
    let mut wizard = ProviderWizard::new();
    wizard.step = WizardStep::ApiKey;
    let mut m = Model {
        wizard: Some(wizard),
        ..Model::default()
    };
    update(&mut m, Msg::Paste("sk-ant-pasted\n".to_string()));
    assert_eq!(
        m.wizard.as_ref().unwrap().api_key,
        "sk-ant-pasted",
        "the key fills the wizard field (control chars filtered)"
    );
    assert!(m.input.is_empty(), "the plaintext composer must stay empty");
}

#[test]
fn resize_clears_the_screen_selection() {
    let mut m = Model::default();
    m.selection.active = Some(a_selection());
    update(&mut m, Msg::Resize);
    assert!(m.selection.active.is_none());
}

#[test]
fn streamed_content_keeps_the_screen_selection() {
    // Async content must NOT drop the selection: a delta arriving mid-drag/mid-copy would otherwise
    // make it impossible to select streaming output.
    let mut m = Model::default();
    m.selection.active = Some(a_selection());
    update(&mut m, Msg::StreamDelta(StreamKind::Content, "hi".into()));
    assert!(
        m.selection.active.is_some(),
        "a stream delta must keep the selection"
    );
    update(&mut m, Msg::Tick);
    assert!(
        m.selection.active.is_some(),
        "a tick must keep the selection"
    );
}
