use cw_trainer::selector::{select, FileEntry};
use cw_trainer::session::{
    AudioRequest, DisplayRequest, PlayState, Session, INTER_CUE_PAUSE_MS, INTER_REPEAT_PAUSE_MS,
    MAX_REPEATS, POST_START_GRACE_MS,
};

fn chars(s: &str) -> Vec<char> {
    s.chars().collect()
}

fn entry(name: &str) -> FileEntry {
    FileEntry { name: chars(name), decodable: true }
}

/// Drives a fresh session to `WaitingForAnswer` on the single clip `K.wav`.
fn session_waiting_for_answer() -> Session {
    let entries = vec![entry("K.wav")];
    let sel = select(&entries).expect("one eligible entry");
    let mut s = Session::new();
    let out = s.tick(16, false, Some(sel));
    assert_eq!(s.state, PlayState::Playing);
    assert!(matches!(out.audio, AudioRequest::Start(_)));
    let _ = s.tick(POST_START_GRACE_MS, false, None);
    assert_eq!(s.state, PlayState::WaitingForAnswer);
    s
}

#[test]
fn single_file_start_plays_then_waits() {
    let entries = vec![entry("K.wav")];
    let sel = select(&entries).expect("one eligible entry");
    assert_eq!(sel.answer, chars("K"));

    let mut s = Session::new();
    let out = s.tick(16, false, Some(sel));
    assert_eq!(s.state, PlayState::Playing);
    match &out.audio {
        AudioRequest::Start(name) => assert_eq!(*name, chars("K.wav")),
        _ => panic!("expected a start request"),
    }
    assert!(matches!(out.display, DisplayRequest::Listening));
    match &s.pending {
        Some(p) => assert_eq!(p.answer, chars("K")),
        None => panic!("a clip must be loaded"),
    }

    // Within the grace period the engine's report is not trusted yet.
    let out = s.tick(POST_START_GRACE_MS - 1, false, None);
    assert_eq!(s.state, PlayState::Playing);
    assert!(matches!(out.display, DisplayRequest::Keep));

    // Grace over but still producing sound: keep playing.
    let out = s.tick(1, true, None);
    assert_eq!(s.state, PlayState::Playing);
    assert!(matches!(out.display, DisplayRequest::Keep));

    // Grace over and silent: collect the answer.
    let out = s.tick(1, false, None);
    assert_eq!(s.state, PlayState::WaitingForAnswer);
    assert!(matches!(out.audio, AudioRequest::Release));
    assert!(matches!(out.display, DisplayRequest::AskAnswer));
}

#[test]
fn correct_answer_scores_and_pauses() {
    let mut s = session_waiting_for_answer();
    s.on_char('k', true);
    assert_eq!(s.input_buffer, chars("K"));

    let display = s.on_submit();
    assert_eq!(s.correct_count, 1);
    assert_eq!(s.wrong_count, 0);
    assert!(s.last_answer_correct);
    assert_eq!(s.state, PlayState::Pausing);
    assert!(s.input_buffer.is_empty());
    match &display {
        DisplayRequest::Correct { answer } => assert_eq!(*answer, chars("K")),
        _ => panic!("expected the correct-answer display"),
    }
}

#[test]
fn wrong_answer_runs_three_repeats_then_pauses() {
    let mut s = session_waiting_for_answer();
    s.on_char('m', false);
    let display = s.on_submit();
    assert_eq!(s.wrong_count, 1);
    assert_eq!(s.correct_count, 0);
    assert!(!s.last_answer_correct);
    assert_eq!(s.repeat_index, 0);
    assert_eq!(s.state, PlayState::RepeatPausing);
    match &display {
        DisplayRequest::Wrong { expected, given } => {
            assert_eq!(*expected, chars("K"));
            assert_eq!(*given, chars("m"));
        },
        _ => panic!("expected the wrong-answer display"),
    }

    for round in 1..=MAX_REPEATS {
        let out = s.tick(INTER_REPEAT_PAUSE_MS, false, None);
        assert_eq!(s.state, PlayState::RepeatPlaying);
        assert_eq!(s.repeat_index, round);
        assert!(s.repeat_index <= MAX_REPEATS);
        assert!(matches!(out.audio, AudioRequest::Start(_)));
        match &out.display {
            DisplayRequest::Repeat { answer, repeat_index } => {
                assert_eq!(*answer, chars("K"));
                assert_eq!(*repeat_index, round);
            },
            _ => panic!("expected the repeat display"),
        }
        let out = s.tick(POST_START_GRACE_MS, false, None);
        assert_eq!(s.state, PlayState::RepeatPausing);
        assert!(matches!(out.audio, AudioRequest::Release));
    }

    // The fourth completed repeat pause enters the ordinary pause instead.
    let out = s.tick(INTER_REPEAT_PAUSE_MS, false, None);
    assert_eq!(s.state, PlayState::Pausing);
    assert_eq!(s.repeat_index, MAX_REPEATS);
    assert!(matches!(out.audio, AudioRequest::Keep));
    assert_eq!(s.wrong_count, 1);
}

#[test]
fn new_wrong_answer_cycle_resets_repeat_index() {
    let mut s = session_waiting_for_answer();
    s.on_char('m', false);
    let _ = s.on_submit();
    let _ = s.tick(INTER_REPEAT_PAUSE_MS, false, None);
    assert_eq!(s.repeat_index, 1);

    // Abandon the cycle, answer the next clip wrongly again.
    s.on_stop();
    s.on_start();
    let entries = vec![entry("M.ogg")];
    let sel = select(&entries).expect("one eligible entry");
    let _ = s.tick(16, false, Some(sel));
    let _ = s.tick(POST_START_GRACE_MS, false, None);
    assert_eq!(s.state, PlayState::WaitingForAnswer);
    s.on_char('x', false);
    let _ = s.on_submit();
    assert_eq!(s.repeat_index, 0);
    assert_eq!(s.wrong_count, 2);
}

#[test]
fn pause_display_switches_after_three_tenths() {
    let mut s = session_waiting_for_answer();
    s.on_char('k', false);
    let _ = s.on_submit();
    assert_eq!(s.state, PlayState::Pausing);

    // Before three tenths of the pause the answer stays on screen.
    let out = s.tick(INTER_CUE_PAUSE_MS * 3 / 10 - 1, false, None);
    assert!(matches!(out.display, DisplayRequest::Keep));
    // From three tenths on the pause text is requested.
    let out = s.tick(1, false, None);
    assert!(matches!(out.display, DisplayRequest::Pause));
    assert_eq!(s.state, PlayState::Pausing);
    // When the pause completes the machine is ready for the next clip.
    let out = s.tick(INTER_CUE_PAUSE_MS, false, None);
    assert!(matches!(out.display, DisplayRequest::Pause));
    assert_eq!(s.state, PlayState::ReadyToPlay);
}

#[test]
fn user_pause_freezes_the_machine() {
    let entries = vec![entry("K.wav")];
    let sel = select(&entries).expect("one eligible entry");
    let mut s = Session::new();
    let _ = s.tick(16, false, Some(sel));
    assert_eq!(s.state, PlayState::Playing);

    let paused = s.on_toggle_pause();
    assert!(paused);
    assert!(s.user_paused);

    // No transition happens while paused, however much time passes.
    for _ in 0..5 {
        let out = s.tick(10_000, false, None);
        assert_eq!(s.state, PlayState::Playing);
        assert!(matches!(out.audio, AudioRequest::Keep));
        assert!(matches!(out.display, DisplayRequest::Keep));
    }

    let paused = s.on_toggle_pause();
    assert!(!paused);
    // The grace timer did not advance while paused.
    let _ = s.tick(POST_START_GRACE_MS - 16, false, None);
    assert_eq!(s.state, PlayState::Playing);
    let _ = s.tick(16, false, None);
    assert_eq!(s.state, PlayState::WaitingForAnswer);
}

#[test]
fn stopped_machine_only_reacts_to_start() {
    let mut s = session_waiting_for_answer();
    s.on_char('k', false);
    let _ = s.on_submit();
    assert_eq!(s.correct_count, 1);

    s.on_stop();
    assert_eq!(s.state, PlayState::Stopped);
    assert!(!s.user_paused);

    for _ in 0..3 {
        let out = s.tick(10_000, false, None);
        assert_eq!(s.state, PlayState::Stopped);
        assert!(matches!(out.audio, AudioRequest::Release));
        assert!(matches!(out.display, DisplayRequest::Stopped));
    }
    // The scores survive the stop.
    assert_eq!(s.correct_count, 1);
    assert_eq!(s.wrong_count, 0);

    s.on_start();
    assert_eq!(s.state, PlayState::ReadyToPlay);
    assert!(!s.user_paused);
    assert_eq!(s.correct_count, 1);
}

#[test]
fn start_is_ignored_unless_stopped() {
    let mut s = session_waiting_for_answer();
    s.on_start();
    assert_eq!(s.state, PlayState::WaitingForAnswer);
}

#[test]
fn empty_submit_is_a_no_op() {
    let mut s = session_waiting_for_answer();
    let display = s.on_submit();
    assert!(matches!(display, DisplayRequest::Keep));
    assert_eq!(s.state, PlayState::WaitingForAnswer);
    assert_eq!(s.correct_count, 0);
    assert_eq!(s.wrong_count, 0);
}

#[test]
fn input_is_ignored_outside_answer_collection() {
    let mut s = Session::new();
    s.on_char('k', false);
    s.on_backspace();
    assert!(s.input_buffer.is_empty());
    assert_eq!(s.state, PlayState::ReadyToPlay);
}

#[test]
fn backspace_deletes_the_last_character() {
    let mut s = session_waiting_for_answer();
    s.on_char('a', false);
    s.on_char('b', true);
    assert_eq!(s.input_buffer, chars("aB"));
    s.on_backspace();
    assert_eq!(s.input_buffer, chars("a"));
    s.on_backspace();
    s.on_backspace();
    assert!(s.input_buffer.is_empty());
}

#[test]
fn shift_upper_cases_letters_only() {
    let mut s = session_waiting_for_answer();
    s.on_char('k', true);
    s.on_char('7', true);
    s.on_char('ö', true);
    s.on_char('-', true);
    s.on_char('m', false);
    assert_eq!(s.input_buffer, chars("K7Ö-m"));
}

#[test]
fn fresh_session_is_ready_with_zero_score() {
    let s = Session::default();
    assert_eq!(s.state, PlayState::ReadyToPlay);
    assert!(s.pending.is_none());
    assert!(s.input_buffer.is_empty());
    assert!(!s.user_paused);
    assert_eq!(s.correct_count, 0);
    assert_eq!(s.wrong_count, 0);
    assert_eq!(s.repeat_index, 0);
}

#[test]
fn ready_without_selection_stays_ready() {
    let mut s = Session::new();
    let out = s.tick(16, false, None);
    assert_eq!(s.state, PlayState::ReadyToPlay);
    assert!(matches!(out.audio, AudioRequest::Keep));
    assert!(matches!(out.display, DisplayRequest::Keep));
}
