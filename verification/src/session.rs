//! The playback/answer state machine.
//!
//! A [`Session`] is the one owned context value of a run: the current state,
//! the loaded clip and its expected answer, the input buffer, the score and
//! the three countdown timers.  Discrete input events and the per-frame
//! [`Session::tick`] drive it; side effects are returned as requests towards
//! the playback engine and the display, never performed here.

use crate::evaluator::{answer_correct, evaluate};
use crate::selector::Selection;
use crate::text::{copy_chars, is_letter, is_letter_char, to_upper_char, upper_char};
use crate::timer::{advanced, reset_of, CountdownTimer};
use vstd::prelude::*;

verus! {

/// Grace period after starting playback, before the engine's sound report
/// is trusted.
pub const POST_START_GRACE_MS: u64 = 500;

/// Pause between a scored answer and the next clip.
pub const INTER_CUE_PAUSE_MS: u64 = 2000;

/// Pause between the automatic repeats of a wrongly answered clip.
pub const INTER_REPEAT_PAUSE_MS: u64 = 800;

/// Number of automatic replays after a wrong answer.
pub const MAX_REPEATS: u32 = 3;

/// The states of the playback machine.
#[derive(Clone, Copy, Debug, PartialEq, Eq, Structural)]
pub enum PlayState {
    ReadyToPlay,
    Playing,
    WaitingForAnswer,
    Pausing,
    RepeatPausing,
    RepeatPlaying,
    Stopped,
}

/// The clip currently loaded: its file name, which identifies it towards
/// the playback engine, and the expected answer derived from it.  Holding
/// both in one value keeps them present or absent together.
pub struct PendingClip {
    pub file_name: Vec<char>,
    pub answer: Vec<char>,
}

/// Request towards the playback engine emitted by one tick.
pub enum AudioRequest {
    /// Leave playback as it is.
    Keep,
    /// Release the active clip, if any.
    Release,
    /// Release the active clip, if any, then load and start the named one.
    Start(Vec<char>),
}

/// Request towards the display emitted by one tick or one submit.  The
/// rendering layer turns each variant into its status text.
pub enum DisplayRequest {
    /// Leave the text as it is.
    Keep,
    /// The machine is stopped ("Gestoppt").
    Stopped,
    /// A clip has started ("Hoere zu...").
    Listening,
    /// The clip ended; ask which character was heard.
    AskAnswer,
    /// The inter-cue pause is past its first three tenths ("Pause...").
    Pause,
    /// A correct answer: show the expected answer in its original casing.
    Correct { answer: Vec<char> },
    /// A wrong answer: show the expected answer, what was submitted, and
    /// that the clip will repeat.
    Wrong { expected: Vec<char>, given: Vec<char> },
    /// A repeat just started: show the solution and the repeat number.
    Repeat { answer: Vec<char>, repeat_index: u32 },
}

/// What one tick asks of the outside: at most one playback request and at
/// most one display request.
pub struct TickOutput {
    pub audio: AudioRequest,
    pub display: DisplayRequest,
}

/// `a` asks the engine to start the clip named `name`.
pub open spec fn audio_is_start(a: AudioRequest, name: Seq<char>) -> bool {
    match a {
        AudioRequest::Start(n) => n@ == name,
        _ => false,
    }
}

/// `d` shows the correct answer `ans`.
pub open spec fn display_is_correct(d: DisplayRequest, ans: Seq<char>) -> bool {
    match d {
        DisplayRequest::Correct { answer } => answer@ == ans,
        _ => false,
    }
}

/// `d` shows a wrong answer: `exp` was expected, `giv` was submitted.
pub open spec fn display_is_wrong(d: DisplayRequest, exp: Seq<char>, giv: Seq<char>) -> bool {
    match d {
        DisplayRequest::Wrong { expected, given } => expected@ == exp && given@ == giv,
        _ => false,
    }
}

/// `d` announces repeat number `idx` with the solution `ans`.
pub open spec fn display_is_repeat(d: DisplayRequest, ans: Seq<char>, idx: u32) -> bool {
    match d {
        DisplayRequest::Repeat { answer, repeat_index } => answer@ == ans && repeat_index == idx,
        _ => false,
    }
}

/// The session: the whole mutable state of a run.  The counters only ever
/// grow and survive stops; everything else belongs to the current cue.
pub struct Session {
    pub state: PlayState,
    pub pending: Option<PendingClip>,
    pub input_buffer: Vec<char>,
    pub user_paused: bool,
    pub correct_count: u32,
    pub wrong_count: u32,
    pub last_answer_correct: bool,
    pub repeat_index: u32,
    pub post_start_timer: CountdownTimer,
    pub inter_cue_timer: CountdownTimer,
    pub inter_repeat_timer: CountdownTimer,
}

/// The scores and the result of the last evaluation agree in `a` and `b`.
pub open spec fn same_score(a: Session, b: Session) -> bool {
    &&& b.correct_count == a.correct_count
    &&& b.wrong_count == a.wrong_count
    &&& b.last_answer_correct == a.last_answer_correct
}

/// `a` and `b` hold the same clip (or none).
pub open spec fn same_pending(a: Session, b: Session) -> bool {
    match (a.pending, b.pending) {
        (Option::None, Option::None) => true,
        (Option::Some(x), Option::Some(y)) => y.file_name@ == x.file_name@ && y.answer@
            == x.answer@,
        _ => false,
    }
}

/// Everything but the scores agrees in `a` and `b`: a no-op transition.
pub open spec fn same_machine(a: Session, b: Session) -> bool {
    &&& b.state == a.state
    &&& same_pending(a, b)
    &&& b.input_buffer@ == a.input_buffer@
    &&& b.user_paused == a.user_paused
    &&& b.repeat_index == a.repeat_index
    &&& b.post_start_timer == a.post_start_timer
    &&& b.inter_cue_timer == a.inter_cue_timer
    &&& b.inter_repeat_timer == a.inter_repeat_timer
}

/// The repeat count never exceeds its bound in any well-formed session;
/// every constructor and every event handler returns a well-formed session.
pub proof fn lemma_repeat_index_bounded(s: Session)
    requires
        s.wf(),
    ensures
        s.repeat_index <= MAX_REPEATS,
{
}

/// `s` holds a clip with the given file name and expected answer.
pub open spec fn pending_is(s: Session, name: Seq<char>, ans: Seq<char>) -> bool {
    match s.pending {
        Option::Some(p) => p.file_name@ == name && p.answer@ == ans,
        Option::None => false,
    }
}

impl Session {
    /// Whether a clip is loaded.
    pub open spec fn has_clip(self) -> bool {
        self.pending is Some
    }

    /// The loaded clip's file name.
    pub open spec fn clip_name(self) -> Seq<char>
        recommends
            self.has_clip(),
    {
        match self.pending {
            Option::Some(p) => p.file_name@,
            Option::None => Seq::empty(),
        }
    }

    /// The loaded clip's expected answer.
    pub open spec fn expected_answer(self) -> Seq<char>
        recommends
            self.has_clip(),
    {
        match self.pending {
            Option::Some(p) => p.answer@,
            Option::None => Seq::empty(),
        }
    }

    /// The session invariant: the repeat count stays within its bound, each
    /// timer is well formed and keeps its fixed duration, the input buffer
    /// is empty outside the answer-collection state, and every state that
    /// plays or scores a clip indeed holds one.
    pub open spec fn wf(self) -> bool {
        &&& self.repeat_index <= MAX_REPEATS
        &&& self.post_start_timer.wf()
        &&& self.post_start_timer.duration_ms == POST_START_GRACE_MS
        &&& self.inter_cue_timer.wf()
        &&& self.inter_cue_timer.duration_ms == INTER_CUE_PAUSE_MS
        &&& self.inter_repeat_timer.wf()
        &&& self.inter_repeat_timer.duration_ms == INTER_REPEAT_PAUSE_MS
        &&& (self.state != PlayState::WaitingForAnswer ==> self.input_buffer@.len() == 0)
        &&& (match self.state {
            PlayState::ReadyToPlay => true,
            PlayState::Stopped => true,
            _ => self.has_clip(),
        })
    }

    /// A fresh session: ready to play, nothing loaded, both counters zero.
    pub fn new() -> (r: Session)
        ensures
            r.wf(),
            r.state == PlayState::ReadyToPlay,
            !r.has_clip(),
            r.input_buffer@.len() == 0,
            !r.user_paused,
            r.correct_count == 0,
            r.wrong_count == 0,
            r.last_answer_correct,
            r.repeat_index == 0,
            r.post_start_timer.elapsed_ms == 0,
            r.inter_cue_timer.elapsed_ms == 0,
            r.inter_repeat_timer.elapsed_ms == 0,
    {
        Session {
            state: PlayState::ReadyToPlay,
            pending: Option::None,
            input_buffer: Vec::new(),
            user_paused: false,
            correct_count: 0,
            wrong_count: 0,
            last_answer_correct: true,
            repeat_index: 0,
            post_start_timer: CountdownTimer::new(POST_START_GRACE_MS),
            inter_cue_timer: CountdownTimer::new(INTER_CUE_PAUSE_MS),
            inter_repeat_timer: CountdownTimer::new(INTER_REPEAT_PAUSE_MS),
        }
    }

    /// An explicit start action: only a stopped machine reacts, returning to
    /// the ready state and clearing the user's pause.
    pub fn on_start(&mut self)
        requires
            old(self).wf(),
        ensures
            final(self).wf(),
            old(self).state == PlayState::Stopped ==> final(self).state == PlayState::ReadyToPlay
                && !final(self).user_paused,
            old(self).state != PlayState::Stopped ==> final(self).state == old(self).state
                && final(self).user_paused == old(self).user_paused,
            same_pending(*old(self), *final(self)),
            final(self).input_buffer@ == old(self).input_buffer@,
            same_score(*old(self), *final(self)),
            final(self).repeat_index == old(self).repeat_index,
            final(self).post_start_timer == old(self).post_start_timer,
            final(self).inter_cue_timer == old(self).inter_cue_timer,
            final(self).inter_repeat_timer == old(self).inter_repeat_timer,
    {
        if matches!(self.state, PlayState::Stopped) {
            self.state = PlayState::ReadyToPlay;
            self.user_paused = false;
        }
    }

    /// An explicit stop action: effective from any state at once.  The
    /// scores survive; the input buffer does not.
    pub fn on_stop(&mut self)
        requires
            old(self).wf(),
        ensures
            final(self).wf(),
            final(self).state == PlayState::Stopped,
            !final(self).user_paused,
            final(self).input_buffer@.len() == 0,
            same_pending(*old(self), *final(self)),
            same_score(*old(self), *final(self)),
            final(self).repeat_index == old(self).repeat_index,
            final(self).post_start_timer == old(self).post_start_timer,
            final(self).inter_cue_timer == old(self).inter_cue_timer,
            final(self).inter_repeat_timer == old(self).inter_repeat_timer,
    {
        self.state = PlayState::Stopped;
        self.user_paused = false;
        self.input_buffer.clear();
    }

    /// Toggles the user's explicit pause.  The flag is orthogonal to the
    /// machine's own pause states; the caller pauses or resumes the engine
    /// from the returned value.
    pub fn on_toggle_pause(&mut self) -> (paused: bool)
        requires
            old(self).wf(),
        ensures
            final(self).wf(),
            final(self).user_paused == !old(self).user_paused,
            paused == final(self).user_paused,
            final(self).state == old(self).state,
            same_pending(*old(self), *final(self)),
            final(self).input_buffer@ == old(self).input_buffer@,
            same_score(*old(self), *final(self)),
            final(self).repeat_index == old(self).repeat_index,
            final(self).post_start_timer == old(self).post_start_timer,
            final(self).inter_cue_timer == old(self).inter_cue_timer,
            final(self).inter_repeat_timer == old(self).inter_repeat_timer,
    {
        self.user_paused = !self.user_paused;
        self.user_paused
    }

    /// A typed character: appended to the input buffer while an answer is
    /// collected, upper-cased when the shift modifier is active and the
    /// character is a letter; ignored in every other state.
    pub fn on_char(&mut self, c: char, shift: bool)
        requires
            old(self).wf(),
        ensures
            final(self).wf(),
            old(self).state == PlayState::WaitingForAnswer ==> final(self).input_buffer@ == old(
                self,
            ).input_buffer@.push(
                if shift && is_letter(c) {
                    upper_char(c)
                } else {
                    c
                },
            ),
            old(self).state != PlayState::WaitingForAnswer ==> final(self).input_buffer@ == old(
                self,
            ).input_buffer@,
            final(self).state == old(self).state,
            same_pending(*old(self), *final(self)),
            final(self).user_paused == old(self).user_paused,
            same_score(*old(self), *final(self)),
            final(self).repeat_index == old(self).repeat_index,
            final(self).post_start_timer == old(self).post_start_timer,
            final(self).inter_cue_timer == old(self).inter_cue_timer,
            final(self).inter_repeat_timer == old(self).inter_repeat_timer,
    {
        if matches!(self.state, PlayState::WaitingForAnswer) {
            let typed = if shift && is_letter_char(c) {
                to_upper_char(c)
            } else {
                c
            };
            self.input_buffer.push(typed);
        }
    }

    /// Whether the machine advances on its own: it is neither stopped nor
    /// paused by the user.
    pub open spec fn spec_active(self) -> bool {
        self.state != PlayState::Stopped && !self.user_paused
    }

    /// A submit event.  It is inert unless an answer is being collected and
    /// the buffer is non-empty; otherwise the buffered answer is scored
    /// against the expected one: exactly one counter grows by one, the
    /// buffer is cleared, and the machine enters the matching pause.
    pub fn on_submit(&mut self) -> (display: DisplayRequest)
        requires
            old(self).wf(),
            old(self).correct_count < u32::MAX,
            old(self).wrong_count < u32::MAX,
        ensures
            final(self).wf(),
            final(self).user_paused == old(self).user_paused,
            same_pending(*old(self), *final(self)),
            final(self).post_start_timer == old(self).post_start_timer,
            (old(self).state != PlayState::WaitingForAnswer || old(self).input_buffer@.len()
                == 0) ==> {
                &&& same_machine(*old(self), *final(self))
                &&& same_score(*old(self), *final(self))
                &&& display is Keep
            },
            (old(self).state == PlayState::WaitingForAnswer && old(self).input_buffer@.len() > 0
                && answer_correct(old(self).input_buffer@, old(self).expected_answer())) ==> {
                &&& final(self).state == PlayState::Pausing
                &&& final(self).input_buffer@.len() == 0
                &&& final(self).correct_count == old(self).correct_count + 1
                &&& final(self).wrong_count == old(self).wrong_count
                &&& final(self).last_answer_correct
                &&& final(self).repeat_index == old(self).repeat_index
                &&& final(self).inter_cue_timer == reset_of(old(self).inter_cue_timer)
                &&& final(self).inter_repeat_timer == old(self).inter_repeat_timer
                &&& display_is_correct(display, old(self).expected_answer())
            },
            (old(self).state == PlayState::WaitingForAnswer && old(self).input_buffer@.len() > 0
                && !answer_correct(old(self).input_buffer@, old(self).expected_answer())) ==> {
                &&& final(self).state == PlayState::RepeatPausing
                &&& final(self).input_buffer@.len() == 0
                &&& final(self).correct_count == old(self).correct_count
                &&& final(self).wrong_count == old(self).wrong_count + 1
                &&& !final(self).last_answer_correct
                &&& final(self).repeat_index == 0
                &&& final(self).inter_cue_timer == old(self).inter_cue_timer
                &&& final(self).inter_repeat_timer == reset_of(old(self).inter_repeat_timer)
                &&& display_is_wrong(display, old(self).expected_answer(), old(self).input_buffer@)
            },
    {
        if !(self.state == PlayState::WaitingForAnswer) || self.input_buffer.len() == 0 {
            return DisplayRequest::Keep;
        }
        let expected = match &self.pending {
            Option::Some(p) => copy_chars(&p.answer),
            Option::None => {
                proof {
                    assert(false);
                }
                Vec::new()
            },
        };
        let outcome = evaluate(&self.input_buffer, &expected);
        let given = copy_chars(&self.input_buffer);
        self.input_buffer.clear();
        if outcome.is_correct {
            self.correct_count = self.correct_count + 1;
            self.last_answer_correct = true;
            self.inter_cue_timer.reset();
            self.state = PlayState::Pausing;
            DisplayRequest::Correct { answer: expected }
        } else {
            self.wrong_count = self.wrong_count + 1;
            self.last_answer_correct = false;
            self.repeat_index = 0;
            self.inter_repeat_timer.reset();
            self.state = PlayState::RepeatPausing;
            DisplayRequest::Wrong { expected, given }
        }
    }

    /// A backspace: removes the last buffered character while an answer is
    /// collected; ignored otherwise and on an empty buffer.
    pub fn on_backspace(&mut self)
        requires
            old(self).wf(),
        ensures
            final(self).wf(),
            old(self).state == PlayState::WaitingForAnswer && old(self).input_buffer@.len() > 0
                ==> final(self).input_buffer@ == old(self).input_buffer@.subrange(
                0,
                old(self).input_buffer@.len() - 1,
            ),
            old(self).state != PlayState::WaitingForAnswer || old(self).input_buffer@.len() == 0
                ==> final(self).input_buffer@ == old(self).input_buffer@,
            final(self).state == old(self).state,
            same_pending(*old(self), *final(self)),
            final(self).user_paused == old(self).user_paused,
            same_score(*old(self), *final(self)),
            final(self).repeat_index == old(self).repeat_index,
            final(self).post_start_timer == old(self).post_start_timer,
            final(self).inter_cue_timer == old(self).inter_cue_timer,
            final(self).inter_repeat_timer == old(self).inter_repeat_timer,
    {
        if matches!(self.state, PlayState::WaitingForAnswer) {
            let _ = self.input_buffer.pop();
        }
    }
    /// One tick of the machine.  `delta_ms` is the time elapsed since the
    /// previous tick, `sound_playing` the playback engine's report, and
    /// `next` a freshly selected clip, consulted only in the ready state.
    ///
    /// The stop check always wins; then the user's pause suppresses every
    /// transition; then at most one state-specific transition runs.  Ticks
    /// never touch the score.
    pub fn tick(&mut self, delta_ms: u64, sound_playing: bool, next: Option<Selection>) -> (out:
        TickOutput)
        requires
            old(self).wf(),
        ensures
            final(self).wf(),
            same_score(*old(self), *final(self)),
            final(self).user_paused == old(self).user_paused,
            old(self).state == PlayState::Stopped ==> {
                &&& same_machine(*old(self), *final(self))
                &&& out.audio is Release
                &&& out.display is Stopped
            },
            old(self).state != PlayState::Stopped && old(self).user_paused ==> {
                &&& same_machine(*old(self), *final(self))
                &&& out.audio is Keep
                &&& out.display is Keep
            },
            old(self).spec_active() && old(self).state == PlayState::ReadyToPlay ==> (match next {
                Option::Some(sel) => {
                    &&& final(self).state == PlayState::Playing
                    &&& pending_is(*final(self), sel.file_name@, sel.answer@)
                    &&& final(self).input_buffer@.len() == 0
                    &&& final(self).repeat_index == old(self).repeat_index
                    &&& final(self).post_start_timer == reset_of(old(self).post_start_timer)
                    &&& final(self).inter_cue_timer == old(self).inter_cue_timer
                    &&& final(self).inter_repeat_timer == old(self).inter_repeat_timer
                    &&& audio_is_start(out.audio, sel.file_name@)
                    &&& out.display is Listening
                },
                Option::None => {
                    &&& same_machine(*old(self), *final(self))
                    &&& out.audio is Keep
                    &&& out.display is Keep
                },
            }),
            old(self).spec_active() && old(self).state == PlayState::Playing ==> ({
                let t = advanced(old(self).post_start_timer, delta_ms);
                &&& final(self).post_start_timer == t
                &&& final(self).inter_cue_timer == old(self).inter_cue_timer
                &&& final(self).inter_repeat_timer == old(self).inter_repeat_timer
                &&& same_pending(*old(self), *final(self))
                &&& final(self).repeat_index == old(self).repeat_index
                &&& ((!t.spec_finished() || sound_playing) ==> final(self).state
                    == PlayState::Playing && final(self).input_buffer@ == old(self).input_buffer@
                    && out.audio is Keep && out.display is Keep)
                &&& ((t.spec_finished() && !sound_playing) ==> final(self).state
                    == PlayState::WaitingForAnswer && final(self).input_buffer@.len() == 0
                    && out.audio is Release && out.display is AskAnswer)
            }),
            old(self).spec_active() && old(self).state == PlayState::WaitingForAnswer ==> {
                &&& same_machine(*old(self), *final(self))
                &&& out.audio is Keep
                &&& out.display is Keep
            },
            old(self).spec_active() && old(self).state == PlayState::Pausing ==> ({
                let t = advanced(old(self).inter_cue_timer, delta_ms);
                &&& final(self).inter_cue_timer == t
                &&& final(self).post_start_timer == old(self).post_start_timer
                &&& final(self).inter_repeat_timer == old(self).inter_repeat_timer
                &&& same_pending(*old(self), *final(self))
                &&& final(self).input_buffer@ == old(self).input_buffer@
                &&& final(self).repeat_index == old(self).repeat_index
                &&& out.audio is Keep
                &&& (t.spec_three_tenths_elapsed() ==> out.display is Pause)
                &&& (!t.spec_three_tenths_elapsed() ==> out.display is Keep)
                &&& (t.spec_finished() ==> final(self).state == PlayState::ReadyToPlay)
                &&& (!t.spec_finished() ==> final(self).state == PlayState::Pausing)
            }),
            old(self).spec_active() && old(self).state == PlayState::RepeatPausing ==> ({
                let t = advanced(old(self).inter_repeat_timer, delta_ms);
                &&& same_pending(*old(self), *final(self))
                &&& final(self).input_buffer@ == old(self).input_buffer@
                &&& (!t.spec_finished() ==> {
                    &&& final(self).state == PlayState::RepeatPausing
                    &&& final(self).repeat_index == old(self).repeat_index
                    &&& final(self).inter_repeat_timer == t
                    &&& final(self).post_start_timer == old(self).post_start_timer
                    &&& final(self).inter_cue_timer == old(self).inter_cue_timer
                    &&& out.audio is Keep
                    &&& out.display is Keep
                })
                &&& ((t.spec_finished() && old(self).repeat_index < MAX_REPEATS) ==> {
                    &&& final(self).state == PlayState::RepeatPlaying
                    &&& final(self).repeat_index == old(self).repeat_index + 1
                    &&& final(self).post_start_timer == reset_of(old(self).post_start_timer)
                    &&& final(self).inter_cue_timer == old(self).inter_cue_timer
                    &&& final(self).inter_repeat_timer == t
                    &&& audio_is_start(out.audio, old(self).clip_name())
                    &&& display_is_repeat(
                        out.display,
                        old(self).expected_answer(),
                        (old(self).repeat_index + 1) as u32,
                    )
                })
                &&& ((t.spec_finished() && old(self).repeat_index >= MAX_REPEATS) ==> {
                    &&& final(self).state == PlayState::Pausing
                    &&& final(self).repeat_index == old(self).repeat_index
                    &&& final(self).post_start_timer == old(self).post_start_timer
                    &&& final(self).inter_cue_timer == reset_of(old(self).inter_cue_timer)
                    &&& final(self).inter_repeat_timer == t
                    &&& out.audio is Keep
                    &&& out.display is Keep
                })
            }),
            old(self).spec_active() && old(self).state == PlayState::RepeatPlaying ==> ({
                let t = advanced(old(self).post_start_timer, delta_ms);
                &&& final(self).post_start_timer == t
                &&& final(self).inter_cue_timer == old(self).inter_cue_timer
                &&& same_pending(*old(self), *final(self))
                &&& final(self).input_buffer@ == old(self).input_buffer@
                &&& final(self).repeat_index == old(self).repeat_index
                &&& ((!t.spec_finished() || sound_playing) ==> final(self).state
                    == PlayState::RepeatPlaying && final(self).inter_repeat_timer == old(
                    self,
                ).inter_repeat_timer && out.audio is Keep && out.display is Keep)
                &&& ((t.spec_finished() && !sound_playing) ==> final(self).state
                    == PlayState::RepeatPausing && final(self).inter_repeat_timer == reset_of(
                    old(self).inter_repeat_timer,
                ) && out.audio is Release && out.display is Keep)
            }),
    {
        if self.state == PlayState::Stopped {
            return TickOutput { audio: AudioRequest::Release, display: DisplayRequest::Stopped };
        }
        if self.user_paused {
            return TickOutput { audio: AudioRequest::Keep, display: DisplayRequest::Keep };
        }
        match self.state {
            PlayState::ReadyToPlay => {
                match next {
                    Option::Some(sel) => {
                        let name = copy_chars(&sel.file_name);
                        self.pending = Option::Some(
                            PendingClip { file_name: sel.file_name, answer: sel.answer },
                        );
                        self.post_start_timer.reset();
                        self.state = PlayState::Playing;
                        TickOutput {
                            audio: AudioRequest::Start(name),
                            display: DisplayRequest::Listening,
                        }
                    },
                    Option::None => TickOutput {
                        audio: AudioRequest::Keep,
                        display: DisplayRequest::Keep,
                    },
                }
            },
            PlayState::Playing => {
                self.post_start_timer.advance(delta_ms);
                if !self.post_start_timer.finished() {
                    TickOutput { audio: AudioRequest::Keep, display: DisplayRequest::Keep }
                } else if sound_playing {
                    TickOutput { audio: AudioRequest::Keep, display: DisplayRequest::Keep }
                } else {
                    self.state = PlayState::WaitingForAnswer;
                    self.input_buffer.clear();
                    TickOutput { audio: AudioRequest::Release, display: DisplayRequest::AskAnswer }
                }
            },
            PlayState::WaitingForAnswer => {
                TickOutput { audio: AudioRequest::Keep, display: DisplayRequest::Keep }
            },
            PlayState::Pausing => {
                self.inter_cue_timer.advance(delta_ms);
                let display = if self.inter_cue_timer.three_tenths_elapsed() {
                    DisplayRequest::Pause
                } else {
                    DisplayRequest::Keep
                };
                if self.inter_cue_timer.finished() {
                    self.state = PlayState::ReadyToPlay;
                }
                TickOutput { audio: AudioRequest::Keep, display }
            },
            PlayState::RepeatPausing => {
                self.inter_repeat_timer.advance(delta_ms);
                if !self.inter_repeat_timer.finished() {
                    TickOutput { audio: AudioRequest::Keep, display: DisplayRequest::Keep }
                } else if self.repeat_index < MAX_REPEATS {
                    let (name, answer) = match &self.pending {
                        Option::Some(p) => (copy_chars(&p.file_name), copy_chars(&p.answer)),
                        Option::None => {
                            proof {
                                assert(false);
                            }
                            (Vec::new(), Vec::new())
                        },
                    };
                    self.repeat_index = self.repeat_index + 1;
                    self.post_start_timer.reset();
                    self.state = PlayState::RepeatPlaying;
                    TickOutput {
                        audio: AudioRequest::Start(name),
                        display: DisplayRequest::Repeat {
                            answer,
                            repeat_index: self.repeat_index,
                        },
                    }
                } else {
                    self.inter_cue_timer.reset();
                    self.state = PlayState::Pausing;
                    TickOutput { audio: AudioRequest::Keep, display: DisplayRequest::Keep }
                }
            },
            PlayState::RepeatPlaying => {
                self.post_start_timer.advance(delta_ms);
                if !self.post_start_timer.finished() {
                    TickOutput { audio: AudioRequest::Keep, display: DisplayRequest::Keep }
                } else if sound_playing {
                    TickOutput { audio: AudioRequest::Keep, display: DisplayRequest::Keep }
                } else {
                    self.inter_repeat_timer.reset();
                    self.state = PlayState::RepeatPausing;
                    TickOutput { audio: AudioRequest::Release, display: DisplayRequest::Keep }
                }
            },
            PlayState::Stopped => {
                proof {
                    assert(false);
                }
                TickOutput { audio: AudioRequest::Keep, display: DisplayRequest::Keep }
            },
        }
    }
}

impl Default for Session {
    /// Same as [`Session::new`].
    fn default() -> (r: Session)
        ensures
            r.wf(),
            r.state == PlayState::ReadyToPlay,
            !r.has_clip(),
            r.input_buffer@.len() == 0,
            !r.user_paused,
            r.correct_count == 0,
            r.wrong_count == 0,
            r.repeat_index == 0,
    {
        Session::new()
    }
}

} // verus!
