//! The audio engine: sole owner of the play queue, the current-track cursor
//! and the authoritative play state. It consumes commands strictly in send
//! order; device work (decoding, output control) is handed back as actions
//! for the surrounding application to perform, and decode outcomes return
//! through `on_decoded` / `on_decode_failed`.

use vstd::prelude::*;
use vstd::arithmetic::div_mod::{
    lemma_div_by_multiple, lemma_div_is_ordered, lemma_div_multiples_vanish,
    lemma_div_pos_is_pos, lemma_multiply_divide_lt, lemma_small_div_converse,
};
use crate::seeker::{lemma_scale_round_trip, ppm_of, ppm_to_units, SeekPos, PPM_SCALE,
    TRACK_DONE_PPM};
use crate::song::Song;

verus! {

/// The engine's play state. `Stopped` holds only while no track is loaded:
/// before the first enqueue, or after a decode failure exhausted the queue.
#[derive(Clone, Copy, Debug, PartialEq, Eq, Structural)]
pub enum PlayState {
    Stopped,
    Paused,
    Playing,
}

/// The closed set of commands the user interface sends to the engine. They
/// are processed strictly in send order by the one consumer, so a `GetPos`
/// sent after a `Seek` always reflects the post-seek position. The answer to
/// `GetPos` comes back in the same step's output, tied to this exact
/// command.
#[derive(Debug, Clone)]
pub enum PlayerMessage {
    Play,
    Paus,
    Stop,
    Next,
    Prev,
    Seek(SeekPos),
    GetPos,
    PlaySong(Song),
}

/// The error taxonomy. `DeviceUnavailable` is fatal at startup, before the
/// engine runs; the others are recoverable and reported through the same
/// output path as successes, never by terminating the engine.
#[derive(Clone, Copy, Debug, PartialEq, Eq, Structural)]
pub enum EngineError {
    /// No output device could be opened at startup.
    DeviceUnavailable,
    /// The current track could not be decoded; it is skipped.
    DecodeFailure,
    /// A seek target could not be honoured by the device.
    SeekOutOfRange,
    /// The command channel to the engine is gone; it accepts nothing more.
    ChannelClosed,
}

/// Device work the engine asks the application to perform, in order.
#[derive(Clone, Copy, Debug, PartialEq, Eq, Structural)]
pub enum EngineAction {
    /// Decode the track under the cursor and report the outcome back
    /// through `on_decoded` or `on_decode_failed`.
    Load,
    /// Resume output.
    Resume,
    /// Suspend output without discarding the position.
    Suspend,
    /// Reposition the output device to this many milliseconds.
    SeekTo(u64),
    /// Leave the command loop; the engine is not consulted again.
    Shutdown,
}

/// What handling one input produced: device work to perform in order, the
/// position reply when the input was `GetPos`, and a recoverable error
/// report if any.
#[derive(Debug)]
pub struct EngineOutput {
    pub actions: Vec<EngineAction>,
    pub position: Option<SeekPos>,
    pub error: Option<EngineError>,
}

/// The engine as contracts see it.
#[verifier::ext_equal]
pub struct EngineView {
    pub state: PlayState,
    pub queue: Seq<Song>,
    pub current: Option<int>,
    pub duration_ms: int,
    pub elapsed_ms: int,
    pub loading: bool,
}

/// The emissions of one engine step, at view level; positions appear as
/// parts per million.
#[verifier::ext_equal]
pub struct EngineOut {
    pub actions: Seq<EngineAction>,
    pub position: Option<int>,
    pub error: Option<EngineError>,
}

impl View for EngineOutput {
    type V = EngineOut;

    open spec fn view(&self) -> EngineOut {
        EngineOut {
            actions: self.actions@,
            position: match self.position {
                Some(p) => Some(p@),
                None => None,
            },
            error: self.error,
        }
    }
}

impl EngineOut {
    /// An emission carrying only device actions.
    pub open spec fn acts(actions: Seq<EngineAction>) -> EngineOut {
        EngineOut { actions, position: None, error: None }
    }

    /// The empty emission: an acknowledged no-op.
    pub open spec fn quiet() -> EngineOut {
        EngineOut::acts(Seq::empty())
    }
}

impl EngineView {
    /// The engine before any track was enqueued.
    pub open spec fn init() -> EngineView {
        EngineView {
            state: PlayState::Stopped,
            queue: Seq::empty(),
            current: None,
            duration_ms: 0,
            elapsed_ms: 0,
            loading: false,
        }
    }

    /// Internal consistency: the cursor stays inside the queue; without a
    /// cursor the engine is stopped with no duration or progress; while a
    /// decode is pending, duration and progress are still unknown.
    pub open spec fn wf(self) -> bool {
        &&& match self.current {
            Some(i) => 0 <= i < self.queue.len(),
            None => {
                &&& self.state is Stopped
                &&& self.duration_ms == 0
                &&& self.elapsed_ms == 0
                &&& !self.loading
            },
        }
        &&& self.loading ==> self.duration_ms == 0 && self.elapsed_ms == 0
    }

    /// Whether a decoded track is loaded and ready for output control.
    pub open spec fn loaded(self) -> bool {
        self.current is Some && !self.loading
    }

    /// Begin loading the track at queue index `i`: duration and progress are
    /// unknown until the decoder answers.
    pub open spec fn start_load(self, i: int) -> EngineView {
        EngineView { current: Some(i), duration_ms: 0, elapsed_ms: 0, loading: true, ..self }
    }

    /// The position the engine reports: elapsed over duration, 0 when no
    /// track is loaded or its duration is still unknown.
    pub open spec fn position_ppm(self) -> int {
        ppm_of(self.elapsed_ms, self.duration_ms)
    }

    /// `Play`: with a loaded track, go to `Playing` and resume output;
    /// otherwise an acknowledged no-op.
    pub open spec fn step_play(self) -> (EngineView, EngineOut) {
        if self.loaded() {
            (
                EngineView { state: PlayState::Playing, ..self },
                EngineOut::acts(seq![EngineAction::Resume]),
            )
        } else {
            (self, EngineOut::quiet())
        }
    }

    /// `Paus`: with a loaded track, go to `Paused` and suspend output
    /// without discarding the position; otherwise an acknowledged no-op.
    pub open spec fn step_pause(self) -> (EngineView, EngineOut) {
        if self.loaded() {
            (
                EngineView { state: PlayState::Paused, ..self },
                EngineOut::acts(seq![EngineAction::Suspend]),
            )
        } else {
            (self, EngineOut::quiet())
        }
    }

    /// `Stop`: cooperative teardown. Output is suspended and the command
    /// loop exits; the engine state no longer matters.
    pub open spec fn step_stop(self) -> (EngineView, EngineOut) {
        (self, EngineOut::acts(seq![EngineAction::Suspend, EngineAction::Shutdown]))
    }

    /// `Next`: with a loaded track and another queued after it, move the
    /// cursor forward and start loading it; the play state carries over to
    /// the new track. At the queue's boundary, or with nothing loaded, a
    /// no-op.
    pub open spec fn step_next(self) -> (EngineView, EngineOut) {
        match self.current {
            Some(i) => {
                if !self.loading && i + 1 < self.queue.len() {
                    (self.start_load(i + 1), EngineOut::acts(seq![EngineAction::Load]))
                } else {
                    (self, EngineOut::quiet())
                }
            },
            None => (self, EngineOut::quiet()),
        }
    }

    /// `Prev`: the mirror of `Next`, moving the cursor back by one.
    pub open spec fn step_prev(self) -> (EngineView, EngineOut) {
        match self.current {
            Some(i) => {
                if !self.loading && i > 0 {
                    (self.start_load(i - 1), EngineOut::acts(seq![EngineAction::Load]))
                } else {
                    (self, EngineOut::quiet())
                }
            },
            None => (self, EngineOut::quiet()),
        }
    }

    /// `Seek`: with a loaded track, move the recorded progress to the target
    /// the position denotes and ask the device to reposition; with nothing
    /// loaded, an acknowledged no-op. Should the device fail to reposition,
    /// the next poll tick overwrites the optimistic progress.
    pub open spec fn step_seek(self, ppm: int) -> (EngineView, EngineOut) {
        if self.loaded() {
            let target = ppm_to_units(ppm, self.duration_ms);
            (
                EngineView { elapsed_ms: target, ..self },
                EngineOut::acts(seq![EngineAction::SeekTo(target as u64)]),
            )
        } else {
            (self, EngineOut::quiet())
        }
    }

    /// `GetPos`: report the current position; no state change, no device
    /// work.
    pub open spec fn step_get_pos(self) -> (EngineView, EngineOut) {
        (
            self,
            EngineOut { actions: Seq::empty(), position: Some(self.position_ppm()), error: None },
        )
    }

    /// `PlaySong`: append to the play queue. When nothing is loaded yet the
    /// new track starts loading at once, and the engine will sit `Paused` at
    /// its start when decoding succeeds, awaiting an explicit `Play`.
    pub open spec fn step_play_song(self, s: Song) -> (EngineView, EngineOut) {
        let appended = EngineView { queue: self.queue.push(s), ..self };
        if self.current is None {
            (
                appended.start_load(self.queue.len() as int),
                EngineOut::acts(seq![EngineAction::Load]),
            )
        } else {
            (appended, EngineOut::quiet())
        }
    }

    /// One command step: the engine after the command, and what it emits.
    pub open spec fn step(self, msg: PlayerMessage) -> (EngineView, EngineOut) {
        match msg {
            PlayerMessage::Play => self.step_play(),
            PlayerMessage::Paus => self.step_pause(),
            PlayerMessage::Stop => self.step_stop(),
            PlayerMessage::Next => self.step_next(),
            PlayerMessage::Prev => self.step_prev(),
            PlayerMessage::Seek(p) => self.step_seek(p@),
            PlayerMessage::GetPos => self.step_get_pos(),
            PlayerMessage::PlaySong(s) => self.step_play_song(s),
        }
    }

    /// A successful decode: the duration is recorded and playback stands at
    /// the track's start. The very first load leaves `Stopped` for `Paused`;
    /// a later load keeps the play state it carried over, so output resumes
    /// at once when it was `Playing` and stays suspended otherwise. Without
    /// a pending load the report is ignored.
    pub open spec fn step_decoded(self, duration_ms: int) -> (EngineView, EngineOut) {
        if self.loading {
            if self.state is Playing {
                (
                    EngineView { duration_ms, elapsed_ms: 0, loading: false, ..self },
                    EngineOut::acts(seq![EngineAction::Resume]),
                )
            } else {
                (
                    EngineView {
                        state: PlayState::Paused,
                        duration_ms,
                        elapsed_ms: 0,
                        loading: false,
                        ..self
                    },
                    EngineOut::acts(seq![EngineAction::Suspend]),
                )
            }
        } else {
            (self, EngineOut::quiet())
        }
    }

    /// A failed decode: the failure is reported as recoverable, the
    /// offending track is skipped, and the next queued track (if any) starts
    /// loading in its place; with none left the engine returns to `Stopped`.
    /// Without a pending load the report is ignored.
    pub open spec fn step_decode_failed(self) -> (EngineView, EngineOut) {
        if self.loading {
            match self.current {
                Some(i) => {
                    if i + 1 < self.queue.len() {
                        (
                            self.start_load(i + 1),
                            EngineOut {
                                actions: seq![EngineAction::Load],
                                position: None,
                                error: Some(EngineError::DecodeFailure),
                            },
                        )
                    } else {
                        (
                            EngineView {
                                state: PlayState::Stopped,
                                current: None,
                                duration_ms: 0,
                                elapsed_ms: 0,
                                loading: false,
                                ..self
                            },
                            EngineOut {
                                actions: Seq::empty(),
                                position: None,
                                error: Some(EngineError::DecodeFailure),
                            },
                        )
                    }
                },
                None => (self, EngineOut::quiet()),
            }
        } else {
            (self, EngineOut::quiet())
        }
    }

    /// A fresh elapsed-time reading from the device. When it pushes the
    /// position at or past the completion threshold the engine advances to
    /// the next queued track by itself, exactly as an explicit `Next`; at
    /// the queue's end playback simply stays at the finished track's end.
    /// Without a loaded track the reading is ignored.
    pub open spec fn step_tick(self, elapsed_ms: int) -> (EngineView, EngineOut) {
        if self.loaded() {
            let moved = EngineView { elapsed_ms, ..self };
            if ppm_of(elapsed_ms, self.duration_ms) >= TRACK_DONE_PPM as int {
                moved.step_next()
            } else {
                (moved, EngineOut::quiet())
            }
        } else {
            (self, EngineOut::quiet())
        }
    }
}

/// The engine's concrete state, mutated only through `handle`, `on_decoded`,
/// `on_decode_failed` and `on_tick`, each of which follows the matching
/// `EngineView` step exactly.
pub struct PlayerManager {
    state: PlayState,
    queue: Vec<Song>,
    current: Option<usize>,
    duration: u64,
    elapsed: u64,
    loading: bool,
}

impl View for PlayerManager {
    type V = EngineView;

    closed spec fn view(&self) -> EngineView {
        EngineView {
            state: self.state,
            queue: self.queue@,
            current: match self.current {
                Some(i) => Some(i as int),
                None => None,
            },
            duration_ms: self.duration as int,
            elapsed_ms: self.elapsed as int,
            loading: self.loading,
        }
    }
}

impl PlayerManager {
    /// A fresh engine: stopped, with an empty queue.
    pub fn new() -> (r: PlayerManager)
        ensures
            r@ == EngineView::init(),
            r@.wf(),
    {
        let r = PlayerManager {
            state: PlayState::Stopped,
            queue: Vec::new(),
            current: None,
            duration: 0,
            elapsed: 0,
            loading: false,
        };
        proof {
            assert(r@ =~= EngineView::init());
        }
        r
    }

    /// Whether a decoded track is loaded and ready for output control.
    pub fn is_loaded(&self) -> (r: bool)
        ensures
            r == self@.loaded(),
    {
        self.current.is_some() && !self.loading
    }

    /// The authoritative play state.
    pub fn play_state(&self) -> (r: PlayState)
        ensures
            r == self@.state,
    {
        self.state
    }

    /// How many tracks the queue holds.
    pub fn queue_len(&self) -> (r: usize)
        ensures
            r as int == self@.queue.len(),
    {
        self.queue.len()
    }

    /// The cursor into the play queue, if a track is loaded or loading.
    pub fn current_index(&self) -> (r: Option<usize>)
        ensures
            match r {
                Some(i) => self@.current == Some(i as int),
                None => self@.current is None,
            },
    {
        self.current
    }

    /// The track under the cursor.
    pub fn current_song(&self) -> (r: Option<&Song>)
        requires
            self@.wf(),
        ensures
            match r {
                Some(s) => self@.current matches Some(i) && *s == self@.queue[i],
                None => self@.current is None,
            },
    {
        match self.current {
            Some(i) => Some(&self.queue[i]),
            None => None,
        }
    }

    /// The duration of the loaded track in milliseconds; 0 while none is
    /// loaded or decoding has not answered yet.
    pub fn duration_ms(&self) -> (r: u64)
        ensures
            r as int == self@.duration_ms,
    {
        self.duration
    }

    /// The last recorded elapsed time in milliseconds.
    pub fn elapsed_ms(&self) -> (r: u64)
        ensures
            r as int == self@.elapsed_ms,
    {
        self.elapsed
    }

    /// Whether a decode is pending.
    pub fn is_loading(&self) -> (r: bool)
        ensures
            r == self@.loading,
    {
        self.loading
    }

    /// An output with the given actions and nothing else.
    fn quiet_output() -> (r: EngineOutput)
        ensures
            r@ == EngineOut::quiet(),
    {
        let r = EngineOutput { actions: Vec::new(), position: None, error: None };
        proof {
            assert(r@ =~= EngineOut::quiet());
        }
        r
    }

    /// An output carrying one device action.
    fn act1(a: EngineAction) -> (r: EngineOutput)
        ensures
            r@ == EngineOut::acts(seq![a]),
    {
        let mut actions: Vec<EngineAction> = Vec::new();
        actions.push(a);
        let r = EngineOutput { actions, position: None, error: None };
        proof {
            assert(r@ =~= EngineOut::acts(seq![a]));
        }
        r
    }

    fn do_play(&mut self) -> (r: EngineOutput)
        requires
            old(self)@.wf(),
        ensures
            final(self)@ == old(self)@.step_play().0,
            r@ == old(self)@.step_play().1,
    {
        if self.is_loaded() {
            self.state = PlayState::Playing;
            Self::act1(EngineAction::Resume)
        } else {
            Self::quiet_output()
        }
    }

    fn do_pause(&mut self) -> (r: EngineOutput)
        requires
            old(self)@.wf(),
        ensures
            final(self)@ == old(self)@.step_pause().0,
            r@ == old(self)@.step_pause().1,
    {
        if self.is_loaded() {
            self.state = PlayState::Paused;
            Self::act1(EngineAction::Suspend)
        } else {
            Self::quiet_output()
        }
    }

    fn do_stop(&mut self) -> (r: EngineOutput)
        ensures
            final(self)@ == old(self)@.step_stop().0,
            r@ == old(self)@.step_stop().1,
    {
        let mut actions: Vec<EngineAction> = Vec::new();
        actions.push(EngineAction::Suspend);
        actions.push(EngineAction::Shutdown);
        let r = EngineOutput { actions, position: None, error: None };
        proof {
            assert(r@ =~= old(self)@.step_stop().1);
        }
        r
    }

    fn do_next(&mut self) -> (r: EngineOutput)
        requires
            old(self)@.wf(),
        ensures
            final(self)@ == old(self)@.step_next().0,
            r@ == old(self)@.step_next().1,
    {
        match self.current {
            Some(i) => {
                proof {
                    assert(self.queue.len() <= usize::MAX);
                    assert((i as int) < self@.queue.len());
                }
                if !self.loading && i + 1 < self.queue.len() {
                    self.current = Some(i + 1);
                    self.duration = 0;
                    self.elapsed = 0;
                    self.loading = true;
                    Self::act1(EngineAction::Load)
                } else {
                    Self::quiet_output()
                }
            },
            None => Self::quiet_output(),
        }
    }

    fn do_prev(&mut self) -> (r: EngineOutput)
        requires
            old(self)@.wf(),
        ensures
            final(self)@ == old(self)@.step_prev().0,
            r@ == old(self)@.step_prev().1,
    {
        match self.current {
            Some(i) => {
                if !self.loading && i > 0 {
                    self.current = Some(i - 1);
                    self.duration = 0;
                    self.elapsed = 0;
                    self.loading = true;
                    Self::act1(EngineAction::Load)
                } else {
                    Self::quiet_output()
                }
            },
            None => Self::quiet_output(),
        }
    }

    fn do_seek(&mut self, p: SeekPos) -> (r: EngineOutput)
        requires
            old(self)@.wf(),
        ensures
            final(self)@ == old(self)@.step_seek(p@).0,
            r@ == old(self)@.step_seek(p@).1,
    {
        if self.is_loaded() {
            let target: u64 = p.to_millis(self.duration);
            self.elapsed = target;
            Self::act1(EngineAction::SeekTo(target))
        } else {
            Self::quiet_output()
        }
    }

    fn do_get_pos(&self) -> (r: EngineOutput)
        ensures
            r@ == self@.step_get_pos().1,
    {
        let pos = SeekPos::from_secs_percent(self.elapsed, self.duration);
        let r = EngineOutput { actions: Vec::new(), position: Some(pos), error: None };
        proof {
            assert(r@ =~= self@.step_get_pos().1);
        }
        r
    }

    fn do_play_song(&mut self, s: Song) -> (r: EngineOutput)
        requires
            old(self)@.wf(),
        ensures
            final(self)@ == old(self)@.step_play_song(s).0,
            r@ == old(self)@.step_play_song(s).1,
    {
        let was_empty = self.current.is_none();
        let idx: usize = self.queue.len();
        self.queue.push(s);
        if was_empty {
            self.current = Some(idx);
            self.duration = 0;
            self.elapsed = 0;
            self.loading = true;
            Self::act1(EngineAction::Load)
        } else {
            Self::quiet_output()
        }
    }

    /// Consume one command: the engine moves to the state `EngineView::step`
    /// gives and the returned output carries the device work and the reply.
    pub fn handle(&mut self, msg: PlayerMessage) -> (r: EngineOutput)
        requires
            old(self)@.wf(),
        ensures
            final(self)@.wf(),
            final(self)@ == old(self)@.step(msg).0,
            r@ == old(self)@.step(msg).1,
    {
        match msg {
            PlayerMessage::Play => self.do_play(),
            PlayerMessage::Paus => self.do_pause(),
            PlayerMessage::Stop => self.do_stop(),
            PlayerMessage::Next => self.do_next(),
            PlayerMessage::Prev => self.do_prev(),
            PlayerMessage::Seek(p) => self.do_seek(p),
            PlayerMessage::GetPos => self.do_get_pos(),
            PlayerMessage::PlaySong(s) => self.do_play_song(s),
        }
    }

    /// Record a successful decode of the pending track.
    pub fn on_decoded(&mut self, duration_ms: u64) -> (r: EngineOutput)
        requires
            old(self)@.wf(),
        ensures
            final(self)@.wf(),
            final(self)@ == old(self)@.step_decoded(duration_ms as int).0,
            r@ == old(self)@.step_decoded(duration_ms as int).1,
    {
        if self.loading {
            self.duration = duration_ms;
            self.elapsed = 0;
            self.loading = false;
            if self.state == PlayState::Playing {
                Self::act1(EngineAction::Resume)
            } else {
                self.state = PlayState::Paused;
                Self::act1(EngineAction::Suspend)
            }
        } else {
            Self::quiet_output()
        }
    }

    /// Record a failed decode of the pending track.
    pub fn on_decode_failed(&mut self) -> (r: EngineOutput)
        requires
            old(self)@.wf(),
        ensures
            final(self)@.wf(),
            final(self)@ == old(self)@.step_decode_failed().0,
            r@ == old(self)@.step_decode_failed().1,
    {
        if self.loading {
            match self.current {
                Some(i) => {
                    proof {
                        assert(self.queue.len() <= usize::MAX);
                        assert((i as int) < self@.queue.len());
                    }
                    if i + 1 < self.queue.len() {
                        self.current = Some(i + 1);
                        let mut actions: Vec<EngineAction> = Vec::new();
                        actions.push(EngineAction::Load);
                        let r = EngineOutput {
                            actions,
                            position: None,
                            error: Some(EngineError::DecodeFailure),
                        };
                        proof {
                            assert(r@ =~= old(self)@.step_decode_failed().1);
                        }
                        r
                    } else {
                        self.state = PlayState::Stopped;
                        self.current = None;
                        self.duration = 0;
                        self.elapsed = 0;
                        self.loading = false;
                        let r = EngineOutput {
                            actions: Vec::new(),
                            position: None,
                            error: Some(EngineError::DecodeFailure),
                        };
                        proof {
                            assert(r@ =~= old(self)@.step_decode_failed().1);
                        }
                        r
                    }
                },
                None => Self::quiet_output(),
            }
        } else {
            Self::quiet_output()
        }
    }

    /// Record a fresh elapsed-time reading from the device.
    pub fn on_tick(&mut self, elapsed_ms: u64) -> (r: EngineOutput)
        requires
            old(self)@.wf(),
        ensures
            final(self)@.wf(),
            final(self)@ == old(self)@.step_tick(elapsed_ms as int).0,
            r@ == old(self)@.step_tick(elapsed_ms as int).1,
    {
        if self.is_loaded() {
            self.elapsed = elapsed_ms;
            let pos = SeekPos::from_secs_percent(self.elapsed, self.duration);
            if pos.is_complete() {
                self.do_next()
            } else {
                Self::quiet_output()
            }
        } else {
            Self::quiet_output()
        }
    }
}

/// Command ordering at work: a position query right after a seek reflects
/// the seek. With a loaded track of known duration, the reported position
/// never exceeds the requested one and falls short of it by at most the
/// rounding grain `PPM_SCALE / duration + 1` parts per million.
pub proof fn lemma_seek_then_query(v: EngineView, p: SeekPos)
    requires
        v.wf(),
        v.loaded(),
        0 < v.duration_ms,
        0 <= p@ <= PPM_SCALE as int,
    ensures
        ({
            let (v1, o1) = v.step_seek(p@);
            let (v2, o2) = v1.step_get_pos();
            &&& o2.position matches Some(q)
            &&& q <= p@
            &&& p@ - q <= (PPM_SCALE as int) / v.duration_ms + 1
        }),
{
    let m = PPM_SCALE as int;
    let d = v.duration_ms;
    let target = ppm_to_units(p@, d);
    if p@ == m {
        lemma_div_multiples_vanish(d, m);
        assert(p@ * d == m * d);
        assert(target == d);
        assert(ppm_of(target, d) == m);
    } else {
        assert(p@ * d < m * d) by (nonlinear_arith)
            requires 0 <= p@ < m, 0 < d;
        lemma_multiply_divide_lt(p@ * d, m, d);
        assert(0 <= p@ * d) by (nonlinear_arith)
            requires 0 <= p@, 0 < d;
        lemma_div_pos_is_pos(p@ * d, m);
        if target == 0 {
            lemma_small_div_converse(p@ * d, m);
            lemma_div_by_multiple(p@, d);
            lemma_div_is_ordered(p@ * d, m - 1, d);
            lemma_div_is_ordered(m - 1, m, d);
            assert(ppm_of(target, d) == 0);
        } else {
            lemma_scale_round_trip(p@, m, d);
            assert(ppm_of(target, d) == target * m / d);
        }
    }
}

/// A change of track keeps the play state: whatever `Next` starts loading,
/// the decode that completes it restores the state from before, so a track
/// that was playing keeps playing and a paused one stays paused. Only the
/// very first load differs, turning `Stopped` into `Paused`.
pub proof fn lemma_next_preserves_play_state(v: EngineView, d: int)
    requires
        v.wf(),
        v.loaded(),
        v.state is Playing || v.state is Paused,
    ensures
        ({
            let (v1, o1) = v.step_next();
            let (v2, o2) = v1.step_decoded(d);
            v2.state == v.state
        }),
{
}

/// Two enqueues into an empty engine load the first track and leave the
/// engine `Paused` at its start once decoding succeeds, with the second
/// track only appended; `Next` then loads the second track, and the play
/// state survives the change.
pub proof fn lemma_enqueue_enqueue_next(a: Song, b: Song, da: int, db: int)
    ensures
        ({
            let v0 = EngineView::init();
            let (v1, o1) = v0.step_play_song(a);
            let (v2, o2) = v1.step_decoded(da);
            let (v3, o3) = v2.step_play_song(b);
            let (v4, o4) = v3.step_next();
            let (v5, o5) = v4.step_decoded(db);
            &&& o1.actions =~= seq![EngineAction::Load]
            &&& v2.state is Paused
            &&& v2.current == Some(0int)
            &&& v2.queue =~= seq![a]
            &&& v2.duration_ms == da
            &&& v2.elapsed_ms == 0
            &&& v3.current == Some(0int)
            &&& v3.queue =~= seq![a, b]
            &&& o3.actions =~= Seq::<EngineAction>::empty()
            &&& v4.current == Some(1int)
            &&& o4.actions =~= seq![EngineAction::Load]
            &&& v5.state == v2.state
            &&& v5.current == Some(1int)
            &&& v5.duration_ms == db
            &&& v5.queue =~= seq![a, b]
        }),
{
    assert(Seq::<Song>::empty().push(a) =~= seq![a]);
    assert(seq![a].push(b) =~= seq![a, b]);
}

} // verus!
