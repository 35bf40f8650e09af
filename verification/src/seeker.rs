//! The seek bar: normalized playback positions and the press/drag/release
//! gesture machine that turns pointer events into at most one seek per drag.

use vstd::prelude::*;
use vstd::arithmetic::div_mod::{
    lemma_div_is_ordered, lemma_div_multiples_vanish, lemma_div_pos_is_pos,
    lemma_fundamental_div_mod, lemma_mod_division_less_than_divisor, lemma_multiply_divide_le,
    lemma_multiply_divide_lt,
};

verus! {

/// One million parts stand for the whole track: a `SeekPos` counts parts per
/// million.
pub const PPM_SCALE: u64 = 1_000_000;

/// A position at or beyond this many parts per million counts as "track
/// complete" and triggers the implicit advance to the next track.
pub const TRACK_DONE_PPM: u64 = 999_999;

/// The clamped ratio `num / den` in parts per million.
///
/// This is the one rounding rule behind every construction path of
/// `SeekPos`: a non-positive numerator or denominator gives 0, a numerator at
/// or beyond the denominator gives the full scale, and anything in between
/// rounds `num * PPM_SCALE / den` down.
pub open spec fn ppm_of(num: int, den: int) -> int {
    if den <= 0 || num <= 0 {
        0
    } else if num >= den {
        PPM_SCALE as int
    } else {
        num * (PPM_SCALE as int) / den
    }
}

/// How many units of a `total` long track `ppm` parts per million stand for.
pub open spec fn ppm_to_units(ppm: int, total: int) -> int {
    ppm * total / (PPM_SCALE as int)
}

/// Fractional progress through the current track, clamped to
/// `[0, PPM_SCALE]` on every construction path.
#[derive(Clone, Copy, Debug, PartialEq, Eq, Structural)]
pub struct SeekPos {
    ppm: u64,
}

impl View for SeekPos {
    type V = int;

    closed spec fn view(&self) -> int {
        self.ppm as int
    }
}

/// Clamped parts-per-million ratio of two machine integers.
fn ppm_ratio(num: u64, den: u64) -> (r: u64)
    ensures
        r as int == ppm_of(num as int, den as int),
        r <= PPM_SCALE,
{
    if den == 0 {
        0
    } else if num >= den {
        PPM_SCALE
    } else {
        proof {
            assert((num as int) * (PPM_SCALE as int) < (den as int) * (PPM_SCALE as int))
                by (nonlinear_arith)
                requires (num as int) < (den as int), 0 < (PPM_SCALE as int);
            assert((num as int) * (PPM_SCALE as int) <= 0xffff_ffff_ffff_ffff * 0x1000_0000)
                by (nonlinear_arith)
                requires
                    0 <= (num as int) <= 0xffff_ffff_ffff_ffff,
                    0 <= (PPM_SCALE as int) <= 0x1000_0000;
            lemma_multiply_divide_lt(
                (num as int) * (PPM_SCALE as int),
                den as int,
                PPM_SCALE as int,
            );
        }
        let wide: u128 = (num as u128) * (PPM_SCALE as u128) / (den as u128);
        wide as u64
    }
}

impl SeekPos {
    #[verifier::type_invariant]
    spec fn inv(self) -> bool {
        self.ppm <= PPM_SCALE
    }

    /// The position at the start of a track.
    pub fn zero() -> (r: Self)
        ensures
            r@ == 0,
    {
        SeekPos { ppm: 0 }
    }

    /// Construction path (a): elapsed milliseconds over a known total
    /// duration. A zero total yields position 0 rather than dividing by
    /// zero, and an elapsed time at or past the total clamps to the end.
    pub fn from_secs_percent(elapsed_ms: u64, total_ms: u64) -> (r: Self)
        ensures
            r@ == ppm_of(elapsed_ms as int, total_ms as int),
            0 <= r@ <= PPM_SCALE as int,
    {
        SeekPos { ppm: ppm_ratio(elapsed_ms, total_ms) }
    }

    /// Construction path (b): a raw pixel offset inside a track bar of the
    /// given pixel width. Offsets left of the bar clamp to 0 and offsets at
    /// or past its right edge clamp to the full scale.
    pub fn from_range(pos: i64, range_max: u64) -> (r: Self)
        ensures
            r@ == ppm_of(pos as int, range_max as int),
            0 <= r@ <= PPM_SCALE as int,
    {
        if pos <= 0 {
            SeekPos { ppm: 0 }
        } else {
            SeekPos { ppm: ppm_ratio(pos as u64, range_max) }
        }
    }

    /// Construction path (c): a fraction given directly in parts per
    /// million, clamped to the scale.
    pub fn from_ppm(ppm: u64) -> (r: Self)
        ensures
            r@ == if ppm <= PPM_SCALE { ppm as int } else { PPM_SCALE as int },
    {
        if ppm <= PPM_SCALE {
            SeekPos { ppm }
        } else {
            SeekPos { ppm: PPM_SCALE }
        }
    }

    /// The stored value, in parts per million of the whole track.
    pub fn get(&self) -> (r: u64)
        ensures
            r as int == self@,
            r <= PPM_SCALE,
    {
        proof {
            use_type_invariant(&*self);
        }
        self.ppm
    }

    /// The elapsed milliseconds this position stands for in a track
    /// `total_ms` long; the seek target handed to the output device.
    pub fn to_millis(&self, total_ms: u64) -> (r: u64)
        ensures
            r as int == ppm_to_units(self@, total_ms as int),
            r <= total_ms,
    {
        proof {
            use_type_invariant(&*self);
        }
        proof {
            assert((self.ppm as int) * (total_ms as int) <= (PPM_SCALE as int) * (total_ms as int))
                by (nonlinear_arith)
                requires (self.ppm as int) <= (PPM_SCALE as int), 0 <= (total_ms as int);
            assert((PPM_SCALE as int) * (total_ms as int) <= 0x1000_0000 * 0xffff_ffff_ffff_ffff)
                by (nonlinear_arith)
                requires
                    0 <= (PPM_SCALE as int) <= 0x1000_0000,
                    0 <= (total_ms as int) <= 0xffff_ffff_ffff_ffff;
            lemma_multiply_divide_le(
                (self.ppm as int) * (total_ms as int),
                PPM_SCALE as int,
                total_ms as int,
            );
        }
        let wide: u128 = (self.ppm as u128) * (total_ms as u128) / (PPM_SCALE as u128);
        wide as u64
    }

    /// Whether this position counts as "track complete".
    pub fn is_complete(&self) -> (r: bool)
        ensures
            r == (self@ >= TRACK_DONE_PPM as int),
    {
        self.ppm >= TRACK_DONE_PPM
    }
}

/// A pointer location in whole pixels, in window coordinates.
#[derive(Clone, Copy, Debug, PartialEq, Eq, Structural)]
pub struct Point {
    pub x: i32,
    pub y: i32,
}

/// The seek bar's rectangle: top-left corner and size in whole pixels.
#[derive(Clone, Copy, Debug, PartialEq, Eq, Structural)]
pub struct Bounds {
    pub x: i32,
    pub y: i32,
    pub width: u32,
    pub height: u32,
}

/// Whether a point lies inside a rectangle (left and top edges included,
/// right and bottom edges excluded).
pub open spec fn contains_spec(b: Bounds, p: Point) -> bool {
    &&& (b.x as int) <= (p.x as int) < (b.x as int) + (b.width as int)
    &&& (b.y as int) <= (p.y as int) < (b.y as int) + (b.height as int)
}

impl Bounds {
    /// Whether a point lies inside this rectangle.
    pub fn contains(&self, p: Point) -> (r: bool)
        ensures
            r == contains_spec(*self, p),
    {
        let px: i64 = p.x as i64;
        let py: i64 = p.y as i64;
        px >= self.x as i64 && px < self.x as i64 + self.width as i64 && py >= self.y as i64
            && py < self.y as i64 + self.height as i64
    }
}

/// Rescaling `x` of `a` whole units into a fraction of `b` parts and back
/// loses at most `a / b + 1` units to rounding, and never rounds up: with
/// `y == x * b / a`, the double floor `y * a / b` lies in
/// `[x - a / b - 1, x]`, and `y` itself lies in `[0, b]`.
pub proof fn lemma_scale_round_trip(x: int, a: int, b: int)
    requires
        0 < a,
        0 < b,
        0 <= x <= a,
    ensures
        0 <= x * b / a <= b,
        0 <= x * b / a * a / b <= x,
        x - x * b / a * a / b <= a / b + 1,
{
    let y = x * b / a;
    let r1 = (x * b) % a;
    assert(0 <= x * b) by (nonlinear_arith)
        requires 0 <= x, 0 < b;
    lemma_div_pos_is_pos(x * b, a);
    assert(x * b <= a * b) by (nonlinear_arith)
        requires x <= a, 0 < b;
    lemma_multiply_divide_le(x * b, a, b);
    lemma_fundamental_div_mod(x * b, a);
    lemma_mod_division_less_than_divisor(x * b, a);
    assert(y * a == x * b - r1) by (nonlinear_arith)
        requires x * b == a * y + r1;
    let z = y * a / b;
    assert(0 <= y * a) by (nonlinear_arith)
        requires 0 <= y, 0 < a;
    lemma_div_pos_is_pos(y * a, b);
    // Upper bound: y * a <= x * b, so z <= x * b / b == x.
    lemma_div_is_ordered(y * a, x * b, b);
    lemma_div_multiples_vanish(x, b);
    assert(b * x == x * b) by (nonlinear_arith);
    // Lower bound: r1 < a == b * (a / b) + a % b, so
    // y * a >= b * (x - a / b - 1).
    let q = a / b;
    lemma_fundamental_div_mod(a, b);
    lemma_mod_division_less_than_divisor(a, b);
    assert(y * a >= b * (x - q - 1)) by (nonlinear_arith)
        requires
            y * a == x * b - r1,
            r1 < a,
            a == b * q + a % b,
            a % b < b;
    lemma_div_is_ordered(b * (x - q - 1), y * a, b);
    lemma_div_multiples_vanish(x - q - 1, b);
}

/// Round trip of the position model: turning an elapsed time within a track
/// into a normalized position and back returns the elapsed time, up to the
/// parts-per-million rounding grain. The result never exceeds the original
/// time and falls short of it by at most `total / PPM_SCALE + 1`
/// milliseconds. An elapsed time past the total clamps to the end of the
/// track and is excluded here.
pub proof fn lemma_position_round_trip(elapsed: int, total: int)
    requires
        0 < total,
        0 <= elapsed <= total,
    ensures
        0 <= ppm_to_units(ppm_of(elapsed, total), total) <= elapsed,
        elapsed - ppm_to_units(ppm_of(elapsed, total), total) <= total / (PPM_SCALE as int) + 1,
{
    let m = PPM_SCALE as int;
    if elapsed == 0 {
        assert(0 * total == 0) by (nonlinear_arith);
    } else if elapsed == total {
        lemma_div_multiples_vanish(total, m);
        assert(m * total == total * m) by (nonlinear_arith);
    } else {
        lemma_scale_round_trip(elapsed, total, m);
    }
}

/// The two states of the drag gesture.
#[derive(Clone, Copy, Debug, PartialEq, Eq, Structural)]
pub enum SeekerState {
    Idle,
    Dragging,
}

/// The pointer events the seek bar reacts to. Presses and releases apply to
/// the cursor location reported by the most recent move.
#[derive(Clone, Copy, Debug, PartialEq, Eq, Structural)]
pub enum PointerEvent {
    CursorMoved(Point),
    LeftPressed,
    LeftReleased,
}

/// Poll-suppression signals for the coordinator: `Begin` when a drag starts
/// (stop polling the engine for positions), `End` when it finishes.
#[derive(Clone, Copy, Debug, PartialEq, Eq, Structural)]
pub enum SeekSignal {
    Begin,
    End,
}

/// What handling one pointer event emitted: whether the event was consumed,
/// the poll-suppression signal if any, and the at-most-one seek command.
#[derive(Clone, Copy, Debug)]
pub struct SeekerOutput {
    pub captured: bool,
    pub signal: Option<SeekSignal>,
    pub seek: Option<SeekPos>,
}

/// The gesture machine as contracts see it: whether a drag is in progress,
/// the locally displayed position in parts per million, and the last seen
/// cursor location.
pub struct GestureView {
    pub dragging: bool,
    pub pos: int,
    pub cursor: Point,
}

/// The emissions of one gesture step, at view level; seek positions appear
/// as parts per million.
pub struct GestureOut {
    pub captured: bool,
    pub signal: Option<SeekSignal>,
    pub seek: Option<int>,
}

impl View for SeekerOutput {
    type V = GestureOut;

    open spec fn view(&self) -> GestureOut {
        GestureOut {
            captured: self.captured,
            signal: self.signal,
            seek: match self.seek {
                Some(p) => Some(p@),
                None => None,
            },
        }
    }
}

/// The gesture transition. A move always records the cursor and, mid-drag
/// inside the bar, refreshes the displayed position from the new offset. A
/// press starts a drag only when idle and inside the bar, taking its
/// position from the press offset. A release ends any drag regardless of
/// where the cursor is.
pub open spec fn gesture_step(v: GestureView, event: PointerEvent, b: Bounds) -> GestureView {
    match event {
        PointerEvent::CursorMoved(p) => {
            if v.dragging && contains_spec(b, p) {
                GestureView { cursor: p, pos: ppm_of(p.x - b.x, b.width as int), ..v }
            } else {
                GestureView { cursor: p, ..v }
            }
        },
        PointerEvent::LeftPressed => {
            if !v.dragging && contains_spec(b, v.cursor) {
                GestureView { dragging: true, pos: ppm_of(v.cursor.x - b.x, b.width as int), ..v }
            } else {
                v
            }
        },
        PointerEvent::LeftReleased => GestureView { dragging: false, ..v },
    }
}

/// What the gesture step emits. Moves never emit a signal or a seek. A press
/// that starts a drag emits `Begin`. A release that ends a drag emits `End`
/// and, only when the cursor is still inside the bar, the one seek command
/// of the drag, carrying the locally displayed position.
pub open spec fn gesture_emit(v: GestureView, event: PointerEvent, b: Bounds) -> GestureOut {
    match event {
        PointerEvent::CursorMoved(p) => GestureOut {
            captured: v.dragging && contains_spec(b, p),
            signal: None,
            seek: None,
        },
        PointerEvent::LeftPressed => {
            if !v.dragging && contains_spec(b, v.cursor) {
                GestureOut { captured: true, signal: Some(SeekSignal::Begin), seek: None }
            } else {
                GestureOut { captured: false, signal: None, seek: None }
            }
        },
        PointerEvent::LeftReleased => {
            if v.dragging {
                GestureOut {
                    captured: true,
                    signal: Some(SeekSignal::End),
                    seek: if contains_spec(b, v.cursor) {
                        Some(v.pos)
                    } else {
                        None
                    },
                }
            } else {
                GestureOut { captured: false, signal: None, seek: None }
            }
        },
    }
}

/// The seek bar's gesture machine. It owns the drag state, the locally
/// displayed position, and the last seen cursor location; it never talks to
/// the engine itself but hands one seek command per drag to its caller.
pub struct Seeker {
    state: SeekerState,
    seeker_pos: SeekPos,
    cursor_pos: Point,
}

impl View for Seeker {
    type V = GestureView;

    closed spec fn view(&self) -> GestureView {
        GestureView {
            dragging: self.state is Dragging,
            pos: self.seeker_pos@,
            cursor: self.cursor_pos,
        }
    }
}

impl Seeker {
    fn new(seeker_pos: SeekPos) -> (r: Seeker)
        ensures
            r@ == (GestureView { dragging: false, pos: seeker_pos@, cursor: Point { x: 0, y: 0 } }),
    {
        Seeker { state: SeekerState::Idle, seeker_pos, cursor_pos: Point { x: 0, y: 0 } }
    }

    /// Feed one pointer event through the machine against the bar's current
    /// bounds; the returned output says what to pass on to the coordinator.
    pub fn on_event(&mut self, event: PointerEvent, bounds: Bounds) -> (r: SeekerOutput)
        ensures
            final(self)@ == gesture_step(old(self)@, event, bounds),
            r@ == gesture_emit(old(self)@, event, bounds),
    {
        match event {
            PointerEvent::CursorMoved(p) => {
                self.cursor_pos = p;
                if self.state == SeekerState::Dragging && bounds.contains(p) {
                    let off: i64 = p.x as i64 - bounds.x as i64;
                    self.seeker_pos = SeekPos::from_range(off, bounds.width as u64);
                    SeekerOutput { captured: true, signal: None, seek: None }
                } else {
                    SeekerOutput { captured: false, signal: None, seek: None }
                }
            },
            PointerEvent::LeftPressed => {
                if self.state == SeekerState::Idle && bounds.contains(self.cursor_pos) {
                    self.state = SeekerState::Dragging;
                    let off: i64 = self.cursor_pos.x as i64 - bounds.x as i64;
                    self.seeker_pos = SeekPos::from_range(off, bounds.width as u64);
                    SeekerOutput { captured: true, signal: Some(SeekSignal::Begin), seek: None }
                } else {
                    SeekerOutput { captured: false, signal: None, seek: None }
                }
            },
            PointerEvent::LeftReleased => {
                if self.state == SeekerState::Dragging {
                    self.state = SeekerState::Idle;
                    let seek: Option<SeekPos> = if bounds.contains(self.cursor_pos) {
                        Some(self.seeker_pos)
                    } else {
                        None
                    };
                    SeekerOutput { captured: true, signal: Some(SeekSignal::End), seek }
                } else {
                    SeekerOutput { captured: false, signal: None, seek: None }
                }
            },
        }
    }

    /// The position the bar should draw: the local one mid-drag, the
    /// engine-reported one otherwise. Drawing the engine-reported position
    /// mid-drag would snap the thumb back under the user's pointer.
    pub fn displayed(&self, engine_pos: SeekPos) -> (r: SeekPos)
        ensures
            self@.dragging ==> r@ == self@.pos,
            !self@.dragging ==> r == engine_pos,
    {
        if self.state == SeekerState::Dragging {
            self.seeker_pos
        } else {
            engine_pos
        }
    }

    /// Whether a drag is in progress.
    pub fn is_dragging(&self) -> (r: bool)
        ensures
            r == self@.dragging,
    {
        self.state == SeekerState::Dragging
    }

    /// The locally displayed position.
    pub fn position(&self) -> (r: SeekPos)
        ensures
            r@ == self@.pos,
    {
        self.seeker_pos
    }
}

/// Builds an idle seek bar showing the given position.
pub fn seeker(seeker_pos: SeekPos) -> (r: Seeker)
    ensures
        r@ == (GestureView { dragging: false, pos: seeker_pos@, cursor: Point { x: 0, y: 0 } }),
{
    Seeker::new(seeker_pos)
}

/// The machine after a sequence of cursor moves, one `gesture_step` each.
pub open spec fn gesture_steps_moves(v: GestureView, moves: Seq<Point>, b: Bounds) -> GestureView
    decreases moves.len(),
{
    if moves.len() == 0 {
        v
    } else {
        gesture_steps_moves(
            gesture_step(v, PointerEvent::CursorMoved(moves[0]), b),
            moves.drop_first(),
            b,
        )
    }
}

/// A press inside the bar while idle, followed at once by a release with
/// the cursor unmoved, emits exactly one begin/end suppression pair and
/// exactly one seek, carrying the position derived from the press offset;
/// the machine is idle again afterwards.
pub proof fn lemma_press_release_single_seek(v: GestureView, b: Bounds)
    requires
        !v.dragging,
        contains_spec(b, v.cursor),
    ensures
        ({
            let press_out = gesture_emit(v, PointerEvent::LeftPressed, b);
            let v1 = gesture_step(v, PointerEvent::LeftPressed, b);
            let release_out = gesture_emit(v1, PointerEvent::LeftReleased, b);
            let v2 = gesture_step(v1, PointerEvent::LeftReleased, b);
            &&& press_out.signal == Some(SeekSignal::Begin)
            &&& press_out.seek is None
            &&& release_out.signal == Some(SeekSignal::End)
            &&& release_out.seek == Some(ppm_of(v.cursor.x - b.x, b.width as int))
            &&& !v2.dragging
        }),
{
}

/// While a drag is in progress, any number of intermediate cursor moves
/// emits zero seek commands and zero suppression signals, and the drag stays
/// in progress; only the release that follows emits `End` and the one seek,
/// and only if the cursor ends inside the bar.
pub proof fn lemma_drag_moves_then_release(v: GestureView, moves: Seq<Point>, b: Bounds)
    requires
        v.dragging,
    ensures
        gesture_steps_moves(v, moves, b).dragging,
        forall|i: int|
            0 <= i < moves.len() ==> {
                let out = gesture_emit(
                    #[trigger] gesture_steps_moves(v, moves.take(i), b),
                    PointerEvent::CursorMoved(moves[i]),
                    b,
                );
                out.seek is None && out.signal is None
            },
        ({
            let vn = gesture_steps_moves(v, moves, b);
            let out = gesture_emit(vn, PointerEvent::LeftReleased, b);
            &&& out.signal == Some(SeekSignal::End)
            &&& out.seek == (if contains_spec(b, vn.cursor) {
                Some(vn.pos)
            } else {
                None
            })
        }),
    decreases moves.len(),
{
    if moves.len() > 0 {
        let v1 = gesture_step(v, PointerEvent::CursorMoved(moves[0]), b);
        lemma_drag_moves_then_release(v1, moves.drop_first(), b);
        assert(moves.drop_first() == moves.subrange(1, moves.len() as int));
    }
}

} // verus!
