//! How the navigation commands move the bounds of the view.
//!
//! A pan or a zoom moves each bound of the view by one step of its axis, up or
//! down, or leaves it. The step of an axis is a fixed share of the span that the
//! view has on that axis when the command arrives. This module holds the table of
//! directions; the driver of the engine carries the move out in single precision.

use vstd::prelude::*;
use crate::protocol::EngineCommand;

verus! {

/// The step of an axis, as a percentage of the view's span on that axis.
pub const STEP_PERCENT: u32 = 10;

/// A bound rises by one step of its axis.
pub const RAISE: i8 = 1;

/// A bound falls by one step of its axis.
pub const LOWER: i8 = -1;

/// A bound stays where it is.
pub const KEEP: i8 = 0;

/// The direction in which a command moves each bound: 1 raises the bound by one
/// step of its axis, -1 lowers it by one step, 0 leaves it.
#[derive(Clone, Copy, Debug, PartialEq, Eq, Structural)]
pub struct BoundShift {
    pub re0: i8,
    pub re1: i8,
    pub im0: i8,
    pub im1: i8,
}

/// The bounds of a view in exact arithmetic, in any unit.
pub ghost struct Bounds {
    pub re0: int,
    pub re1: int,
    pub im0: int,
    pub im1: int,
}

impl Bounds {
    /// Whether the lower bound of each axis lies below the upper one.
    pub open spec fn ordered(self) -> bool {
        self.re0 < self.re1 && self.im0 < self.im1
    }
}

impl BoundShift {
    /// The shift that undoes this one: every direction turned round.
    pub open spec fn reversed(self) -> BoundShift {
        BoundShift {
            re0: (-self.re0) as i8,
            re1: (-self.re1) as i8,
            im0: (-self.im0) as i8,
            im1: (-self.im1) as i8,
        }
    }

    /// Whether every direction is -1, 0 or 1.
    pub open spec fn unit(self) -> bool {
        &&& -1 <= self.re0 <= 1
        &&& -1 <= self.re1 <= 1
        &&& -1 <= self.im0 <= 1
        &&& -1 <= self.im1 <= 1
    }

    /// The bounds after the shift, where one step measures `step_re` on the real
    /// axis and `step_im` on the imaginary axis.
    pub open spec fn applied(self, b: Bounds, step_re: int, step_im: int) -> Bounds {
        Bounds {
            re0: b.re0 + self.re0 * step_re,
            re1: b.re1 + self.re1 * step_re,
            im0: b.im0 + self.im0 * step_im,
            im1: b.im1 + self.im1 * step_im,
        }
    }
}

/// The directions in which a command moves the bounds; `None` for a command that
/// is neither a pan nor a zoom.
pub open spec fn shift_of(cmd: EngineCommand) -> Option<BoundShift> {
    match cmd {
        EngineCommand::ZoomIn => Some(BoundShift { re0: RAISE, re1: LOWER, im0: RAISE, im1: LOWER }),
        EngineCommand::ZoomOut => Some(BoundShift { re0: LOWER, re1: RAISE, im0: LOWER, im1: RAISE }),
        EngineCommand::PanLeft => Some(BoundShift { re0: LOWER, re1: LOWER, im0: KEEP, im1: KEEP }),
        EngineCommand::PanRight => Some(BoundShift { re0: RAISE, re1: RAISE, im0: KEEP, im1: KEEP }),
        EngineCommand::PanUp => Some(BoundShift { re0: KEEP, re1: KEEP, im0: RAISE, im1: RAISE }),
        EngineCommand::PanDown => Some(BoundShift { re0: KEEP, re1: KEEP, im0: LOWER, im1: LOWER }),
        _ => None,
    }
}

/// Whether a command is one of the four pans.
pub open spec fn is_pan(cmd: EngineCommand) -> bool {
    cmd == EngineCommand::PanLeft || cmd == EngineCommand::PanRight || cmd == EngineCommand::PanUp
        || cmd == EngineCommand::PanDown
}

/// Whether a command is one of the two zooms.
pub open spec fn is_zoom(cmd: EngineCommand) -> bool {
    cmd == EngineCommand::ZoomIn || cmd == EngineCommand::ZoomOut
}

/// The command that goes the other way; a command that is neither a pan nor a
/// zoom is its own opposite.
pub open spec fn opposite(cmd: EngineCommand) -> EngineCommand {
    match cmd {
        EngineCommand::ZoomIn => EngineCommand::ZoomOut,
        EngineCommand::ZoomOut => EngineCommand::ZoomIn,
        EngineCommand::PanLeft => EngineCommand::PanRight,
        EngineCommand::PanRight => EngineCommand::PanLeft,
        EngineCommand::PanUp => EngineCommand::PanDown,
        EngineCommand::PanDown => EngineCommand::PanUp,
        other => other,
    }
}

/// The directions in which `cmd` moves the bounds of the view.
pub fn bound_shift(cmd: EngineCommand) -> (shift: Option<BoundShift>)
    ensures
        shift == shift_of(cmd),
{
    match cmd {
        EngineCommand::ZoomIn => Some(BoundShift { re0: RAISE, re1: LOWER, im0: RAISE, im1: LOWER }),
        EngineCommand::ZoomOut => Some(BoundShift { re0: LOWER, re1: RAISE, im0: LOWER, im1: RAISE }),
        EngineCommand::PanLeft => Some(BoundShift { re0: LOWER, re1: LOWER, im0: KEEP, im1: KEEP }),
        EngineCommand::PanRight => Some(BoundShift { re0: RAISE, re1: RAISE, im0: KEEP, im1: KEEP }),
        EngineCommand::PanUp => Some(BoundShift { re0: KEEP, re1: KEEP, im0: RAISE, im1: RAISE }),
        EngineCommand::PanDown => Some(BoundShift { re0: KEEP, re1: KEEP, im0: LOWER, im1: LOWER }),
        _ => None,
    }
}

/// The distance that a bound moves in a given direction.
proof fn lemma_direction_product(d: i8, step: int)
    by (nonlinear_arith)
    ensures
        d == 1 ==> d * step == step,
        d == -1 ==> d * step == -step,
        d == 0 ==> d * step == 0,
{
}

/// Exactly the pans and the zooms move the bounds, each bound by at most one step.
pub proof fn lemma_shift_table(cmd: EngineCommand)
    ensures
        shift_of(cmd) is Some <==> (is_pan(cmd) || is_zoom(cmd)),
        shift_of(cmd) matches Some(s) ==> s.unit(),
{
}

/// The opposite command moves every bound the other way.
pub proof fn lemma_opposite_reverses(cmd: EngineCommand)
    requires
        is_pan(cmd) || is_zoom(cmd),
    ensures
        shift_of(opposite(cmd)) == Some(shift_of(cmd).unwrap().reversed()),
        opposite(opposite(cmd)) == cmd,
{
}

/// The bounds after a command, in exact arithmetic, where `step` gives the size
/// of one step of an axis from the span that the view has on that axis. A
/// command that is neither a pan nor a zoom leaves the bounds.
pub open spec fn navigated(b: Bounds, cmd: EngineCommand, step: spec_fn(int) -> int) -> Bounds {
    match shift_of(cmd) {
        Some(shift) => shift.applied(b, step(b.re1 - b.re0), step(b.im1 - b.im0)),
        None => b,
    }
}

/// In exact arithmetic, a shift followed by its reverse with steps of the same
/// size gives back the bounds it started from.
pub proof fn lemma_reverse_restores(s: BoundShift, b: Bounds, step_re: int, step_im: int)
    requires
        s.unit(),
    ensures
        s.reversed().applied(s.applied(b, step_re, step_im), step_re, step_im) == b,
{
    lemma_direction_product(s.re0, step_re);
    lemma_direction_product(s.re1, step_re);
    lemma_direction_product(s.im0, step_im);
    lemma_direction_product(s.im1, step_im);
    lemma_direction_product(s.reversed().re0, step_re);
    lemma_direction_product(s.reversed().re1, step_re);
    lemma_direction_product(s.reversed().im0, step_im);
    lemma_direction_product(s.reversed().im1, step_im);
}

/// In exact arithmetic, a pan leaves the span of both axes as it was, and keeps
/// the bounds in order.
pub proof fn lemma_pan_keeps_spans(cmd: EngineCommand, b: Bounds, step_re: int, step_im: int)
    requires
        is_pan(cmd),
    ensures
        ({
            let moved = shift_of(cmd).unwrap().applied(b, step_re, step_im);
            &&& moved.re1 - moved.re0 == b.re1 - b.re0
            &&& moved.im1 - moved.im0 == b.im1 - b.im0
            &&& b.ordered() ==> moved.ordered()
        }),
{
    let s = shift_of(cmd).unwrap();
    lemma_direction_product(s.re0, step_re);
    lemma_direction_product(s.re1, step_re);
    lemma_direction_product(s.im0, step_im);
    lemma_direction_product(s.im1, step_im);
}

/// In exact arithmetic, a zoom leaves the centre of the view where it was. With
/// steps of at most a tenth of each span, it keeps the bounds in order.
pub proof fn lemma_zoom_keeps_centre(cmd: EngineCommand, b: Bounds, step_re: int, step_im: int)
    requires
        is_zoom(cmd),
    ensures
        ({
            let moved = shift_of(cmd).unwrap().applied(b, step_re, step_im);
            &&& moved.re0 + moved.re1 == b.re0 + b.re1
            &&& moved.im0 + moved.im1 == b.im0 + b.im1
            &&& (b.ordered() && 0 <= 10 * step_re <= b.re1 - b.re0 && 0 <= 10 * step_im <= b.im1
                - b.im0) ==> moved.ordered()
        }),
{
    let s = shift_of(cmd).unwrap();
    lemma_direction_product(s.re0, step_re);
    lemma_direction_product(s.re1, step_re);
    lemma_direction_product(s.im0, step_im);
    lemma_direction_product(s.im1, step_im);
}

/// In exact arithmetic, a pan followed by the pan the other way gives back the
/// bounds it started from, whatever share of the span a step is.
pub proof fn lemma_pan_and_back(cmd: EngineCommand, b: Bounds, step: spec_fn(int) -> int)
    requires
        is_pan(cmd),
    ensures
        navigated(navigated(b, cmd, step), opposite(cmd), step) == b,
{
    let step_re = step(b.re1 - b.re0);
    let step_im = step(b.im1 - b.im0);
    lemma_pan_keeps_spans(cmd, b, step_re, step_im);
    lemma_opposite_reverses(cmd);
    lemma_reverse_restores(shift_of(cmd).unwrap(), b, step_re, step_im);
}

/// In exact arithmetic, a zoom followed by the zoom the other way gives back
/// the bounds it started from where the second zoom takes steps of the size of
/// the first. A step that is a share of the current span is not of that kind:
/// the way back is then measured on the span that the way there has left.
pub proof fn lemma_zoom_and_back(cmd: EngineCommand, b: Bounds, step: spec_fn(int) -> int)
    requires
        is_zoom(cmd),
        ({
            let there = navigated(b, cmd, step);
            &&& step(there.re1 - there.re0) == step(b.re1 - b.re0)
            &&& step(there.im1 - there.im0) == step(b.im1 - b.im0)
        }),
    ensures
        navigated(navigated(b, cmd, step), opposite(cmd), step) == b,
{
    let step_re = step(b.re1 - b.re0);
    let step_im = step(b.im1 - b.im0);
    lemma_opposite_reverses(cmd);
    lemma_reverse_restores(shift_of(cmd).unwrap(), b, step_re, step_im);
}

} // verus!
