//! The engine: what it holds, and what it does on each command.
//!
//! The engine owns the view, the colour table and the resolution of the display.
//! It is driven from outside: a driver waits for the next command, hands it to
//! [`MandelEngine::dispatch`], and carries out the [`EngineAction`] that comes
//! back. Every status message that the front-end is owed comes out of this
//! library, from `dispatch` or from the [`RenderJob`] that it hands over; the
//! driver sends them on in the order in which it gets them.

use vstd::prelude::*;
use crate::navigation::{bound_shift, shift_of, BoundShift};
use crate::palette::{hue_sweep, Palette, Rgb8};
use crate::protocol::{EngineCommand, EngineStatus, Region, RenderType, StatusView};
use crate::render::{max_buffer_len, RenderError, RenderJob};
use crate::single::{lemma_initial_region_usable, region_usable, usable};

verus! {

/// The iteration budget of a point unless the engine is told otherwise.
pub const DEFAULT_MAX_ITERATIONS: u32 = 500;

/// Whether the engine still takes commands.
#[derive(Clone, Copy, Debug, PartialEq, Eq, Structural)]
pub enum EngineState {
    Running,
    Terminated,
}

/// The worker that owns the view and serves the front-end's commands.
pub struct MandelEngine {
    buffer_width: u32,
    buffer_height: u32,
    palette: Palette,
    region: Region,
    max_iterations: u32,
    state: EngineState,
}

/// What an engine holds.
pub ghost struct EngineModel {
    /// Width of the display's framebuffer, fixed when the engine is made.
    pub buffer_width: u32,
    /// Height of the display's framebuffer.
    pub buffer_height: u32,
    pub palette: Seq<Rgb8>,
    /// The current view.
    pub region: Region,
    pub max_iterations: u32,
    pub state: EngineState,
}

impl View for MandelEngine {
    type V = EngineModel;

    closed spec fn view(&self) -> EngineModel {
        EngineModel {
            buffer_width: self.buffer_width,
            buffer_height: self.buffer_height,
            palette: self.palette@,
            region: self.region,
            max_iterations: self.max_iterations,
            state: self.state,
        }
    }
}

/// What the driver of the engine has to do after a command.
#[derive(Debug)]
pub enum EngineAction {
    /// Nothing: the command has been dealt with.
    Idle,
    /// Move the bounds of the view as the shift says, each by one step of its
    /// axis, and offer the engine the result with `move_to`.
    Shift(BoundShift),
    /// Send the status message, then evaluate the image pixel by pixel into the
    /// job.
    Render(EngineStatus, RenderJob),
    /// The render that was asked for cannot be done.
    Refuse(RenderError),
    /// Leave the command loop.
    Stop,
}

/// The request that a render job serves.
pub ghost struct RenderPlan {
    pub kind: RenderType,
    pub region: Region,
    pub width: u32,
    pub height: u32,
    pub max_iterations: u32,
}

/// The request that a job serves.
pub open spec fn plan_of(job: RenderJob) -> RenderPlan {
    RenderPlan {
        kind: job.kind(),
        region: job.region(),
        width: job.width(),
        height: job.height(),
        max_iterations: job.max_iterations(),
    }
}

/// What an [`EngineAction`] says.
pub ghost enum ActionView {
    Idle,
    Shift(BoundShift),
    Render(StatusView, RenderPlan),
    Refuse(RenderError),
    Stop,
}

impl View for EngineAction {
    type V = ActionView;

    open spec fn view(&self) -> ActionView {
        match *self {
            EngineAction::Idle => ActionView::Idle,
            EngineAction::Shift(s) => ActionView::Shift(s),
            EngineAction::Render(first, job) => ActionView::Render(first@, plan_of(job)),
            EngineAction::Refuse(e) => ActionView::Refuse(e),
            EngineAction::Stop => ActionView::Stop,
        }
    }
}

/// The engine's answer to a request for a render of the given kind: the render
/// at the resolution of that kind, of the view as it is now; or a refusal where
/// that resolution is empty or too large for a buffer.
pub open spec fn render_action(m: EngineModel, kind: RenderType) -> ActionView {
    let (width, height) = kind.resolution(m.buffer_width, m.buffer_height);
    if width == 0 || height == 0 {
        ActionView::Refuse(RenderError::EmptyResolution)
    } else if 3 * width * height > max_buffer_len() {
        ActionView::Refuse(RenderError::TooLarge)
    } else {
        ActionView::Render(
            StatusView::Startup,
            RenderPlan {
                kind,
                region: m.region,
                width,
                height,
                max_iterations: m.max_iterations,
            },
        )
    }
}

/// The engine's transition table: what it holds after a command, and what its
/// driver has to do. `UpdateRegion` replaces the view by whatever bounds it
/// brings: an inverted rectangle is stored like any other. `None` stands for a
/// command channel that has been closed, which ends the engine as `Shutdown`
/// does. A terminated engine stays terminated and answers `Stop` to everything.
pub open spec fn react(m: EngineModel, cmd: Option<EngineCommand>) -> (EngineModel, ActionView) {
    if m.state == EngineState::Terminated {
        (m, ActionView::Stop)
    } else {
        match cmd {
            None | Some(EngineCommand::Shutdown) => (
                EngineModel { state: EngineState::Terminated, ..m },
                ActionView::Stop,
            ),
            Some(EngineCommand::UpdateRegion(re0, re1, im0, im1)) => (
                EngineModel { region: Region { re0, re1, im0, im1 }, ..m },
                ActionView::Idle,
            ),
            Some(EngineCommand::Render(kind)) => (m, render_action(m, kind)),
            Some(nav) => (m, ActionView::Shift(shift_of(nav).unwrap())),
        }
    }
}

impl MandelEngine {
    /// An engine for a display whose framebuffer measures `w` by `h` pixels. It
    /// is running, looks at -1.4..0.6 by -1.0..1.0, colours by the hue sweep and
    /// gives each point 500 iterations.
    pub fn new(w: u32, h: u32) -> (engine: MandelEngine)
        ensures
            engine@ == (EngineModel {
                buffer_width: w,
                buffer_height: h,
                palette: hue_sweep(),
                region: Region::initial(),
                max_iterations: DEFAULT_MAX_ITERATIONS,
                state: EngineState::Running,
            }),
            usable(engine@.region),
    {
        proof {
            lemma_initial_region_usable();
        }
        MandelEngine {
            buffer_width: w,
            buffer_height: h,
            palette: Palette::build(),
            region: Region::initial(),
            max_iterations: DEFAULT_MAX_ITERATIONS,
            state: EngineState::Running,
        }
    }

    /// The same engine with another iteration budget.
    pub fn with_max_iterations(self, max_iterations: u32) -> (engine: MandelEngine)
        ensures
            engine@ == (EngineModel { max_iterations, ..self@ }),
    {
        MandelEngine { max_iterations, ..self }
    }

    /// The colour table.
    pub fn palette(&self) -> (p: &Palette)
        ensures
            p@ == self@.palette,
    {
        &self.palette
    }

    /// The current view.
    pub fn region(&self) -> (r: Region)
        ensures
            r == self@.region,
    {
        self.region
    }

    /// The iteration budget of each point.
    pub fn max_iterations(&self) -> (n: u32)
        ensures
            n == self@.max_iterations,
    {
        self.max_iterations
    }

    /// Whether the engine still takes commands.
    pub fn is_running(&self) -> (running: bool)
        ensures
            running <==> self@.state == EngineState::Running,
    {
        match self.state {
            EngineState::Running => true,
            EngineState::Terminated => false,
        }
    }

    /// Offers the engine the view that a pan or a zoom has arrived at. The
    /// engine takes it if it can be rendered and moved: if its bounds are finite
    /// and in order on both axes. A move that would leave the view without
    /// extent is thus not made. Returns whether the view was taken.
    pub fn move_to(&mut self, candidate: Region) -> (taken: bool)
        ensures
            taken == usable(candidate),
            final(self)@ == if taken {
                EngineModel { region: candidate, ..old(self)@ }
            } else {
                old(self)@
            },
            usable(old(self)@.region) ==> usable(final(self)@.region),
    {
        if region_usable(candidate) {
            self.region = candidate;
            true
        } else {
            false
        }
    }

    /// Takes the next command, or `None` where the command channel has been
    /// closed, and says what the driver has to do.
    pub fn dispatch(&mut self, cmd: Option<EngineCommand>) -> (action: EngineAction)
        ensures
            (final(self)@, action@) == react(old(self)@, cmd),
            action matches EngineAction::Render(_, job) ==> {
                &&& job.wf()
                &&& job.column() == 0
                &&& job.row() == 0
                &&& job.pixels() == Seq::<u8>::empty()
                &&& job.issued() == seq![action@->Render_0]
            },
    {
        if !self.is_running() {
            return EngineAction::Stop;
        }
        match cmd {
            None | Some(EngineCommand::Shutdown) => {
                self.state = EngineState::Terminated;
                EngineAction::Stop
            },
            Some(EngineCommand::UpdateRegion(re0, re1, im0, im1)) => {
                self.region = Region { re0, re1, im0, im1 };
                EngineAction::Idle
            },
            Some(EngineCommand::Render(kind)) => {
                let (width, height) = kind.resolution(self.buffer_width, self.buffer_height);
                match RenderJob::begin(kind, self.region, width, height, self.max_iterations) {
                    Ok(job) => EngineAction::Render(EngineStatus::Startup, job),
                    Err(e) => EngineAction::Refuse(e),
                }
            },
            Some(nav) => {
                match bound_shift(nav) {
                    Some(shift) => EngineAction::Shift(shift),
                    None => EngineAction::Idle,
                }
            },
        }
    }
}

} // verus!
