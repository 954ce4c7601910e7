//! The status messages of a whole session, and what holds of them.
//!
//! A session is a run of commands that a driver feeds to
//! [`crate::engine::MandelEngine::dispatch`] one by one, carrying each render
//! out to its end before it takes the next command. The functions here say which
//! messages the front-end then receives, in order, over the same transition
//! table and the same per-row rule that the engine and its render jobs are
//! verified against.

use vstd::prelude::*;
use crate::engine::{react, ActionView, EngineModel, EngineState};
use crate::protocol::{EngineCommand, RenderType, StatusView};
use crate::render::{progress_statuses, render_statuses, row_status};

verus! {

/// The messages of one action carried out to its end: those of the render, for
/// a render, and none for any other action.
pub open spec fn action_statuses(action: ActionView, pixels: Seq<u8>) -> Seq<StatusView> {
    match action {
        ActionView::Render(_, plan) => render_statuses(plan.kind, plan.height, pixels),
        _ => Seq::empty(),
    }
}

/// The messages of a session that starts with the engine as `m` says. `images`
/// holds the finished buffers of the renders of the session, in order. A pan or
/// a zoom owes no message, whatever bounds the driver arrives at.
pub open spec fn session_statuses(
    m: EngineModel,
    cmds: Seq<Option<EngineCommand>>,
    images: Seq<Seq<u8>>,
) -> Seq<StatusView>
    decreases cmds.len(),
{
    if cmds.len() == 0 {
        Seq::empty()
    } else {
        let (next, action) = react(m, cmds[0]);
        if action is Render {
            action_statuses(action, images[0]) + session_statuses(
                next,
                cmds.drop_first(),
                images.drop_first(),
            )
        } else {
            session_statuses(next, cmds.drop_first(), images)
        }
    }
}

/// Whether the engine still runs at the end of a session.
pub open spec fn session_end(m: EngineModel, cmds: Seq<Option<EngineCommand>>) -> EngineState
    decreases cmds.len(),
{
    if cmds.len() == 0 {
        m.state
    } else {
        session_end(react(m, cmds[0]).0, cmds.drop_first())
    }
}

/// Number of completion messages in a trace.
pub open spec fn completions(trace: Seq<StatusView>) -> nat
    decreases trace.len(),
{
    if trace.len() == 0 {
        0
    } else {
        let rest = completions(trace.drop_first());
        if trace[0] is RenderComplete {
            rest + 1
        } else {
            rest
        }
    }
}

/// Number of `Startup` messages in a trace.
pub open spec fn startups(trace: Seq<StatusView>) -> nat
    decreases trace.len(),
{
    if trace.len() == 0 {
        0
    } else {
        let rest = startups(trace.drop_first());
        if trace[0] is Startup {
            rest + 1
        } else {
            rest
        }
    }
}

/// Reads a trace from the front with `open` announcements not yet answered by a
/// completion message. Gives the number left open at the end, or `None` where a
/// completion message comes with none or more than one open.
pub open spec fn scan_announcements(trace: Seq<StatusView>, open: nat) -> Option<nat>
    decreases trace.len(),
{
    if trace.len() == 0 {
        Some(open)
    } else {
        match trace[0] {
            StatusView::Startup => scan_announcements(trace.drop_first(), open + 1),
            StatusView::RenderComplete(_, _) => if open == 1 {
                scan_announcements(trace.drop_first(), 0)
            } else {
                None
            },
            _ => scan_announcements(trace.drop_first(), open),
        }
    }
}

/// Whether each completion message of the trace has exactly one `Startup`
/// between it and the completion message before it (or the beginning), and no
/// `Startup` follows the last one.
pub open spec fn well_announced(trace: Seq<StatusView>) -> bool {
    scan_announcements(trace, 0) == Some(0nat)
}

/// `n` requests for a preview followed by `Shutdown`.
pub open spec fn previews_then_shutdown(n: nat) -> Seq<Option<EngineCommand>> {
    Seq::new(n, |i: int| Some(EngineCommand::Render(RenderType::PreviewRender))).push(
        Some(EngineCommand::Shutdown),
    )
}

proof fn lemma_completions_concat(a: Seq<StatusView>, b: Seq<StatusView>)
    ensures
        completions(a + b) == completions(a) + completions(b),
        startups(a + b) == startups(a) + startups(b),
    decreases a.len(),
{
    if a.len() == 0 {
        assert(a + b =~= b);
    } else {
        assert((a + b).drop_first() =~= a.drop_first() + b);
        lemma_completions_concat(a.drop_first(), b);
    }
}

proof fn lemma_scan_concat(a: Seq<StatusView>, b: Seq<StatusView>, open: nat)
    ensures
        scan_announcements(a + b, open) == match scan_announcements(a, open) {
            Some(left) => scan_announcements(b, left),
            None => None,
        },
    decreases a.len(),
{
    if a.len() == 0 {
        assert(a + b =~= b);
    } else {
        assert((a + b).drop_first() =~= a.drop_first() + b);
        assert((a + b)[0] == a[0]);
        match a[0] {
            StatusView::Startup => lemma_scan_concat(a.drop_first(), b, open + 1),
            StatusView::RenderComplete(_, _) => {
                if open == 1 {
                    lemma_scan_concat(a.drop_first(), b, 0);
                }
            },
            _ => lemma_scan_concat(a.drop_first(), b, open),
        }
    }
}

proof fn lemma_single(s: StatusView, open: nat)
    ensures
        completions(seq![s]) == if s is RenderComplete { 1nat } else { 0nat },
        startups(seq![s]) == if s is Startup { 1nat } else { 0nat },
        scan_announcements(seq![s], open) == match s {
            StatusView::Startup => Some(open + 1),
            StatusView::RenderComplete(_, _) => if open == 1 { Some(0nat) } else { None },
            _ => Some(open),
        },
{
    let t = seq![s];
    assert(t.drop_first() =~= Seq::<StatusView>::empty());
    assert(t[0] == s);
    assert(completions(t.drop_first()) == 0);
    assert(startups(t.drop_first()) == 0);
    assert(scan_announcements(t.drop_first(), open) == Some(open));
    assert(scan_announcements(t.drop_first(), open + 1) == Some(open + 1));
    assert(scan_announcements(t.drop_first(), 0) == Some(0nat));
}

/// Progress messages neither announce nor complete a render.
proof fn lemma_progress_is_neutral(rows: nat, open: nat)
    ensures
        completions(progress_statuses(rows)) == 0,
        startups(progress_statuses(rows)) == 0,
        scan_announcements(progress_statuses(rows), open) == Some(open),
        forall|i: int|
            0 <= i < progress_statuses(rows).len() ==> #[trigger] progress_statuses(rows)[i]
                is Processing,
    decreases rows,
{
    if rows > 0 {
        let before = progress_statuses((rows - 1) as nat);
        lemma_progress_is_neutral((rows - 1) as nat, open);
        match row_status((rows - 1) as u32) {
            Some(status) => {
                assert(before.push(status) =~= before + seq![status]);
                lemma_completions_concat(before, seq![status]);
                lemma_scan_concat(before, seq![status], open);
                lemma_single(status, open);
            },
            None => {},
        }
    }
}

/// One render carried out to its end announces itself once, first of all, and
/// completes once, last of all, with the kind that was asked for.
pub proof fn lemma_render_trace(kind: RenderType, height: u32, pixels: Seq<u8>)
    ensures
        ({
            let trace = render_statuses(kind, height, pixels);
            &&& trace.len() >= 2
            &&& trace.first() == StatusView::Startup
            &&& trace.last() == StatusView::RenderComplete(kind, pixels)
            &&& forall|i: int| 0 < i < trace.len() - 1 ==> #[trigger] trace[i] is Processing
            &&& completions(trace) == 1
            &&& startups(trace) == 1
            &&& well_announced(trace)
        }),
{
    let head = seq![StatusView::Startup];
    let middle = progress_statuses(height as nat);
    let tail = seq![StatusView::RenderComplete(kind, pixels)];
    let trace = render_statuses(kind, height, pixels);
    assert(trace == head + middle + tail);
    lemma_progress_is_neutral(height as nat, 1);
    lemma_single(StatusView::Startup, 0);
    lemma_single(StatusView::RenderComplete(kind, pixels), 1);
    lemma_completions_concat(head, middle);
    lemma_completions_concat(head + middle, tail);
    lemma_scan_concat(head, middle, 0);
    lemma_scan_concat(head + middle, tail, 0);
    assert forall|i: int| 0 < i < trace.len() - 1 implies #[trigger] trace[i] is Processing by {
        assert(trace[i] == middle[i - 1]);
    }
}

/// A terminated engine stays terminated and owes no message, whatever it is
/// sent.
pub proof fn lemma_terminated_is_silent(
    m: EngineModel,
    cmds: Seq<Option<EngineCommand>>,
    images: Seq<Seq<u8>>,
)
    requires
        m.state == EngineState::Terminated,
    ensures
        session_statuses(m, cmds, images) == Seq::<StatusView>::empty(),
        session_end(m, cmds) == EngineState::Terminated,
    decreases cmds.len(),
{
    if cmds.len() > 0 {
        lemma_terminated_is_silent(m, cmds.drop_first(), images);
    }
}

/// A running engine that is sent `n` requests for a preview and then `Shutdown`
/// completes exactly `n` renders, all of them previews, each announced by
/// exactly one `Startup`, and is terminated at the end.
pub proof fn lemma_previews_then_shutdown(m: EngineModel, n: nat, images: Seq<Seq<u8>>)
    requires
        m.state == EngineState::Running,
        images.len() == n,
    ensures
        ({
            let trace = session_statuses(m, previews_then_shutdown(n), images);
            &&& completions(trace) == n
            &&& startups(trace) == n
            &&& well_announced(trace)
            &&& forall|i: int|
                0 <= i < trace.len() && #[trigger] trace[i] is RenderComplete
                    ==> trace[i]->RenderComplete_0 == RenderType::PreviewRender
        }),
        session_end(m, previews_then_shutdown(n)) == EngineState::Terminated,
    decreases n,
{
    let cmds = previews_then_shutdown(n);
    let trace = session_statuses(m, cmds, images);
    let (next, action) = react(m, cmds[0]);
    if n == 0 {
        assert(cmds[0] == Some(EngineCommand::Shutdown));
        lemma_terminated_is_silent(next, cmds.drop_first(), images);
        assert(trace =~= Seq::<StatusView>::empty());
    } else {
        assert(cmds[0] == Some(EngineCommand::Render(RenderType::PreviewRender)));
        assert(3 * 256 * 256 <= isize::MAX);
        assert(action is Render);
        assert(next == m);
        assert(cmds.drop_first() =~= previews_then_shutdown((n - 1) as nat));
        let block = action_statuses(action, images[0]);
        let rest = session_statuses(m, previews_then_shutdown((n - 1) as nat), images.drop_first());
        assert(trace == block + rest);
        lemma_render_trace(RenderType::PreviewRender, 256, images[0]);
        lemma_previews_then_shutdown(m, (n - 1) as nat, images.drop_first());
        lemma_completions_concat(block, rest);
        lemma_scan_concat(block, rest, 0);
        assert forall|i: int| 0 <= i < trace.len() && #[trigger] trace[i] is RenderComplete implies trace[i]->RenderComplete_0
            == RenderType::PreviewRender by {
            if i < block.len() {
                assert(trace[i] == block[i]);
                if 0 < i < block.len() - 1 {
                    assert(block[i] is Processing);
                }
            } else {
                assert(trace[i] == rest[i - block.len()]);
            }
        }
    }
}

} // verus!
