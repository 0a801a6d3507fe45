use crate::geometry::{point_in_rect, strictly_inside, IVec2};
use vstd::prelude::*;

verus! {

/// For use with custom cursor control; emitted on the frame the pointer
/// enters a text widget.
#[derive(Clone, Copy, Debug, PartialEq, Eq, Structural)]
pub struct TextHoverIn;

/// For use with custom cursor control; emitted on the frame the pointer
/// leaves a text widget.
#[derive(Clone, Copy, Debug, PartialEq, Eq, Structural)]
pub struct TextHoverOut;

/// The frame-scoped notification channel: both probes append to it, any
/// number of consumers read it, and the host discards it at frame end. It is
/// a queue fully rebuilt every frame, not a persistent log.
pub struct HoverEvents {
    pub hover_in: Vec<TextHoverIn>,
    pub hover_out: Vec<TextHoverOut>,
}

impl HoverEvents {
    /// An empty channel, as each frame starts with.
    pub fn new() -> (e: HoverEvents)
        ensures
            e.hover_in@.len() == 0,
            e.hover_out@.len() == 0,
    {
        HoverEvents { hover_in: Vec::new(), hover_out: Vec::new() }
    }

    /// Broadcast one enter notification.
    pub fn send_in(&mut self)
        ensures
            final(self).hover_in@ == old(self).hover_in@.push(TextHoverIn),
            final(self).hover_out@ == old(self).hover_out@,
    {
        self.hover_in.push(TextHoverIn);
    }

    /// Broadcast one exit notification.
    pub fn send_out(&mut self)
        ensures
            final(self).hover_in@ == old(self).hover_in@,
            final(self).hover_out@ == old(self).hover_out@.push(TextHoverOut),
    {
        self.hover_out.push(TextHoverOut);
    }
}

/// Render visibility of a sprite widget as the host reports it. Only widgets
/// explicitly `Hidden` are skipped by the probe; `Inherited` resolves at the
/// host and still counts as a live target here.
#[derive(Clone, Copy, Debug, PartialEq, Eq, Structural)]
pub enum Visibility {
    Visible,
    Hidden,
    Inherited,
}

/// One sprite-rendered text widget as the probe sees it: its render
/// visibility, the translation of its world transform, and its extents.
/// Its interactive bounds are the axis-aligned rectangle centered at
/// `translation` with half-extents `size / 2`.
#[derive(Clone, Copy, Debug, PartialEq, Eq, Structural)]
pub struct SpriteHoverTarget {
    pub visibility: Visibility,
    pub translation: IVec2,
    pub size: IVec2,
}

/// Whether the projected pointer `p` hits the target `t`: the target is not
/// hidden and `p` lies strictly inside its bounds.
pub open spec fn target_hit(p: IVec2, t: SpriteHoverTarget) -> bool {
    t.visibility != Visibility::Hidden && strictly_inside(p, t.translation, t.size)
}

/// The sprite probe's hover boolean for one frame: some live, non-hidden
/// target is hit. An absent pointer (no window, no camera, pointer outside
/// the viewport) contributes "not hovered".
pub open spec fn hovered_over(pointer: Option<IVec2>, targets: Seq<SpriteHoverTarget>) -> bool {
    match pointer {
        Some(p) => exists|i: int| 0 <= i < targets.len() && target_hit(p, targets[i]),
        None => false,
    }
}

/// Cross-frame state of one hover probe. `current` is recomputed every frame;
/// `previous` is what `current` was at the end of the last frame. It is an
/// explicitly owned value the host passes into each per-frame call, never a
/// hidden global.
#[derive(Clone, Copy, Debug, PartialEq, Eq, Structural)]
pub struct HoverState {
    pub current: bool,
    pub previous: bool,
}

impl HoverState {
    /// The state before the first frame: not hovered, never was.
    pub fn new() -> (s: HoverState)
        ensures
            s == (HoverState { current: false, previous: false }),
    {
        HoverState { current: false, previous: false }
    }
}

impl Default for HoverState {
    fn default() -> (s: HoverState)
        ensures
            s == (HoverState { current: false, previous: false }),
    {
        HoverState::new()
    }
}

/// What one edge-tracker step leaves behind: `current` takes this frame's
/// hover boolean and `previous` is advanced to it unconditionally at frame
/// end, even on frames where no scan was performed.
pub open spec fn edge_step(now: bool) -> HoverState {
    HoverState { current: now, previous: now }
}

/// How many enter notifications one edge-tracker step emits.
pub open spec fn spec_enters(previous: bool, now: bool) -> nat {
    if !previous && now {
        1
    } else {
        0
    }
}

/// How many exit notifications one edge-tracker step emits.
pub open spec fn spec_exits(previous: bool, now: bool) -> nat {
    if previous && !now {
        1
    } else {
        0
    }
}

/// The edge tracker: reduces this frame's raw hover boolean `now` into
/// edge-triggered notifications. Exactly one enter on a false-to-true
/// transition, exactly one exit on true-to-false, nothing when the state is
/// unchanged; `previous` is advanced unconditionally.
pub fn track_edge(state: &mut HoverState, now: bool, events: &mut HoverEvents)
    ensures
        *final(state) == edge_step(now),
        (!old(state).previous && now) ==> final(events).hover_in@
            == old(events).hover_in@.push(TextHoverIn),
        (!old(state).previous && now) ==> final(events).hover_out@ == old(events).hover_out@,
        (old(state).previous && !now) ==> final(events).hover_out@
            == old(events).hover_out@.push(TextHoverOut),
        (old(state).previous && !now) ==> final(events).hover_in@ == old(events).hover_in@,
        (old(state).previous == now) ==> final(events).hover_in@ == old(events).hover_in@,
        (old(state).previous == now) ==> final(events).hover_out@ == old(events).hover_out@,
        final(events).hover_in@.len() == old(events).hover_in@.len()
            + spec_enters(old(state).previous, now),
        final(events).hover_out@.len() == old(events).hover_out@.len()
            + spec_exits(old(state).previous, now),
{
    state.current = now;
    if state.previous != now {
        if now {
            events.send_in();
        } else {
            events.send_out();
        }
    }
    state.previous = now;
}

/// Whether the projected pointer `p` hits the single target `t`: the
/// executable form of [`target_hit`].
pub fn hits_target(p: IVec2, t: &SpriteHoverTarget) -> (r: bool)
    ensures
        r == target_hit(p, *t),
{
    t.visibility != Visibility::Hidden && point_in_rect(p, t.translation, t.size)
}

/// The sprite-widget hover probe for one frame. `pointer` is the pointer
/// position already projected to world space by the host, `None` when the
/// window or the camera is absent or the pointer is outside the viewport; an
/// absent pointer skips the scan and contributes "not hovered", while the
/// edge logic still runs, so a terminal exit is emitted even when the last
/// hovered target disappears. Appends this frame's notifications to `events`.
pub fn hover_sprites(
    pointer: Option<IVec2>,
    targets: &Vec<SpriteHoverTarget>,
    state: &mut HoverState,
    events: &mut HoverEvents,
)
    ensures
        *final(state) == edge_step(hovered_over(pointer, targets@)),
        (!old(state).previous && hovered_over(pointer, targets@)) ==> final(events).hover_in@
            == old(events).hover_in@.push(TextHoverIn),
        (!old(state).previous && hovered_over(pointer, targets@)) ==> final(events).hover_out@
            == old(events).hover_out@,
        (old(state).previous && !hovered_over(pointer, targets@)) ==> final(events).hover_out@
            == old(events).hover_out@.push(TextHoverOut),
        (old(state).previous && !hovered_over(pointer, targets@)) ==> final(events).hover_in@
            == old(events).hover_in@,
        (old(state).previous == hovered_over(pointer, targets@)) ==> final(events).hover_in@
            == old(events).hover_in@,
        (old(state).previous == hovered_over(pointer, targets@)) ==> final(events).hover_out@
            == old(events).hover_out@,
        final(events).hover_in@.len() == old(events).hover_in@.len()
            + spec_enters(old(state).previous, hovered_over(pointer, targets@)),
        final(events).hover_out@.len() == old(events).hover_out@.len()
            + spec_exits(old(state).previous, hovered_over(pointer, targets@)),
{
    let mut now = false;
    match pointer {
        None => {},
        Some(p) => {
            let n = targets.len();
            let mut i: usize = 0;
            while i < n
                invariant
                    n == targets@.len(),
                    i <= n,
                    now == exists|j: int| 0 <= j < i && target_hit(p, targets@[j]),
                decreases n - i,
            {
                if hits_target(p, &targets[i]) {
                    now = true;
                    assert(target_hit(p, targets@[i as int]));
                }
                i = i + 1;
            }
        },
    }
    track_edge(state, now, events);
}

/// Idempotence of the sprite probe: with the target set and the pointer
/// position unchanged, a re-run computes the identical hover boolean, leaves
/// the probe state where the first run put it, and — `previous` having been
/// advanced to `current` — emits no notifications.
pub proof fn lemma_sprite_probe_idempotent(pointer: Option<IVec2>, targets: Seq<SpriteHoverTarget>)
    ensures
        ({
            let now = hovered_over(pointer, targets);
            let after_first = edge_step(now);
            &&& edge_step(hovered_over(pointer, targets)) == after_first
            &&& spec_enters(after_first.previous, hovered_over(pointer, targets)) == 0
            &&& spec_exits(after_first.previous, hovered_over(pointer, targets)) == 0
        }),
{
}

/// Interaction classification of a UI-rendered text widget, computed upstream
/// by the host's layout pass. `Idle` is the host's "no interaction" state.
#[derive(Clone, Copy, Debug, PartialEq, Eq, Structural)]
pub enum Interaction {
    Idle,
    Hovered,
    Pressed,
}

/// How many of the changed UI interactions produce an enter notification:
/// one per transition to `Hovered`.
pub open spec fn ui_enters(changes: Seq<Interaction>) -> nat
    decreases changes.len(),
{
    if changes.len() == 0 {
        0
    } else {
        ui_enters(changes.drop_last()) + if changes.last() == Interaction::Hovered {
            1nat
        } else {
            0nat
        }
    }
}

/// How many of the changed UI interactions produce an exit notification:
/// one per transition to `Idle`.
pub open spec fn ui_exits(changes: Seq<Interaction>) -> nat
    decreases changes.len(),
{
    if changes.len() == 0 {
        0
    } else {
        ui_exits(changes.drop_last()) + if changes.last() == Interaction::Idle {
            1nat
        } else {
            0nat
        }
    }
}

/// The UI-widget hover probe for one frame. `changes` holds the new
/// classification of every UI target whose interaction changed this frame —
/// visiting only changed targets is a contract the host guarantees. Each
/// transitioning target emits its own notification independently: exit on a
/// transition to `Idle`, enter on a transition to `Hovered`, nothing on
/// `Pressed`. Appends to `events`.
pub fn hover_ui(changes: &Vec<Interaction>, events: &mut HoverEvents)
    ensures
        final(events).hover_in@.len() == old(events).hover_in@.len() + ui_enters(changes@),
        final(events).hover_out@.len() == old(events).hover_out@.len() + ui_exits(changes@),
{
    let n = changes.len();
    let mut i: usize = 0;
    while i < n
        invariant
            n == changes@.len(),
            i <= n,
            events.hover_in@.len() == old(events).hover_in@.len() + ui_enters(
                changes@.take(i as int),
            ),
            events.hover_out@.len() == old(events).hover_out@.len() + ui_exits(
                changes@.take(i as int),
            ),
        decreases n - i,
    {
        match changes[i] {
            Interaction::Idle => events.send_out(),
            Interaction::Hovered => events.send_in(),
            Interaction::Pressed => {},
        }
        proof {
            assert(changes@.take(i as int + 1).drop_last() =~= changes@.take(i as int));
            assert(changes@.take(i as int + 1).last() == changes@[i as int]);
        }
        i = i + 1;
    }
    proof {
        assert(changes@.take(n as int) =~= changes@);
    }
}

} // verus!
