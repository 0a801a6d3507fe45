use crate::geometry::IVec2;
use crate::hover::{
    edge_step, hover_sprites, hover_ui, hovered_over, spec_enters, spec_exits, ui_enters, ui_exits,
    HoverEvents, HoverState, Interaction, SpriteHoverTarget,
};
use vstd::prelude::*;

verus! {

/// Label for the per-frame mouse cursor systems; the host schedules them as
/// one group under this set.
#[derive(Clone, Copy, Debug, PartialEq, Eq, Hash)]
pub struct CursorSet;

/// Config enum for mouse cursor events, chosen once at startup and not
/// switchable at runtime.
#[derive(Clone, Copy, Debug, PartialEq, Eq, Structural, Default)]
pub enum CursorConfig {
    /// Emit enter/exit notifications and drive the window cursor on hover.
    #[default]
    Full,
    /// Emit enter/exit notifications, but leave the cursor to the consumer.
    Events,
    /// Ignore mouse events entirely: nothing runs, nothing is emitted.
    Disabled,
}

/// The icon the primary window's cursor shows.
#[derive(Clone, Copy, Debug, PartialEq, Eq, Structural)]
pub enum CursorIcon {
    /// The text-selection beam, shown while a text widget is hovered.
    Text,
    /// The host's ordinary arrow.
    Arrow,
}

/// Cursor presentation of the primary window: its icon and whether it is
/// shown at all. Sole writer is the reducer [`change_cursor`].
#[derive(Clone, Copy, Debug, PartialEq, Eq, Structural)]
pub struct CursorState {
    pub icon: CursorIcon,
    pub visible: bool,
}

/// The reducer's four rules, applied to the window's cursor state in fixed
/// priority order: any enter this frame sets the text icon; any exit sets the
/// arrow icon, after the enter rule, so on a frame with both the exit wins —
/// a documented tie-break, not an error; a text change hides the cursor;
/// pointer activity shows it again, after the hiding rule. All four rules are
/// evaluated independently every frame, never short-circuited.
pub open spec fn reduce_cursor(
    c: CursorState,
    any_in: bool,
    any_out: bool,
    text_changed: bool,
    pointer_active: bool,
) -> CursorState {
    let icon = if any_out {
        CursorIcon::Arrow
    } else if any_in {
        CursorIcon::Text
    } else {
        c.icon
    };
    let visible = if pointer_active {
        true
    } else if text_changed {
        false
    } else {
        c.visible
    };
    CursorState { icon, visible }
}

/// Switches the mouse cursor icon and visibility when hover notifications are
/// received: the cursor presentation reducer. Drains this frame's
/// notifications together with the text-changed signal and the two pointer
/// activity signals, and applies [`reduce_cursor`] to the primary window's
/// cursor state. `window` is `None` when no primary window exists, and the
/// whole update is a no-op — never a partial write.
pub fn change_cursor(
    events: &HoverEvents,
    text_changed: bool,
    button_just_pressed: bool,
    pointer_moved: bool,
    window: &mut Option<CursorState>,
)
    ensures
        *final(window) == (match *old(window) {
            None => None::<CursorState>,
            Some(c) => Some(
                reduce_cursor(
                    c,
                    events.hover_in@.len() > 0,
                    events.hover_out@.len() > 0,
                    text_changed,
                    button_just_pressed || pointer_moved,
                ),
            ),
        }),
{
    match window {
        None => {},
        Some(c) => {
            if events.hover_in.len() > 0 {
                c.icon = CursorIcon::Text;
            }
            if events.hover_out.len() > 0 {
                c.icon = CursorIcon::Arrow;
            }
            if text_changed {
                c.visible = false;
            }
            if button_just_pressed || pointer_moved {
                c.visible = true;
            }
        },
    }
}

/// Whether the two hover probes run under `config`.
pub open spec fn probes_run(config: CursorConfig) -> bool {
    config != CursorConfig::Disabled
}

/// Whether the cursor presentation reducer runs under `config`.
pub open spec fn reducer_runs(config: CursorConfig) -> bool {
    config == CursorConfig::Full
}

/// Everything the host hands this module for one frame.
pub struct FrameInput {
    /// Pointer position projected to world space; `None` when the window or
    /// the camera is absent or the pointer is outside the viewport.
    pub pointer_world: Option<IVec2>,
    /// The live sprite widgets, in iteration order.
    pub sprite_targets: Vec<SpriteHoverTarget>,
    /// New classifications of the UI targets whose interaction changed this
    /// frame.
    pub ui_changes: Vec<Interaction>,
    /// A text widget's content changed this frame.
    pub text_changed: bool,
    /// A mouse button was pressed this frame.
    pub button_just_pressed: bool,
    /// The pointer moved this frame.
    pub pointer_moved: bool,
}

/// One frame of the whole module, wired as the plugin registers it: `Full`
/// runs both probes and then the reducer, `Events` runs the probes only and
/// leaves the window's cursor untouched, and `Disabled` runs nothing — no
/// notification is ever emitted and the cursor state is never written. The
/// reducer runs strictly after both probes, so their notifications are
/// drained in the same frame. Returns the frame's notification channel for
/// any further consumers.
pub fn run_frame(
    config: CursorConfig,
    input: &FrameInput,
    state: &mut HoverState,
    window: &mut Option<CursorState>,
) -> (events: HoverEvents)
    ensures
        !probes_run(config) ==> (events.hover_in@.len() == 0 && events.hover_out@.len() == 0
            && *final(state) == *old(state) && *final(window) == *old(window)),
        probes_run(config) ==> (*final(state) == edge_step(
            hovered_over(input.pointer_world, input.sprite_targets@),
        ) && events.hover_in@.len() == spec_enters(
            old(state).previous,
            hovered_over(input.pointer_world, input.sprite_targets@),
        ) + ui_enters(input.ui_changes@) && events.hover_out@.len() == spec_exits(
            old(state).previous,
            hovered_over(input.pointer_world, input.sprite_targets@),
        ) + ui_exits(input.ui_changes@)),
        (probes_run(config) && !reducer_runs(config)) ==> *final(window) == *old(window),
        reducer_runs(config) ==> *final(window) == (match *old(window) {
            None => None::<CursorState>,
            Some(c) => Some(
                reduce_cursor(
                    c,
                    events.hover_in@.len() > 0,
                    events.hover_out@.len() > 0,
                    input.text_changed,
                    input.button_just_pressed || input.pointer_moved,
                ),
            ),
        }),
{
    let mut events = HoverEvents::new();
    match config {
        CursorConfig::Disabled => {},
        CursorConfig::Events => {
            hover_sprites(input.pointer_world, &input.sprite_targets, state, &mut events);
            hover_ui(&input.ui_changes, &mut events);
        },
        CursorConfig::Full => {
            hover_sprites(input.pointer_world, &input.sprite_targets, state, &mut events);
            hover_ui(&input.ui_changes, &mut events);
            change_cursor(
                &events,
                input.text_changed,
                input.button_just_pressed,
                input.pointer_moved,
                window,
            );
        },
    }
    events
}

} // verus!
