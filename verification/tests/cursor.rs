use cursor_hover::{
    change_cursor, hover_sprites, run_frame, CursorConfig, CursorIcon, CursorState, FrameInput,
    HoverEvents, HoverState, IVec2, Interaction, SpriteHoverTarget, Visibility,
};

fn centered_target() -> SpriteHoverTarget {
    SpriteHoverTarget {
        visibility: Visibility::Visible,
        translation: IVec2 { x: 0, y: 100 },
        size: IVec2 { x: 300, y: 100 },
    }
}

fn quiet_frame(pointer: Option<IVec2>, targets: Vec<SpriteHoverTarget>) -> FrameInput {
    FrameInput {
        pointer_world: pointer,
        sprite_targets: targets,
        ui_changes: Vec::new(),
        text_changed: false,
        button_just_pressed: false,
        pointer_moved: false,
    }
}

fn events_with(ins: usize, outs: usize) -> HoverEvents {
    let mut e = HoverEvents::new();
    for _ in 0..ins {
        e.send_in();
    }
    for _ in 0..outs {
        e.send_out();
    }
    e
}

#[test]
fn enter_sets_text_icon() {
    let mut window = Some(CursorState { icon: CursorIcon::Arrow, visible: true });
    change_cursor(&events_with(1, 0), false, false, false, &mut window);
    assert_eq!(window, Some(CursorState { icon: CursorIcon::Text, visible: true }));
}

#[test]
fn exit_sets_arrow_icon() {
    let mut window = Some(CursorState { icon: CursorIcon::Text, visible: true });
    change_cursor(&events_with(0, 1), false, false, false, &mut window);
    assert_eq!(window, Some(CursorState { icon: CursorIcon::Arrow, visible: true }));
}

#[test]
fn enter_and_exit_same_frame_exit_wins() {
    let mut window = Some(CursorState { icon: CursorIcon::Text, visible: true });
    change_cursor(&events_with(1, 1), false, false, false, &mut window);
    assert_eq!(window.unwrap().icon, CursorIcon::Arrow);
}

#[test]
fn text_changed_hides_then_pointer_motion_shows() {
    // Text change alone hides the cursor; on the next frame pointer motion
    // alone shows it again, leaving the icon untouched both times.
    let mut window = Some(CursorState { icon: CursorIcon::Text, visible: true });
    change_cursor(&HoverEvents::new(), true, false, false, &mut window);
    assert_eq!(window, Some(CursorState { icon: CursorIcon::Text, visible: false }));
    change_cursor(&HoverEvents::new(), false, false, true, &mut window);
    assert_eq!(window, Some(CursorState { icon: CursorIcon::Text, visible: true }));
}

#[test]
fn button_press_shows_cursor_too() {
    let mut window = Some(CursorState { icon: CursorIcon::Arrow, visible: false });
    change_cursor(&HoverEvents::new(), false, true, false, &mut window);
    assert_eq!(window, Some(CursorState { icon: CursorIcon::Arrow, visible: true }));
}

#[test]
fn text_change_and_activity_same_frame_cursor_stays_visible() {
    let mut window = Some(CursorState { icon: CursorIcon::Arrow, visible: true });
    change_cursor(&HoverEvents::new(), true, false, true, &mut window);
    assert_eq!(window.unwrap().visible, true);
}

#[test]
fn enter_with_text_change_sets_both() {
    let mut window = Some(CursorState { icon: CursorIcon::Arrow, visible: true });
    change_cursor(&events_with(1, 0), true, false, false, &mut window);
    assert_eq!(window, Some(CursorState { icon: CursorIcon::Text, visible: false }));
}

#[test]
fn missing_window_is_a_no_op() {
    let mut window: Option<CursorState> = None;
    change_cursor(&events_with(1, 1), true, true, true, &mut window);
    assert_eq!(window, None);
}

#[test]
fn disabled_config_emits_and_writes_nothing() {
    let mut state = HoverState { current: false, previous: true };
    let mut window = Some(CursorState { icon: CursorIcon::Text, visible: false });
    let input = quiet_frame(Some(IVec2 { x: 0, y: 100 }), vec![centered_target()]);
    let events = run_frame(CursorConfig::Disabled, &input, &mut state, &mut window);
    assert_eq!(events.hover_in.len(), 0);
    assert_eq!(events.hover_out.len(), 0);
    assert_eq!(state, HoverState { current: false, previous: true });
    assert_eq!(window, Some(CursorState { icon: CursorIcon::Text, visible: false }));
}

#[test]
fn events_config_emits_but_leaves_window_alone() {
    let mut state = HoverState::new();
    let mut window = Some(CursorState { icon: CursorIcon::Arrow, visible: true });
    let input = quiet_frame(Some(IVec2 { x: 0, y: 100 }), vec![centered_target()]);
    let events = run_frame(CursorConfig::Events, &input, &mut state, &mut window);
    assert_eq!(events.hover_in.len(), 1);
    assert_eq!(events.hover_out.len(), 0);
    assert_eq!(window, Some(CursorState { icon: CursorIcon::Arrow, visible: true }));
}

#[test]
fn full_config_drives_the_window_cursor() {
    let mut state = HoverState::new();
    let mut window = Some(CursorState { icon: CursorIcon::Arrow, visible: true });
    let input = quiet_frame(Some(IVec2 { x: 0, y: 100 }), vec![centered_target()]);
    let events = run_frame(CursorConfig::Full, &input, &mut state, &mut window);
    assert_eq!(events.hover_in.len(), 1);
    assert_eq!(window, Some(CursorState { icon: CursorIcon::Text, visible: true }));

    // Next frame the pointer moves off the target: one exit, arrow icon back.
    let off = quiet_frame(Some(IVec2 { x: 500, y: 500 }), vec![centered_target()]);
    let events = run_frame(CursorConfig::Full, &off, &mut state, &mut window);
    assert_eq!(events.hover_out.len(), 1);
    assert_eq!(window.unwrap().icon, CursorIcon::Arrow);
}

#[test]
fn full_config_merges_ui_and_sprite_notifications() {
    let mut state = HoverState::new();
    let mut window = Some(CursorState { icon: CursorIcon::Arrow, visible: true });
    let mut input = quiet_frame(None, Vec::new());
    input.ui_changes = vec![Interaction::Hovered];
    let events = run_frame(CursorConfig::Full, &input, &mut state, &mut window);
    assert_eq!(events.hover_in.len(), 1);
    assert_eq!(window.unwrap().icon, CursorIcon::Text);
}

#[test]
fn sprite_probe_feeds_the_reducer_like_the_frame_does() {
    // Running the pieces by hand matches what run_frame wires together.
    let mut state = HoverState::new();
    let mut events = HoverEvents::new();
    hover_sprites(
        Some(IVec2 { x: 0, y: 100 }),
        &vec![centered_target()],
        &mut state,
        &mut events,
    );
    let mut window = Some(CursorState { icon: CursorIcon::Arrow, visible: true });
    change_cursor(&events, false, false, false, &mut window);
    assert_eq!(window.unwrap().icon, CursorIcon::Text);
}
