use zed_logic::wayland::{
    keyboard_layout_after_change, should_update_ime_position, startup_token_from_environment,
    take_startup_token, wl_output_version, wl_seat_version, ClickState, DevicePoint, ImeState,
    InProgressOutput, Subpixel, WindowFocus, UNKNOWN_KEYBOARD_LAYOUT_NAME,
};
use zed_logic::x11::{
    composing_after_preedit, find_visuals, keyboard_layout_changed, mode_refresh_rate,
    resize_edge_to_moveresize, xdnd_first_supported_atom, xdnd_is_atom_supported,
    EdgeConstraints, ResizeEdge, Tiling, Visual, VisualCandidate, XcbAtoms,
};
use zed_logic::x11_events::{
    button_press_step, button_release_step, ButtonOrScroll, PressAction, ScrollDirection,    close_answer_step, wm_message_step, CloseAnswerStep, SyncValue, WmMessageStep,    first_loaded_cursor,
    blocked_cursor_reset, compose_step, depressed_modifiers, keyboard_state_change,
    motion_moves_pointer, press_composition, sync_request_value, wm_states_from_atoms,
    xdnd_data_retrieved, xdnd_finished_data, xdnd_message, xdnd_status_data, ComposeStatus,
    DropPosition, PressComposition, WmStateAtoms, XdndAction, XdndAtoms, XdndState,
};
use zed_logic::x11_refresh::{
    next_deadline, rate_for_mode, refresh_step, take_frame_request, timer_started, FrameFlags,
    RefreshAction, RefreshState, DEFAULT_REFRESH_MICROS,
};
use zed_logic::x11_screen::{
    compositor_present, compositor_selection_name, crtc_in_use, edge_constraints_value,
    fallback_output_usable, frame_extents_supported, primary_output_measurable,
    property_values32, randr_needs_legacy_path, scale_monitor, scale_source, MonitorInfo,
    OutputInfo, ScaleRequest, ScaleSource,
};
use zed_logic::x11_window::{
    activate_data, key_types_text, minimize_data, moveresize_data, should_close,
    ime_reaches_input, window_menu_data, wm_class_data, wm_state_toggle_data, ChildWindows,
};
use zed_logic::x11_window_setup::{
    window_setup_result,    icon_property, initial_window_size, max_size_hint, needs_colormap, nudged_origin,
    window_role, window_screen_index, window_visual, WindowKind,
};

fn atoms() -> XcbAtoms {
    XcbAtoms {
        text: 10,
        string: 11,
        utf8_string: 12,
        text_plain: 13,
        text_plain_utf8: 14,
        text_uri_list: 15,
    }
}

fn dnd() -> XdndAtoms {
    XdndAtoms { enter: 100, leave: 101, position: 102, drop: 103 }
}

#[test]
fn resize_edges_number_clockwise() {
    assert_eq!(resize_edge_to_moveresize(ResizeEdge::TopLeft), 0);
    assert_eq!(resize_edge_to_moveresize(ResizeEdge::Right), 3);
    assert_eq!(resize_edge_to_moveresize(ResizeEdge::Left), 7);
}

#[test]
fn edge_constraints_from_bits() {
    let c = EdgeConstraints::from_atom(0b0101_0001);
    assert!(c.top_tiled && !c.top_resizable && c.bottom_tiled && c.left_tiled);
    assert!(!c.right_tiled);
    assert_eq!(c.to_tiling(), Tiling { top: true, right: false, bottom: true, left: true });
}

#[test]
fn drag_types() {
    let a = atoms();
    assert!(xdnd_is_atom_supported(12, &a));
    assert!(!xdnd_is_atom_supported(99, &a));
    assert_eq!(xdnd_first_supported_atom(&[1, 2, 15, 10], &a), 15);
    assert_eq!(xdnd_first_supported_atom(&[1, 2], &a), 0);
}

#[test]
fn refresh_rate_of_modes() {
    assert_eq!(mode_refresh_rate(0, 10, 10), 16000);
    assert_eq!(mode_refresh_rate(148_500_000, 2200, 1125), 16666);
    assert_eq!(rate_for_mode(None), DEFAULT_REFRESH_MICROS);
    assert_eq!(rate_for_mode(Some((148_500_000, 2200, 1125))), 16666);
}

#[test]
fn visuals_are_picked_in_order() {
    let inherit = Visual { id: 1, colormap: 5, depth: 24 };
    let rgb = |id, depth| VisualCandidate {
        visual_id: id,
        depth,
        red_mask: 0xFF0000,
        green_mask: 0xFF00,
        blue_mask: 0xFF,
    };
    let odd = VisualCandidate { visual_id: 2, depth: 24, red_mask: 0xF800, green_mask: 0x7E0, blue_mask: 0x1F };
    let set = find_visuals(inherit, 7, 0, &[odd, rgb(3, 24), rgb(4, 32), rgb(5, 24)]);
    assert_eq!(set.opaque, Some(Visual { id: 3, colormap: 0, depth: 24 }));
    assert_eq!(set.transparent, Some(Visual { id: 4, colormap: 0, depth: 32 }));
    assert_eq!(window_visual(&set), Visual { id: 4, colormap: 0, depth: 32 });
    assert!(needs_colormap(window_visual(&set)));
    let plain = find_visuals(inherit, 7, 0, &[]);
    assert_eq!(window_visual(&plain), inherit);
    assert!(!needs_colormap(inherit));
}

#[test]
fn keyboard_layouts() {
    assert!(keyboard_layout_changed("English (US)", "German"));
    assert!(!keyboard_layout_changed("German", "German"));
    assert_eq!(keyboard_layout_after_change("us", None), (true, UNKNOWN_KEYBOARD_LAYOUT_NAME.to_string()));
    assert_eq!(keyboard_layout_after_change("us", Some("us")), (false, "us".to_string()));
    assert!(composing_after_preedit("ä"));
    assert!(!composing_after_preedit(""));
}

#[test]
fn wayland_versions_are_capped() {
    assert_eq!(wl_seat_version(5), 5);
    assert_eq!(wl_seat_version(12), 9);
    assert_eq!(wl_output_version(2), 2);
    assert_eq!(wl_output_version(7), 4);
}

#[test]
fn outputs_complete_with_position_and_size() {
    let mut o = InProgressOutput {
        name: Some("DP-1".to_string()),
        scale: None,
        position: Some(DevicePoint { x: 0, y: 0 }),
        size: None,
        subpixel: Some(Subpixel { value: 1 }),
    };
    assert!(o.complete().is_none());
    o.size = Some(DevicePoint { x: 1920, y: 1080 });
    let done = o.complete().unwrap();
    assert_eq!(done.scale, 1);
    assert_eq!(done.size, DevicePoint { x: 1920, y: 1080 });
    assert_eq!(done.name, Some("DP-1".to_string()));
}

#[test]
fn closing_a_window_drops_its_focus() {
    let mut f = WindowFocus {
        mouse_focused_window: Some(1),
        keyboard_focused_window: Some(2),
        cursor_hidden_window: Some(1),
    };
    f.drop_window(1);
    assert_eq!(f.mouse_focused_window, None);
    assert_eq!(f.keyboard_focused_window, Some(2));
    assert_eq!(f.cursor_hidden_window, None);
}

#[test]
fn cursor_hiding_round_trip() {
    let mut f = WindowFocus { mouse_focused_window: Some(4), keyboard_focused_window: None, cursor_hidden_window: None };
    assert!(!f.hide_cursor_until_mouse_moves(false));
    assert!(f.hide_cursor_until_mouse_moves(true));
    assert_eq!(f.cursor_hidden_window, Some(4));
    assert!(!f.hide_cursor_until_mouse_moves(true));
    assert!(f.restore_cursor_after_hide(true));
    assert_eq!(f.cursor_hidden_window, None);
    assert!(!f.restore_cursor_after_hide(true));
}

#[test]
fn ime_position_updates() {
    assert!(should_update_ime_position(false, true, false));
    assert!(!should_update_ime_position(true, true, false));
    assert!(!should_update_ime_position(false, false, false));
    assert!(!should_update_ime_position(false, true, true));
    let mut ime = ImeState { ime_enabled: None, composing: true };
    assert!(ime.enable_ime(true));
    assert_eq!(ime.ime_enabled, Some(true));
    assert!(ime.composing);
    assert!(!ime.disable_ime(false));
    assert_eq!(ime.ime_enabled, Some(false));
    assert!(!ime.composing);
}

#[test]
fn startup_tokens_are_spent_once() {
    assert_eq!(startup_token_from_environment(Some(String::new())), None);
    assert_eq!(startup_token_from_environment(None), None);
    assert_eq!(startup_token_from_environment(Some("tok".to_string())), Some("tok".to_string()));
    let mut token = Some("tok".to_string());
    assert_eq!(take_startup_token(&mut token, false), None);
    assert_eq!(token, None);
    let mut token = Some("tok".to_string());
    assert_eq!(take_startup_token(&mut token, true), Some("tok".to_string()));
    assert_eq!(take_startup_token(&mut token, true), None);
}

#[test]
fn clicks_count_up_for_quick_repeats() {
    let mut c = ClickState::new();
    assert_eq!(c.register_press(1, true, true), 1);
    assert_eq!(c.register_press(1, true, true), 2);
    assert_eq!(c.register_press(1, true, true), 3);
    assert_eq!(c.current_count(), 3);
    assert_eq!(c.register_press(3, true, true), 1);
    assert_eq!(c.register_press(3, false, true), 1);
    assert_eq!(c.register_press(3, true, false), 1);
}

#[test]
fn drag_and_drop_session() {
    let a = atoms();
    let m = dnd();
    let mut s = XdndState::idle();
    let r = xdnd_message(&mut s, m.enter, [77, 0, 1, 14, 15], None, &m, &a);
    assert_eq!(r, XdndAction::Nothing);
    assert_eq!(s.other_window, 77);
    assert_eq!(s.drag_type, 14);
    let r = xdnd_message(&mut s, m.position, [77, 0, 0, 1234, 9], Some(DropPosition { x: 5, y: 6 }), &m, &a);
    assert_eq!(
        r,
        XdndAction::Moved { convert_type: Some(14), time: 1234, status_action: 9, position: DropPosition { x: 5, y: 6 } }
    );
    xdnd_data_retrieved(&mut s);
    let r = xdnd_message(&mut s, m.position, [77, 0, 0, 1, 9], None, &m, &a);
    assert_eq!(
        r,
        XdndAction::Moved { convert_type: None, time: 1, status_action: 9, position: DropPosition { x: 5, y: 6 } }
    );
    let r = xdnd_message(&mut s, m.drop, [0; 5], None, &m, &a);
    assert_eq!(r, XdndAction::Dropped { position: DropPosition { x: 5, y: 6 } });
    assert_eq!(s, XdndState::idle());
}

#[test]
fn drag_enter_with_type_list_and_leave() {
    let a = atoms();
    let m = dnd();
    let mut s = XdndState::idle();
    s.drag_type = 3;
    assert_eq!(xdnd_message(&mut s, m.enter, [8, 1, 0, 0, 0], None, &m, &a), XdndAction::ReadTypeList);
    assert_eq!(s.drag_type, 3);
    assert_eq!(xdnd_message(&mut s, m.enter, [8, 0, 1, 2, 3], None, &m, &a), XdndAction::Nothing);
    assert_eq!(s.drag_type, 3);
    s.position = DropPosition { x: 1, y: 2 };
    assert_eq!(
        xdnd_message(&mut s, m.leave, [0; 5], None, &m, &a),
        XdndAction::Exited { position: DropPosition { x: 1, y: 2 } }
    );
    assert_eq!(s, XdndState::idle());
    assert_eq!(xdnd_message(&mut s, 999, [0; 5], None, &m, &a), XdndAction::Nothing);
    assert_eq!(xdnd_status_data(4, 9), [4, 1, 0, 0, 9]);
    assert_eq!(xdnd_finished_data(4, 21), [4, 1, 21, 0, 0]);
}

#[test]
fn sync_counter_high_word_is_signed() {
    let v = sync_request_value(7, 0xFFFF_FFFF);
    assert_eq!(v.lo, 7);
    assert_eq!(v.hi, -1);
    assert_eq!(sync_request_value(1, 2).hi, 2);
}

#[test]
fn keyboard_state_changes() {
    let c = keyboard_state_change(1, false, 0, false, true, 0, 1);
    assert!(c.notify_modifiers && c.record && c.layout_changed);
    let c = keyboard_state_change(1, false, 1, false, true, 2, 2);
    assert!(!c.notify_modifiers && !c.layout_changed);
    let c = keyboard_state_change(0, true, 0, false, false, 0, 0);
    assert!(!c.notify_modifiers);
}

#[test]
fn depressed_modifiers_exclude_latched_and_locked() {
    assert_eq!(depressed_modifiers(0x1FF, 0, 0), 0xFF);
    assert_eq!(depressed_modifiers(0b0000_0111, 0b010, 0b100), 0b001);
}

#[test]
fn composition_steps() {
    let done = compose_step(ComposeStatus::Composed, Some("é".to_string()), Some("eacute".to_string()), None, Some("´".to_string()));
    assert_eq!(done.key_char, Some(Some("é".to_string())));
    assert_eq!(done.key_name, Some("eacute".to_string()));
    assert_eq!(done.pre_edit, None);
    let going = compose_step(ComposeStatus::Composing, None, None, Some("´".to_string()), None);
    assert_eq!(going.key_char, Some(None));
    assert_eq!(going.pre_edit, Some("´".to_string()));
    assert_eq!(going.show_pre_edit, Some("´".to_string()));
    let cancelled = compose_step(ComposeStatus::Cancelled, None, None, Some("`".to_string()), Some("´".to_string()));
    assert_eq!(cancelled.commit, Some("´".to_string()));
    assert_eq!(cancelled.show_pre_edit, Some("`".to_string()));
    assert!(cancelled.feed_again);
    let nothing = compose_step(ComposeStatus::Nothing, None, None, None, Some("x".to_string()));
    assert_eq!(nothing.pre_edit, Some("x".to_string()));
    assert_eq!(nothing.commit, None);
}

#[test]
fn press_ends_composition() {
    assert!(matches!(press_composition(true, true, Some("a".to_string())), PressComposition::ResetInputMethod));
    match press_composition(true, false, Some("a".to_string())) {
        PressComposition::Commit(t) => assert_eq!(t, "a"),
        _ => panic!("expected a commit"),
    }
    assert!(matches!(press_composition(false, false, None), PressComposition::Nothing));
    assert!(motion_moves_pointer(0b10));
    assert!(!motion_moves_pointer(0b100));
    assert!(blocked_cursor_reset(true, false, true));
    assert!(!blocked_cursor_reset(true, true, true));
}

#[test]
fn wm_states_from_property() {
    let atoms = WmStateAtoms { focused: 1, fullscreen: 2, maximized_vert: 3, maximized_horz: 4, hidden: 5 };
    let s = wm_states_from_atoms(&[9, 2, 4], &atoms);
    assert!(!s.active && s.fullscreen && !s.maximized_vertical && s.maximized_horizontal && !s.hidden);
    let clash = WmStateAtoms { focused: 1, fullscreen: 1, maximized_vert: 3, maximized_horz: 4, hidden: 5 };
    let s = wm_states_from_atoms(&[1], &clash);
    assert!(s.active && !s.fullscreen);
}

#[test]
fn refresh_loop_follows_visibility() {
    let mut state = None;
    assert_eq!(refresh_step(&mut state, false, false), RefreshAction::Nothing);
    assert_eq!(refresh_step(&mut state, true, false), RefreshAction::QueryModeThenStart);
    timer_started(&mut state, 16666, 42);
    assert_eq!(refresh_step(&mut state, true, false), RefreshAction::Nothing);
    assert_eq!(refresh_step(&mut state, true, true), RefreshAction::StopTimer { token: 42 });
    assert_eq!(state, Some(RefreshState::Hidden { rate_micros: 16666 }));
    assert_eq!(refresh_step(&mut state, true, false), RefreshAction::StartTimer { rate_micros: 16666 });
}

#[test]
fn deadlines_skip_missed_frames() {
    assert_eq!(next_deadline(100, 50, 10), 100);
    assert_eq!(next_deadline(100, 100, 10), 100);
    assert_eq!(next_deadline(100, 101, 10), 110);
    assert_eq!(next_deadline(100, 135, 10), 140);
    assert_eq!(next_deadline(100, 140, 10), 140);
}

#[test]
fn frame_flags_are_taken_once() {
    let mut flags = FrameFlags { expose_event_received: true, force_render_after_recovery: false };
    let r = take_frame_request(&mut flags);
    assert!(r.require_presentation && !r.force_render);
    let r = take_frame_request(&mut flags);
    assert!(!r.require_presentation);
}

#[test]
fn scale_factor_sources() {
    assert_eq!(scale_source(ScaleRequest::Scale, true, true), ScaleSource::Environment);
    assert_eq!(scale_source(ScaleRequest::Randr, true, false), ScaleSource::Default);
    assert_eq!(scale_source(ScaleRequest::NotSet, true, true), ScaleSource::XftDpi);
    assert_eq!(scale_source(ScaleRequest::NotSet, false, true), ScaleSource::Randr);
    assert!(randr_needs_legacy_path(1, 4));
    assert!(!randr_needs_legacy_path(1, 5));
    assert!(randr_needs_legacy_path(0, 9));
}

#[test]
fn monitor_choice_prefers_primary() {
    let m = |w, h, primary| MonitorInfo { width_mm: w, height_mm: h, primary };
    assert_eq!(scale_monitor(&[m(0, 0, true), m(300, 200, false), m(500, 300, true)]), Some(2));
    assert_eq!(scale_monitor(&[m(0, 10, true), m(300, 200, false)]), Some(1));
    assert_eq!(scale_monitor(&[m(0, 10, true)]), None);
    let out = OutputInfo { connected: true, width_mm: 300, height_mm: 200, crtc: 5 };
    assert!(primary_output_measurable(out));
    assert!(!primary_output_measurable(OutputInfo { crtc: 0, ..out }));
    assert!(fallback_output_usable(out, 3, 4));
    assert!(!fallback_output_usable(out, 4, 4));
    assert!(crtc_in_use(1920, 1080, 1));
    assert!(!crtc_in_use(1920, 0, 1));
}

#[test]
fn compositor_detection() {
    assert_eq!(compositor_selection_name(412), "_NET_WM_CM_S412");
    assert!(compositor_present(Some(true), Some(false), Some(false)));
    assert!(compositor_present(None, Some(false), Some(true)));
    assert!(!compositor_present(Some(true), None, Some(true)));
    assert!(!compositor_present(Some(true), Some(true), None));
    assert!(!compositor_present(Some(false), Some(false), Some(false)));
}

#[test]
fn property_values_in_machine_order() {
    let bytes = 7u32.to_ne_bytes().iter().chain(9u32.to_ne_bytes().iter()).copied().chain([1u8]).collect::<Vec<u8>>();
    assert_eq!(property_values32(&bytes), vec![7, 9]);
    assert!(frame_extents_supported(&[1, 2, 3], 3));
    assert!(!frame_extents_supported(&[1, 2], 3));
    assert_eq!(edge_constraints_value(&0x55u32.to_ne_bytes()), Some(0x55));
    assert_eq!(edge_constraints_value(&[]), None);
}

#[test]
fn window_manager_messages() {
    assert_eq!(wm_state_toggle_data(5, 6), [2, 5, 6, 1, 0]);
    assert_eq!(minimize_data(), [3, 0, 0, 0, 0]);
    assert_eq!(activate_data(), [1, 0, 0, 0, 0]);
    assert_eq!(moveresize_data(-1, 20, 8), [0xFFFF_FFFF, 20, 8, 0, 0]);
    assert_eq!(window_menu_data(3, -2), [1, 3, 0xFFFF_FFFE, 0, 0]);
    assert_eq!(wm_class_data("zed"), b"zed\0zed".to_vec());
}

#[test]
fn children_block_their_parent() {
    let mut c = ChildWindows::new();
    assert!(!c.is_blocked());
    c.add_child(7);
    c.add_child(7);
    assert!(c.is_blocked());
    c.remove_child(7);
    assert!(!c.is_blocked());
    assert!(key_types_text(false, None, true, true, true));
    assert!(!key_types_text(false, Some(false), true, true, true));
    assert!(!key_types_text(true, Some(true), true, true, true));
    assert!(!key_types_text(false, Some(true), false, true, true));
    assert!(ime_reaches_input(false, true));
    assert!(!ime_reaches_input(true, true));
    assert!(should_close(None));
    assert!(!should_close(Some(false)));
}

#[test]
fn new_window_setup() {
    assert_eq!(window_screen_index(Some(2), 0), 2);
    assert_eq!(window_screen_index(None, 1), 1);
    assert_eq!(initial_window_size(0, 300), (800, 600));
    assert_eq!(initial_window_size(640, 480), (640, 480));
    assert_eq!(nudged_origin(0, 0, 10, 20), Some((12, 20)));
    assert_eq!(nudged_origin(14, 49, 10, 20), None);
    assert_eq!(max_size_hint(16384), (16384, 16384));
    let dialog = window_role(WindowKind::Dialog, Some(9));
    assert_eq!(dialog.transient_for, Some(9));
    assert_eq!(dialog.blocks_parent, Some(9));
    assert!(dialog.modal_dialog);
    let popup = window_role(WindowKind::PopUp, Some(9));
    assert_eq!(popup.override_redirect, 1);
    assert!(popup.notification_type);
    assert_eq!(popup.transient_for, None);
    let floating = window_role(WindowKind::Floating, None);
    assert_eq!(floating.transient_for, None);
    assert_eq!(floating.blocks_parent, None);
    assert_eq!(window_role(WindowKind::Normal, Some(1)).transient_for, None);
}

#[test]
fn icon_pixels_become_argb() {
    let icon = icon_property(2, 1, &[0x11, 0x22, 0x33, 0x44, 0xFF, 0x00, 0x00, 0x80]);
    assert_eq!(icon, vec![2, 1, 0x4411_2233, 0x80FF_0000]);
}

#[test]
fn cursor_takes_first_successful_load() {
    assert_eq!(first_loaded_cursor(&[None, Some(0), Some(42), Some(7)]), Some(42));
    assert_eq!(first_loaded_cursor(&[None, Some(0)]), None);
    assert_eq!(first_loaded_cursor(&[]), None);
}

#[test]
fn delete_window_closes_only_when_window_agrees() {
    let delete = 10;
    let sync = 20;
    assert_eq!(wm_message_step(false, [delete, 0, 0, 0, 0], delete, sync), WmMessageStep::Ignore);
    assert_eq!(wm_message_step(true, [delete, 0, 0, 0, 0], delete, sync), WmMessageStep::AskToClose);
    assert_eq!(
        wm_message_step(true, [sync, 0, 5, 0xffff_ffff, 0], delete, sync),
        WmMessageStep::RecordSync(SyncValue { lo: 5, hi: -1 })
    );
    assert_eq!(wm_message_step(true, [3, 0, 0, 0, 0], delete, sync), WmMessageStep::Other);
    assert_eq!(close_answer_step(true, [delete, 0, 0, 0, 0], sync), CloseAnswerStep::Close);
    assert_eq!(close_answer_step(false, [delete, 0, 0, 0, 0], sync), CloseAnswerStep::Stay);
}

#[test]
fn x11_presses_count_clicks() {
    let mut clicks = ClickState::new();
    let b = Some(ButtonOrScroll::Button(1));
    assert_eq!(
        button_press_step(&mut clicks, b, true, true, false),
        PressAction::MouseDown { button: 1, click_count: 1 }
    );
    assert_eq!(
        button_press_step(&mut clicks, b, true, true, false),
        PressAction::MouseDown { button: 1, click_count: 2 }
    );
    assert_eq!(button_release_step(&clicks, b), Some((1, 2)));
    assert_eq!(
        button_press_step(&mut clicks, b, false, true, false),
        PressAction::MouseDown { button: 1, click_count: 1 }
    );
    let up = Some(ButtonOrScroll::Scroll(ScrollDirection::Up));
    assert_eq!(button_press_step(&mut clicks, up, true, true, true), PressAction::Nothing);
    assert_eq!(
        button_press_step(&mut clicks, up, true, true, false),
        PressAction::ScrollLines(ScrollDirection::Up)
    );
    assert_eq!(button_press_step(&mut clicks, None, true, true, false), PressAction::Nothing);
    assert_eq!(button_release_step(&clicks, up), None);
    assert_eq!(clicks.current_count(), 1);
}

#[test]
fn failed_window_setup_reports_destroy_failure_first() {
    let ok: Result<u32, String> = Ok(5);
    assert_eq!(window_setup_result(ok, None), Ok(5));
    let failed: Result<u32, String> = Err("setup".to_string());
    assert_eq!(window_setup_result(failed.clone(), Some(Ok(()))), Err("setup".to_string()));
    assert_eq!(window_setup_result(failed, Some(Err("destroy".to_string()))), Err("destroy".to_string()));
}
