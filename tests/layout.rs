use xwlm::app::{
    App, Key, KeyOutcome, MonitorAction, Panel, PositionDirection, StepPolicy, WorkspaceAssignment,
};
use xwlm::assign::{cycle_assignment, enabled_monitor_indices};
use xwlm::compositor::Compositor;
use xwlm::geometry::{effective_dimensions, monitor_resolution, Output, OutputMode, Transform};

fn output(name: &str, x: i32, y: i32, w: i32, h: i32, enabled: bool) -> Output {
    Output {
        name: name.to_string(),
        description: String::new(),
        make: String::new(),
        model: String::new(),
        modes: vec![OutputMode { width: w, height: h, refresh_rate: 60, preferred: true, is_current: true }],
        width: w,
        height: h,
        x,
        y,
        scale: 100,
        transform: Transform::Normal,
        enabled,
    }
}

fn app_with(outputs: Vec<Output>) -> App {
    let mut app = App::new(Compositor::Hyprland, "/tmp/monitors.conf".to_string(), 3, "", StepPolicy::Accelerating);
    app.set_monitors(outputs);
    app
}

#[test]
fn move_never_goes_negative() {
    let mut app = app_with(vec![output("A", 0, 0, 100, 100, true)]);
    app.move_monitor(PositionDirection::Left, 1000);
    assert_eq!(app.display_position(0), (0, 0));
    app.move_monitor(PositionDirection::Up, 5000);
    assert_eq!(app.display_position(0), (0, 0));
    for (_, p) in app.pending_positions.iter() {
        assert!(p.0 >= 0 && p.1 >= 0);
    }
}

#[test]
fn move_accelerates_on_repeat() {
    let mut app = app_with(vec![output("A", 0, 0, 100, 100, true)]);
    app.move_monitor(PositionDirection::Right, 1000);
    assert_eq!(app.display_position(0), (1, 0));
    app.move_monitor(PositionDirection::Right, 1100);
    assert_eq!(app.display_position(0), (4, 0));
    app.move_monitor(PositionDirection::Right, 1200);
    assert_eq!(app.display_position(0), (9, 0));
    app.move_monitor(PositionDirection::Right, 5000);
    assert_eq!(app.display_position(0), (10, 0));
    app.move_monitor(PositionDirection::Down, 5050);
    assert_eq!(app.display_position(0), (10, 1));
}

#[test]
fn move_proportional_to_gap() {
    let mut app = app_with(vec![output("A", 0, 0, 100, 100, true), output("B", 200, 0, 100, 100, true)]);
    app.step_policy = StepPolicy::Proportional;
    app.move_monitor(PositionDirection::Right, 0);
    assert_eq!(app.display_position(0), (10, 0));
    app.move_monitor(PositionDirection::Down, 0);
    assert_eq!(app.display_position(0), (10, 50));
    let mut near = app_with(vec![output("A", 0, 0, 100, 100, true), output("B", 105, 0, 100, 100, true)]);
    near.step_policy = StepPolicy::Proportional;
    near.move_monitor(PositionDirection::Right, 0);
    assert_eq!(near.display_position(0), (1, 0));
}

#[test]
fn move_into_neighbour_swaps() {
    let mut app = app_with(vec![output("A", 0, 0, 100, 100, true), output("B", 100, 0, 50, 50, true)]);
    app.move_monitor(PositionDirection::Right, 0);
    assert_eq!(app.display_position(0), (50, 0));
    assert_eq!(app.display_position(1), (0, 0));
    assert!(app.has_pending_positions());
    app.reset_positions();
    assert!(!app.has_pending_positions());
    assert_eq!(app.display_position(0), (0, 0));
}

#[test]
fn move_left_into_neighbour_swaps() {
    let mut app = app_with(vec![output("A", 100, 0, 100, 100, true), output("B", 0, 0, 100, 100, true)]);
    app.move_monitor(PositionDirection::Left, 0);
    assert_eq!(app.display_position(0), (0, 0));
    assert_eq!(app.display_position(1), (100, 0));
}

#[test]
fn move_skips_disabled_selection() {
    let mut app = app_with(vec![output("A", 0, 0, 100, 100, false)]);
    app.move_monitor(PositionDirection::Right, 0);
    assert!(!app.has_pending_positions());
}

#[test]
fn commit_positions_sends_requests() {
    let mut app = app_with(vec![output("A", 0, 0, 100, 100, true)]);
    app.move_monitor(PositionDirection::Right, 0);
    assert_eq!(app.apply_action(), None);
    assert!(!app.has_pending_positions());
    assert!(app.needs_save);
    assert_eq!(app.actions.len(), 1);
    match &app.actions[0] {
        MonitorAction::SetPosition { name, x, y } => {
            assert_eq!(name, "A");
            assert_eq!((*x, *y), (1, 0));
        }
        _ => panic!("expected a position request"),
    }
}

#[test]
fn cycle_forward_returns_to_unassigned() {
    let mut app = app_with(vec![
        output("A", 0, 0, 100, 100, true),
        output("B", 100, 0, 100, 100, false),
        output("C", 200, 0, 100, 100, true),
    ]);
    app.panel = Panel::Workspaces;
    let mut seen = Vec::new();
    for _ in 0..3 {
        app.nav_right(0);
        seen.push(app.workspace_assignments[0].monitor_idx);
    }
    assert_eq!(seen, vec![Some(0), Some(2), None]);
}

#[test]
fn cycle_backward_from_unassigned_lands_on_last() {
    let mut app = app_with(vec![output("A", 0, 0, 100, 100, true), output("C", 200, 0, 100, 100, true)]);
    app.panel = Panel::Workspaces;
    app.nav_left(0);
    assert_eq!(app.workspace_assignments[0].monitor_idx, Some(1));
    app.nav_left(0);
    assert_eq!(app.workspace_assignments[0].monitor_idx, Some(0));
    app.nav_left(0);
    assert_eq!(app.workspace_assignments[0].monitor_idx, None);
}

#[test]
fn cycle_saves_right_away() {
    let mut app = app_with(vec![output("A", 0, 0, 1920, 1080, true)]);
    app.panel = Panel::Workspaces;
    let text = app.apply_action().expect("text to write");
    assert_eq!(text, "monitor = A, 1920x1080@60, 0,0, 1\n\nworkspace = 1, monitor:A\n");
    assert!(!app.needs_save);
}

#[test]
fn cycle_helpers_on_indices() {
    let outs = vec![output("A", 0, 0, 1, 1, false), output("B", 0, 0, 1, 1, true), output("C", 0, 0, 1, 1, true)];
    let en = enabled_monitor_indices(&outs);
    assert_eq!(en, vec![1, 2]);
    assert_eq!(cycle_assignment(&en, None, true), Some(1));
    assert_eq!(cycle_assignment(&en, Some(1), true), Some(2));
    assert_eq!(cycle_assignment(&en, Some(2), true), None);
    assert_eq!(cycle_assignment(&en, None, false), Some(2));
    assert_eq!(cycle_assignment(&en, Some(1), false), None);
    assert_eq!(cycle_assignment(&en, Some(0), true), None);
}

#[test]
fn scale_stays_in_range() {
    let mut app = app_with(vec![output("A", 0, 0, 100, 100, true)]);
    app.pending_scale = 998;
    for _ in 0..5 {
        app.scale_up();
    }
    assert_eq!(app.pending_scale, 1000);
    app.pending_scale = 52;
    for _ in 0..5 {
        app.scale_down();
    }
    assert_eq!(app.pending_scale, 50);
    app.pending_scale = 2000;
    app.scale_down();
    assert_eq!(app.pending_scale, 1000);
}

#[test]
fn remove_enabled_is_noop() {
    let mut app = app_with(vec![output("A", 0, 0, 100, 100, true), output("B", 100, 0, 100, 100, false)]);
    app.workspace_assignments[0] = WorkspaceAssignment { id: 1, monitor_idx: Some(0) };
    app.remove_monitor("A");
    assert_eq!(app.monitors.len(), 2);
    assert_eq!(app.workspace_assignments[0].monitor_idx, Some(0));
}

#[test]
fn remove_disabled_clears_assignment() {
    let mut app = app_with(vec![
        output("A", 0, 0, 100, 100, false),
        output("B", 100, 0, 100, 100, true),
    ]);
    app.workspace_assignments[0] = WorkspaceAssignment { id: 1, monitor_idx: Some(0) };
    app.workspace_assignments[1] = WorkspaceAssignment { id: 2, monitor_idx: Some(1) };
    app.remove_monitor("A");
    assert_eq!(app.monitors.len(), 1);
    assert_eq!(app.monitors[0].name, "B");
    assert_eq!(app.workspace_assignments[0].monitor_idx, None);
    assert_eq!(app.workspace_assignments[1].monitor_idx, Some(0));
}

#[test]
fn update_replaces_or_appends() {
    let mut app = app_with(vec![output("A", 0, 0, 100, 100, true)]);
    app.update_monitor(output("A", 5, 6, 100, 100, true));
    assert_eq!(app.monitors.len(), 1);
    assert_eq!((app.monitors[0].x, app.monitors[0].y), (5, 6));
    app.update_monitor(output("B", 0, 0, 100, 100, true));
    assert_eq!(app.monitors.len(), 2);
}

#[test]
fn snapshot_applies_saved_workspaces() {
    let mut app = App::new(
        Compositor::Hyprland,
        "/tmp/m.conf".to_string(),
        3,
        "workspace = 2, monitor:B\nworkspace = 3, monitor:Z\n",
        StepPolicy::Proportional,
    );
    assert_eq!(app.step_policy, StepPolicy::Proportional);
    app.workspace_assignments[2].monitor_idx = Some(7);
    app.set_monitors(vec![output("A", 0, 0, 10, 10, true), output("B", 10, 0, 10, 10, true)]);
    assert_eq!(app.workspace_assignments[0].monitor_idx, None);
    assert_eq!(app.workspace_assignments[1].monitor_idx, Some(1));
    assert_eq!(app.workspace_assignments[2].monitor_idx, None);
}

#[test]
fn reenable_overlapping_goes_to_closest_probe() {
    let mut app = app_with(vec![output("A", 0, 0, 1920, 1080, true), output("B", 0, 0, 1920, 1080, false)]);
    app.select_next_monitor();
    assert_eq!(app.selected_monitor, 1);
    app.toggle_monitor("monitor = B, 1920x1080@60, 100,0, 1\n");
    match &app.actions[0] {
        MonitorAction::Toggle { name, position } => {
            assert_eq!(name, "B");
            assert_eq!(*position, Some((0, -1080)));
        }
        _ => panic!("expected a toggle request"),
    }
}

#[test]
fn reenable_closest_probe_right() {
    let mut app = app_with(vec![output("A", 0, 0, 1920, 1080, true), output("B", 0, 0, 1000, 1000, false)]);
    app.select_next_monitor();
    app.toggle_monitor("monitor = B, 1000x1000@60, 1800x50, 1\n");
    match &app.actions[0] {
        MonitorAction::Toggle { position, .. } => assert_eq!(*position, Some((1920, 0))),
        _ => panic!("expected a toggle request"),
    }
}

#[test]
fn reenable_free_saved_position_kept() {
    let mut app = app_with(vec![output("A", 0, 0, 1920, 1080, true), output("B", 0, 0, 1000, 1000, false)]);
    app.select_next_monitor();
    app.toggle_monitor("monitor = B, 1000x1000@60, 3000,0, 1\n");
    match &app.actions[0] {
        MonitorAction::Toggle { position, .. } => assert_eq!(*position, Some((3000, 0))),
        _ => panic!("expected a toggle request"),
    }
}

#[test]
fn reenable_without_saved_goes_right() {
    let mut app = app_with(vec![output("A", 10, 0, 1920, 1080, true), output("B", 0, 0, 1000, 1000, false)]);
    app.select_next_monitor();
    app.toggle_monitor("");
    match &app.actions[0] {
        MonitorAction::Toggle { position, .. } => assert_eq!(*position, Some((1930, 0))),
        _ => panic!("expected a toggle request"),
    }
    assert!(app.needs_save);
}

#[test]
fn last_output_warns_first() {
    let mut app = app_with(vec![output("A", 0, 0, 100, 100, true)]);
    app.toggle_monitor("");
    assert!(app.pending_toggle_warning);
    assert!(app.actions.is_empty());
    app.toggle_monitor("");
    assert!(!app.pending_toggle_warning);
    match &app.actions[0] {
        MonitorAction::Toggle { name, position } => {
            assert_eq!(name, "A");
            assert_eq!(*position, None);
        }
        _ => panic!("expected a toggle request"),
    }
}

#[test]
fn panel_cycle_and_cursors() {
    let mut app = app_with(vec![output("A", 0, 0, 100, 100, true)]);
    assert_eq!(app.panel, Panel::Layout);
    app.toggle_panel();
    assert_eq!(app.panel, Panel::Modes);
    app.toggle_panel();
    assert_eq!(app.panel, Panel::Workspaces);
    app.next(0);
    assert_eq!(app.workspace_selected, Some(1));
    app.previous(0);
    app.previous(0);
    assert_eq!(app.workspace_selected, Some(2));
    app.toggle_panel();
    assert_eq!(app.panel, Panel::Scale);
    app.next(0);
    assert_eq!(app.pending_scale, 101);
    app.toggle_panel();
    assert_eq!(app.panel, Panel::Transform);
    app.previous(0);
    assert_eq!(app.transform_selected, Some(7));
    app.apply_action();
    match &app.actions[0] {
        MonitorAction::SetTransform { transform, .. } => assert_eq!(*transform, Transform::Flipped270),
        _ => panic!("expected a transform request"),
    }
    app.toggle_panel();
    assert_eq!(app.panel, Panel::Layout);
}

#[test]
fn selecting_resyncs_panels() {
    let mut b = output("B", 100, 0, 100, 100, true);
    b.scale = 150;
    b.transform = Transform::Rotate180;
    b.modes.push(OutputMode { width: 50, height: 50, refresh_rate: 30, preferred: false, is_current: false });
    b.modes[0].is_current = false;
    b.modes[1].is_current = true;
    let mut app = app_with(vec![output("A", 0, 0, 100, 100, true), b]);
    assert_eq!(app.pending_scale, 100);
    app.select_next_monitor();
    assert_eq!(app.pending_scale, 150);
    assert_eq!(app.transform_selected, Some(2));
    assert_eq!(app.mode_selected, Some(0));
    app.select_next_monitor();
    assert_eq!(app.selected_monitor, 0);
    app.select_prev_monitor();
    assert_eq!(app.selected_monitor, 1);
    app.panel = Panel::Modes;
    app.next(0);
    assert_eq!(app.mode_selected, Some(1));
    app.next(0);
    assert_eq!(app.mode_selected, Some(0));
    app.previous(0);
    app.apply_action();
    match &app.actions[0] {
        MonitorAction::SwitchMode { name, width, height, refresh_rate } => {
            assert_eq!(name, "B");
            assert_eq!((*width, *height, *refresh_rate), (50, 50, 30));
        }
        _ => panic!("expected a mode request"),
    }
}

#[test]
fn dimensions_follow_transform() {
    let mut o = output("A", 0, 0, 1920, 1080, true);
    assert_eq!(effective_dimensions(&o), (1920, 1080));
    o.transform = Transform::Rotate90;
    assert_eq!(effective_dimensions(&o), (1080, 1920));
    o.transform = Transform::Flipped270;
    assert_eq!(effective_dimensions(&o), (1080, 1920));
    o.transform = Transform::Flipped180;
    assert_eq!(effective_dimensions(&o), (1920, 1080));
    o.modes.clear();
    o.width = 800;
    o.height = 600;
    assert_eq!(monitor_resolution(&o), (800, 600));
}

#[test]
fn resolution_prefers_current_then_preferred() {
    let mut o = output("A", 0, 0, 1, 1, true);
    o.modes = vec![
        OutputMode { width: 640, height: 480, refresh_rate: 60, preferred: false, is_current: false },
        OutputMode { width: 1280, height: 720, refresh_rate: 60, preferred: true, is_current: false },
    ];
    assert_eq!(monitor_resolution(&o), (1280, 720));
    o.modes[1].preferred = false;
    assert_eq!(monitor_resolution(&o), (640, 480));
}

#[test]
fn zoom_is_bounded() {
    let mut app = app_with(vec![]);
    for _ in 0..100 {
        app.zoom_in();
    }
    assert_eq!(app.map_zoom, 50);
    for _ in 0..100 {
        app.zoom_out();
    }
    assert_eq!(app.map_zoom, 2);
}

#[test]
fn update_resyncs_current_mode() {
    let mut app = app_with(vec![output("A", 0, 0, 100, 100, true)]);
    let mut a = output("A", 0, 0, 100, 100, true);
    a.modes.insert(0, OutputMode { width: 10, height: 10, refresh_rate: 30, preferred: false, is_current: false });
    a.scale = 200;
    app.update_monitor(a);
    assert_eq!(app.mode_selected, Some(1));
    assert_eq!(app.pending_scale, 200);
}

#[test]
fn failed_action_drops_pending_save() {
    let mut app = app_with(vec![output("A", 0, 0, 100, 100, true)]);
    app.panel = Panel::Scale;
    app.apply_action();
    assert!(app.needs_save);
    app.action_failed();
    assert!(!app.needs_save);
    assert_eq!(app.save_config(), None);
}

#[test]
fn save_config_when_due() {
    let mut app = app_with(vec![output("A", 0, 0, 1920, 1080, true)]);
    assert_eq!(app.save_config(), None);
    app.needs_save = true;
    assert_eq!(app.save_config(), Some("monitor = A, 1920x1080@60, 0,0, 1\n".to_string()));
    assert!(!app.needs_save);
    let mut unknown = App::new(Compositor::Unknown, "/tmp/x".to_string(), 1, "", StepPolicy::Accelerating);
    unknown.needs_save = true;
    assert_eq!(unknown.save_config(), None);
    assert!(!unknown.needs_save);
    let mut nowhere = App::new(Compositor::Sway, String::new(), 1, "", StepPolicy::Accelerating);
    nowhere.needs_save = true;
    assert_eq!(nowhere.save_config(), None);
    assert!(nowhere.needs_save);
}

#[test]
fn move_left_lands_before_obstruction() {
    let mut app = app_with(vec![output("A", 300, 0, 120, 100, true), output("B", 200, 0, 100, 100, true)]);
    app.move_monitor(PositionDirection::Left, 0);
    assert_eq!(app.display_position(0), (80, 0));
    assert_eq!(app.display_position(1), (300, 0));
}

#[test]
fn move_up_lands_above_obstruction() {
    let mut app = app_with(vec![output("A", 0, 300, 100, 120, true), output("B", 0, 200, 100, 100, true)]);
    app.move_monitor(PositionDirection::Up, 0);
    assert_eq!(app.display_position(0), (0, 80));
    assert_eq!(app.display_position(1), (0, 300));
}

#[test]
fn move_down_swaps_past_obstruction() {
    let mut app = app_with(vec![output("A", 0, 0, 100, 100, true), output("B", 0, 100, 100, 40, true)]);
    app.move_monitor(PositionDirection::Down, 0);
    assert_eq!(app.display_position(0), (0, 40));
    assert_eq!(app.display_position(1), (0, 0));
}

#[test]
fn previous_after_next_restores_cursor() {
    let mut app = app_with(vec![output("A", 0, 0, 100, 100, true)]);
    app.panel = Panel::Transform;
    app.transform_selected = Some(7);
    app.next(0);
    assert_eq!(app.transform_selected, Some(0));
    app.previous(0);
    assert_eq!(app.transform_selected, Some(7));
    assert_eq!(app.panel, Panel::Transform);
    assert!(!app.needs_save);
}

#[test]
fn key_dispatch() {
    let mut app = app_with(vec![output("A", 0, 0, 100, 100, true)]);
    assert!(matches!(app.handle_key(Key::Right, 0, ""), KeyOutcome::Continue(None)));
    assert_eq!(app.display_position(0), (1, 0));
    assert!(matches!(app.handle_key(Key::Plus, 0, ""), KeyOutcome::Continue(None)));
    assert_eq!(app.map_zoom, 11);
    app.handle_key(Key::NextPanel, 0, "");
    assert_eq!(app.panel, Panel::Modes);
    app.handle_key(Key::Minus, 0, "");
    assert_eq!(app.pending_scale, 99);
    app.handle_key(Key::Toggle, 0, "");
    assert!(app.pending_toggle_warning);
    app.handle_key(Key::Quit, 0, "");
    assert!(!app.pending_toggle_warning);
    assert!(app.actions.is_empty());
    assert!(matches!(app.handle_key(Key::Quit, 0, ""), KeyOutcome::Quit));
}

#[test]
fn removal_after_failure_keeps_save_dropped() {
    let mut app = app_with(vec![output("A", 0, 0, 100, 100, true), output("B", 100, 0, 100, 100, false)]);
    app.panel = Panel::Scale;
    app.apply_action();
    app.action_failed();
    app.remove_monitor("B");
    assert_eq!(app.monitors.len(), 1);
    assert!(!app.needs_save);
    assert_eq!(app.panel, Panel::Scale);
    assert_eq!(app.save_config(), None);
}
