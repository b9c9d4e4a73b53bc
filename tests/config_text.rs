use xwlm::app::StepPolicy;
use xwlm::compositor::{detect_from, Compositor};
use xwlm::config::{
    default_config_path, default_workspace_count, expand_tilde, main_config_path, resolve_path, AppConfig,
};
use xwlm::extract::{default_output_filename, extract_monitors};
use xwlm::format::{
    format_hyprland, format_river, format_scale, format_sway, render_monitor_config,
    transform_to_hyprland, transform_to_sway,
};
use xwlm::geometry::{transform_label, Output, OutputMode, Transform};
use xwlm::monitor::Monitor;
use xwlm::saved::saved_monitor_position;
use xwlm::workspace::{parse_hyprland_workspaces, parse_sway_workspaces, parse_workspace_config};

fn output_a(enabled: bool) -> Output {
    Output {
        name: "A".to_string(),
        description: String::new(),
        make: String::new(),
        model: String::new(),
        modes: vec![OutputMode { width: 1920, height: 1080, refresh_rate: 60, preferred: true, is_current: true }],
        width: 1920,
        height: 1080,
        x: 0,
        y: 0,
        scale: 100,
        transform: Transform::Normal,
        enabled,
    }
}

#[test]
fn hyprland_single_monitor() {
    let text = format_hyprland(&vec![output_a(true)], &vec![]);
    assert_eq!(text, "monitor = A, 1920x1080@60, 0,0, 1\n");
    assert_eq!(text.lines().next(), Some("monitor = A, 1920x1080@60, 0,0, 1"));
}

#[test]
fn hyprland_disabled_monitor() {
    let text = format_hyprland(&vec![output_a(false)], &vec![]);
    assert_eq!(text, "monitor = A, 1920x1080@60, 0,0, 1\nmonitor = A, disable\n");
}

#[test]
fn hyprland_transform_scale_and_workspaces() {
    let mut a = output_a(true);
    a.transform = Transform::Rotate270;
    a.scale = 125;
    a.x = -1920;
    a.y = 40;
    let ws = vec![(1, Some("A".to_string())), (2, None), (10, Some("A".to_string()))];
    let text = format_hyprland(&vec![a], &ws);
    assert_eq!(
        text,
        "monitor = A, 1920x1080@60, -1920,40, 1.25, transform, 3\n\nworkspace = 1, monitor:A\nworkspace = 10, monitor:A\n"
    );
}

#[test]
fn hyprland_without_current_mode() {
    let mut a = output_a(true);
    a.modes[0].is_current = false;
    assert_eq!(format_hyprland(&vec![a], &vec![(1, None)]), "monitor = A, 0x0@60, 0,0, 1\n");
}

#[test]
fn sway_blocks() {
    let mut b = output_a(true);
    b.name = "B".to_string();
    b.transform = Transform::Flipped90;
    b.scale = 150;
    let text = format_sway(&vec![output_a(false), b], &vec![(3, Some("B".to_string()))]);
    assert_eq!(
        text,
        "output A disable\n\noutput B {\n    mode 1920x1080@60Hz\n    pos 0 0\n    scale 1.50\n    transform flipped-90\n}\n\nworkspace 3 output B\n\n"
    );
}

#[test]
fn river_script() {
    let mut b = output_a(true);
    b.name = "B".to_string();
    b.x = 1920;
    let text = format_river(&vec![output_a(false), b]);
    assert_eq!(
        text,
        "#!/bin/sh\nwlr-randr --output A --off\nwlr-randr --output B --mode 1920x1080@60Hz --pos 1920,0 --scale 1 --transform normal\n"
    );
}

#[test]
fn unknown_compositor_writes_nothing() {
    assert_eq!(render_monitor_config(Compositor::Unknown, &vec![output_a(true)], &vec![]), None);
    assert_eq!(
        render_monitor_config(Compositor::Hyprland, &vec![output_a(true)], &vec![]),
        Some("monitor = A, 1920x1080@60, 0,0, 1\n".to_string())
    );
}

#[test]
fn scale_text() {
    assert_eq!(format_scale(100), "1");
    assert_eq!(format_scale(200), "2");
    assert_eq!(format_scale(150), "1.50");
    assert_eq!(format_scale(105), "1.05");
    assert_eq!(format_scale(50), "0.50");
    assert_eq!(format_scale(1000), "10");
}

#[test]
fn transform_names() {
    assert_eq!(transform_to_hyprland(Transform::Normal), 0);
    assert_eq!(transform_to_hyprland(Transform::Flipped), 4);
    assert_eq!(transform_to_hyprland(Transform::Flipped270), 7);
    assert_eq!(transform_to_sway(Transform::Rotate90), "90");
    assert_eq!(transform_to_sway(Transform::Flipped180), "flipped-180");
    assert_eq!(transform_label(Transform::Rotate180), "Rotate 180");
    assert_eq!(Compositor::Sway.label(), "Sway");
}

#[test]
fn hyprland_workspace_line() {
    assert_eq!(parse_hyprland_workspaces("workspace = 3, monitor:DP-1"), vec![(3, "DP-1".to_string())]);
    assert_eq!(parse_hyprland_workspaces("workspace = 3, DP-1"), vec![]);
}

#[test]
fn hyprland_workspace_lines_tolerant() {
    let text = "# comment\n  workspace=+7 ,  monitor: HDMI-A-1  \r\nworkspace = x, monitor:DP-2\nworkspace = 4\nworkspace = 5, monitor:DP-3";
    assert_eq!(
        parse_hyprland_workspaces(text),
        vec![(7, "HDMI-A-1".to_string()), (5, "DP-3".to_string())]
    );
}

#[test]
fn sway_workspace_lines() {
    let text = "workspace 2 output DP-1\nworkspace two output X\nworkspace 9 DP-2\n\tworkspace 4   output   eDP-1\n";
    assert_eq!(parse_sway_workspaces(text), vec![(2, "DP-1".to_string()), (4, "eDP-1".to_string())]);
    assert_eq!(parse_workspace_config(Compositor::River, text), vec![]);
    assert_eq!(parse_workspace_config(Compositor::Sway, text).len(), 2);
}

#[test]
fn saved_positions() {
    let hypr = "monitor = A, 1920x1080@60, 10,20, 1\nmonitor = B, 1920x1080@60, 30x-40, 1\n";
    assert_eq!(saved_monitor_position(Compositor::Hyprland, hypr, &"A".to_string()), Some((10, 20)));
    assert_eq!(saved_monitor_position(Compositor::Hyprland, hypr, &"B".to_string()), Some((30, -40)));
    assert_eq!(saved_monitor_position(Compositor::Hyprland, hypr, &"C".to_string()), None);
    let sway = "output A {\n    pos 5 6\n}\noutput B {\n    mode 1x1@60Hz\n    pos 7 8\n}\n";
    assert_eq!(saved_monitor_position(Compositor::Sway, sway, &"B".to_string()), Some((7, 8)));
    assert_eq!(saved_monitor_position(Compositor::River, sway, &"B".to_string()), None);
}

#[test]
fn extract_hyprland_plan() {
    let content = "exec-once = bar\nmonitor = A, 1920x1080@60, 0,0, 1\nworkspace = 1, monitor:A\ninput {\n}\n";
    let plan = extract_monitors("/home/u/.config/hypr/hyprland.conf", content, Compositor::Hyprland, "monitors.conf").unwrap();
    assert!(plan.has_monitors());
    assert_eq!(plan.output_content, "monitor = A, 1920x1080@60, 0,0, 1\nworkspace = 1, monitor:A\n");
    assert_eq!(
        plan.modified_files,
        vec![("/home/u/.config/hypr/hyprland.conf".to_string(), "exec-once = bar\ninput {\n}\n".to_string())]
    );
    assert_eq!(plan.source_line, Some("source = monitors.conf".to_string()));
    assert!(!plan.source_exists);
    assert_eq!(plan.output_file_name(), "monitors.conf");
    assert_eq!(
        plan.main_config_with_directive("exec-once = bar"),
        Some("exec-once = bar\n\nsource = monitors.conf\n".to_string())
    );
}

#[test]
fn extract_sway_plan_with_existing_include() {
    let content = "output DP-1 {\n  mode 1920x1080@60Hz\n}\ninclude ~/.config/sway/outputs.conf\nbar {\n}";
    let plan = extract_monitors("/c/sway/config", content, Compositor::Sway, "outputs.conf").unwrap();
    assert_eq!(plan.output_content, "output DP-1 {\n  mode 1920x1080@60Hz\n}\n");
    assert_eq!(plan.modified_files[0].1, "include ~/.config/sway/outputs.conf\nbar {\n}");
    assert!(plan.source_exists);
    assert_eq!(plan.source_line, None);
    assert_eq!(plan.main_config_with_directive("x"), None);
}

#[test]
fn extract_nothing_found() {
    let plan = extract_monitors("/c/config", "bar {\n}\n", Compositor::Sway, "outputs.conf").unwrap();
    assert!(!plan.has_monitors());
    assert!(plan.modified_files.is_empty());
    assert_eq!(plan.source_line, Some("include outputs.conf".to_string()));
    assert_eq!(plan.output_file_name(), "outputs.conf");
}

#[test]
fn extract_unsupported() {
    match extract_monitors("/c/init", "", Compositor::River, "x") {
        Err(e) => assert_eq!(e, "Config extraction not supported for River"),
        Ok(_) => panic!("River has no extraction"),
    }
}

#[test]
fn detect_from_markers() {
    assert_eq!(detect_from(true, true, None), Compositor::Hyprland);
    assert_eq!(detect_from(false, true, Some("river")), Compositor::Sway);
    assert_eq!(detect_from(false, false, Some("GNOME: Sway")), Compositor::Sway);
    assert_eq!(detect_from(false, false, Some("RIVER")), Compositor::River);
    assert_eq!(detect_from(false, false, Some("KDE:x")), Compositor::Unknown);
    assert_eq!(detect_from(false, false, None), Compositor::Unknown);
}

#[test]
fn settings_helpers() {
    assert_eq!(default_workspace_count(), 10);
    let cfg = AppConfig {
        monitor_config_path: "/x".to_string(),
        workspace_count: default_workspace_count(),
        step_policy: StepPolicy::Accelerating,
    };
    assert_eq!(cfg.workspace_count, 10);
    assert_eq!(default_config_path(Compositor::Sway, "/home/u"), "/home/u/.config/sway/monitors.conf");
    assert_eq!(default_config_path(Compositor::Unknown, "/home/u"), "");
    assert_eq!(expand_tilde("~/a/b", Some("/home/u")), "/home/u/a/b");
    assert_eq!(expand_tilde("~/a/b", None), "~/a/b");
    assert_eq!(expand_tilde("/etc/x", Some("/home/u")), "/etc/x");
}

#[test]
fn monitor_refresh_rates() {
    let modes = vec!["1920x1080@60.00Hz".to_string(), "broken".to_string(), "1280x720@144Hz@x".to_string()];
    let ms = Monitor::from_modes(&"DP-1".to_string(), true, &modes);
    assert_eq!(ms.len(), 2);
    assert_eq!(ms[0].refresh_rate, "60.00Hz");
    assert_eq!(ms[1].refresh_rate, "144Hz");
    assert!(ms[1].active);
    assert_eq!(ms[0].name, "DP-1");
}

#[test]
fn workspace_ids_must_fit() {
    let text = "workspace = 99999999999999999999999, monitor:X\nworkspace = 18446744073709551615, monitor:Y\nworkspace = -1, monitor:Z\nworkspace = +, monitor:W";
    assert_eq!(parse_hyprland_workspaces(text), vec![(usize::MAX, "Y".to_string())]);
}

#[test]
fn saved_position_bounds() {
    let text = "monitor = A, 1x1@60, 2147483648,0, 1\nmonitor = A, 1x1@60, -2147483648,7, 1\n";
    assert_eq!(
        saved_monitor_position(Compositor::Hyprland, text, &"A".to_string()),
        Some((i32::MIN, 7))
    );
    assert_eq!(saved_monitor_position(Compositor::Hyprland, "monitor = A, disable", &"A".to_string()), None);
}

#[test]
fn path_helpers() {
    assert_eq!(main_config_path(Compositor::Hyprland, "/h"), Some("/h/.config/hypr/hyprland.conf".to_string()));
    assert_eq!(main_config_path(Compositor::Sway, "/h"), Some("/h/.config/sway/config".to_string()));
    assert_eq!(main_config_path(Compositor::River, "/h"), None);
    assert_eq!(resolve_path("/c/hypr", " monitors.conf ", None), "/c/hypr/monitors.conf");
    assert_eq!(resolve_path("/c/hypr/", "m.conf", None), "/c/hypr/m.conf");
    assert_eq!(resolve_path("/c/hypr", "/etc/m.conf", None), "/etc/m.conf");
    assert_eq!(resolve_path("/c/hypr", "~/m.conf", Some("/home/u")), "/home/u/m.conf");
}

#[test]
fn empty_inputs() {
    assert_eq!(format_hyprland(&vec![], &vec![]), "");
    assert_eq!(format_hyprland(&vec![], &vec![(1, Some("A".to_string()))]), "\nworkspace = 1, monitor:A\n");
    assert_eq!(format_sway(&vec![], &vec![]), "");
    assert_eq!(format_river(&vec![]), "#!/bin/sh\n");
    assert_eq!(parse_hyprland_workspaces(""), vec![]);
    assert_eq!(detect_from(false, false, Some("")), Compositor::Unknown);
}

#[test]
fn default_extraction_file() {
    assert_eq!(default_output_filename(Compositor::Sway), "outputs.conf");
    assert_eq!(default_output_filename(Compositor::Hyprland), "monitors.conf");
}
