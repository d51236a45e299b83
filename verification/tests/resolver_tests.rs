use wsipc::interp::{OutputInfo, WorkspaceInfo};
use wsipc::names::{dash_name, dec_string, fmt_output_workspace};
use wsipc::resolver::{
    adjacent_index, adjacent_output, focused_output, focused_output_index,
    target_workspace_for_output_transfer, workspace_at_position, workspaces_on_output, Direction,
    NamingMode,
};
use wsipc::IpcError;

fn output(name: &str, focused: bool) -> OutputInfo {
    OutputInfo { name: String::from(name), focused }
}

fn workspace(name: &str, out: &str, visible: bool, focused: bool) -> WorkspaceInfo {
    WorkspaceInfo {
        name: String::from(name),
        output: String::from(out),
        visible,
        focused,
    }
}

#[test]
fn decimal_rendering_is_exact() {
    assert_eq!(dec_string(0), "0");
    assert_eq!(dec_string(7), "7");
    assert_eq!(dec_string(10), "10");
    assert_eq!(dec_string(255), "255");
    assert_eq!(dec_string(65535), "65535");
}

#[test]
fn finds_focused_output_index() {
    let outputs = vec![output("eDP-1", false), output("HDMI-1", true)];
    assert_eq!(focused_output_index(&outputs).unwrap(), 1);
    assert_eq!(focused_output(&outputs).unwrap().name, "HDMI-1");
}

#[test]
fn reports_missing_focus() {
    let outputs = vec![output("eDP-1", false), output("HDMI-1", false)];
    assert_eq!(focused_output_index(&outputs).unwrap_err(), IpcError::NoFocusedEntity);
    assert_eq!(focused_output(&outputs).unwrap_err(), IpcError::NoFocusedEntity);
}

#[test]
fn focused_index_is_within_listing() {
    let outputs = vec![output("a", false), output("b", true), output("c", false)];
    let i = focused_output_index(&outputs).unwrap();
    assert!(i < outputs.len());
    assert!(outputs[i].focused);
}

#[test]
fn adjacent_steps_cyclically() {
    assert_eq!(adjacent_index(3, 0, Direction::Next), 1);
    assert_eq!(adjacent_index(3, 2, Direction::Next), 0);
    assert_eq!(adjacent_index(3, 0, Direction::Prev), 2);
    assert_eq!(adjacent_index(3, 2, Direction::Prev), 1);
}

#[test]
fn adjacent_wraps_to_self_on_single_entry() {
    assert_eq!(adjacent_index(1, 0, Direction::Next), 0);
    assert_eq!(adjacent_index(1, 0, Direction::Prev), 0);
    let outputs = vec![output("only", true)];
    assert_eq!(adjacent_output(&outputs, 0, Direction::Next).name, "only");
}

#[test]
fn stepping_next_over_whole_listing_returns_to_start() {
    let n: usize = 5;
    for start in 0..n {
        let mut i = start;
        for _ in 0..n {
            i = adjacent_index(n, i, Direction::Next);
        }
        assert_eq!(i, start);
    }
}

#[test]
fn filters_workspaces_by_output_preserving_order() {
    let workspaces = vec![
        workspace("3", "HDMI-1", true, false),
        workspace("1", "eDP-1", true, true),
        workspace("2", "eDP-1", false, false),
    ];
    let on_edp = workspaces_on_output(&workspaces, "eDP-1");
    assert_eq!(on_edp.len(), 2);
    assert_eq!(on_edp[0].name, "1");
    assert_eq!(on_edp[1].name, "2");
}

#[test]
fn position_within_count_names_existing_workspace() {
    let workspaces = vec![
        workspace("web", "eDP-1", true, true),
        workspace("mail", "eDP-1", false, false),
    ];
    let t = workspace_at_position(&workspaces, "eDP-1", 2, NamingMode::Deterministic);
    assert_eq!(t, "mail");
}

#[test]
fn position_beyond_count_synthesizes_deterministic_name() {
    let workspaces = vec![
        workspace("web", "eDP-1", true, true),
        workspace("mail", "eDP-1", false, false),
    ];
    let t = workspace_at_position(&workspaces, "eDP-1", 5, NamingMode::Deterministic);
    assert_eq!(t, "eDP-1-5");
    assert_eq!(dash_name("eDP-1", 5), "eDP-1-5");
}

#[test]
fn position_beyond_count_synthesizes_colon_name() {
    let workspaces = vec![workspace("web", "eDP-1", true, true)];
    let t = workspace_at_position(&workspaces, "eDP-1", 5, NamingMode::CollisionAvoiding);
    assert!(t.starts_with("eDP-1:5-"));
    let suffix = &t["eDP-1:5-".len()..];
    let parsed: u16 = suffix.parse().unwrap();
    assert!(parsed <= 255);
    for w in &workspaces {
        assert_ne!(w.name, t);
    }
}

#[test]
fn synthetic_colon_name_carries_output_and_label() {
    let name = fmt_output_workspace("HDMI-1", "4");
    assert!(name.starts_with("HDMI-1:4-"));
    let suffix = &name["HDMI-1:4-".len()..];
    let parsed: u16 = suffix.parse().unwrap();
    assert!(parsed <= 255);
}

#[test]
fn transfer_target_is_first_visible_on_adjacent_output() {
    let outputs = vec![output("eDP-1", true), output("HDMI-1", false)];
    let workspaces = vec![
        workspace("1", "eDP-1", true, true),
        workspace("4", "HDMI-1", false, false),
        workspace("2", "HDMI-1", true, false),
    ];
    let w = target_workspace_for_output_transfer(&outputs, &workspaces, 0, Direction::Next)
        .unwrap();
    assert_eq!(w.name, "2");
}

#[test]
fn transfer_fails_without_visible_workspace() {
    let outputs = vec![output("eDP-1", true), output("HDMI-1", false)];
    let workspaces = vec![
        workspace("1", "eDP-1", true, true),
        workspace("4", "HDMI-1", false, false),
    ];
    let e = target_workspace_for_output_transfer(&outputs, &workspaces, 0, Direction::Next)
        .unwrap_err();
    assert_eq!(e, IpcError::NoVisibleWorkspace);
}
