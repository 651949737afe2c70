use chat_tui::AppMode;

#[test]
fn toggle_switches_navigation_to_chat() {
    assert_eq!(AppMode::NavigationMode.toggle(), AppMode::ChatMode);
}

#[test]
fn toggle_switches_chat_to_navigation() {
    assert_eq!(AppMode::ChatMode.toggle(), AppMode::NavigationMode);
}

#[test]
fn toggle_is_involution_for_both_modes() {
    assert_eq!(AppMode::NavigationMode.toggle().toggle(), AppMode::NavigationMode);
    assert_eq!(AppMode::ChatMode.toggle().toggle(), AppMode::ChatMode);
}

#[test]
fn default_mode_is_navigation() {
    assert_eq!(AppMode::default(), AppMode::NavigationMode);
}

#[test]
fn mode_labels() {
    assert_eq!(AppMode::NavigationMode.label(), "Navigation Mode");
    assert_eq!(AppMode::ChatMode.label(), "Chat Mode");
}

#[test]
fn mode_color_names() {
    assert_eq!(AppMode::NavigationMode.color_name(), "green");
    assert_eq!(AppMode::ChatMode.color_name(), "lightblue");
}
