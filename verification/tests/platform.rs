use signos::platform::PlatformBehavior;

#[test]
fn behavior_follows_panel_support() {
    assert_eq!(PlatformBehavior::select(true), PlatformBehavior::PanelCapable);
    assert_eq!(
        PlatformBehavior::select(false),
        PlatformBehavior::StandardWindow
    );
    assert!(PlatformBehavior::PanelCapable.uses_panel());
    assert!(!PlatformBehavior::StandardWindow.uses_panel());
}
