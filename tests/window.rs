use chess_titans_rtx::window::{
    borderless_style, chrome_plan, display_size_needed, is_target_window, without_maximize_box,
    ChromeStep,
};

#[test]
fn target_window_needs_own_process_and_class() {
    assert!(is_target_window(42, 42, "ChessWindowClass"));
    assert!(!is_target_window(41, 42, "ChessWindowClass"));
    assert!(!is_target_window(42, 42, "ChessWindowClas"));
    assert!(!is_target_window(42, 42, ""));
}

#[test]
fn maximize_box_is_cleared() {
    assert_eq!(without_maximize_box(0x00CF_0000), 0x00CE_0000);
    assert_eq!(without_maximize_box(0x0000_0001), 0x0000_0001);
}

#[test]
fn borderless_drops_decorations_of_bordered_window() {
    // WS_OVERLAPPEDWINDOW | WS_VISIBLE
    assert_eq!(borderless_style(0x10CF_0000), Some(0x1003_0000));
    assert_eq!(borderless_style(0x1000_0000), None);
}

#[test]
fn fullscreen_plan_uses_configured_size() {
    assert_eq!(
        chrome_plan(true, 1280, 720, None),
        vec![
            ChromeStep::DisableMaximize,
            ChromeStep::MakeBorderless,
            ChromeStep::Resize { width: 1280, height: 720 },
        ]
    );
}

#[test]
fn fullscreen_plan_falls_back_to_display_size() {
    assert!(display_size_needed(true, 0, 720));
    assert!(!display_size_needed(false, 0, 720));
    assert_eq!(
        chrome_plan(true, 0, 720, Some((2560, 1440))),
        vec![
            ChromeStep::DisableMaximize,
            ChromeStep::MakeBorderless,
            ChromeStep::Resize { width: 2560, height: 1440 },
        ]
    );
}

#[test]
fn windowed_plan_repositions() {
    assert_eq!(
        chrome_plan(false, 0, 0, None),
        vec![ChromeStep::DisableMaximize, ChromeStep::Reposition]
    );
}

#[test]
fn unknown_display_size_still_disables_maximize_first() {
    assert_eq!(
        chrome_plan(true, 1920, 0, None),
        vec![ChromeStep::DisableMaximize, ChromeStep::DisplaySizeUnknown]
    );
    assert_eq!(
        chrome_plan(true, 0, 0, None),
        vec![ChromeStep::DisableMaximize, ChromeStep::DisplaySizeUnknown]
    );
}
