use bevaders::controls::{fullscreen, screenshot, screenshot_path, DisplayMode};

#[test]
fn fullscreen_key_toggles_between_windowed_and_borderless() {
    assert_eq!(fullscreen(true, DisplayMode::Windowed), DisplayMode::BorderlessFullscreen);
    assert_eq!(fullscreen(true, DisplayMode::BorderlessFullscreen), DisplayMode::Windowed);
    assert_eq!(
        fullscreen(true, fullscreen(true, DisplayMode::Windowed)),
        DisplayMode::Windowed
    );
}

#[test]
fn fullscreen_key_leaves_exclusive_modes_alone() {
    assert_eq!(fullscreen(true, DisplayMode::SizedFullscreen), DisplayMode::SizedFullscreen);
    assert_eq!(fullscreen(true, DisplayMode::Fullscreen), DisplayMode::Fullscreen);
}

#[test]
fn mode_is_kept_while_the_key_is_not_pressed() {
    assert_eq!(fullscreen(false, DisplayMode::Windowed), DisplayMode::Windowed);
    assert_eq!(
        fullscreen(false, DisplayMode::BorderlessFullscreen),
        DisplayMode::BorderlessFullscreen
    );
    assert_eq!(fullscreen(false, DisplayMode::SizedFullscreen), DisplayMode::SizedFullscreen);
    assert_eq!(fullscreen(false, DisplayMode::Fullscreen), DisplayMode::Fullscreen);
}

#[test]
fn screenshot_files_are_numbered() {
    assert_eq!(screenshot_path(0), "./screenshot-0.png");
    assert_eq!(screenshot_path(7), "./screenshot-7.png");
    assert_eq!(screenshot_path(10), "./screenshot-10.png");
    assert_eq!(screenshot_path(42), "./screenshot-42.png");
    assert_eq!(screenshot_path(1009), "./screenshot-1009.png");
    assert_eq!(screenshot_path(u32::MAX), "./screenshot-4294967295.png");
}

#[test]
fn screenshot_key_names_the_file_and_counts_on() {
    assert_eq!(screenshot(true, 0), Some((String::from("./screenshot-0.png"), 1)));
    assert_eq!(screenshot(true, 99), Some((String::from("./screenshot-99.png"), 100)));
    assert_eq!(
        screenshot(true, u32::MAX - 1),
        Some((String::from("./screenshot-4294967294.png"), u32::MAX))
    );
}

#[test]
fn no_screenshot_without_the_key() {
    assert_eq!(screenshot(false, 0), None);
    assert_eq!(screenshot(false, 17), None);
    assert_eq!(screenshot(false, u32::MAX), None);
}
