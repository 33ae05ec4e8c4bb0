use nightmare_engine::window::{get_fitting_videomode, FullscreenRequest, VideoMode, WindowMode, MonitorSelection};

fn mode(width: u32, height: u32, refresh_rate_millihertz: u32) -> VideoMode {
    VideoMode { width, height, refresh_rate_millihertz }
}

#[test]
fn fitting_videomode_prefers_exact_size_then_refresh() {
    let modes = vec![
        mode(1920, 1080, 60000),
        mode(1280, 720, 60000),
        mode(1280, 720, 144000),
        mode(1280, 720, 144000),
    ];
    assert_eq!(get_fitting_videomode(&modes, 1280, 720), 2);
}

#[test]
fn fitting_videomode_width_before_height() {
    let modes = vec![mode(1000, 1000, 60000), mode(1290, 100, 30000), mode(1300, 720, 240000)];
    // closest width wins even though its height is far off
    assert_eq!(get_fitting_videomode(&modes, 1280, 720), 1);
}

#[test]
fn fitting_videomode_height_breaks_width_ties() {
    let modes = vec![mode(800, 500, 60000), mode(800, 610, 60000), mode(800, 590, 60000)];
    assert_eq!(get_fitting_videomode(&modes, 800, 600), 1);
}

#[test]
fn fitting_videomode_single_mode() {
    assert_eq!(get_fitting_videomode(&vec![mode(640, 480, 60000)], 4000, 3000), 0);
}

#[test]
fn fitting_videomode_distance_is_symmetric() {
    let modes = vec![mode(1290, 720, 60000), mode(1270, 720, 60000)];
    // both 10 pixels off: the first stays first
    assert_eq!(get_fitting_videomode(&modes, 1280, 720), 0);
}

#[test]
fn fullscreen_requests() {
    assert_eq!(WindowMode::Windowed.fullscreen_request(), FullscreenRequest::Windowed);
    assert_eq!(
        WindowMode::BorderlessFullscreen.fullscreen_request(),
        FullscreenRequest::BorderlessOnFirstMonitor
    );
    assert_eq!(
        WindowMode::Fullscreen.fullscreen_request(),
        FullscreenRequest::ExclusiveOnFirstMonitor
    );
    assert_ne!(MonitorSelection::Number(1), MonitorSelection::Primary);
}
