use radiance_switch::application::{error_screen_continues, Platform, ERROR_SCREEN_FRAMES};
use radiance_switch::libc_shims::{getrandom_result, sysconf_answer};
use radiance_switch::video::register_opengb_video_decoders;

#[test]
fn platform_runs_until_exit_requested() {
    let mut p = Platform::new();
    p.initialize();
    p.set_title("yaobow");
    assert!(!p.quit_requested());
    assert!(p.keep_running(true));
    assert!(!p.keep_running(false));
    assert_eq!(p.logical_inner_extent(), None);
    p.request_exit();
    assert!(p.quit_requested());
    assert!(!p.keep_running(true));
    p.initialize();
    assert!(!p.keep_running(true));
}

#[test]
fn error_screen_bounded() {
    assert!(error_screen_continues(0, true));
    assert!(error_screen_continues(ERROR_SCREEN_FRAMES - 1, true));
    assert!(!error_screen_continues(ERROR_SCREEN_FRAMES, true));
    assert!(!error_screen_continues(3, false));
}

#[test]
fn sysconf_answers() {
    assert_eq!(sysconf_answer(8), 0x1000);
    assert_eq!(sysconf_answer(10), 3);
    assert_eq!(sysconf_answer(11), -1);
    assert_eq!(sysconf_answer(0), -1);
}

#[test]
fn getrandom_returns() {
    assert_eq!(getrandom_result(true, 16), -1);
    assert_eq!(getrandom_result(false, 16), 16);
    assert_eq!(getrandom_result(false, 0), 0);
}

#[test]
fn switch_registers_no_video_decoders() {
    register_opengb_video_decoders();
}
