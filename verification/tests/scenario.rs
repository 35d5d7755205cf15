//! End-to-end scenario over the computing halves, with the foreign side
//! played by fixed raw results: initialize the windowing library, create an
//! 800x600 window titled "test", query its close flag, and terminate.

use hitchcock::glfw;

#[test]
fn window_lifecycle_scenario() {
    // The foreign initialization call succeeds (non-zero result).
    assert!(glfw::init_result(1).is_ok());

    // The title marshals cleanly: "test" holds no embedded null.
    let title = glfw::create_window_title("test").unwrap();
    assert_eq!(title, vec![b't', b'e', b's', b't', 0]);

    // Window creation at 800x600 returns a non-null window object.
    let width: i32 = 800;
    let height: i32 = 600;
    assert!(width > 0 && height > 0);
    let window = glfw::window_from_raw(0x5580_0000).unwrap();
    assert_eq!(window.addr(), 0x5580_0000);

    // Before any close request, the foreign close-flag query reports zero.
    assert!(!glfw::should_close_from_flag(0));

    // Termination is a bare foreign call; nothing is left to translate.
}
