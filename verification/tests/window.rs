use learn_opengl::window::{
    Window, CONTEXT_VERSION_MAJOR, CONTEXT_VERSION_MINOR, SCREEN_HEIGHT, SCREEN_WIDTH,
    WINDOW_TITLE,
};

#[test]
fn window_settings_are_fixed() {
    assert_eq!(SCREEN_WIDTH, 800);
    assert_eq!(SCREEN_HEIGHT, 600);
    assert_eq!(WINDOW_TITLE, "LearnOpenGL");
    assert_eq!((CONTEXT_VERSION_MAJOR, CONTEXT_VERSION_MINOR), (3, 3));
}

#[test]
fn new_window_is_open() {
    assert!(!Window::new().should_close());
}

#[test]
fn close_flag_reads_back_what_was_written() {
    let mut window = Window::new();
    window.set_should_close(true);
    assert!(window.should_close());
    window.set_should_close(false);
    assert!(!window.should_close());
}
