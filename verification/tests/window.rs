use mandelbrot::window::Window;

#[test]
fn window_keeps_handles() {
    let w = Window::from_handles(17u64, 42u64);
    assert_eq!(*w.wnd(), 17);
    assert_eq!(*w.dc(), 42);
}

#[test]
fn window_reports_no_input() {
    let w = Window::from_handles((), ());
    assert!(!w.left_button());
    assert!(!w.enter_key());
    assert!(!w.up_key());
    assert!(!w.down_key());
}
