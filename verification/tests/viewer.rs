use mandelbrot::viewer::{
    iterations_for_quality, Fractal, FrameAction, FrameInput, ViewerState, INITIAL_QUALITY,
};

fn keys(up: bool, down: bool, enter: bool) -> FrameInput {
    FrameInput {
        up_key: up,
        down_key: down,
        enter_key: enter,
        left_button: false,
        previous_pointer_at_origin: false,
    }
}

fn idle() -> FrameInput {
    keys(false, false, false)
}

fn step(s: &mut ViewerState, input: FrameInput) -> FrameAction {
    assert!(s.can_step(&input));
    s.step(&input)
}

#[test]
fn initial_state() {
    let s = ViewerState::new();
    assert_eq!(s.fractal, Fractal::Mandelbrot);
    assert_eq!(s.quality, INITIAL_QUALITY);
    assert_eq!(s.quality, 5);
    assert!(!s.up_pressed && !s.down_pressed && !s.enter_pressed);
}

#[test]
fn idle_frame_draws_mandelbrot_with_32_iterations() {
    let mut s = ViewerState::new();
    let a = step(&mut s, idle());
    assert_eq!(
        a,
        FrameAction {
            fractal: Fractal::Mandelbrot,
            set_julia_parameter: false,
            iterations: 32,
            apply_drag: false,
        }
    );
    assert_eq!(s, ViewerState::new());
}

#[test]
fn up_press_raises_quality_once() {
    let mut s = ViewerState::new();
    let a = step(&mut s, keys(true, false, false));
    assert_eq!(s.quality, 6);
    assert_eq!(a.iterations, 64);
    assert!(s.up_pressed);
    // holding the key does not repeat
    let b = step(&mut s, keys(true, false, false));
    assert_eq!(s.quality, 6);
    assert_eq!(b.iterations, 64);
    // release, then press again
    step(&mut s, idle());
    assert!(!s.up_pressed);
    let c = step(&mut s, keys(true, false, false));
    assert_eq!(s.quality, 7);
    assert_eq!(c.iterations, 128);
}

#[test]
fn down_press_lowers_quality() {
    let mut s = ViewerState::new();
    let a = step(&mut s, keys(false, true, false));
    assert_eq!(s.quality, 4);
    assert_eq!(a.iterations, 16);
    assert!(s.down_pressed);
}

#[test]
fn down_stops_at_one() {
    let mut s = ViewerState::new();
    for _ in 0..10 {
        step(&mut s, keys(false, true, false));
        step(&mut s, idle());
    }
    assert_eq!(s.quality, 1);
    let a = step(&mut s, keys(false, true, false));
    assert_eq!(s.quality, 1);
    assert_eq!(a.iterations, 2);
}

#[test]
fn up_and_down_in_one_frame_cancel() {
    let mut s = ViewerState::new();
    let a = step(&mut s, keys(true, true, false));
    assert_eq!(s.quality, 5);
    assert_eq!(a.iterations, 32);
    assert!(s.up_pressed && s.down_pressed);
}

#[test]
fn up_then_down_restores_quality() {
    let mut s = ViewerState::new();
    step(&mut s, keys(true, false, false));
    step(&mut s, keys(false, true, false));
    assert_eq!(s.quality, 5);
}

#[test]
fn enter_switches_to_julia_and_sets_parameter() {
    let mut s = ViewerState::new();
    let a = step(&mut s, keys(false, false, true));
    assert_eq!(a.fractal, Fractal::Julia);
    assert!(a.set_julia_parameter);
    assert_eq!(s.fractal, Fractal::Julia);
    // holding enter keeps the Julia set and does not set the parameter again
    let b = step(&mut s, keys(false, false, true));
    assert_eq!(b.fractal, Fractal::Julia);
    assert!(!b.set_julia_parameter);
}

#[test]
fn enter_twice_returns_to_mandelbrot() {
    let mut s = ViewerState::new();
    step(&mut s, keys(false, false, true));
    step(&mut s, idle());
    let a = step(&mut s, keys(false, false, true));
    assert_eq!(a.fractal, Fractal::Mandelbrot);
    assert!(!a.set_julia_parameter);
    assert_eq!(s.fractal, Fractal::Mandelbrot);
}

#[test]
fn drag_needs_button_and_previous_sample() {
    let mut s = ViewerState::new();
    let mut input = idle();
    input.left_button = true;
    input.previous_pointer_at_origin = false;
    assert!(step(&mut s, input).apply_drag);
    input.previous_pointer_at_origin = true;
    assert!(!step(&mut s, input).apply_drag);
    input.left_button = false;
    input.previous_pointer_at_origin = false;
    assert!(!step(&mut s, input).apply_drag);
}

#[test]
fn quality_31_reached_and_then_refused() {
    let mut s = ViewerState::new();
    while s.quality < 31 {
        step(&mut s, keys(true, false, false));
        step(&mut s, idle());
    }
    assert_eq!(s.quality, 31);
    let a = step(&mut s, idle());
    assert_eq!(a.iterations, i32::MIN);
    assert!(!s.can_step(&keys(true, false, false)));
    // pressing down in the same frame keeps the frame computable
    assert!(s.can_step(&keys(true, true, false)));
}

#[test]
fn can_step_refuses_overflowing_frames() {
    let zero = ViewerState {
        fractal: Fractal::Mandelbrot,
        quality: 0,
        up_pressed: false,
        down_pressed: false,
        enter_pressed: false,
    };
    assert!(!zero.can_step(&keys(false, true, false)));
    assert!(zero.can_step(&idle()));
    assert!(zero.can_step(&keys(true, true, false)));
    let top = ViewerState { quality: 255, ..zero };
    assert!(!top.can_step(&keys(true, false, false)));
    assert!(!top.can_step(&idle()));
    let held = ViewerState { quality: 31, up_pressed: true, ..zero };
    assert!(held.can_step(&keys(true, false, false)));
}

#[test]
fn zero_quality_draws_one_iteration() {
    let mut s = ViewerState {
        fractal: Fractal::Julia,
        quality: 0,
        up_pressed: false,
        down_pressed: false,
        enter_pressed: false,
    };
    let a = step(&mut s, idle());
    assert_eq!(a.iterations, 1);
    assert_eq!(a.fractal, Fractal::Julia);
}

#[test]
fn iterations_are_powers_of_two() {
    assert_eq!(iterations_for_quality(0), 1);
    assert_eq!(iterations_for_quality(1), 2);
    assert_eq!(iterations_for_quality(5), 32);
    assert_eq!(iterations_for_quality(10), 1024);
    assert_eq!(iterations_for_quality(30), 1 << 30);
    assert_eq!(iterations_for_quality(31), i32::MIN);
}

#[test]
fn repeated_input_is_idle() {
    let mut s = ViewerState::new();
    let input = keys(true, true, true);
    let a = step(&mut s, input);
    let after = s;
    let b = step(&mut s, input);
    assert_eq!(s, after);
    assert_eq!(b.fractal, a.fractal);
    assert_eq!(b.iterations, a.iterations);
    assert!(!b.set_julia_parameter);
}

#[test]
fn wrapping_up_at_255_gives_zero() {
    let mut s = ViewerState {
        fractal: Fractal::Mandelbrot,
        quality: 255,
        up_pressed: false,
        down_pressed: false,
        enter_pressed: false,
    };
    let a = s.step_wrapping(&keys(true, false, false));
    assert_eq!(s.quality, 0);
    assert_eq!(a.iterations, 1);
}

#[test]
fn wrapping_down_at_zero_gives_255() {
    let mut s = ViewerState {
        fractal: Fractal::Julia,
        quality: 0,
        up_pressed: false,
        down_pressed: false,
        enter_pressed: false,
    };
    let a = s.step_wrapping(&keys(false, true, false));
    assert_eq!(s.quality, 255);
    // the shift amount wraps: 1 << (255 % 32)
    assert_eq!(a.iterations, i32::MIN);
    assert_eq!(a.fractal, Fractal::Julia);
}

#[test]
fn wrapping_quality_32_shifts_by_zero() {
    let mut s = ViewerState {
        fractal: Fractal::Mandelbrot,
        quality: 31,
        up_pressed: false,
        down_pressed: false,
        enter_pressed: false,
    };
    let a = s.step_wrapping(&keys(true, false, false));
    assert_eq!(s.quality, 32);
    assert_eq!(a.iterations, 1);
}

#[test]
fn wrapping_agrees_with_checked_step() {
    let inputs = [
        keys(true, false, false),
        idle(),
        keys(false, true, true),
        keys(true, true, false),
        idle(),
    ];
    let mut checked = ViewerState::new();
    let mut wrapping = ViewerState::new();
    for input in inputs {
        assert!(checked.can_step(&input));
        let a = checked.step(&input);
        let b = wrapping.step_wrapping(&input);
        assert_eq!(a, b);
        assert_eq!(checked, wrapping);
    }
}
