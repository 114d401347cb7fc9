use vstd::prelude::*;
use vstd::arithmetic::power2::pow2;

verus! {

/// Which fractal the viewer draws.
#[derive(Debug, Clone, Copy, PartialEq, Eq, Structural)]
pub enum Fractal {
    Mandelbrot,
    Julia,
}

impl Fractal {
    /// The other fractal.
    pub open spec fn toggled(self) -> Fractal {
        match self {
            Fractal::Mandelbrot => Fractal::Julia,
            Fractal::Julia => Fractal::Mandelbrot,
        }
    }
}

/// What the window reports at the start of one frame.
#[derive(Debug, Clone, Copy, PartialEq, Eq, Structural)]
pub struct FrameInput {
    /// The up arrow is held down.
    pub up_key: bool,
    /// The down arrow is held down.
    pub down_key: bool,
    /// The enter key is held down.
    pub enter_key: bool,
    /// The left mouse button is held down.
    pub left_button: bool,
    /// The pointer position sampled in the previous frame is the origin
    /// (no earlier sample is known).
    pub previous_pointer_at_origin: bool,
}

/// What the renderer does in one frame.
#[derive(Debug, Clone, Copy, PartialEq, Eq, Structural)]
pub struct FrameAction {
    /// The fractal program to draw with.
    pub fractal: Fractal,
    /// The Julia program's parameter is set to the current view centre
    /// (done when the viewer switches to the Julia set).
    pub set_julia_parameter: bool,
    /// The iteration count handed to the fractal program.
    pub iterations: i32,
    /// The pointer's movement since the previous frame pans the view.
    pub apply_drag: bool,
}

/// The quality (log2 of the iteration count) the viewer starts with.
pub const INITIAL_QUALITY: u8 = 5;

/// `2^quality` reduced modulo `2^32` and read as a 32-bit two's complement
/// integer: for a quality below 32, the value of the shift `1 << quality` on
/// `i32`.
pub open spec fn iteration_count(quality: nat) -> int {
    let wrapped = pow2(quality) % 0x1_0000_0000;
    if wrapped <= i32::MAX {
        wrapped as int
    } else {
        wrapped - 0x1_0000_0000
    }
}

/// The iteration count for a quality level, `1 << quality`.
pub fn iterations_for_quality(quality: u8) -> (n: i32)
    requires
        quality < 32,
    ensures
        n == iteration_count(quality as nat),
{
    let n: i32 = 1i32 << quality;
    proof {
        let q: u32 = quality as u32;
        assert((1i32 << quality) == (1u32 << q) as i32) by (bit_vector)
            requires
                q == quality,
                q < 32,
        ;
        vstd::bits::lemma_u32_pow2_no_overflow(q as nat);
        vstd::bits::lemma_u32_shl_is_mul(1, q);
        let p: u32 = 1u32 << q;
        assert(p <= 0x7fff_ffff ==> p as i32 == p) by (bit_vector);
        assert(p > 0x7fff_ffff ==> p as i32 == p - 0x1_0000_0000) by (bit_vector);
    }
    n
}

/// The viewer's state between frames: the fractal shown, the quality level
/// and, for each control key, whether it was held in the previous frame
/// (a key acts once per press, not once per frame).
#[derive(Debug, Clone, Copy, PartialEq, Eq, Structural)]
pub struct ViewerState {
    pub fractal: Fractal,
    pub quality: u8,
    pub up_pressed: bool,
    pub down_pressed: bool,
    pub enter_pressed: bool,
}

impl ViewerState {
    /// The state the viewer starts in: the Mandelbrot set at the initial
    /// quality, no key held.
    pub open spec fn initial() -> ViewerState {
        ViewerState {
            fractal: Fractal::Mandelbrot,
            quality: INITIAL_QUALITY,
            up_pressed: false,
            down_pressed: false,
            enter_pressed: false,
        }
    }

    /// The up key goes down in this frame.
    pub open spec fn up_edge(self, input: FrameInput) -> bool {
        input.up_key && !self.up_pressed
    }

    /// The down key goes down in this frame.
    pub open spec fn down_edge(self, input: FrameInput) -> bool {
        input.down_key && !self.down_pressed
    }

    /// The enter key goes down in this frame.
    pub open spec fn enter_edge(self, input: FrameInput) -> bool {
        input.enter_key && !self.enter_pressed
    }

    /// The quality after the up key is handled: one more on a press.
    pub open spec fn raised_quality(self, input: FrameInput) -> int {
        if self.up_edge(input) {
            self.quality + 1
        } else {
            self.quality as int
        }
    }

    /// The quality after the frame: the down key lowers it by one on a
    /// press, but not below 1.
    pub open spec fn next_quality(self, input: FrameInput) -> int {
        let raised = self.raised_quality(input);
        if self.down_edge(input) {
            if raised - 1 > 1 {
                raised - 1
            } else {
                1
            }
        } else {
            raised
        }
    }

    /// The frame can be computed: the quality neither leaves the range of a
    /// `u8` on the way nor reaches 32, where `1 << quality` overflows an
    /// `i32` shift.
    pub open spec fn step_defined(self, input: FrameInput) -> bool {
        &&& self.up_edge(input) ==> self.quality < 255
        &&& self.down_edge(input) ==> self.raised_quality(input) >= 1
        &&& self.next_quality(input) < 32
    }

    /// The fractal after the frame: a press of enter switches to the other.
    pub open spec fn next_fractal(self, input: FrameInput) -> Fractal {
        if self.enter_edge(input) {
            self.fractal.toggled()
        } else {
            self.fractal
        }
    }

    /// The state after the frame.
    pub open spec fn next_state(self, input: FrameInput) -> ViewerState {
        ViewerState {
            fractal: self.next_fractal(input),
            quality: self.next_quality(input) as u8,
            up_pressed: input.up_key,
            down_pressed: input.down_key,
            enter_pressed: input.enter_key,
        }
    }

    /// What the renderer does in the frame.
    pub open spec fn frame_action(self, input: FrameInput) -> FrameAction {
        FrameAction {
            fractal: self.next_fractal(input),
            set_julia_parameter: self.enter_edge(input) && self.fractal == Fractal::Mandelbrot,
            iterations: iteration_count(self.next_quality(input) as nat) as i32,
            apply_drag: input.left_button && !input.previous_pointer_at_origin,
        }
    }

    /// The state the viewer starts in.
    pub fn new() -> (s: Self)
        ensures
            s == ViewerState::initial(),
    {
        ViewerState {
            fractal: Fractal::Mandelbrot,
            quality: INITIAL_QUALITY,
            up_pressed: false,
            down_pressed: false,
            enter_pressed: false,
        }
    }

    /// Whether `step` may run on this input: false exactly where the frame
    /// would overflow (see `step_defined`).
    pub fn can_step(&self, input: &FrameInput) -> (ok: bool)
        ensures
            ok == self.step_defined(*input),
    {
        let up_edge = input.up_key && !self.up_pressed;
        let down_edge = input.down_key && !self.down_pressed;
        if up_edge && self.quality == 255 {
            return false;
        }
        let raised: u8 = if up_edge {
            self.quality + 1
        } else {
            self.quality
        };
        if down_edge && raised == 0 {
            return false;
        }
        let next: u8 = if down_edge {
            u8::max(raised - 1, 1)
        } else {
            raised
        };
        next < 32
    }

    /// Handles one frame: updates the key latches, the quality and the
    /// fractal, and says what to draw.
    pub fn step(&mut self, input: &FrameInput) -> (action: FrameAction)
        requires
            old(self).step_defined(*input),
        ensures
            *final(self) == old(self).next_state(*input),
            action == old(self).frame_action(*input),
    {
        let apply_drag = input.left_button && !input.previous_pointer_at_origin;

        if input.up_key && !self.up_pressed {
            self.up_pressed = true;
            self.quality += 1;
        } else if !input.up_key && self.up_pressed {
            self.up_pressed = false;
        }
        if input.down_key && !self.down_pressed {
            self.down_pressed = true;
            self.quality = u8::max(self.quality - 1, 1);
        } else if !input.down_key && self.down_pressed {
            self.down_pressed = false;
        }
        let mut set_julia_parameter = false;
        if input.enter_key && !self.enter_pressed {
            self.enter_pressed = true;
            match self.fractal {
                Fractal::Julia => {
                    self.fractal = Fractal::Mandelbrot;
                },
                Fractal::Mandelbrot => {
                    self.fractal = Fractal::Julia;
                    set_julia_parameter = true;
                },
            }
        } else if !input.enter_key && self.enter_pressed {
            self.enter_pressed = false;
        }

        let iterations = iterations_for_quality(self.quality);
        FrameAction { fractal: self.fractal, set_julia_parameter, iterations, apply_drag }
    }

    /// The quality after the up key is handled when arithmetic wraps modulo
    /// 256 (a build without overflow checks).
    pub open spec fn wrapped_raised_quality(self, input: FrameInput) -> int {
        if self.up_edge(input) {
            (self.quality + 1) % 256
        } else {
            self.quality as int
        }
    }

    /// The quality after the frame when arithmetic wraps modulo 256: a press
    /// of down at quality 0 gives 255.
    pub open spec fn wrapped_next_quality(self, input: FrameInput) -> int {
        let raised = self.wrapped_raised_quality(input);
        if self.down_edge(input) {
            let lowered = (raised + 255) % 256;
            if lowered > 1 {
                lowered
            } else {
                1
            }
        } else {
            raised
        }
    }

    /// The state after the frame when arithmetic wraps.
    pub open spec fn wrapped_next_state(self, input: FrameInput) -> ViewerState {
        ViewerState { quality: self.wrapped_next_quality(input) as u8, ..self.next_state(input) }
    }

    /// What the renderer does in the frame when arithmetic wraps: the shift
    /// `1 << quality` takes its amount modulo 32.
    pub open spec fn wrapped_frame_action(self, input: FrameInput) -> FrameAction {
        FrameAction {
            iterations: iteration_count((self.wrapped_next_quality(input) % 32) as nat) as i32,
            ..self.frame_action(input)
        }
    }

    /// Handles one frame in a build without overflow checks: as `step`, but
    /// the quality wraps modulo 256 and the shift amount modulo 32. On every
    /// input that `step` accepts, the two agree
    /// (`lemma_wrapping_step_agrees`).
    pub fn step_wrapping(&mut self, input: &FrameInput) -> (action: FrameAction)
        ensures
            *final(self) == old(self).wrapped_next_state(*input),
            action == old(self).wrapped_frame_action(*input),
    {
        let apply_drag = input.left_button && !input.previous_pointer_at_origin;
        let ghost start = *old(self);

        if input.up_key && !self.up_pressed {
            self.up_pressed = true;
            self.quality = self.quality.wrapping_add(1);
            assert(self.quality == (start.quality + 1) % 256);
        } else if !input.up_key && self.up_pressed {
            self.up_pressed = false;
        }
        if input.down_key && !self.down_pressed {
            self.down_pressed = true;
            let raised = self.quality;
            assert(raised == start.wrapped_raised_quality(*input));
            self.quality = u8::max(raised.wrapping_sub(1), 1);
            assert(raised.wrapping_sub(1) == (raised + 255) % 256);
        } else if !input.down_key && self.down_pressed {
            self.down_pressed = false;
        }
        let mut set_julia_parameter = false;
        if input.enter_key && !self.enter_pressed {
            self.enter_pressed = true;
            match self.fractal {
                Fractal::Julia => {
                    self.fractal = Fractal::Mandelbrot;
                },
                Fractal::Mandelbrot => {
                    self.fractal = Fractal::Julia;
                    set_julia_parameter = true;
                },
            }
        } else if !input.enter_key && self.enter_pressed {
            self.enter_pressed = false;
        }

        assert(self.quality == start.wrapped_next_quality(*input));
        let iterations = iterations_for_quality(self.quality % 32);
        FrameAction { fractal: self.fractal, set_julia_parameter, iterations, apply_drag }
    }
}

/// The quality of every state the viewer reaches lies in `1..=31`: the
/// initial state's does, and every frame that can be computed keeps it there.
pub open spec fn quality_in_range(s: ViewerState) -> bool {
    1 <= s.quality <= 31
}

/// The initial state has a quality in `1..=31`.
pub proof fn lemma_initial_quality_in_range()
    ensures
        quality_in_range(ViewerState::initial()),
{
}

/// A frame never takes the quality out of `1..=31`.
pub proof fn lemma_step_keeps_quality_in_range(s: ViewerState, input: FrameInput)
    requires
        quality_in_range(s),
        s.step_defined(input),
    ensures
        quality_in_range(s.next_state(input)),
{
}

/// Holding the keys does not repeat their effect: after a frame, a second
/// frame with the same input changes neither quality nor fractal, does not
/// touch the Julia parameter and draws with the same iteration count.
pub proof fn lemma_held_keys_act_once(s: ViewerState, input: FrameInput)
    requires
        s.step_defined(input),
    ensures
        s.next_state(input).step_defined(input),
        s.next_state(input).next_state(input) == s.next_state(input),
        s.next_state(input).frame_action(input) == (FrameAction {
            set_julia_parameter: false,
            ..s.frame_action(input)
        }),
{
}

/// A press of up followed by a press of down gives back the quality the
/// viewer had (for a quality of at least 1, no key held before).
pub proof fn lemma_up_then_down_restores_quality(s: ViewerState, up: FrameInput, down: FrameInput)
    requires
        1 <= s.quality <= 30,
        !s.up_pressed,
        !s.down_pressed,
        up.up_key && !up.down_key,
        !down.up_key && down.down_key,
    ensures
        s.step_defined(up),
        s.next_state(up).step_defined(down),
        s.next_state(up).next_state(down).quality == s.quality,
{
}

/// Pressing up and down in the same frame leaves the quality unchanged (for
/// a quality of at least 1, neither key held before).
pub proof fn lemma_up_and_down_together_cancel(s: ViewerState, input: FrameInput)
    requires
        1 <= s.quality <= 31,
        !s.up_pressed,
        !s.down_pressed,
        input.up_key && input.down_key,
    ensures
        s.step_defined(input),
        s.next_state(input).quality == s.quality,
{
}

/// The down key never takes the quality below 1: at quality 1 a press of
/// down alone keeps it at 1.
pub proof fn lemma_down_stops_at_one(s: ViewerState, input: FrameInput)
    requires
        s.quality == 1,
        !s.down_pressed,
        !input.up_key && input.down_key,
    ensures
        s.step_defined(input),
        s.next_state(input).quality == 1,
{
}

/// Enter switches between the two fractals: pressed, released and pressed
/// again, it brings back the fractal the viewer started with, whatever the
/// other keys do.
pub proof fn lemma_enter_twice_restores_fractal(
    s: ViewerState,
    press: FrameInput,
    release: FrameInput,
    press_again: FrameInput,
)
    requires
        !s.enter_pressed,
        press.enter_key,
        !release.enter_key,
        press_again.enter_key,
    ensures
        s.next_state(press).fractal == s.fractal.toggled(),
        s.next_state(press).next_state(release).fractal == s.fractal.toggled(),
        s.next_state(press).next_state(release).next_state(press_again).fractal == s.fractal,
{
}

/// The Julia parameter is set in exactly the frames that switch from the
/// Mandelbrot set to the Julia set.
pub proof fn lemma_parameter_set_on_entering_julia(s: ViewerState, input: FrameInput)
    ensures
        s.frame_action(input).set_julia_parameter <==> (s.fractal == Fractal::Mandelbrot
            && s.next_state(input).fractal == Fractal::Julia),
{
}

/// Every frame draws the fractal the state then shows, with `2^quality`
/// iterations for the state's new quality, which is positive below 31.
pub proof fn lemma_action_matches_state(s: ViewerState, input: FrameInput)
    requires
        s.step_defined(input),
        s.next_quality(input) < 31,
    ensures
        s.frame_action(input).fractal == s.next_state(input).fractal,
        s.frame_action(input).iterations == pow2(s.next_state(input).quality as nat),
        s.frame_action(input).iterations > 0,
{
    vstd::arithmetic::power2::lemma_pow2_pos(s.next_quality(input) as nat);
    vstd::arithmetic::power2::lemma_pow2_strictly_increases(s.next_quality(input) as nat, 31);
    vstd::arithmetic::power2::lemma2_to64();
}

/// A press of up alone doubles the iteration count (below quality 30).
pub proof fn lemma_up_press_doubles_iterations(s: ViewerState, input: FrameInput)
    requires
        s.quality < 30,
        s.up_edge(input),
        !s.down_edge(input),
    ensures
        s.step_defined(input),
        s.frame_action(input).iterations == 2 * iteration_count(s.quality as nat),
{
    vstd::arithmetic::power2::lemma_pow2_adds(s.quality as nat, 1);
    vstd::arithmetic::power2::lemma2_to64();
    vstd::arithmetic::power2::lemma_pow2_strictly_increases((s.quality + 1) as nat, 31);
    vstd::arithmetic::power2::lemma_pow2_strictly_increases(s.quality as nat, 31);
}

/// Where the checked frame is defined, the wrapping frame gives the same
/// state and the same action: wrapping only changes frames that overflow.
pub proof fn lemma_wrapping_step_agrees(s: ViewerState, input: FrameInput)
    requires
        s.step_defined(input),
    ensures
        s.wrapped_next_state(input) == s.next_state(input),
        s.wrapped_frame_action(input) == s.frame_action(input),
{
}


/// How a frame changes the quality, by which keys go down in it (a key goes
/// down when it is held now and was not held in the previous frame): up
/// alone adds one, down alone takes one away but not below 1, both
/// together leave it (but raise 0 to 1), neither leaves it. Each latch
/// becomes the key's current state.
pub proof fn lemma_step_quality(s: ViewerState, input: FrameInput)
    requires
        s.step_defined(input),
    ensures
        ({
            let up = input.up_key && !s.up_pressed;
            let down = input.down_key && !s.down_pressed;
            let q = s.next_state(input).quality;
            &&& up && !down ==> q == s.quality + 1
            &&& !up && down ==> q == (if s.quality > 2 { s.quality - 1 } else { 1 })
            &&& up && down ==> q == (if s.quality >= 1 { s.quality as int } else { 1 })
            &&& !up && !down ==> q == s.quality
        }),
        s.next_state(input).up_pressed == input.up_key,
        s.next_state(input).down_pressed == input.down_key,
        s.next_state(input).enter_pressed == input.enter_key,
{
}

/// The same for a frame with wrapping arithmetic: the quality wraps from
/// 255 to 0 on up and from 0 to 255 on down.
pub proof fn lemma_wrapping_step_quality(s: ViewerState, input: FrameInput)
    ensures
        ({
            let up = input.up_key && !s.up_pressed;
            let down = input.down_key && !s.down_pressed;
            let q = s.wrapped_next_state(input).quality;
            &&& up && !down ==> q == (if s.quality == 255 { 0 } else { s.quality + 1 })
            &&& !up && down ==> q == (if s.quality == 0 {
                255
            } else if s.quality > 2 {
                s.quality - 1
            } else {
                1
            })
            &&& up && down ==> q == (if s.quality == 0 { 1 } else { s.quality as int })
            &&& !up && !down ==> q == s.quality
        }),
        s.wrapped_next_state(input).up_pressed == input.up_key,
        s.wrapped_next_state(input).down_pressed == input.down_key,
        s.wrapped_next_state(input).enter_pressed == input.enter_key,
{
}

/// Which frames can be computed: every frame from a quality in `1..=30`;
/// from 31 every frame but one where up goes down and down does not; from
/// 0 every frame but one where down goes down and up does not; from 32
/// only a frame where down alone goes down; from above 32 none.
pub proof fn lemma_defined_frames(s: ViewerState, input: FrameInput)
    ensures
        ({
            let up = input.up_key && !s.up_pressed;
            let down = input.down_key && !s.down_pressed;
            &&& 1 <= s.quality <= 30 ==> s.step_defined(input)
            &&& s.quality == 31 ==> (s.step_defined(input) <==> !(up && !down))
            &&& s.quality == 0 ==> (s.step_defined(input) <==> !(down && !up))
            &&& s.quality == 32 ==> (s.step_defined(input) <==> (down && !up))
            &&& s.quality > 32 ==> !s.step_defined(input)
        }),
{
}

/// The view pans exactly when the left button is held and an earlier
/// pointer sample is known, whatever the keys and the state; the same in a
/// frame with wrapping arithmetic.
pub proof fn lemma_drag(s: ViewerState, input: FrameInput)
    ensures
        s.frame_action(input).apply_drag == (input.left_button && !input.previous_pointer_at_origin),
        s.wrapped_frame_action(input).apply_drag == (input.left_button
            && !input.previous_pointer_at_origin),
        !input.left_button ==> !s.frame_action(input).apply_drag,
{
}

/// Enter switches the fractal exactly in the frames where it goes down, and
/// the frame draws the fractal the new state shows; the same with wrapping
/// arithmetic.
pub proof fn lemma_step_fractal(s: ViewerState, input: FrameInput)
    ensures
        (input.enter_key && !s.enter_pressed) ==> s.next_state(input).fractal != s.fractal,
        !(input.enter_key && !s.enter_pressed) ==> s.next_state(input).fractal == s.fractal,
        s.frame_action(input).fractal == s.next_state(input).fractal,
        s.wrapped_next_state(input).fractal == s.next_state(input).fractal,
        s.wrapped_frame_action(input).fractal == s.next_state(input).fractal,
        s.wrapped_frame_action(input).set_julia_parameter == s.frame_action(input).set_julia_parameter,
{
}

} // verus!
