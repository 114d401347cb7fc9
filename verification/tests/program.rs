use mandelbrot::program::{
    frame_calls, shader_calls, BuildCall, GenericProgram, GlCall, JuliaProgram, ShaderKind,
    ShaderRef, Uniform, ViewValue,
};
use mandelbrot::viewer::{Fractal, FrameAction};

fn mandelbrot_program() -> GenericProgram {
    GenericProgram::new(3, &[10, 11, 12])
}

fn julia_program() -> JuliaProgram {
    JuliaProgram::new(4, &[20, 21, 22, 23])
}

#[test]
fn shader_build_creates_loads_compiles() {
    assert_eq!(
        shader_calls(ShaderKind::Vertex, "void main() {}"),
        vec![
            BuildCall::CreateShader { kind: ShaderKind::Vertex },
            BuildCall::ShaderSource { source: "void main() {}" },
            BuildCall::CompileShader,
        ]
    );
}

#[test]
fn generic_build_sequence() {
    let source = "fragment source";
    assert_eq!(
        GenericProgram::build_calls(1, source),
        vec![
            BuildCall::CreateShader { kind: ShaderKind::Fragment },
            BuildCall::ShaderSource { source },
            BuildCall::CompileShader,
            BuildCall::CreateProgram,
            BuildCall::AttachShader { shader: ShaderRef::Existing(1) },
            BuildCall::AttachShader { shader: ShaderRef::Created },
            BuildCall::LinkProgram,
            BuildCall::DeleteShader,
            BuildCall::GetUniformLocation { uniform: Uniform::Scaling },
            BuildCall::GetUniformLocation { uniform: Uniform::Offset },
            BuildCall::GetUniformLocation { uniform: Uniform::Iterations },
        ]
    );
}

#[test]
fn julia_build_sequence_adds_parameter() {
    let calls = JuliaProgram::build_calls(1, "julia");
    assert_eq!(calls.len(), 12);
    assert_eq!(calls[..11], GenericProgram::build_calls(1, "julia")[..]);
    assert_eq!(calls[11], BuildCall::GetUniformLocation { uniform: Uniform::Parameter });
}

#[test]
fn program_takes_locations_in_lookup_order() {
    let p = mandelbrot_program();
    assert_eq!((p.program, p.scaling_uniform, p.offset_uniform, p.iterations_uniform), (3, 10, 11, 12));
    let j = julia_program();
    assert_eq!(j.generic_program.program, 4);
    assert_eq!(
        (
            j.generic_program.scaling_uniform,
            j.generic_program.offset_uniform,
            j.generic_program.iterations_uniform
        ),
        (20, 21, 22)
    );
    assert_eq!(j.parameter_uniform, 23);
}

#[test]
fn program_calls() {
    let p = mandelbrot_program();
    assert_eq!(p.use_program(), GlCall::UseProgram { program: 3 });
    assert_eq!(p.set_scaling(), GlCall::Uniform2 { location: 10, value: ViewValue::Scaling });
    assert_eq!(p.set_offset(), GlCall::Uniform2 { location: 11, value: ViewValue::Offset });
    assert_eq!(p.set_iterations(64), GlCall::Uniform1i { location: 12, value: 64 });
    assert_eq!(julia_program().set_parameter(), GlCall::Uniform2 { location: 23, value: ViewValue::Center });
}

#[test]
fn mandelbrot_frame_calls() {
    let action = FrameAction {
        fractal: Fractal::Mandelbrot,
        set_julia_parameter: false,
        iterations: 32,
        apply_drag: false,
    };
    assert_eq!(
        frame_calls(&action, &mandelbrot_program(), &julia_program()),
        vec![
            GlCall::UseProgram { program: 3 },
            GlCall::Uniform2 { location: 10, value: ViewValue::Scaling },
            GlCall::Uniform2 { location: 11, value: ViewValue::Offset },
            GlCall::Uniform1i { location: 12, value: 32 },
        ]
    );
}

#[test]
fn entering_julia_sets_parameter_first() {
    let action = FrameAction {
        fractal: Fractal::Julia,
        set_julia_parameter: true,
        iterations: 64,
        apply_drag: true,
    };
    assert_eq!(
        frame_calls(&action, &mandelbrot_program(), &julia_program()),
        vec![
            GlCall::UseProgram { program: 4 },
            GlCall::Uniform2 { location: 23, value: ViewValue::Center },
            GlCall::UseProgram { program: 4 },
            GlCall::Uniform2 { location: 20, value: ViewValue::Scaling },
            GlCall::Uniform2 { location: 21, value: ViewValue::Offset },
            GlCall::Uniform1i { location: 22, value: 64 },
        ]
    );
}

#[test]
fn staying_in_julia_does_not_set_parameter() {
    let action = FrameAction {
        fractal: Fractal::Julia,
        set_julia_parameter: false,
        iterations: 2,
        apply_drag: false,
    };
    let calls = frame_calls(&action, &mandelbrot_program(), &julia_program());
    assert_eq!(calls.len(), 4);
    assert_eq!(calls[0], GlCall::UseProgram { program: 4 });
    assert_eq!(calls[3], GlCall::Uniform1i { location: 22, value: 2 });
}
