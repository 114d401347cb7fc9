use vstd::prelude::*;

use crate::viewer::{Fractal, FrameAction};

verus! {

/// A uniform variable of the fractal shader programs.
#[derive(Debug, Clone, Copy, PartialEq, Eq, Structural)]
pub enum Uniform {
    /// `scaling`: the size of one pixel in fractal coordinates.
    Scaling,
    /// `offset`: the fractal coordinates of the viewport's corner.
    Offset,
    /// `iterations`: the iteration count.
    Iterations,
    /// `parameter`: the constant of the Julia set.
    Parameter,
}

/// A two-component value that the renderer computes each frame from the
/// view (in floating point, outside this library).
#[derive(Debug, Clone, Copy, PartialEq, Eq, Structural)]
pub enum ViewValue {
    /// The pixel size at the current zoom.
    Scaling,
    /// The viewport's corner at the current centre and zoom.
    Offset,
    /// The current centre of the view.
    Center,
}

/// The kind of a shader.
#[derive(Debug, Clone, Copy, PartialEq, Eq, Structural)]
pub enum ShaderKind {
    Vertex,
    Fragment,
}

/// The shader a build call acts on: the one the build created, or one that
/// exists already.
#[derive(Debug, Clone, Copy, PartialEq, Eq, Structural)]
pub enum ShaderRef {
    Created,
    Existing(u32),
}

/// One OpenGL call of building a shader or a shader program. A build
/// creates at most one shader and one program; later calls refer to them.
#[derive(Debug, Clone, Copy, PartialEq, Eq)]
pub enum BuildCall<'a> {
    /// Create a shader of `kind`; it becomes the build's shader.
    CreateShader { kind: ShaderKind },
    /// Load `source` into the build's shader.
    ShaderSource { source: &'a str },
    /// Compile the build's shader.
    CompileShader,
    /// Create a program; it becomes the build's program.
    CreateProgram,
    /// Attach `shader` to the build's program.
    AttachShader { shader: ShaderRef },
    /// Link the build's program.
    LinkProgram,
    /// Delete the build's shader.
    DeleteShader,
    /// Look up the location of `uniform` in the build's program; the
    /// locations are handed back, in the order of these calls, to the
    /// program's `new`.
    GetUniformLocation { uniform: Uniform },
}

/// One OpenGL call on a built program while drawing.
#[derive(Debug, Clone, Copy, PartialEq, Eq, Structural)]
pub enum GlCall {
    UseProgram { program: u32 },
    /// Set the two-component uniform at `location` to the frame's `value`.
    Uniform2 { location: i32, value: ViewValue },
    /// Set the integer uniform at `location` to `value`.
    Uniform1i { location: i32, value: i32 },
}

/// Building a shader: create it as `kind`, load `source`, compile it.
pub open spec fn shader_sequence<'a>(kind: ShaderKind, source: &'a str) -> Seq<BuildCall<'a>> {
    seq![
        BuildCall::CreateShader { kind },
        BuildCall::ShaderSource { source },
        BuildCall::CompileShader,
    ]
}

/// The uniforms a fractal program looks up, in look-up order.
pub open spec fn generic_uniforms() -> Seq<Uniform> {
    seq![Uniform::Scaling, Uniform::Offset, Uniform::Iterations]
}

/// The uniforms the Julia program looks up, in look-up order.
pub open spec fn julia_uniforms() -> Seq<Uniform> {
    generic_uniforms().push(Uniform::Parameter)
}

/// The uniforms that `calls` look up, in order.
pub open spec fn uniform_lookups<'a>(calls: Seq<BuildCall<'a>>) -> Seq<Uniform>
    decreases calls.len(),
{
    if calls.len() == 0 {
        Seq::empty()
    } else {
        let rest = uniform_lookups(calls.drop_last());
        match calls.last() {
            BuildCall::GetUniformLocation { uniform } => rest.push(uniform),
            _ => rest,
        }
    }
}

/// Building a fractal program from `source` and `vertex_shader`: build the
/// fragment shader, create the program, attach the vertex shader and the
/// fragment shader, link, delete the fragment shader, then look up the
/// scaling, offset and iterations uniforms.
pub open spec fn generic_sequence<'a>(vertex_shader: u32, source: &'a str) -> Seq<BuildCall<'a>> {
    shader_sequence(ShaderKind::Fragment, source) + seq![
        BuildCall::CreateProgram,
        BuildCall::AttachShader { shader: ShaderRef::Existing(vertex_shader) },
        BuildCall::AttachShader { shader: ShaderRef::Created },
        BuildCall::LinkProgram,
        BuildCall::DeleteShader,
        BuildCall::GetUniformLocation { uniform: Uniform::Scaling },
        BuildCall::GetUniformLocation { uniform: Uniform::Offset },
        BuildCall::GetUniformLocation { uniform: Uniform::Iterations },
    ]
}

/// The calls that build a shader of `kind` from `source`.
pub fn shader_calls<'a>(kind: ShaderKind, source: &'a str) -> (calls: Vec<BuildCall<'a>>)
    ensures
        calls@ == shader_sequence(kind, source),
        uniform_lookups(calls@) == Seq::<Uniform>::empty(),
{
    let mut calls = Vec::new();
    calls.push(BuildCall::CreateShader { kind });
    calls.push(BuildCall::ShaderSource { source });
    calls.push(BuildCall::CompileShader);
    proof {
        assert(calls@ =~= shader_sequence(kind, source));
        reveal_with_fuel(uniform_lookups, 4);
    }
    calls
}

/// A linked fractal program and the locations of its uniforms.
#[derive(Debug, Clone, Copy, PartialEq, Eq, Structural)]
pub struct GenericProgram {
    pub program: u32,
    pub scaling_uniform: i32,
    pub offset_uniform: i32,
    pub iterations_uniform: i32,
}

impl GenericProgram {
    /// The location of `uniform` in this program (the parameter is not one
    /// of its uniforms).
    pub open spec fn location_of(self, uniform: Uniform) -> i32 {
        match uniform {
            Uniform::Scaling => self.scaling_uniform,
            Uniform::Offset => self.offset_uniform,
            Uniform::Iterations => self.iterations_uniform,
            Uniform::Parameter => arbitrary(),
        }
    }

    /// The calls that build a fractal program from the fragment `source`
    /// and `vertex_shader`.
    pub fn build_calls<'a>(vertex_shader: u32, source: &'a str) -> (calls: Vec<BuildCall<'a>>)
        ensures
            calls@ == generic_sequence(vertex_shader, source),
            uniform_lookups(calls@) == generic_uniforms(),
    {
        let mut calls = shader_calls(ShaderKind::Fragment, source);
        calls.push(BuildCall::CreateProgram);
        calls.push(BuildCall::AttachShader { shader: ShaderRef::Existing(vertex_shader) });
        calls.push(BuildCall::AttachShader { shader: ShaderRef::Created });
        calls.push(BuildCall::LinkProgram);
        calls.push(BuildCall::DeleteShader);
        calls.push(BuildCall::GetUniformLocation { uniform: Uniform::Scaling });
        calls.push(BuildCall::GetUniformLocation { uniform: Uniform::Offset });
        calls.push(BuildCall::GetUniformLocation { uniform: Uniform::Iterations });
        proof {
            assert(calls@ =~= generic_sequence(vertex_shader, source));
            lemma_generic_lookups(vertex_shader, source);
        }
        calls
    }

    /// The program `program` whose build looked up `locations`: each
    /// location goes to the uniform whose look-up returned it.
    pub fn new(program: u32, locations: &[i32]) -> (p: Self)
        requires
            locations@.len() == generic_uniforms().len(),
        ensures
            p.program == program,
            forall|i: int|
                0 <= i < generic_uniforms().len() ==> p.location_of(#[trigger] generic_uniforms()[i])
                    == locations@[i],
    {
        let p = GenericProgram {
            program,
            scaling_uniform: locations[0],
            offset_uniform: locations[1],
            iterations_uniform: locations[2],
        };
        assert forall|i: int|
            0 <= i < generic_uniforms().len() implies p.location_of(
                #[trigger] generic_uniforms()[i],
            ) == locations@[i] by {
            if i == 0 {
            } else if i == 1 {
            } else {
            }
        }
        p
    }

    /// The call that makes this program current.
    pub fn use_program(&self) -> (call: GlCall)
        ensures
            call == (GlCall::UseProgram { program: self.program }),
    {
        GlCall::UseProgram { program: self.program }
    }

    /// The call that sets the scaling uniform to the frame's pixel size.
    pub fn set_scaling(&self) -> (call: GlCall)
        ensures
            call == (GlCall::Uniform2 { location: self.scaling_uniform, value: ViewValue::Scaling }),
    {
        GlCall::Uniform2 { location: self.scaling_uniform, value: ViewValue::Scaling }
    }

    /// The call that sets the offset uniform to the frame's corner.
    pub fn set_offset(&self) -> (call: GlCall)
        ensures
            call == (GlCall::Uniform2 { location: self.offset_uniform, value: ViewValue::Offset }),
    {
        GlCall::Uniform2 { location: self.offset_uniform, value: ViewValue::Offset }
    }

    /// The call that sets the iterations uniform to `value`.
    pub fn set_iterations(&self, value: i32) -> (call: GlCall)
        ensures
            call == (GlCall::Uniform1i { location: self.iterations_uniform, value }),
    {
        GlCall::Uniform1i { location: self.iterations_uniform, value }
    }
}

/// The Julia set program: a fractal program with one more uniform, the
/// set's parameter.
#[derive(Debug, Clone, Copy, PartialEq, Eq, Structural)]
pub struct JuliaProgram {
    pub generic_program: GenericProgram,
    pub parameter_uniform: i32,
}

impl JuliaProgram {
    /// The location of `uniform` in this program.
    pub open spec fn location_of(self, uniform: Uniform) -> i32 {
        match uniform {
            Uniform::Parameter => self.parameter_uniform,
            _ => self.generic_program.location_of(uniform),
        }
    }

    /// The calls that build the Julia program: those of
    /// `GenericProgram::build_calls`, then the look-up of the parameter.
    pub fn build_calls<'a>(vertex_shader: u32, source: &'a str) -> (calls: Vec<BuildCall<'a>>)
        ensures
            calls@ == generic_sequence(vertex_shader, source).push(
                BuildCall::GetUniformLocation { uniform: Uniform::Parameter },
            ),
            uniform_lookups(calls@) == julia_uniforms(),
    {
        let mut calls = GenericProgram::build_calls(vertex_shader, source);
        calls.push(BuildCall::GetUniformLocation { uniform: Uniform::Parameter });
        proof {
            lemma_generic_lookups(vertex_shader, source);
            assert(calls@.drop_last() =~= generic_sequence(vertex_shader, source));
        }
        calls
    }

    /// The Julia program `program` whose build looked up `locations`: each
    /// location goes to the uniform whose look-up returned it.
    pub fn new(program: u32, locations: &[i32]) -> (p: Self)
        requires
            locations@.len() == julia_uniforms().len(),
        ensures
            p.generic_program.program == program,
            forall|i: int|
                0 <= i < julia_uniforms().len() ==> p.location_of(#[trigger] julia_uniforms()[i])
                    == locations@[i],
    {
        let generic_program = GenericProgram {
            program,
            scaling_uniform: locations[0],
            offset_uniform: locations[1],
            iterations_uniform: locations[2],
        };
        let p = JuliaProgram { generic_program, parameter_uniform: locations[3] };
        assert forall|i: int|
            0 <= i < julia_uniforms().len() implies p.location_of(
                #[trigger] julia_uniforms()[i],
            ) == locations@[i] by {
            if i == 0 {
            } else if i == 1 {
            } else if i == 2 {
            } else {
            }
        }
        p
    }

    /// The call that sets the parameter uniform to the view's centre.
    pub fn set_parameter(&self) -> (call: GlCall)
        ensures
            call == (GlCall::Uniform2 { location: self.parameter_uniform, value: ViewValue::Center }),
    {
        GlCall::Uniform2 { location: self.parameter_uniform, value: ViewValue::Center }
    }
}

/// A fractal program's build looks up exactly the scaling, offset and
/// iterations uniforms, in that order.
pub proof fn lemma_generic_lookups<'a>(vertex_shader: u32, source: &'a str)
    ensures
        uniform_lookups(generic_sequence(vertex_shader, source)) == generic_uniforms(),
{
    let calls = generic_sequence(vertex_shader, source);
    reveal_with_fuel(uniform_lookups, 12);
    assert(calls.len() == 11);
    assert(calls.take(3).drop_last() =~= calls.take(2));
    assert(calls.drop_last() =~= calls.take(10));
    assert(calls.take(10).drop_last() =~= calls.take(9));
    assert(calls.take(9).drop_last() =~= calls.take(8));
    assert(calls.take(8).drop_last() =~= calls.take(7));
    assert(calls.take(7).drop_last() =~= calls.take(6));
    assert(calls.take(6).drop_last() =~= calls.take(5));
    assert(calls.take(5).drop_last() =~= calls.take(4));
    assert(calls.take(4).drop_last() =~= calls.take(3));
    assert(calls.take(2).drop_last() =~= calls.take(1));
    assert(calls.take(1).drop_last() =~= calls.take(0));
    assert(uniform_lookups(calls.take(0)) =~= Seq::<Uniform>::empty());
    assert(uniform_lookups(calls.take(8)) =~= Seq::<Uniform>::empty());
    assert(uniform_lookups(calls) =~= generic_uniforms());
}

/// What a frame's program calls do, for the program `current` of the
/// frame's fractal: they end by setting its iteration count to the frame's;
/// they make it current and set its scaling uniform to the pixel size and
/// its offset uniform to the corner; every call that uses a program uses
/// it, every pixel size goes to its scaling uniform, every corner to its
/// offset uniform and every centre to the Julia parameter; and the Julia
/// parameter is set exactly when the frame says so.
pub proof fn lemma_frame_calls(action: FrameAction, mandelbrot: GenericProgram, julia: JuliaProgram)
    ensures
        ({
            let calls = frame_sequence(action, mandelbrot, julia);
            let current = if action.fractal == Fractal::Mandelbrot {
                mandelbrot
            } else {
                julia.generic_program
            };
            &&& calls.len() > 0
            &&& calls.last() == (GlCall::Uniform1i {
                location: current.iterations_uniform,
                value: action.iterations,
            })
            &&& calls.contains(GlCall::UseProgram { program: current.program })
            &&& calls.contains(
                GlCall::Uniform2 { location: current.scaling_uniform, value: ViewValue::Scaling },
            )
            &&& calls.contains(
                GlCall::Uniform2 { location: current.offset_uniform, value: ViewValue::Offset },
            )
            &&& forall|k: int|
                0 <= k < calls.len() ==> {
                    &&& (#[trigger] calls[k] matches GlCall::UseProgram { program } ==> program
                        == current.program)
                    &&& (calls[k] matches GlCall::Uniform2 { location, value: ViewValue::Scaling }
                        ==> location == current.scaling_uniform)
                    &&& (calls[k] matches GlCall::Uniform2 { location, value: ViewValue::Offset }
                        ==> location == current.offset_uniform)
                    &&& (calls[k] matches GlCall::Uniform2 { location, value: ViewValue::Center }
                        ==> location == julia.parameter_uniform)
                    &&& (calls[k] matches GlCall::Uniform1i { location, value } ==> location
                        == current.iterations_uniform && value == action.iterations)
                }
            &&& calls.contains(
                GlCall::Uniform2 { location: julia.parameter_uniform, value: ViewValue::Center },
            ) == action.set_julia_parameter
        }),
{
    let calls = frame_sequence(action, mandelbrot, julia);
    let current = program_for(action.fractal, mandelbrot, julia);
    let center = GlCall::Uniform2 { location: julia.parameter_uniform, value: ViewValue::Center };
    assert(calls.last() == calls[calls.len() - 1]);
    if action.set_julia_parameter {
        assert(calls[0] == GlCall::UseProgram { program: current.program });
        assert(calls[1] == center);
        assert(calls[3] == GlCall::Uniform2 { location: current.scaling_uniform, value: ViewValue::Scaling });
        assert(calls[4] == GlCall::Uniform2 { location: current.offset_uniform, value: ViewValue::Offset });
    } else {
        assert(calls[0] == GlCall::UseProgram { program: current.program });
        assert(calls[1] == GlCall::Uniform2 { location: current.scaling_uniform, value: ViewValue::Scaling });
        assert(calls[2] == GlCall::Uniform2 { location: current.offset_uniform, value: ViewValue::Offset });
        assert(!calls.contains(center)) by {
            if calls.contains(center) {
                let k = choose|k: int| 0 <= k < calls.len() && calls[k] == center;
                assert(calls[k] == center);
            }
        }
    }
}

/// What a shader build does: it creates exactly one shader, of the given
/// kind, first; it loads exactly the given source, once; it compiles the
/// shader after loading the source.
pub proof fn lemma_shader_calls<'a>(kind: ShaderKind, source: &'a str)
    ensures
        ({
            let calls = shader_sequence(kind, source);
            &&& calls[0] == (BuildCall::CreateShader { kind })
            &&& forall|k: int|
                0 <= k < calls.len() ==> {
                    &&& (#[trigger] calls[k] matches BuildCall::CreateShader { kind: made } ==> made
                        == kind && k == 0)
                    &&& (calls[k] matches BuildCall::ShaderSource { source: text } ==> text
                        == source)
                }
            &&& exists|a: int, b: int|
                0 <= a < b < calls.len() && calls[a] == (BuildCall::ShaderSource { source })
                    && calls[b] == BuildCall::CompileShader
        }),
{
    let calls = shader_sequence(kind, source);
    assert(calls[1] == (BuildCall::ShaderSource { source }));
    assert(calls[2] == BuildCall::CompileShader);
}

/// The properties every fractal program build has, for the vertex shader
/// `vertex_shader` and the fragment source `source`: it first creates a
/// fragment shader, and creates no other shader; every source it loads is
/// `source`; every existing shader it attaches is `vertex_shader`; after
/// creating the program it attaches the vertex shader and the compiled
/// fragment shader and then links; it deletes the fragment shader only
/// after linking; and it looks up the uniforms only after linking.
pub open spec fn builds_fractal_program<'a>(calls: Seq<BuildCall<'a>>, vertex_shader: u32, source: &'a str) -> bool {
    &&& calls.len() > 0
    &&& calls[0] == (BuildCall::CreateShader { kind: ShaderKind::Fragment })
    &&& forall|k: int|
        0 <= k < calls.len() ==> {
            &&& (#[trigger] calls[k] matches BuildCall::CreateShader { kind } ==> kind
                == ShaderKind::Fragment && k == 0)
            &&& (calls[k] matches BuildCall::ShaderSource { source: text } ==> text == source)
            &&& (calls[k] matches BuildCall::AttachShader { shader: ShaderRef::Existing(id) }
                ==> id == vertex_shader)
        }
    &&& exists|a: int, b: int, c: int, d: int, e: int, f: int|
        0 <= a < b < c < d < f < calls.len() && a < e < d && {
            &&& calls[a] == (BuildCall::ShaderSource { source })
            &&& calls[b] == BuildCall::CompileShader
            &&& calls[c] == BuildCall::CreateProgram
            &&& calls[e] == (BuildCall::AttachShader { shader: ShaderRef::Existing(vertex_shader) })
            &&& calls[d] == BuildCall::LinkProgram
            &&& calls[f] == BuildCall::DeleteShader
            &&& c < e
        }
    &&& exists|c: int, d: int|
        0 <= c < d < calls.len() && calls[c] == (BuildCall::AttachShader { shader: ShaderRef::Created })
            && calls[d] == BuildCall::LinkProgram
    &&& forall|k: int, l: int|
        0 <= k < calls.len() && 0 <= l < calls.len() && #[trigger] calls[k] == BuildCall::LinkProgram
            && (#[trigger] calls[l] matches BuildCall::GetUniformLocation { .. }) ==> k < l
}

/// A build that starts like a fractal program build and only looks up
/// uniforms after it has the properties of `builds_fractal_program`.
#[verifier::rlimit(40)]
proof fn lemma_fractal_build_prefix<'a>(calls: Seq<BuildCall<'a>>, vertex_shader: u32, source: &'a str)
    requires
        calls.len() >= 8,
        calls[0] == (BuildCall::CreateShader { kind: ShaderKind::Fragment }),
        calls[1] == (BuildCall::ShaderSource { source }),
        calls[2] == BuildCall::CompileShader,
        calls[3] == BuildCall::CreateProgram,
        calls[4] == (BuildCall::AttachShader { shader: ShaderRef::Existing(vertex_shader) }),
        calls[5] == (BuildCall::AttachShader { shader: ShaderRef::Created }),
        calls[6] == BuildCall::LinkProgram,
        calls[7] == BuildCall::DeleteShader,
        forall|k: int| 8 <= k < calls.len() ==> (#[trigger] calls[k] matches BuildCall::GetUniformLocation { .. }),
    ensures
        builds_fractal_program(calls, vertex_shader, source),
{
    assert forall|k: int|
        0 <= k < calls.len() implies {
            &&& (#[trigger] calls[k] matches BuildCall::CreateShader { kind } ==> kind
                == ShaderKind::Fragment && k == 0)
            &&& (calls[k] matches BuildCall::ShaderSource { source: text } ==> text == source)
            &&& (calls[k] matches BuildCall::AttachShader { shader: ShaderRef::Existing(id) }
                ==> id == vertex_shader)
        } by {
        if k >= 8 {
        } else if k == 0 {
        } else if k == 1 {
        } else if k == 2 {
        } else if k == 3 {
        } else if k == 4 {
        } else if k == 5 {
        } else if k == 6 {
        } else {
        }
    }
    assert forall|k: int, l: int|
        0 <= k < calls.len() && 0 <= l < calls.len() && #[trigger] calls[k] == BuildCall::LinkProgram
            && (#[trigger] calls[l] matches BuildCall::GetUniformLocation { .. }) implies k < l by {
        if k >= 8 {
            assert(calls[k] matches BuildCall::GetUniformLocation { .. });
        }
        if l < 8 {
            if l == 0 {
            } else if l == 1 {
            } else if l == 2 {
            } else if l == 3 {
            } else if l == 4 {
            } else if l == 5 {
            } else if l == 6 {
            } else {
            }
        }
    }
    assert(calls[1] == (BuildCall::ShaderSource { source }) && calls[2] == BuildCall::CompileShader
        && calls[3] == BuildCall::CreateProgram
        && calls[4] == (BuildCall::AttachShader { shader: ShaderRef::Existing(vertex_shader) })
        && calls[6] == BuildCall::LinkProgram && calls[7] == BuildCall::DeleteShader);
    assert(calls[5] == (BuildCall::AttachShader { shader: ShaderRef::Created }));
}

/// Both fractal program builds have the properties of
/// `builds_fractal_program`.
pub proof fn lemma_program_builds<'a>(vertex_shader: u32, source: &'a str)
    ensures
        builds_fractal_program(generic_sequence(vertex_shader, source), vertex_shader, source),
        builds_fractal_program(
            generic_sequence(vertex_shader, source).push(
                BuildCall::GetUniformLocation { uniform: Uniform::Parameter },
            ),
            vertex_shader,
            source,
        ),
{
    let g = generic_sequence(vertex_shader, source);
    let j = g.push(BuildCall::GetUniformLocation { uniform: Uniform::Parameter });
    assert(j[0] == g[0] && j[1] == g[1] && j[2] == g[2] && j[3] == g[3]);
    assert(j[4] == g[4] && j[5] == g[5] && j[6] == g[6] && j[7] == g[7]);
    assert forall|k: int| 8 <= k < g.len() implies (#[trigger] g[k] matches BuildCall::GetUniformLocation { .. }) by {
    }
    assert forall|k: int| 8 <= k < j.len() implies (#[trigger] j[k] matches BuildCall::GetUniformLocation { .. }) by {
        if k < g.len() {
            assert(j[k] == g[k]);
        }
    }
    lemma_fractal_build_prefix(g, vertex_shader, source);
    lemma_fractal_build_prefix(j, vertex_shader, source);
}

/// The program that draws `fractal`.
pub open spec fn program_for(fractal: Fractal, mandelbrot: GenericProgram, julia: JuliaProgram) -> GenericProgram {
    match fractal {
        Fractal::Mandelbrot => mandelbrot,
        Fractal::Julia => julia.generic_program,
    }
}

/// The program calls of one frame: when the frame switches to the Julia
/// set, make the Julia program current and set its parameter to the view's
/// centre; then make the frame's program current and set its scaling,
/// offset and iteration count.
pub open spec fn frame_sequence(action: FrameAction, mandelbrot: GenericProgram, julia: JuliaProgram) -> Seq<GlCall> {
    let current = program_for(action.fractal, mandelbrot, julia);
    let draw = seq![
        GlCall::UseProgram { program: current.program },
        GlCall::Uniform2 { location: current.scaling_uniform, value: ViewValue::Scaling },
        GlCall::Uniform2 { location: current.offset_uniform, value: ViewValue::Offset },
        GlCall::Uniform1i { location: current.iterations_uniform, value: action.iterations },
    ];
    if action.set_julia_parameter {
        seq![
            GlCall::UseProgram { program: current.program },
            GlCall::Uniform2 { location: julia.parameter_uniform, value: ViewValue::Center },
        ] + draw
    } else {
        draw
    }
}

/// The program calls of the frame that `action` describes.
pub fn frame_calls(action: &FrameAction, mandelbrot: &GenericProgram, julia: &JuliaProgram) -> (calls: Vec<GlCall>)
    ensures
        calls@ == frame_sequence(*action, *mandelbrot, *julia),
{
    let current = match action.fractal {
        Fractal::Mandelbrot => mandelbrot,
        Fractal::Julia => &julia.generic_program,
    };
    let mut calls = Vec::new();
    if action.set_julia_parameter {
        calls.push(current.use_program());
        calls.push(julia.set_parameter());
    }
    calls.push(current.use_program());
    calls.push(current.set_scaling());
    calls.push(current.set_offset());
    calls.push(current.set_iterations(action.iterations));
    proof {
        let draw = seq![
            GlCall::UseProgram { program: current.program },
            GlCall::Uniform2 { location: current.scaling_uniform, value: ViewValue::Scaling },
            GlCall::Uniform2 { location: current.offset_uniform, value: ViewValue::Offset },
            GlCall::Uniform1i { location: current.iterations_uniform, value: action.iterations },
        ];
        if action.set_julia_parameter {
            assert(calls@ =~= seq![
                GlCall::UseProgram { program: current.program },
                GlCall::Uniform2 { location: julia.parameter_uniform, value: ViewValue::Center },
            ] + draw);
        } else {
            assert(calls@ =~= draw);
        }
    }
    calls
}

} // verus!
