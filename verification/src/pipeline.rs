//! One rendering pass as an ordered sequence of commands: open the pass on a
//! presentation target, bind the program, write uniforms, draw, close.
//!
//! Nothing here touches the GPU. A pass is recorded through scope values that
//! make the order of operations explicit, and the finished sequence is what a
//! host submits.

use vstd::prelude::*;
use crate::mesh::{F32_ONE, F32_ZERO};
use crate::shader::{ShaderProgram, Uniform, UniformType, UniformValue};
use crate::tess::{GeometryBuffer, Mode};

verus! {

/// The back buffer that a pass renders to. A target is never resized: after a
/// resize a new one is acquired, with the next generation number.
#[derive(Clone, Copy, Debug, PartialEq, Eq)]
pub struct PresentationTarget {
    pub width: u32,
    pub height: u32,
    pub generation: u64,
}

/// Configuration of a whole pass.
#[derive(Clone, Copy, Debug, PartialEq, Eq)]
pub struct PipelineState {
    /// Color that the target is cleared to before any draw: red, green, blue
    /// and alpha, each the bit pattern of an IEEE-754 binary32 number.
    pub clear_color: [u32; 4],
}

impl PipelineState {
    /// Clears to opaque black.
    pub fn new() -> (res: PipelineState)
        ensures
            res.clear_color == [0u32, 0u32, 0u32, F32_ONE],
    {
        PipelineState { clear_color: [0, 0, 0, F32_ONE] }
    }

    /// Replaces the clear color.
    pub fn set_clear_color(self, clear_color: [u32; 4]) -> (res: PipelineState)
        ensures
            res.clear_color == clear_color,
    {
        PipelineState { clear_color }
    }
}

/// Configuration of one draw.
#[derive(Clone, Copy, Debug, PartialEq, Eq)]
pub struct RenderState {
    /// Whether fragments are blended with what the target holds.
    pub blending: bool,
    /// Whether fragments behind what the target holds are discarded.
    pub depth_test: bool,
}

impl Default for RenderState {
    /// No blending; depth test on.
    fn default() -> (res: RenderState)
        ensures
            res == (RenderState { blending: false, depth_test: true }),
    {
        RenderState { blending: false, depth_test: true }
    }
}

/// One step of a pass.
#[derive(Clone, Copy, Debug, PartialEq, Eq)]
pub enum Command {
    /// Opens the pass on `target` and clears it as `clear` says.
    BeginPass { target: PresentationTarget, clear: PipelineState },
    /// Makes `program` the program of the draws that follow.
    BindProgram { program: ShaderProgram },
    /// Writes `value` to the uniform at `location` of the bound program.
    SetUniform { location: u32, value: UniformValue },
    /// Draws the geometry buffer number `buffer`: a stream of `vertices`
    /// vertices assembled as `mode` says.
    Draw { buffer: usize, vertices: usize, mode: Mode, state: RenderState },
    /// Closes the pass.
    EndPass,
}

/// Why a uniform was not written.
#[derive(Clone, Copy, Debug, PartialEq, Eq)]
pub enum UniformError {
    /// The value is of type `found`; the uniform was declared as `expected`.
    TypeMismatch { expected: UniformType, found: UniformType },
}

/// Whether a command may stand between the binding of a program and the end
/// of the pass.
pub open spec fn in_shading_scope(c: Command) -> bool {
    c is SetUniform || c is Draw
}

/// Whether a sequence of commands is one complete pass: opened first, closed
/// last, and with every uniform write and every draw after the binding of a
/// program.
pub open spec fn well_scoped(commands: Seq<Command>) -> bool {
    &&& commands.len() >= 2
    &&& commands[0] is BeginPass
    &&& commands.last() is EndPass
    &&& commands.len() > 2 ==> commands[1] is BindProgram
    &&& forall|i: int| 2 <= i < commands.len() - 1 ==> in_shading_scope(#[trigger] commands[i])
}

/// The commands that writing `value` to `uniform` adds to a pass: none for an
/// unbound uniform, whatever the value; one write for a bound uniform and a
/// value of its type; an error for a bound uniform and a value of another
/// type.
pub open spec fn uniform_commands(uniform: Uniform, value: UniformValue) -> Result<
    Seq<Command>,
    UniformError,
> {
    match uniform.location {
        None => Ok(Seq::empty()),
        Some(location) => if value.kind() == uniform.ty {
            Ok(seq![Command::SetUniform { location, value }])
        } else {
            Err(UniformError::TypeMismatch { expected: uniform.ty, found: value.kind() })
        },
    }
}

/// Writing to an unbound uniform is never refused and records nothing,
/// whatever the value and its type.
pub proof fn lemma_unbound_uniform_is_silent(uniform: Uniform, value: UniformValue)
    requires
        uniform.location is None,
    ensures
        uniform_commands(uniform, value) == Ok::<Seq<Command>, UniformError>(Seq::empty()),
{
}

/// The command that draws `geometry` as buffer number `buffer`.
pub open spec fn draw_command(buffer: int, geometry: GeometryBuffer, state: RenderState) -> Command {
    Command::Draw {
        buffer: buffer as usize,
        vertices: geometry@.vertex_count() as usize,
        mode: geometry@.mode,
        state,
    }
}

/// An open pass in which no program is bound yet.
#[derive(Debug)]
pub struct Pass {
    target: PresentationTarget,
    state: PipelineState,
}

impl Pass {
    /// The commands recorded so far.
    pub closed spec fn commands(&self) -> Seq<Command> {
        seq![Command::BeginPass { target: self.target, clear: self.state }]
    }

    /// Opens a pass on `target`.
    pub fn open(target: PresentationTarget, state: &PipelineState) -> (res: Pass)
        ensures
            res.commands() == seq![Command::BeginPass { target, clear: *state }],
    {
        Pass { target, state: *state }
    }

    /// Binds `program` and enters the scope in which its uniforms are written
    /// and geometry is drawn.
    pub fn bind(self, program: &ShaderProgram) -> (res: UniformWriter)
        ensures
            res.commands() == self.commands() + seq![Command::BindProgram { program: *program }],
    {
        let mut commands: Vec<Command> = Vec::new();
        commands.push(Command::BeginPass { target: self.target, clear: self.state });
        commands.push(Command::BindProgram { program: *program });
        UniformWriter { commands }
    }

    /// Closes the pass.
    pub fn end(self) -> (res: Vec<Command>)
        ensures
            res@ == self.commands() + seq![Command::EndPass],
            well_scoped(res@),
    {
        let mut commands: Vec<Command> = Vec::new();
        commands.push(Command::BeginPass { target: self.target, clear: self.state });
        commands.push(Command::EndPass);
        commands
    }
}

/// An open pass with a program bound: the scope in which uniforms are written
/// and geometry is drawn.
#[derive(Debug)]
pub struct UniformWriter {
    commands: Vec<Command>,
}

impl UniformWriter {
    #[verifier::type_invariant]
    spec fn scoped(self) -> bool {
        &&& self.commands@.len() >= 2
        &&& self.commands@[0] is BeginPass
        &&& self.commands@[1] is BindProgram
        &&& forall|i: int| 2 <= i < self.commands@.len() ==> in_shading_scope(#[trigger] self.commands@[i])
    }

    /// The commands recorded so far.
    pub closed spec fn commands(&self) -> Seq<Command> {
        self.commands@
    }

    /// Writes `value` to `uniform`.
    ///
    /// An unbound uniform takes any value and nothing is recorded. A bound
    /// uniform takes a value of its declared type, and one write is recorded;
    /// a value of another type is refused, and the scope is given up.
    pub fn set(self, uniform: &Uniform, value: UniformValue) -> (res: Result<
        UniformWriter,
        UniformError,
    >)
        ensures
            match uniform_commands(*uniform, value) {
                Ok(added) => res matches Ok(writer) && writer.commands() == self.commands() + added,
                Err(e) => res matches Err(refusal) && refusal == e,
            },
            uniform.location is None ==> (res matches Ok(writer) && writer.commands()
                == self.commands()),
    {
        match uniform.location {
            None => Ok(self),
            Some(location) => {
                let found = value.ty();
                if found == uniform.ty {
                    proof {
                        use_type_invariant(&self);
                    }
                    let mut commands = self.commands;
                    commands.push(Command::SetUniform { location, value });
                    Ok(UniformWriter { commands })
                } else {
                    Err(UniformError::TypeMismatch { expected: uniform.ty, found })
                }
            },
        }
    }

    /// Draws `geometry`, known to the host as buffer number `buffer`.
    pub fn draw(
        self,
        buffer: usize,
        geometry: &GeometryBuffer,
        state: &RenderState,
    ) -> (res: UniformWriter)
        ensures
            res.commands() == self.commands().push(draw_command(buffer as int, *geometry, *state)),
    {
        proof {
            use_type_invariant(&self);
        }
        let mut commands = self.commands;
        commands.push(
            Command::Draw {
                buffer,
                vertices: geometry.vertex_count(),
                mode: geometry.mode(),
                state: *state,
            },
        );
        UniformWriter { commands }
    }

    /// Leaves the scope and closes the pass.
    pub fn end(self) -> (res: Vec<Command>)
        ensures
            res@ == self.commands().push(Command::EndPass),
            well_scoped(res@),
    {
        proof {
            use_type_invariant(&self);
        }
        let mut commands = self.commands;
        commands.push(Command::EndPass);
        commands
    }
}

/// Bit pattern of the binary32 number nearest to `0.8`.
pub const F32_FOUR_FIFTHS: u32 = 0x3F4C_CCCD;

/// Bit pattern of the binary32 number nearest to `0.6`.
pub const F32_THREE_FIFTHS: u32 = 0x3F19_999A;

/// The 4x4 identity matrix.
pub open spec fn identity_matrix() -> UniformValue {
    UniformValue::M44(
        [
            [F32_ONE, F32_ZERO, F32_ZERO, F32_ZERO],
            [F32_ZERO, F32_ONE, F32_ZERO, F32_ZERO],
            [F32_ZERO, F32_ZERO, F32_ONE, F32_ZERO],
            [F32_ZERO, F32_ZERO, F32_ZERO, F32_ONE],
        ],
    )
}

/// The clear color of a new scene: a pale green.
pub open spec fn default_clear_color() -> [u32; 4] {
    [F32_FOUR_FIFTHS, F32_ONE, F32_THREE_FIFTHS, F32_ONE]
}

/// Everything that one frame renders: how the target is cleared, the program
/// with the values of its uniforms, and the geometry buffers in draw order.
/// Nothing in it changes from frame to frame.
#[derive(Debug)]
pub struct Scene {
    pub clear: PipelineState,
    pub render_state: RenderState,
    pub program: ShaderProgram,
    pub projection: UniformValue,
    pub view: UniformValue,
    pub buffers: Vec<GeometryBuffer>,
}

impl Scene {
    /// The uniform writes of a frame: projection, then view.
    pub open spec fn uniforms(self) -> Result<Seq<Command>, UniformError> {
        match uniform_commands(self.program.interface.projection, self.projection) {
            Err(e) => Err(e),
            Ok(projection) => match uniform_commands(self.program.interface.view, self.view) {
                Err(e) => Err(e),
                Ok(view) => Ok(projection + view),
            },
        }
    }

    /// The draws of a frame: one per buffer, in order.
    pub open spec fn draws(self) -> Seq<Command> {
        Seq::new(
            self.buffers@.len(),
            |i: int| draw_command(i, self.buffers@[i], self.render_state),
        )
    }

    /// The pass that renders this scene to `target`, or the reason why a
    /// uniform cannot be written.
    pub open spec fn frame(self, target: PresentationTarget) -> Result<Seq<Command>, UniformError> {
        match self.uniforms() {
            Err(e) => Err(e),
            Ok(uniforms) => Ok(
                seq![
                    Command::BeginPass { target, clear: self.clear },
                    Command::BindProgram { program: self.program },
                ] + uniforms + self.draws() + seq![Command::EndPass],
            ),
        }
    }

    /// A scene that draws `buffers` with `program`: pale green clear color,
    /// default render state, identity projection and view.
    pub fn new(program: ShaderProgram, buffers: Vec<GeometryBuffer>) -> (res: Scene)
        ensures
            res.clear.clear_color == default_clear_color(),
            res.render_state == (RenderState { blending: false, depth_test: true }),
            res.program == program,
            res.projection == identity_matrix(),
            res.view == identity_matrix(),
            res.buffers == buffers,
    {
        let identity = UniformValue::M44(
            [
                [F32_ONE, F32_ZERO, F32_ZERO, F32_ZERO],
                [F32_ZERO, F32_ONE, F32_ZERO, F32_ZERO],
                [F32_ZERO, F32_ZERO, F32_ONE, F32_ZERO],
                [F32_ZERO, F32_ZERO, F32_ZERO, F32_ONE],
            ],
        );
        Scene {
            clear: PipelineState::new().set_clear_color(
                [F32_FOUR_FIFTHS, F32_ONE, F32_THREE_FIFTHS, F32_ONE],
            ),
            render_state: RenderState::default(),
            program,
            projection: identity,
            view: identity,
            buffers,
        }
    }

    /// Records the pass that renders this scene to `target`: open the pass,
    /// bind the program, write projection and view, draw every buffer once
    /// in order, close the pass. Where a uniform refuses its value nothing is
    /// recorded.
    pub fn record(&self, target: PresentationTarget) -> (res: Result<Vec<Command>, UniformError>)
        ensures
            match self.frame(target) {
                Ok(commands) => res matches Ok(recorded) && recorded@ == commands,
                Err(e) => res matches Err(refusal) && refusal == e,
            },
            res matches Ok(recorded) ==> well_scoped(recorded@),
    {
        let writer = Pass::open(target, &self.clear).bind(&self.program);
        let writer = match writer.set(&self.program.interface.projection, self.projection) {
            Ok(writer) => writer,
            Err(e) => {
                return Err(e);
            },
        };
        let mut writer = match writer.set(&self.program.interface.view, self.view) {
            Ok(writer) => writer,
            Err(e) => {
                return Err(e);
            },
        };
        let ghost head = writer.commands();
        let mut i: usize = 0;
        while i < self.buffers.len()
            invariant
                i <= self.buffers.len(),
                writer.commands() == head + self.draws().take(i as int),
            decreases self.buffers.len() - i,
        {
            writer = writer.draw(i, &self.buffers[i], &self.render_state);
            assert(self.draws().take(i as int + 1) =~= self.draws().take(i as int).push(
                self.draws()[i as int],
            ));
            i += 1;
        }
        let recorded = writer.end();
        assert(recorded@ =~= self.frame(target).unwrap());
        Ok(recorded)
    }
    /// Where the program uses neither declared uniform, the values given for
    /// them have no effect on the frame: it is the pass that clears, binds
    /// and draws, whatever those values are.
    pub proof fn lemma_unbound_uniforms_leave_no_trace(self, target: PresentationTarget)
        requires
            self.program.interface.projection.location is None,
            self.program.interface.view.location is None,
        ensures
            self.frame(target) == Ok::<Seq<Command>, UniformError>(
                seq![
                    Command::BeginPass { target, clear: self.clear },
                    Command::BindProgram { program: self.program },
                ] + self.draws() + seq![Command::EndPass],
            ),
    {
        assert(self.frame(target).unwrap() =~= seq![
            Command::BeginPass { target, clear: self.clear },
            Command::BindProgram { program: self.program },
        ] + self.draws() + seq![Command::EndPass]);
    }

    /// The frame of a scene is one complete pass that opens on the given
    /// target and on no other.
    pub proof fn lemma_frame_is_one_pass(self, target: PresentationTarget)
        ensures
            self.frame(target) matches Ok(commands) ==> {
                &&& well_scoped(commands)
                &&& commands[0] == (Command::BeginPass { target, clear: self.clear })
                &&& forall|i: int| 0 < i < commands.len() ==> !(#[trigger] commands[i] is BeginPass)
            },
    {
    }
}

} // verus!
