//! Shader programs: what the shader compiler hands back, the declared uniform
//! interface, and the resolution of each declared uniform to a location of the
//! linked program.
//!
//! Compiling shader text is left to the graphics driver. This module takes the
//! compiler's answer and does the rest.

use vstd::prelude::*;
use vstd::string::StringExecFns;
use crate::mesh::VertexSemantics;

verus! {

/// A stage of a shader program.
#[derive(Clone, Copy, Debug, PartialEq, Eq, Structural)]
pub enum StageType {
    VertexShader,
    TessellationControlShader,
    TessellationEvaluationShader,
    GeometryShader,
    FragmentShader,
}

/// Why no program could be made.
#[derive(Debug, PartialEq, Eq)]
pub enum CompileError {
    /// A stage did not compile; `message` is the compiler's diagnostic.
    StageFailed { stage: StageType, message: String },
    /// Every stage compiled but the program did not link.
    LinkFailed { message: String },
}

/// Type of a uniform value.
#[derive(Clone, Copy, Debug, PartialEq, Eq, Structural)]
pub enum UniformType {
    Float,
    Vec2,
    Vec3,
    Vec4,
    M44,
}

/// A uniform value. Every component is the bit pattern of an IEEE-754
/// binary32 number; a matrix is stored column by column.
#[derive(Clone, Copy, Debug, PartialEq, Eq)]
pub enum UniformValue {
    Float(u32),
    Vec2([u32; 2]),
    Vec3([u32; 3]),
    Vec4([u32; 4]),
    M44([[u32; 4]; 4]),
}

impl UniformValue {
    /// The type of the value.
    pub open spec fn kind(self) -> UniformType {
        match self {
            UniformValue::Float(_) => UniformType::Float,
            UniformValue::Vec2(_) => UniformType::Vec2,
            UniformValue::Vec3(_) => UniformType::Vec3,
            UniformValue::Vec4(_) => UniformType::Vec4,
            UniformValue::M44(_) => UniformType::M44,
        }
    }

    /// The type of the value.
    pub fn ty(&self) -> (t: UniformType)
        ensures
            t == self.kind(),
    {
        match self {
            UniformValue::Float(_) => UniformType::Float,
            UniformValue::Vec2(_) => UniformType::Vec2,
            UniformValue::Vec3(_) => UniformType::Vec3,
            UniformValue::Vec4(_) => UniformType::Vec4,
            UniformValue::M44(_) => UniformType::M44,
        }
    }
}

/// The closed set of uniforms that the program interface declares.
#[derive(Clone, Copy, Debug, PartialEq, Eq, Structural)]
pub enum UniformSlot {
    /// The projection matrix, read as `projection` by shaders.
    Projection,
    /// The view matrix, read as `view` by shaders.
    View,
}

impl UniformSlot {
    /// Name under which shaders read the uniform.
    pub open spec fn label(self) -> Seq<char> {
        match self {
            UniformSlot::Projection => "projection"@,
            UniformSlot::View => "view"@,
        }
    }

    /// Declared type of the uniform.
    pub open spec fn kind(self) -> UniformType {
        UniformType::M44
    }

    /// Name under which shaders read the uniform.
    pub fn name(&self) -> (s: &'static str)
        ensures
            s@ == self.label(),
    {
        match self {
            UniformSlot::Projection => "projection",
            UniformSlot::View => "view",
        }
    }

    /// Declared type of the uniform.
    pub fn ty(&self) -> (t: UniformType)
        ensures
            t == self.kind(),
    {
        UniformType::M44
    }
}

/// A uniform that a linked program uses, as the compiler reports it.
#[derive(Debug, PartialEq, Eq)]
pub struct ActiveUniform {
    pub name: String,
    pub ty: UniformType,
    pub location: u32,
}

/// What the shader compiler hands back for one set of stage sources.
#[derive(Debug, PartialEq, Eq)]
pub enum CompilerOutput {
    /// A stage did not compile.
    StageFailed { stage: StageType, message: String },
    /// Every stage compiled but the program did not link.
    LinkFailed { message: String },
    /// The program linked; these are the vertex attributes and the uniforms
    /// that it uses.
    Linked { attributes: Vec<String>, uniforms: Vec<ActiveUniform> },
}

/// A declared uniform after resolution: the location it is written to, or no
/// location where the program does not use it.
#[derive(Clone, Copy, Debug, PartialEq, Eq)]
pub struct Uniform {
    pub location: Option<u32>,
    pub ty: UniformType,
}

impl Uniform {
    /// Whether writes to this uniform reach the program.
    pub fn is_bound(&self) -> (b: bool)
        ensures
            b == self.location is Some,
    {
        self.location.is_some()
    }
}

/// Why a declared uniform could not be bound.
#[derive(Clone, Copy, Debug, PartialEq, Eq)]
pub enum UniformWarning {
    /// The program does not use a uniform of that name.
    Inactive(UniformSlot),
    /// The program uses a uniform of that name with another type, given here.
    TypeMismatch(UniformSlot, UniformType),
}

/// A finding that does not prevent a program from being used.
#[derive(Clone, Copy, Debug, PartialEq, Eq)]
pub enum ProgramWarning {
    /// A declared uniform could not be bound and was left unbound.
    Uniform(UniformWarning),
    /// The program does not read this vertex attribute.
    InactiveAttribute(VertexSemantics),
}

/// The first uniform named `name` among `active[from..]`, if any.
pub open spec fn find_uniform_from(active: Seq<ActiveUniform>, name: Seq<char>, from: int) -> Option<
    ActiveUniform,
>
    decreases active.len() - from,
{
    if from < 0 || from >= active.len() {
        None
    } else if active[from].name@ == name {
        Some(active[from])
    } else {
        find_uniform_from(active, name, from + 1)
    }
}

/// The first uniform named `name` among `active`, if any.
pub open spec fn find_uniform(active: Seq<ActiveUniform>, name: Seq<char>) -> Option<ActiveUniform> {
    find_uniform_from(active, name, 0)
}

/// The outcome of binding `slot` against the uniforms that a program uses.
pub open spec fn resolve(active: Seq<ActiveUniform>, slot: UniformSlot) -> Result<
    Uniform,
    UniformWarning,
> {
    match find_uniform(active, slot.label()) {
        None => Err(UniformWarning::Inactive(slot)),
        Some(found) => if found.ty == slot.kind() {
            Ok(Uniform { location: Some(found.location), ty: slot.kind() })
        } else {
            Err(UniformWarning::TypeMismatch(slot, found.ty))
        },
    }
}

/// A name that no uniform of the program bears is not found.
pub proof fn lemma_absent_name_not_found(active: Seq<ActiveUniform>, name: Seq<char>, from: int)
    requires
        0 <= from,
        forall|i: int| 0 <= i < active.len() ==> (#[trigger] active[i]).name@ != name,
    ensures
        find_uniform_from(active, name, from) is None,
    decreases active.len() - from,
{
    if from < active.len() {
        lemma_absent_name_not_found(active, name, from + 1);
    }
}

/// The uniform that `slot` resolves to when absence is tolerated.
pub open spec fn resolve_or_unbound(active: Seq<ActiveUniform>, slot: UniformSlot) -> Uniform {
    match resolve(active, slot) {
        Ok(uniform) => uniform,
        Err(_) => Uniform { location: None, ty: slot.kind() },
    }
}

/// The warning, if any, that resolving `slot` with tolerance leaves behind.
pub open spec fn uniform_warning(active: Seq<ActiveUniform>, slot: UniformSlot) -> Seq<
    ProgramWarning,
> {
    match resolve(active, slot) {
        Ok(_) => Seq::empty(),
        Err(w) => seq![ProgramWarning::Uniform(w)],
    }
}

/// Whether the program reads the vertex attribute `sem`.
pub open spec fn attribute_active(attributes: Seq<String>, sem: VertexSemantics) -> bool {
    exists|i: int| 0 <= i < attributes.len() && (#[trigger] attributes[i])@ == sem.label()
}

/// The warning, if any, for a vertex attribute of the semantics table.
pub open spec fn attribute_warning(attributes: Seq<String>, sem: VertexSemantics) -> Seq<
    ProgramWarning,
> {
    if attribute_active(attributes, sem) {
        Seq::empty()
    } else {
        seq![ProgramWarning::InactiveAttribute(sem)]
    }
}

/// Resolves declared uniforms against the uniforms that a program uses, and
/// collects a warning for each one left unbound.
#[derive(Debug)]
pub struct UniformBuilder {
    active: Vec<ActiveUniform>,
    warnings: Vec<ProgramWarning>,
}

impl UniformBuilder {
    /// The uniforms that the program uses.
    pub closed spec fn active(&self) -> Seq<ActiveUniform> {
        self.active@
    }

    /// The warnings collected so far.
    pub closed spec fn warnings(&self) -> Seq<ProgramWarning> {
        self.warnings@
    }

    /// A builder over the uniforms that a program uses, with no warnings.
    pub fn new(active: Vec<ActiveUniform>) -> (res: UniformBuilder)
        ensures
            res.active() == active@,
            res.warnings() == Seq::<ProgramWarning>::empty(),
    {
        UniformBuilder { active, warnings: Vec::new() }
    }

    /// Binds `slot`, or says why it cannot be bound.
    pub fn ask(&self, slot: UniformSlot) -> (res: Result<Uniform, UniformWarning>)
        ensures
            res == resolve(self.active(), slot),
    {
        let wanted = String::from_str(slot.name());
        let mut i: usize = 0;
        while i < self.active.len()
            invariant
                i <= self.active.len(),
                wanted@ == slot.label(),
                find_uniform(self.active@, slot.label()) == find_uniform_from(
                    self.active@,
                    slot.label(),
                    i as int,
                ),
            decreases self.active.len() - i,
        {
            if self.active[i].name == wanted {
                let found = &self.active[i];
                return if found.ty == slot.ty() {
                    Ok(Uniform { location: Some(found.location), ty: slot.ty() })
                } else {
                    Err(UniformWarning::TypeMismatch(slot, found.ty))
                };
            }
            i += 1;
        }
        Err(UniformWarning::Inactive(slot))
    }

    /// Binds `slot`; where it cannot be bound, hands out an unbound uniform
    /// and keeps the reason as a warning.
    pub fn ask_or_unbound(&mut self, slot: UniformSlot) -> (res: Uniform)
        ensures
            res == resolve_or_unbound(old(self).active(), slot),
            final(self).active() == old(self).active(),
            final(self).warnings() == old(self).warnings() + uniform_warning(
                old(self).active(),
                slot,
            ),
    {
        match self.ask(slot) {
            Ok(uniform) => uniform,
            Err(w) => {
                self.warnings.push(ProgramWarning::Uniform(w));
                Uniform { location: None, ty: slot.ty() }
            },
        }
    }

    /// Hands over the warnings collected.
    pub fn into_warnings(self) -> (res: Vec<ProgramWarning>)
        ensures
            res@ == self.warnings(),
    {
        self.warnings
    }
}

/// The uniform interface of the program: one resolved uniform per declared
/// slot. Both tolerate absence.
#[derive(Clone, Copy, Debug, PartialEq, Eq)]
pub struct ShaderInterface {
    pub projection: Uniform,
    pub view: Uniform,
}

impl ShaderInterface {
    /// The interface that the uniforms of a program resolve to.
    pub open spec fn of(active: Seq<ActiveUniform>) -> ShaderInterface {
        ShaderInterface {
            projection: resolve_or_unbound(active, UniformSlot::Projection),
            view: resolve_or_unbound(active, UniformSlot::View),
        }
    }

    /// The resolved uniform of a declared slot.
    pub open spec fn slot(self, slot: UniformSlot) -> Uniform {
        match slot {
            UniformSlot::Projection => self.projection,
            UniformSlot::View => self.view,
        }
    }

    /// A declared uniform that the program does not use is left unbound.
    pub proof fn lemma_absent_uniform_is_unbound(active: Seq<ActiveUniform>, slot: UniformSlot)
        requires
            forall|i: int| 0 <= i < active.len() ==> (#[trigger] active[i]).name@ != slot.label(),
        ensures
            ShaderInterface::of(active).slot(slot) == (Uniform { location: None, ty: slot.kind() }),
    {
        lemma_absent_name_not_found(active, slot.label(), 0);
    }

    /// Resolves every declared slot, projection first.
    pub fn uniform_interface(builder: &mut UniformBuilder) -> (res: ShaderInterface)
        ensures
            res == ShaderInterface::of(old(builder).active()),
            final(builder).active() == old(builder).active(),
            final(builder).warnings() == old(builder).warnings() + uniform_warning(
                old(builder).active(),
                UniformSlot::Projection,
            ) + uniform_warning(old(builder).active(), UniformSlot::View),
    {
        let projection = builder.ask_or_unbound(UniformSlot::Projection);
        let view = builder.ask_or_unbound(UniformSlot::View);
        ShaderInterface { projection, view }
    }

    /// The resolved uniform of a declared slot.
    pub fn get(&self, slot: UniformSlot) -> (res: Uniform)
        ensures
            res == self.slot(slot),
    {
        match slot {
            UniformSlot::Projection => self.projection,
            UniformSlot::View => self.view,
        }
    }
}

/// A linked program: the resolved uniform interface through which its
/// uniforms are written.
#[derive(Clone, Copy, Debug, PartialEq, Eq)]
pub struct ShaderProgram {
    pub interface: ShaderInterface,
}

/// A linked program together with what was found while linking.
#[derive(Debug, PartialEq, Eq)]
pub struct BuiltProgram {
    pub program: ShaderProgram,
    pub warnings: Vec<ProgramWarning>,
}

impl BuiltProgram {
    /// The program, without the warnings.
    pub fn ignore_warnings(self) -> (res: ShaderProgram)
        ensures
            res == self.program,
    {
        self.program
    }
}

/// The warnings of a linked program: inactive vertex attributes in slot
/// order, then unbound uniforms in declaration order.
pub open spec fn link_warnings(attributes: Seq<String>, uniforms: Seq<ActiveUniform>) -> Seq<
    ProgramWarning,
> {
    attribute_warning(attributes, VertexSemantics::Position) + attribute_warning(
        attributes,
        VertexSemantics::Color,
    ) + uniform_warning(uniforms, UniformSlot::Projection) + uniform_warning(
        uniforms,
        UniformSlot::View,
    )
}

/// Whether the program reads the vertex attribute `sem`.
pub fn reads_attribute(attributes: &Vec<String>, sem: VertexSemantics) -> (b: bool)
    ensures
        b == attribute_active(attributes@, sem),
{
    let wanted = String::from_str(sem.name());
    let mut i: usize = 0;
    while i < attributes.len()
        invariant
            i <= attributes.len(),
            wanted@ == sem.label(),
            forall|j: int| 0 <= j < i ==> (#[trigger] attributes@[j])@ != sem.label(),
        decreases attributes.len() - i,
    {
        if attributes[i] == wanted {
            return true;
        }
        i += 1;
    }
    false
}

impl ShaderProgram {
    /// Makes a program of the compiler's answer.
    ///
    /// A stage or link failure is passed on with its diagnostic. A linked
    /// program always yields a program: every declared uniform is resolved
    /// against the uniforms in use, and what is absent is left unbound and
    /// reported as a warning, as is every vertex attribute of the semantics
    /// table that the program does not read.
    pub fn link(output: CompilerOutput) -> (res: Result<BuiltProgram, CompileError>)
        ensures
            match output {
                CompilerOutput::StageFailed { stage, message } => res == Err::<
                    BuiltProgram,
                    CompileError,
                >(CompileError::StageFailed { stage, message }),
                CompilerOutput::LinkFailed { message } => res == Err::<BuiltProgram, CompileError>(
                    CompileError::LinkFailed { message },
                ),
                CompilerOutput::Linked { attributes, uniforms } => {
                    &&& res matches Ok(built)
                    &&& built.program.interface == ShaderInterface::of(uniforms@)
                    &&& built.warnings@ == link_warnings(attributes@, uniforms@)
                },
            },
    {
        match output {
            CompilerOutput::StageFailed { stage, message } => Err(
                CompileError::StageFailed { stage, message },
            ),
            CompilerOutput::LinkFailed { message } => Err(CompileError::LinkFailed { message }),
            CompilerOutput::Linked { attributes, uniforms } => {
                let mut warnings: Vec<ProgramWarning> = Vec::new();
                if !reads_attribute(&attributes, VertexSemantics::Position) {
                    warnings.push(ProgramWarning::InactiveAttribute(VertexSemantics::Position));
                }
                if !reads_attribute(&attributes, VertexSemantics::Color) {
                    warnings.push(ProgramWarning::InactiveAttribute(VertexSemantics::Color));
                }
                let mut builder = UniformBuilder::new(uniforms);
                let interface = ShaderInterface::uniform_interface(&mut builder);
                let mut uniform_warnings = builder.into_warnings();
                warnings.append(&mut uniform_warnings);
                assert(warnings@ =~= link_warnings(attributes@, uniforms@));
                Ok(BuiltProgram { program: ShaderProgram { interface }, warnings })
            },
        }
    }
}

/// Makes the program of the scene of the compiler's answer, discarding
/// warnings.
pub fn get_shader(output: CompilerOutput) -> (res: Result<ShaderProgram, CompileError>)
    ensures
        match output {
            CompilerOutput::StageFailed { stage, message } => res == Err::<
                ShaderProgram,
                CompileError,
            >(CompileError::StageFailed { stage, message }),
            CompilerOutput::LinkFailed { message } => res == Err::<ShaderProgram, CompileError>(
                CompileError::LinkFailed { message },
            ),
            CompilerOutput::Linked { attributes, uniforms } => res == Ok::<
                ShaderProgram,
                CompileError,
            >(ShaderProgram { interface: ShaderInterface::of(uniforms@) }),
        },
{
    match ShaderProgram::link(output) {
        Ok(built) => Ok(built.ignore_warnings()),
        Err(e) => Err(e),
    }
}

} // verus!
