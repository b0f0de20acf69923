use render_loop::mesh::VertexSemantics;
use render_loop::shader::{
    get_shader, ActiveUniform, BuiltProgram, CompileError, CompilerOutput, ProgramWarning,
    ShaderInterface, ShaderProgram, StageType, Uniform, UniformBuilder, UniformSlot, UniformType,
    UniformValue, UniformWarning,
};

fn active(name: &str, ty: UniformType, location: u32) -> ActiveUniform {
    ActiveUniform { name: name.to_string(), ty, location }
}

fn attributes(names: &[&str]) -> Vec<String> {
    names.iter().map(|n| n.to_string()).collect()
}

fn bound(location: u32) -> Uniform {
    Uniform { location: Some(location), ty: UniformType::M44 }
}

fn unbound() -> Uniform {
    Uniform { location: None, ty: UniformType::M44 }
}

#[test]
fn declared_uniforms_are_matrices_with_fixed_names() {
    assert_eq!(UniformSlot::Projection.name(), "projection");
    assert_eq!(UniformSlot::View.name(), "view");
    assert_eq!(UniformSlot::Projection.ty(), UniformType::M44);
    assert_eq!(UniformSlot::View.ty(), UniformType::M44);
}

#[test]
fn value_types() {
    assert_eq!(UniformValue::Float(0).ty(), UniformType::Float);
    assert_eq!(UniformValue::Vec2([0; 2]).ty(), UniformType::Vec2);
    assert_eq!(UniformValue::Vec3([0; 3]).ty(), UniformType::Vec3);
    assert_eq!(UniformValue::Vec4([0; 4]).ty(), UniformType::Vec4);
    assert_eq!(UniformValue::M44([[0; 4]; 4]).ty(), UniformType::M44);
}

#[test]
fn stage_failure_is_passed_on() {
    let output = CompilerOutput::StageFailed {
        stage: StageType::FragmentShader,
        message: "0:3: syntax error".to_string(),
    };
    assert_eq!(
        ShaderProgram::link(output),
        Err(CompileError::StageFailed {
            stage: StageType::FragmentShader,
            message: "0:3: syntax error".to_string(),
        })
    );
    let output = CompilerOutput::StageFailed {
        stage: StageType::VertexShader,
        message: "bad".to_string(),
    };
    assert_eq!(
        get_shader(output),
        Err(CompileError::StageFailed { stage: StageType::VertexShader, message: "bad".to_string() })
    );
}

#[test]
fn link_failure_is_passed_on() {
    let output = CompilerOutput::LinkFailed { message: "unresolved varying".to_string() };
    assert_eq!(
        ShaderProgram::link(output),
        Err(CompileError::LinkFailed { message: "unresolved varying".to_string() })
    );
    let output = CompilerOutput::LinkFailed { message: "unresolved varying".to_string() };
    assert_eq!(
        get_shader(output),
        Err(CompileError::LinkFailed { message: "unresolved varying".to_string() })
    );
}

#[test]
fn uniforms_in_use_are_bound_to_their_locations() {
    let output = CompilerOutput::Linked {
        attributes: attributes(&["position", "color"]),
        uniforms: vec![
            active("view", UniformType::M44, 4),
            active("time", UniformType::Float, 1),
            active("projection", UniformType::M44, 0),
        ],
    };
    let built = ShaderProgram::link(output).unwrap();
    assert_eq!(
        built,
        BuiltProgram {
            program: ShaderProgram {
                interface: ShaderInterface { projection: bound(0), view: bound(4) },
            },
            warnings: vec![],
        }
    );
    assert!(built.program.interface.projection.is_bound());
    assert_eq!(built.program.interface.get(UniformSlot::Projection), bound(0));
    assert_eq!(built.program.interface.get(UniformSlot::View), bound(4));
}

#[test]
fn absent_uniforms_are_left_unbound_with_a_warning() {
    let output = CompilerOutput::Linked {
        attributes: attributes(&["color", "position"]),
        uniforms: vec![active("view", UniformType::M44, 2)],
    };
    let built = ShaderProgram::link(output).unwrap();
    assert_eq!(built.program.interface, ShaderInterface { projection: unbound(), view: bound(2) });
    assert!(!built.program.interface.projection.is_bound());
    assert_eq!(
        built.warnings,
        vec![ProgramWarning::Uniform(UniformWarning::Inactive(UniformSlot::Projection))]
    );
}

#[test]
fn uniforms_of_another_type_are_left_unbound_with_a_warning() {
    let output = CompilerOutput::Linked {
        attributes: attributes(&["position", "color"]),
        uniforms: vec![
            active("projection", UniformType::M44, 0),
            active("view", UniformType::Vec4, 1),
        ],
    };
    let built = ShaderProgram::link(output).unwrap();
    assert_eq!(built.program.interface, ShaderInterface { projection: bound(0), view: unbound() });
    assert_eq!(
        built.warnings,
        vec![ProgramWarning::Uniform(UniformWarning::TypeMismatch(
            UniformSlot::View,
            UniformType::Vec4
        ))]
    );
}

#[test]
fn warnings_come_in_table_order() {
    let output = CompilerOutput::Linked { attributes: vec![], uniforms: vec![] };
    let built = ShaderProgram::link(output).unwrap();
    assert_eq!(built.program.interface, ShaderInterface { projection: unbound(), view: unbound() });
    assert_eq!(
        built.warnings,
        vec![
            ProgramWarning::InactiveAttribute(VertexSemantics::Position),
            ProgramWarning::InactiveAttribute(VertexSemantics::Color),
            ProgramWarning::Uniform(UniformWarning::Inactive(UniformSlot::Projection)),
            ProgramWarning::Uniform(UniformWarning::Inactive(UniformSlot::View)),
        ]
    );
}

#[test]
fn attributes_that_the_program_does_not_read_are_warned_about() {
    let output = CompilerOutput::Linked {
        attributes: attributes(&["gl_VertexID", "position"]),
        uniforms: vec![
            active("projection", UniformType::M44, 0),
            active("view", UniformType::M44, 1),
        ],
    };
    let built = ShaderProgram::link(output).unwrap();
    assert_eq!(built.warnings, vec![ProgramWarning::InactiveAttribute(VertexSemantics::Color)]);
}

#[test]
fn first_uniform_of_a_name_is_the_one_bound() {
    let builder = UniformBuilder::new(vec![
        active("projection", UniformType::Float, 9),
        active("projection", UniformType::M44, 3),
        active("view", UniformType::M44, 5),
        active("view", UniformType::M44, 6),
    ]);
    assert_eq!(
        builder.ask(UniformSlot::Projection),
        Err(UniformWarning::TypeMismatch(UniformSlot::Projection, UniformType::Float))
    );
    assert_eq!(builder.ask(UniformSlot::View), Ok(bound(5)));
}

#[test]
fn strict_lookup_reports_absence() {
    let builder = UniformBuilder::new(vec![active("Projection", UniformType::M44, 0)]);
    assert_eq!(
        builder.ask(UniformSlot::Projection),
        Err(UniformWarning::Inactive(UniformSlot::Projection))
    );
    let builder = UniformBuilder::new(vec![]);
    assert_eq!(builder.ask(UniformSlot::View), Err(UniformWarning::Inactive(UniformSlot::View)));
}

#[test]
fn tolerant_lookup_collects_warnings() {
    let mut builder = UniformBuilder::new(vec![active("view", UniformType::Vec3, 0)]);
    assert_eq!(builder.ask_or_unbound(UniformSlot::View), unbound());
    assert_eq!(builder.ask_or_unbound(UniformSlot::Projection), unbound());
    assert_eq!(
        builder.into_warnings(),
        vec![
            ProgramWarning::Uniform(UniformWarning::TypeMismatch(
                UniformSlot::View,
                UniformType::Vec3
            )),
            ProgramWarning::Uniform(UniformWarning::Inactive(UniformSlot::Projection)),
        ]
    );
    let mut builder = UniformBuilder::new(vec![active("view", UniformType::M44, 8)]);
    assert_eq!(builder.ask_or_unbound(UniformSlot::View), bound(8));
    assert_eq!(builder.into_warnings(), vec![]);
}

#[test]
fn interface_is_resolved_projection_first() {
    let mut builder = UniformBuilder::new(vec![active("projection", UniformType::M44, 1)]);
    let interface = ShaderInterface::uniform_interface(&mut builder);
    assert_eq!(interface, ShaderInterface { projection: bound(1), view: unbound() });
    assert_eq!(
        builder.into_warnings(),
        vec![ProgramWarning::Uniform(UniformWarning::Inactive(UniformSlot::View))]
    );
}

#[test]
fn get_shader_discards_warnings() {
    let output = CompilerOutput::Linked {
        attributes: attributes(&["position"]),
        uniforms: vec![active("projection", UniformType::M44, 7)],
    };
    assert_eq!(
        get_shader(output),
        Ok(ShaderProgram { interface: ShaderInterface { projection: bound(7), view: unbound() } })
    );
    let built = BuiltProgram {
        program: ShaderProgram {
            interface: ShaderInterface { projection: bound(7), view: unbound() },
        },
        warnings: vec![ProgramWarning::InactiveAttribute(VertexSemantics::Color)],
    };
    assert_eq!(
        built.ignore_warnings(),
        ShaderProgram { interface: ShaderInterface { projection: bound(7), view: unbound() } }
    );
}
