use render_loop::driver::{
    Directive, DriverState, Event, FrameDriver, KeyAction, LoopError, KEY_ESCAPE,
};
use render_loop::mesh::get_mesh;
use render_loop::pipeline::{Command, PresentationTarget, Scene, UniformError};
use render_loop::shader::{ShaderInterface, ShaderProgram, Uniform, UniformType, UniformValue};

fn scene() -> Scene {
    let program = ShaderProgram {
        interface: ShaderInterface {
            projection: Uniform { location: Some(0), ty: UniformType::M44 },
            view: Uniform { location: None, ty: UniformType::M44 },
        },
    };
    Scene::new(program, vec![get_mesh()])
}

fn key(key: i32, action: KeyAction) -> Event {
    Event::Key { key, scancode: 9, action, modifiers: 0 }
}

fn resized(width: u32, height: u32) -> Event {
    Event::FramebufferResized { width, height }
}

fn commands_of(directive: Directive) -> Vec<Command> {
    match directive {
        Directive::Render { commands } => commands,
        other => panic!("a pass was expected, not {:?}", other),
    }
}

#[test]
fn a_new_loop_is_running() {
    let driver = FrameDriver::new(96, 54);
    assert_eq!(driver.state(), DriverState::Running);
    assert_eq!(driver.target(), PresentationTarget { width: 96, height: 54, generation: 0 });
    assert_eq!(driver.failure(), None);
    assert_eq!(KEY_ESCAPE, 256);
}

#[test]
fn a_running_loop_renders_to_its_target() {
    let scene = scene();
    let mut driver = FrameDriver::new(96, 54);
    let commands = commands_of(driver.plan(&scene));
    assert_eq!(Ok(commands), scene.record(driver.target()));
    assert_eq!(driver.state(), DriverState::Running);
    assert!(driver.pass_finished(true));
    assert_eq!(driver.state(), DriverState::Running);
}

#[test]
fn resize_is_followed_by_one_reacquisition() {
    let scene = scene();
    let mut driver = FrameDriver::new(96, 54);
    driver.handle_event(&resized(800, 600));
    assert_eq!(driver.state(), DriverState::ResizePending);
    assert_eq!(driver.target(), PresentationTarget { width: 96, height: 54, generation: 0 });
    assert_eq!(driver.plan(&scene), Directive::Reacquire { width: 800, height: 600 });
    assert_eq!(driver.state(), DriverState::ResizePending);
    driver.reacquired(true);
    assert_eq!(driver.state(), DriverState::Running);
    let fresh = PresentationTarget { width: 800, height: 600, generation: 1 };
    assert_eq!(driver.target(), fresh);
    let commands = commands_of(driver.plan(&scene));
    assert_eq!(commands[0], Command::BeginPass { target: fresh, clear: scene.clear });
    assert_eq!(
        commands.iter().filter(|c| matches!(c, Command::BeginPass { .. })).count(),
        1
    );
    assert!(driver.pass_finished(true));
    assert_eq!(commands_of(driver.plan(&scene))[0], Command::BeginPass { target: fresh, clear: scene.clear });
}

#[test]
fn resizes_before_the_next_frame_collapse() {
    let scene = scene();
    let mut driver = FrameDriver::new(96, 54);
    driver.drain(&vec![
        resized(100, 100),
        Event::Other,
        resized(200, 150),
        key(65, KeyAction::Release),
        resized(640, 480),
        key(KEY_ESCAPE, KeyAction::Press),
    ]);
    assert_eq!(driver.state(), DriverState::ResizePending);
    assert_eq!(driver.plan(&scene), Directive::Reacquire { width: 640, height: 480 });
    driver.reacquired(true);
    assert_eq!(driver.target(), PresentationTarget { width: 640, height: 480, generation: 1 });
    match driver.plan(&scene) {
        Directive::Render { .. } => {}
        other => panic!("a pass was expected, not {:?}", other),
    }
}

#[test]
fn resize_to_the_same_size_still_gives_a_new_target() {
    let mut driver = FrameDriver::new(96, 54);
    driver.handle_event(&resized(96, 54));
    assert_eq!(driver.state(), DriverState::ResizePending);
    driver.reacquired(true);
    assert_eq!(driver.target(), PresentationTarget { width: 96, height: 54, generation: 1 });
    driver.handle_event(&resized(96, 54));
    driver.reacquired(true);
    assert_eq!(driver.target(), PresentationTarget { width: 96, height: 54, generation: 2 });
}

#[test]
fn close_ends_the_loop_in_any_state() {
    let scene = scene();
    let mut driver = FrameDriver::new(96, 54);
    driver.handle_event(&Event::Close);
    assert_eq!(driver.state(), DriverState::Terminating);
    assert_eq!(driver.plan(&scene), Directive::Exit { failure: None });

    let mut driver = FrameDriver::new(96, 54);
    driver.handle_event(&resized(10, 10));
    driver.handle_event(&Event::Close);
    assert_eq!(driver.state(), DriverState::Terminating);
    assert_eq!(driver.plan(&scene), Directive::Exit { failure: None });

    let mut driver = FrameDriver::new(96, 54);
    driver.drain(&vec![Event::Close, Event::Close, resized(10, 10), Event::Other]);
    assert_eq!(driver.state(), DriverState::Terminating);
    assert_eq!(driver.plan(&scene), Directive::Exit { failure: None });
}

#[test]
fn exit_key_release_ends_the_loop() {
    let mut driver = FrameDriver::new(96, 54);
    driver.drain(&vec![
        key(KEY_ESCAPE, KeyAction::Press),
        key(KEY_ESCAPE, KeyAction::Repeat),
        key(32, KeyAction::Release),
    ]);
    assert_eq!(driver.state(), DriverState::Running);
    driver.drain(&vec![Event::Other, key(KEY_ESCAPE, KeyAction::Release), resized(1, 1)]);
    assert_eq!(driver.state(), DriverState::Terminating);

    let mut driver = FrameDriver::new(96, 54);
    driver.handle_event(&resized(1, 1));
    driver.handle_event(&key(KEY_ESCAPE, KeyAction::Release));
    assert_eq!(driver.state(), DriverState::Terminating);
}

#[test]
fn exit_key_can_be_replaced() {
    let mut driver = FrameDriver::new(96, 54).set_exit_key(81);
    driver.handle_event(&key(KEY_ESCAPE, KeyAction::Release));
    assert_eq!(driver.state(), DriverState::Running);
    driver.handle_event(&key(81, KeyAction::Release));
    assert_eq!(driver.state(), DriverState::Terminating);
}

#[test]
fn nothing_happens_after_termination() {
    let scene = scene();
    let mut driver = FrameDriver::new(96, 54);
    driver.handle_event(&Event::Close);
    driver.handle_event(&resized(5, 5));
    driver.reacquired(true);
    assert!(!driver.pass_finished(true));
    driver.drain(&vec![resized(6, 6), Event::Other]);
    assert_eq!(driver.state(), DriverState::Terminating);
    assert_eq!(driver.target(), PresentationTarget { width: 96, height: 54, generation: 0 });
    assert_eq!(driver.failure(), None);
    assert_eq!(driver.plan(&scene), Directive::Exit { failure: None });
}

#[test]
fn failed_reacquisition_is_fatal() {
    let scene = scene();
    let mut driver = FrameDriver::new(96, 54);
    driver.handle_event(&resized(800, 600));
    driver.reacquired(false);
    assert_eq!(driver.state(), DriverState::Terminating);
    assert_eq!(driver.failure(), Some(LoopError::ReacquireFailed));
    assert_eq!(driver.target(), PresentationTarget { width: 96, height: 54, generation: 0 });
    assert_eq!(driver.plan(&scene), Directive::Exit { failure: Some(LoopError::ReacquireFailed) });
}

#[test]
fn failed_pass_is_fatal_and_not_presented() {
    let scene = scene();
    let mut driver = FrameDriver::new(96, 54);
    let _ = driver.plan(&scene);
    assert!(!driver.pass_finished(false));
    assert_eq!(driver.state(), DriverState::Terminating);
    assert_eq!(driver.failure(), Some(LoopError::PassFailed));
    assert_eq!(driver.plan(&scene), Directive::Exit { failure: Some(LoopError::PassFailed) });
}

#[test]
fn unrecordable_scene_is_fatal() {
    let mut scene = scene();
    scene.projection = UniformValue::Vec4([0; 4]);
    let mut driver = FrameDriver::new(96, 54);
    let refusal = LoopError::Uniform(UniformError::TypeMismatch {
        expected: UniformType::M44,
        found: UniformType::Vec4,
    });
    assert_eq!(driver.plan(&scene), Directive::Exit { failure: Some(refusal) });
    assert_eq!(driver.state(), DriverState::Terminating);
    assert_eq!(driver.failure(), Some(refusal));
}

#[test]
fn reports_out_of_turn_are_ignored() {
    let mut driver = FrameDriver::new(96, 54);
    driver.reacquired(true);
    assert_eq!(driver.target(), PresentationTarget { width: 96, height: 54, generation: 0 });
    driver.reacquired(false);
    assert_eq!(driver.state(), DriverState::Running);
    driver.handle_event(&resized(7, 7));
    assert!(!driver.pass_finished(true));
    assert!(!driver.pass_finished(false));
    assert_eq!(driver.state(), DriverState::ResizePending);
    assert_eq!(driver.failure(), None);
}

#[test]
fn steady_state_frames_are_identical() {
    let scene = scene();
    let mut driver = FrameDriver::new(96, 54);
    driver.drain(&vec![]);
    let first = commands_of(driver.plan(&scene));
    assert!(driver.pass_finished(true));
    driver.drain(&vec![Event::Other, key(65, KeyAction::Press)]);
    let second = commands_of(driver.plan(&scene));
    assert!(driver.pass_finished(true));
    assert_eq!(first, second);
    assert_eq!(driver.state(), DriverState::Running);
}

#[test]
fn a_host_loop_runs_until_closed() {
    let scene = scene();
    let mut driver = FrameDriver::new(96, 54);
    let batches = vec![
        vec![],
        vec![resized(300, 200), resized(320, 240)],
        vec![Event::Other],
        vec![key(KEY_ESCAPE, KeyAction::Release)],
        vec![resized(1, 1)],
    ];
    let mut reacquired = Vec::new();
    let mut presented = 0;
    let mut submitted = Vec::new();
    let mut exit = None;
    for events in &batches {
        driver.drain(events);
        loop {
            match driver.plan(&scene) {
                Directive::Exit { failure } => {
                    exit = Some(failure);
                    break;
                }
                Directive::Reacquire { width, height } => {
                    reacquired.push((width, height));
                    driver.reacquired(true);
                }
                Directive::Render { commands } => {
                    submitted.push(commands);
                    if driver.pass_finished(true) {
                        presented += 1;
                    }
                    break;
                }
            }
        }
        if exit.is_some() {
            break;
        }
    }
    assert_eq!(exit, Some(None));
    assert_eq!(reacquired, vec![(320, 240)]);
    assert_eq!(presented, 3);
    assert_eq!(submitted.len(), 3);
    let old = PresentationTarget { width: 96, height: 54, generation: 0 };
    let fresh = PresentationTarget { width: 320, height: 240, generation: 1 };
    assert_eq!(submitted[0][0], Command::BeginPass { target: old, clear: scene.clear });
    assert_eq!(submitted[1][0], Command::BeginPass { target: fresh, clear: scene.clear });
    assert_eq!(submitted[1], submitted[2]);
}
