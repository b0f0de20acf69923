//! The frame loop as a state machine. The host polls the window, performs
//! what the driver plans and reports how it went; every decision is made
//! here.
//!
//! One iteration of the host loop:
//! 1. poll, and hand all pending events to `drain`;
//! 2. ask for the `plan`;
//! 3. on `Reacquire`, acquire a new back buffer, report with `reacquired`
//!    and ask for the plan again;
//! 4. on `Render`, submit the commands, report with `pass_finished`, and
//!    present if it says so;
//! 5. on `Exit`, leave the loop.

use vstd::prelude::*;
use crate::pipeline::{well_scoped, Command, PresentationTarget, Scene, UniformError};

verus! {

/// Key code of the escape key.
pub const KEY_ESCAPE: i32 = 256;

/// What happened to a key.
#[derive(Clone, Copy, Debug, PartialEq, Eq, Structural)]
pub enum KeyAction {
    Release,
    Press,
    Repeat,
}

/// An event from the window.
#[derive(Clone, Copy, Debug, PartialEq, Eq)]
pub enum Event {
    /// The user asked to close the window.
    Close,
    /// A key changed state.
    Key { key: i32, scancode: i32, action: KeyAction, modifiers: i32 },
    /// The drawable area now has this size.
    FramebufferResized { width: u32, height: u32 },
    /// Anything else; ignored.
    Other,
}

/// State of the frame loop.
#[derive(Clone, Copy, Debug, PartialEq, Eq, Structural)]
pub enum DriverState {
    /// Frames are rendered to the current target.
    Running,
    /// The drawable area changed size; a new target must be acquired before
    /// the next frame.
    ResizePending,
    /// The loop is over.
    Terminating,
}

/// Why the loop ended without being asked to.
#[derive(Clone, Copy, Debug, PartialEq, Eq)]
pub enum LoopError {
    /// No new presentation target could be acquired after a resize.
    ReacquireFailed,
    /// The host could not complete a pass.
    PassFailed,
    /// A uniform of the scene refused its value.
    Uniform(UniformError),
}

/// The frame loop as a mathematical value.
pub struct DriverModel {
    pub state: DriverState,
    /// The target that frames are rendered to.
    pub target: PresentationTarget,
    /// Size of the drawable area as last reported.
    pub width: u32,
    pub height: u32,
    /// Key whose release ends the loop.
    pub exit_key: i32,
    /// Set when the loop ended on a failure.
    pub failure: Option<LoopError>,
}

/// What the host must do next, as a mathematical value.
pub enum Plan {
    /// Leave the loop; `failure` says whether anything went wrong.
    Exit { failure: Option<LoopError> },
    /// Acquire a new presentation target of this size.
    Reacquire { width: u32, height: u32 },
    /// Submit these commands as one pass.
    Render { commands: Seq<Command> },
}

impl DriverModel {
    /// Whether `event` asks the loop to end: a close request, or the release
    /// of the exit key.
    pub open spec fn is_exit_request(self, event: Event) -> bool {
        match event {
            Event::Close => true,
            Event::Key { key, scancode, action, modifiers } => key == self.exit_key && action
                == KeyAction::Release,
            _ => false,
        }
    }

    /// The loop after one event. Nothing leaves `Terminating`; an exit
    /// request enters it; a resize is noted with its size.
    pub open spec fn on_event(self, event: Event) -> DriverModel {
        if self.state == DriverState::Terminating {
            self
        } else if self.is_exit_request(event) {
            DriverModel { state: DriverState::Terminating, ..self }
        } else if let Event::FramebufferResized { width, height } = event {
            DriverModel { state: DriverState::ResizePending, width, height, ..self }
        } else {
            self
        }
    }

    /// The loop after a batch of events, taken in order.
    pub open spec fn on_events(self, events: Seq<Event>) -> DriverModel
        decreases events.len(),
    {
        if events.len() == 0 {
            self
        } else {
            self.on_events(events.drop_last()).on_event(events.last())
        }
    }

    /// The target acquired after a resize: of the size last reported, one
    /// generation after the current target.
    pub open spec fn next_target(self) -> PresentationTarget {
        PresentationTarget {
            width: self.width,
            height: self.height,
            generation: if self.target.generation == u64::MAX {
                0
            } else {
                (self.target.generation + 1) as u64
            },
        }
    }

    /// The loop after the host tried to acquire a new target. Outside
    /// `ResizePending` the report is ignored.
    pub open spec fn reacquired(self, ok: bool) -> DriverModel {
        if self.state != DriverState::ResizePending {
            self
        } else if ok {
            DriverModel { state: DriverState::Running, target: self.next_target(), ..self }
        } else {
            DriverModel {
                state: DriverState::Terminating,
                failure: Some(LoopError::ReacquireFailed),
                ..self
            }
        }
    }

    /// What the host must do next.
    pub open spec fn plan(self, scene: Scene) -> Plan {
        match self.state {
            DriverState::Terminating => Plan::Exit { failure: self.failure },
            DriverState::ResizePending => Plan::Reacquire { width: self.width, height: self.height },
            DriverState::Running => match scene.frame(self.target) {
                Ok(commands) => Plan::Render { commands },
                Err(e) => Plan::Exit { failure: Some(LoopError::Uniform(e)) },
            },
        }
    }

    /// The loop after planning: unchanged, unless the scene could not be
    /// recorded, which ends the loop.
    pub open spec fn planned(self, scene: Scene) -> DriverModel {
        if self.state == DriverState::Running {
            match scene.frame(self.target) {
                Ok(_) => self,
                Err(e) => DriverModel {
                    state: DriverState::Terminating,
                    failure: Some(LoopError::Uniform(e)),
                    ..self
                },
            }
        } else {
            self
        }
    }

    /// The loop after the host submitted a pass. Outside `Running` the report
    /// is ignored.
    pub open spec fn pass_finished(self, ok: bool) -> DriverModel {
        if self.state == DriverState::Running && !ok {
            DriverModel {
                state: DriverState::Terminating,
                failure: Some(LoopError::PassFailed),
                ..self
            }
        } else {
            self
        }
    }

    /// Whether the host presents after a pass.
    pub open spec fn presents(self, ok: bool) -> bool {
        self.state == DriverState::Running && ok
    }
}

/// What the host must do next.
#[derive(Debug, PartialEq, Eq)]
pub enum Directive {
    /// Leave the loop; `failure` says whether anything went wrong.
    Exit { failure: Option<LoopError> },
    /// Acquire a new presentation target of this size.
    Reacquire { width: u32, height: u32 },
    /// Submit these commands as one pass.
    Render { commands: Vec<Command> },
}

impl View for Directive {
    type V = Plan;

    open spec fn view(&self) -> Plan {
        match self {
            Directive::Exit { failure } => Plan::Exit { failure: *failure },
            Directive::Reacquire { width, height } => Plan::Reacquire {
                width: *width,
                height: *height,
            },
            Directive::Render { commands } => Plan::Render { commands: commands@ },
        }
    }
}

/// The frame loop.
#[derive(Debug)]
pub struct FrameDriver {
    state: DriverState,
    target: PresentationTarget,
    width: u32,
    height: u32,
    exit_key: i32,
    failure: Option<LoopError>,
}

impl View for FrameDriver {
    type V = DriverModel;

    closed spec fn view(&self) -> DriverModel {
        DriverModel {
            state: self.state,
            target: self.target,
            width: self.width,
            height: self.height,
            exit_key: self.exit_key,
            failure: self.failure,
        }
    }
}

impl FrameDriver {
    /// A running loop whose first target has the given size. The escape key
    /// ends it.
    pub fn new(width: u32, height: u32) -> (res: FrameDriver)
        ensures
            res@ == (DriverModel {
                state: DriverState::Running,
                target: PresentationTarget { width, height, generation: 0 },
                width,
                height,
                exit_key: KEY_ESCAPE,
                failure: None,
            }),
    {
        FrameDriver {
            state: DriverState::Running,
            target: PresentationTarget { width, height, generation: 0 },
            width,
            height,
            exit_key: KEY_ESCAPE,
            failure: None,
        }
    }

    /// Takes one event.
    pub fn handle_event(&mut self, event: &Event)
        ensures
            final(self)@ == old(self)@.on_event(*event),
    {
        match self.state {
            DriverState::Terminating => {},
            _ => {
                match *event {
                    Event::Close => {
                        self.state = DriverState::Terminating;
                    },
                    Event::Key { key, scancode, action, modifiers } => {
                        if key == self.exit_key && action == KeyAction::Release {
                            self.state = DriverState::Terminating;
                        }
                    },
                    Event::FramebufferResized { width, height } => {
                        self.state = DriverState::ResizePending;
                        self.width = width;
                        self.height = height;
                    },
                    Event::Other => {},
                }
            },
        }
    }

    /// Takes all pending events, in order.
    pub fn drain(&mut self, events: &Vec<Event>)
        ensures
            final(self)@ == old(self)@.on_events(events@),
    {
        let mut i: usize = 0;
        while i < events.len()
            invariant
                i <= events.len(),
                self@ == old(self)@.on_events(events@.take(i as int)),
            decreases events.len() - i,
        {
            self.handle_event(&events[i]);
            assert(events@.take(i as int + 1).drop_last() =~= events@.take(i as int));
            i += 1;
        }
        assert(events@.take(i as int) =~= events@);
    }

    /// Decides what the host does next. A running loop records the frame of
    /// `scene` on the current target; where that is refused the loop ends.
    pub fn plan(&mut self, scene: &Scene) -> (res: Directive)
        ensures
            res@ == old(self)@.plan(*scene),
            final(self)@ == old(self)@.planned(*scene),
    {
        match self.state {
            DriverState::Terminating => Directive::Exit { failure: self.failure },
            DriverState::ResizePending => Directive::Reacquire {
                width: self.width,
                height: self.height,
            },
            DriverState::Running => match scene.record(self.target) {
                Ok(commands) => Directive::Render { commands },
                Err(e) => {
                    self.state = DriverState::Terminating;
                    self.failure = Some(LoopError::Uniform(e));
                    Directive::Exit { failure: self.failure }
                },
            },
        }
    }

    /// Takes the host's report on acquiring a new target.
    pub fn reacquired(&mut self, ok: bool)
        ensures
            final(self)@ == old(self)@.reacquired(ok),
    {
        match self.state {
            DriverState::ResizePending => {
                if ok {
                    self.target = PresentationTarget {
                        width: self.width,
                        height: self.height,
                        generation: self.target.generation.wrapping_add(1),
                    };
                    self.state = DriverState::Running;
                } else {
                    self.state = DriverState::Terminating;
                    self.failure = Some(LoopError::ReacquireFailed);
                }
            },
            _ => {},
        }
    }

    /// Takes the host's report on a submitted pass, and says whether to
    /// present.
    pub fn pass_finished(&mut self, ok: bool) -> (present: bool)
        ensures
            final(self)@ == old(self)@.pass_finished(ok),
            present == old(self)@.presents(ok),
    {
        match self.state {
            DriverState::Running => {
                if !ok {
                    self.state = DriverState::Terminating;
                    self.failure = Some(LoopError::PassFailed);
                }
                ok
            },
            _ => false,
        }
    }

    /// The state of the loop.
    pub fn state(&self) -> (res: DriverState)
        ensures
            res == self@.state,
    {
        self.state
    }

    /// The target that frames are rendered to.
    pub fn target(&self) -> (res: PresentationTarget)
        ensures
            res == self@.target,
    {
        self.target
    }

    /// The failure that ended the loop, if any.
    pub fn failure(&self) -> (res: Option<LoopError>)
        ensures
            res == self@.failure,
    {
        self.failure
    }

    /// Replaces the key whose release ends the loop.
    pub fn set_exit_key(self, key: i32) -> (res: FrameDriver)
        ensures
            res@ == (DriverModel { exit_key: key, ..self@ }),
    {
        FrameDriver {
            state: self.state,
            target: self.target,
            width: self.width,
            height: self.height,
            exit_key: key,
            failure: self.failure,
        }
    }
}

/// How the host's own work turns out during one iteration.
pub struct World {
    /// Whether a new presentation target can be acquired.
    pub reacquire_ok: bool,
    /// Whether a submitted pass completes.
    pub pass_ok: bool,
}

/// Something that the host does to the window or the GPU.
pub enum Effect {
    /// A new presentation target was acquired.
    Reacquire(PresentationTarget),
    /// A pass was submitted.
    Submit(Seq<Command>),
    /// The target was presented.
    Present,
}

impl DriverModel {
    /// Whether `event` leaves a loop that is not over as it is.
    pub open spec fn ignores(self, event: Event) -> bool {
        !self.is_exit_request(event) && !(event is FramebufferResized)
    }

    /// One iteration of a host that follows the driver: the loop afterwards,
    /// and what the host did, in order.
    pub open spec fn iteration(self, events: Seq<Event>, scene: Scene, world: World) -> (
        DriverModel,
        Seq<Effect>,
    ) {
        let drained = self.on_events(events);
        let sized = drained.reacquired(world.reacquire_ok);
        let acquired = if drained.state == DriverState::ResizePending && world.reacquire_ok {
            seq![Effect::Reacquire(sized.target)]
        } else {
            Seq::empty()
        };
        match sized.plan(scene) {
            Plan::Render { commands } => (
                sized.pass_finished(world.pass_ok),
                acquired + seq![Effect::Submit(commands)] + if world.pass_ok {
                    seq![Effect::Present]
                } else {
                    Seq::empty()
                },
            ),
            _ => (sized.planned(scene), acquired),
        }
    }

    /// Events change neither the current target, nor the exit key, nor the
    /// recorded failure.
    pub proof fn lemma_events_keep_target(self, events: Seq<Event>)
        ensures
            self.on_events(events).target == self.target,
            self.on_events(events).exit_key == self.exit_key,
            self.on_events(events).failure == self.failure,
        decreases events.len(),
    {
        if events.len() > 0 {
            self.lemma_events_keep_target(events.drop_last());
        }
    }

    /// Events that the loop ignores leave it as it is.
    pub proof fn lemma_ignored_events(self, events: Seq<Event>)
        requires
            forall|i: int| 0 <= i < events.len() ==> self.ignores(#[trigger] events[i]),
        ensures
            self.on_events(events) == self,
        decreases events.len(),
    {
        if events.len() > 0 {
            self.lemma_ignored_events(events.drop_last());
        }
    }

    /// A loop that is over stays as it is, whatever is reported to it; it
    /// plans nothing but leaving, and an iteration has no effect.
    pub proof fn lemma_terminating_is_final(
        self,
        events: Seq<Event>,
        scene: Scene,
        world: World,
        ok: bool,
    )
        requires
            self.state == DriverState::Terminating,
        ensures
            self.on_events(events) == self,
            self.reacquired(ok) == self,
            self.pass_finished(ok) == self,
            !self.presents(ok),
            self.plan(scene) == (Plan::Exit { failure: self.failure }),
            self.planned(scene) == self,
            self.iteration(events, scene, world) == (self, Seq::<Effect>::empty()),
        decreases events.len(),
    {
        if events.len() > 0 {
            self.lemma_terminating_is_final(events.drop_last(), scene, world, ok);
        }
    }

    /// A close request or a release of the exit key, received in any state
    /// and anywhere among the events of an iteration, ends the loop within
    /// that iteration: nothing is acquired, submitted or presented.
    pub proof fn lemma_exit_request_terminates(
        self,
        events: Seq<Event>,
        at: int,
        scene: Scene,
        world: World,
    )
        requires
            0 <= at < events.len(),
            self.is_exit_request(events[at]),
        ensures
            self.on_events(events).state == DriverState::Terminating,
            self.iteration(events, scene, world).0.state == DriverState::Terminating,
            self.iteration(events, scene, world).1 == Seq::<Effect>::empty(),
        decreases events.len(),
    {
        let before = events.drop_last();
        self.lemma_events_keep_target(before);
        if at < events.len() - 1 {
            self.lemma_exit_request_terminates(before, at, scene, world);
        }
    }

    /// Any number of resize events before the next frame leave one pending
    /// resize, of the size reported last.
    pub proof fn lemma_resizes_collapse(self, events: Seq<Event>, last: int)
        requires
            self.state != DriverState::Terminating,
            forall|i: int| 0 <= i < events.len() ==> !self.is_exit_request(#[trigger] events[i]),
            0 <= last < events.len(),
            events[last] is FramebufferResized,
            forall|i: int| last < i < events.len() ==> !(#[trigger] events[i] is FramebufferResized),
        ensures
            self.on_events(events) == (DriverModel {
                state: DriverState::ResizePending,
                width: events[last]->width,
                height: events[last]->height,
                ..self
            }),
        decreases events.len(),
    {
        let before = events.drop_last();
        self.lemma_events_keep_target(before);
        if last < events.len() - 1 {
            self.lemma_resizes_collapse(before, last);
        } else {
            self.lemma_not_terminating(before);
        }
    }

    /// Without an exit request, events do not end the loop.
    pub proof fn lemma_not_terminating(self, events: Seq<Event>)
        requires
            self.state != DriverState::Terminating,
            forall|i: int| 0 <= i < events.len() ==> !self.is_exit_request(#[trigger] events[i]),
        ensures
            self.on_events(events).state != DriverState::Terminating,
        decreases events.len(),
    {
        if events.len() > 0 {
            let before = events.drop_last();
            self.lemma_events_keep_target(before);
            self.lemma_not_terminating(before);
        }
    }

    /// Every pass that the driver plans is one complete pass on the current
    /// target: it opens on that target and on no other.
    pub proof fn lemma_pass_on_current_target(self, scene: Scene)
        ensures
            self.plan(scene) matches Plan::Render { commands } ==> {
                &&& self.state == DriverState::Running
                &&& well_scoped(commands)
                &&& commands[0] == (Command::BeginPass { target: self.target, clear: scene.clear })
                &&& forall|i: int| 0 < i < commands.len() ==> !(#[trigger] commands[i] is BeginPass)
            },
    {
        if let Plan::Render { commands } = self.plan(scene) {
            scene.lemma_frame_is_one_pass(self.target);
        }
    }

    /// A resize received while running is followed, in the next iteration, by
    /// exactly one reacquisition, of a target of the reported size and of a
    /// new generation, and the frame of that iteration is rendered to it.
    pub proof fn lemma_resize_reacquires_once(
        self,
        width: u32,
        height: u32,
        scene: Scene,
        world: World,
    )
        requires
            self.state == DriverState::Running,
            world.reacquire_ok,
        ensures
            ({
                let pending = self.on_event(Event::FramebufferResized { width, height });
                let fresh = pending.reacquired(true).target;
                let (after, effects) = pending.iteration(Seq::empty(), scene, world);
                &&& pending.state == DriverState::ResizePending
                &&& pending.plan(scene) == (Plan::Reacquire { width, height })
                &&& fresh.width == width
                &&& fresh.height == height
                &&& fresh.generation != self.target.generation
                &&& after.target == fresh
                &&& effects.len() >= 1
                &&& effects[0] == Effect::Reacquire(fresh)
                &&& forall|i: int| 0 < i < effects.len() ==> !(#[trigger] effects[i] is Reacquire)
                &&& forall|i: int|
                    0 <= i < effects.len() ==> (#[trigger] effects[i] matches Effect::Submit(commands)
                        ==> commands[0] == (Command::BeginPass { target: fresh, clear: scene.clear }))
            }),
    {
        let pending = self.on_event(Event::FramebufferResized { width, height });
        let sized = pending.reacquired(true);
        sized.lemma_pass_on_current_target(scene);
    }

    /// Several resizes received before the next frame cause a single
    /// reacquisition, of the size reported last.
    pub proof fn lemma_resizes_reacquire_once(
        self,
        events: Seq<Event>,
        last: int,
        scene: Scene,
        world: World,
    )
        requires
            self.state != DriverState::Terminating,
            forall|i: int| 0 <= i < events.len() ==> !self.is_exit_request(#[trigger] events[i]),
            0 <= last < events.len(),
            events[last] is FramebufferResized,
            forall|i: int| last < i < events.len() ==> !(#[trigger] events[i] is FramebufferResized),
            world.reacquire_ok,
        ensures
            ({
                let effects = self.iteration(events, scene, world).1;
                &&& effects.len() >= 1
                &&& effects[0] matches Effect::Reacquire(fresh)
                &&& fresh.width == events[last]->width
                &&& fresh.height == events[last]->height
                &&& forall|i: int| 0 < i < effects.len() ==> !(#[trigger] effects[i] is Reacquire)
            }),
    {
        self.lemma_resizes_collapse(events, last);
    }

    /// In the steady state every iteration does the same: with no event that
    /// matters and passes that complete, two consecutive iterations submit
    /// identical command sequences, and a scene that can be recorded leaves
    /// the loop as it was.
    pub proof fn lemma_steady_state_repeats(
        self,
        first: Seq<Event>,
        second: Seq<Event>,
        scene: Scene,
        world: World,
        later: World,
    )
        requires
            self.state == DriverState::Running,
            forall|i: int| 0 <= i < first.len() ==> self.ignores(#[trigger] first[i]),
            forall|i: int| 0 <= i < second.len() ==> self.ignores(#[trigger] second[i]),
            world.pass_ok,
            later.pass_ok,
        ensures
            ({
                let (once, effects) = self.iteration(first, scene, world);
                let (twice, again) = once.iteration(second, scene, later);
                &&& again == effects
                &&& scene.frame(self.target) matches Ok(commands) ==> {
                    &&& once == self
                    &&& twice == self
                    &&& effects == seq![Effect::Submit(commands), Effect::Present]
                }
            }),
    {
        self.lemma_ignored_events(first);
        let (once, effects) = self.iteration(first, scene, world);
        once.lemma_events_keep_target(second);
        if once.state == DriverState::Running {
            once.lemma_ignored_events(second);
            assert(effects =~= seq![
                Effect::Submit(scene.frame(self.target).unwrap()),
                Effect::Present,
            ]);
        } else {
            once.lemma_terminating_is_final(second, scene, later, true);
            assert(effects =~= Seq::<Effect>::empty());
        }
    }
}

} // verus!
