//! The frame driver: one simulation state, advanced a frame at a time in a
//! fixed order. Physics, spawner and collision test run first; then the
//! frame's requests are resolved and entities are created or destroyed, all
//! at the frame boundary.

use vstd::prelude::*;
use crate::collision::{check_collision, contact};
use crate::input::{InputSnapshot, Key};
use crate::lifecycle::{LifecycleEvent, LifecycleRequest};
use crate::physics::{Body, BodyModel};
use crate::spawner::{
    slot_view, spawner_moves, spawner_requests, update_obstacle, Obstacle, ObstacleModel,
};
use crate::state::{
    boundary_events, chosen, lifecycle_events, resolve, GameState, PauseState, TransitionQueue,
    TransitionRequest,
};

verus! {

/// A frame's time delta as the core uses it: a negative one counts as zero,
/// so that nothing ever moves backward in time.
pub open spec fn clamp_delta(delta_time: int) -> int {
    if delta_time < 0 {
        0
    } else {
        delta_time
    }
}

/// The model of an optional body.
pub open spec fn body_view(body: Option<Body>) -> Option<BodyModel> {
    match body {
        Some(body) => Some(body@),
        None => None,
    }
}

/// The model of a [`Simulation`].
pub struct SimModel {
    pub state: GameState,
    pub body: Option<BodyModel>,
    pub obstacle: Option<ObstacleModel>,
}

/// The model of a [`FrameOutcome`].
pub struct OutcomeModel {
    pub state: GameState,
    pub lifecycle_events: Seq<LifecycleEvent>,
    pub should_quit: bool,
    pub applied: Option<TransitionRequest>,
}

impl SimModel {
    /// A simulation that has just been made: in the menu, with no entities.
    pub open spec fn initial() -> SimModel {
        SimModel { state: GameState::Menu, body: None, obstacle: None }
    }

    /// What holds between frames: there is a body exactly while a game is
    /// on, an obstacle only while a game is on, and both are valid.
    pub open spec fn wf(self) -> bool {
        &&& self.state.in_game() <==> self.body is Some
        &&& self.body matches Some(body) ==> body.wf()
        &&& self.obstacle is Some ==> self.state.in_game()
        &&& self.obstacle matches Some(obstacle) ==> obstacle.wf()
    }

    /// The body after this frame's physics. Outside a running game the
    /// integrator does not run.
    pub open spec fn integrated(self, input: InputSnapshot, dt: int) -> Option<BodyModel> {
        match self.body {
            Some(body) if self.state.running() => Some(
                body.integrate(
                    input.held@.contains(Key::Jump),
                    input.released_now@.contains(Key::Jump),
                    dt,
                ),
            ),
            _ => self.body,
        }
    }

    /// The obstacle after this frame's move. Outside a running game the
    /// spawner does not run.
    pub open spec fn moved(self, dt: int) -> Option<ObstacleModel> {
        if self.state.running() {
            spawner_moves(self.obstacle, dt)
        } else {
            self.obstacle
        }
    }

    /// What the spawner asks for in this frame.
    pub open spec fn asked(self, dt: int) -> Option<LifecycleRequest> {
        if self.state.running() {
            spawner_requests(self.obstacle, dt)
        } else {
            None
        }
    }

    /// Whether this frame's collision test finds a contact. It sees the body
    /// after its physics and the obstacle after its move, before any
    /// removal.
    pub open spec fn collided(self, input: InputSnapshot, dt: int) -> bool {
        &&& self.state.running()
        &&& self.integrated(input, dt) matches Some(body)
        &&& contact(body, self.moved(dt))
    }

    /// The transition request that this frame's boundary applies, if any.
    /// The menu listens to "play". A running game ends on a collision, and
    /// only without one hears a pause. A paused game ends on "end", and only
    /// without one resumes.
    pub open spec fn applied(self, input: InputSnapshot, dt: int) -> Option<TransitionRequest> {
        match self.state {
            GameState::Menu => if input.pressed_now@.contains(Key::Play) {
                Some(TransitionRequest::Play)
            } else {
                None
            },
            GameState::InGame(PauseState::Running) => if self.collided(input, dt) {
                Some(TransitionRequest::Collision)
            } else if input.pressed_now@.contains(Key::Pause) {
                Some(TransitionRequest::Pause)
            } else {
                None
            },
            GameState::InGame(PauseState::Paused) => if input.pressed_now@.contains(Key::End) {
                Some(TransitionRequest::End)
            } else if input.pressed_now@.contains(Key::Resume) {
                Some(TransitionRequest::Resume)
            } else {
                None
            },
        }
    }

    /// The state from this frame's boundary on.
    pub open spec fn next_state(self, input: InputSnapshot, dt: int) -> GameState {
        match self.applied(input, dt) {
            Some(request) => self.state.after(request),
            None => self.state,
        }
    }

    /// The transition requests that this frame queues, in the order in which
    /// the subsystems make them.
    pub open spec fn frame_requests(self, input: InputSnapshot, dt: int) -> Seq<
        TransitionRequest,
    > {
        match self.state {
            GameState::Menu => if input.pressed_now@.contains(Key::Play) {
                seq![TransitionRequest::Play]
            } else {
                Seq::empty()
            },
            GameState::InGame(PauseState::Running) => {
                let hit = if self.collided(input, dt) {
                    seq![TransitionRequest::Collision]
                } else {
                    Seq::empty()
                };
                if input.pressed_now@.contains(Key::Pause) {
                    hit.push(TransitionRequest::Pause)
                } else {
                    hit
                }
            },
            GameState::InGame(PauseState::Paused) => {
                let end = if input.pressed_now@.contains(Key::End) {
                    seq![TransitionRequest::End]
                } else {
                    Seq::empty()
                };
                if input.pressed_now@.contains(Key::Resume) {
                    end.push(TransitionRequest::Resume)
                } else {
                    end
                }
            },
        }
    }

    /// The body from the boundary on.
    pub open spec fn next_body(self, next: GameState, input: InputSnapshot, dt: int) -> Option<
        BodyModel,
    > {
        if !next.in_game() {
            None
        } else if self.state.in_game() {
            self.integrated(input, dt)
        } else {
            Some(BodyModel::spawn())
        }
    }

    /// The obstacle from the boundary on.
    pub open spec fn next_obstacle(self, next: GameState, dt: int) -> Option<ObstacleModel> {
        if next.in_game() && self.state.in_game() {
            match self.asked(dt) {
                Some(LifecycleRequest::Create(_)) => Some(ObstacleModel::spawn()),
                Some(LifecycleRequest::Destroy(_)) => None,
                None => self.moved(dt),
            }
        } else {
            None
        }
    }

    /// The simulation after one frame.
    pub open spec fn step(self, input: InputSnapshot, delta_time: int) -> SimModel {
        let dt = clamp_delta(delta_time);
        let next = self.next_state(input, dt);
        SimModel {
            state: next,
            body: self.next_body(next, input, dt),
            obstacle: self.next_obstacle(next, dt),
        }
    }

    /// The player leaves: on an outside request, or by "exit" in the menu.
    pub open spec fn quits(self, input: InputSnapshot) -> bool {
        input.quit_requested || (self.state == GameState::Menu && input.pressed_now@.contains(
            Key::Exit,
        ))
    }

    /// What one frame reports.
    pub open spec fn outcome(self, input: InputSnapshot, delta_time: int) -> OutcomeModel {
        let dt = clamp_delta(delta_time);
        let next = self.next_state(input, dt);
        OutcomeModel {
            state: next,
            lifecycle_events: boundary_events(
                self.state,
                next,
                self.obstacle is Some,
                self.asked(dt),
            ),
            should_quit: self.quits(input),
            applied: self.applied(input, dt),
        }
    }

    /// The simulation after the given frames. The frame in which the player
    /// leaves is played to its end and is the last.
    pub open spec fn run(self, frames: Seq<Frame>) -> SimModel
        decreases frames.len(),
    {
        if frames.len() == 0 {
            self
        } else {
            let after = self.step(frames[0].input, frames[0].delta_time as int);
            if self.quits(frames[0].input) {
                after
            } else {
                after.run(frames.skip(1))
            }
        }
    }

    /// What the played frames report, in order.
    pub open spec fn outcomes(self, frames: Seq<Frame>) -> Seq<OutcomeModel>
        decreases frames.len(),
    {
        if frames.len() == 0 {
            Seq::empty()
        } else {
            let first = seq![self.outcome(frames[0].input, frames[0].delta_time as int)];
            if self.quits(frames[0].input) {
                first
            } else {
                first + self.step(frames[0].input, frames[0].delta_time as int).outcomes(
                    frames.skip(1),
                )
            }
        }
    }
}

/// At a frame boundary the queue's winner is the request that the
/// transition table names for the frame: resolving what the subsystems have
/// queued gives the frame's next state.
pub proof fn lemma_boundary_resolves(sim: SimModel, input: InputSnapshot, dt: int)
    ensures
        chosen(sim.state, sim.frame_requests(input, dt)) == sim.applied(input, dt),
        resolve(sim.state, sim.frame_requests(input, dt)) == sim.next_state(input, dt),
{
    let requests = sim.frame_requests(input, dt);
    assert forall|request: TransitionRequest| #[trigger]
        requests.contains(request) implies request == requests[0] || (requests.len() == 2
        && request == requests[1]) by {
        let i = choose|i: int| 0 <= i < requests.len() && requests[i] == request;
    }
    if requests.len() > 0 {
        assert(requests.contains(requests[0]));
    }
    if requests.len() > 1 {
        assert(requests.contains(requests[1]));
    }
}

/// One frame's input: the elapsed time in microseconds and the controls.
#[derive(Clone, Copy, Debug, PartialEq, Eq, Structural)]
pub struct Frame {
    pub delta_time: i32,
    pub input: InputSnapshot,
}

/// What one frame reports to the outside.
#[derive(Debug)]
pub struct FrameOutcome {
    /// The state from this frame's boundary on.
    pub state: GameState,
    /// The entities created and destroyed at the boundary, in order.
    pub lifecycle_events: Vec<LifecycleEvent>,
    /// The frame loop ends after this frame.
    pub should_quit: bool,
    /// The transition request that was applied at the boundary, if any.
    pub applied: Option<TransitionRequest>,
}

impl View for FrameOutcome {
    type V = OutcomeModel;

    open spec fn view(&self) -> OutcomeModel {
        OutcomeModel {
            state: self.state,
            lifecycle_events: self.lifecycle_events@,
            should_quit: self.should_quit,
            applied: self.applied,
        }
    }
}

/// What there is to draw.
#[derive(Clone, Copy, Debug, PartialEq, Eq, Structural)]
pub struct Snapshot {
    pub body: Option<Body>,
    pub obstacle: Option<Obstacle>,
}

/// The whole state of the game.
#[derive(Debug)]
pub struct Simulation {
    state: GameState,
    body: Option<Body>,
    obstacle: Option<Obstacle>,
}

impl View for Simulation {
    type V = SimModel;

    closed spec fn view(&self) -> SimModel {
        SimModel {
            state: self.state,
            body: body_view(self.body),
            obstacle: slot_view(self.obstacle),
        }
    }
}

/// The models that a run's outcomes have.
pub open spec fn outcome_views(outcomes: Seq<FrameOutcome>) -> Seq<OutcomeModel> {
    outcomes.map_values(|outcome: FrameOutcome| outcome@)
}

impl Simulation {
    /// Validity of a simulation: see [`SimModel::wf`].
    pub open spec fn wf(&self) -> bool {
        self@.wf()
    }

    /// A simulation in the menu, with no entities.
    pub fn new() -> (sim: Simulation)
        ensures
            sim@ == SimModel::initial(),
            sim.wf(),
    {
        Simulation { state: GameState::Menu, body: None, obstacle: None }
    }

    /// A simulation in the given state with the given entities, if they go
    /// together: a valid body exactly in a game, a valid obstacle only in a
    /// game.
    pub fn with_entities(
        state: GameState,
        body: Option<Body>,
        obstacle: Option<Obstacle>,
    ) -> (made: Option<Simulation>)
        ensures
            made matches Some(sim) ==> sim.wf(),
            made is Some <==> (SimModel {
                state,
                body: body_view(body),
                obstacle: slot_view(obstacle),
            }).wf(),
            made matches Some(sim) ==> sim@ == (SimModel {
                state,
                body: body_view(body),
                obstacle: slot_view(obstacle),
            }),
    {
        let body_fits = match body {
            Some(body) => state.is_in_game() && body.is_valid(),
            None => !state.is_in_game(),
        };
        let obstacle_fits = match obstacle {
            Some(obstacle) => state.is_in_game() && obstacle.is_valid(),
            None => true,
        };
        if body_fits && obstacle_fits {
            Some(Simulation { state, body, obstacle })
        } else {
            None
        }
    }

    /// Whether the simulation is valid.
    pub fn is_valid(&self) -> (valid: bool)
        ensures
            valid == self.wf(),
    {
        let body_fits = match self.body {
            Some(body) => self.state.is_in_game() && body.is_valid(),
            None => !self.state.is_in_game(),
        };
        let obstacle_fits = match self.obstacle {
            Some(obstacle) => self.state.is_in_game() && obstacle.is_valid(),
            None => true,
        };
        body_fits && obstacle_fits
    }

    /// The current state.
    pub fn state(&self) -> (state: GameState)
        ensures
            state == self@.state,
    {
        self.state
    }

    /// The entities as they are now, for whoever draws them.
    pub fn current_snapshot(&self) -> (snapshot: Snapshot)
        ensures
            body_view(snapshot.body) == self@.body,
            slot_view(snapshot.obstacle) == self@.obstacle,
    {
        Snapshot { body: self.body, obstacle: self.obstacle }
    }

    /// The body. There is none in the menu: asking for it there is an error
    /// of the caller.
    pub fn body(&self) -> (body: Body)
        requires
            self.wf(),
            self@.state.in_game(),
        ensures
            Some(body@) == self@.body,
            body.wf(),
    {
        self.body.unwrap()
    }

    /// Advances the simulation by one frame of `delta_time` microseconds.
    pub fn step(&mut self, delta_time: i32, input: &InputSnapshot) -> (outcome: FrameOutcome)
        requires
            old(self).wf(),
        ensures
            final(self).wf(),
            final(self)@ == old(self)@.step(*input, delta_time as int),
            outcome@ == old(self)@.outcome(*input, delta_time as int),
    {
        let dt: i32 = if delta_time < 0 {
            0
        } else {
            delta_time
        };
        let before = self.state;
        let had_obstacle = self.obstacle.is_some();
        let should_quit = input.quit_requested || (!before.is_in_game()
            && input.pressed_now.contains(Key::Exit));
        let ghost start = self@;
        let mut queue = TransitionQueue::new();
        let mut body = self.body;
        let mut obstacle = self.obstacle;
        let mut asked: Option<LifecycleRequest> = None;
        match before {
            GameState::Menu => {
                if input.pressed_now.contains(Key::Play) {
                    queue.request(TransitionRequest::Play);
                }
            },
            GameState::InGame(PauseState::Running) => {
                body = match self.body {
                    Some(previous) => Some(
                        previous.integrate(
                            input.held.contains(Key::Jump),
                            input.released_now.contains(Key::Jump),
                            dt,
                        ),
                    ),
                    None => None,
                };
                let spawned = update_obstacle(self.obstacle, dt);
                obstacle = spawned.obstacle;
                asked = spawned.request;
                let hit = match body {
                    Some(current) => check_collision(&current, &obstacle),
                    None => false,
                };
                if hit {
                    queue.request(TransitionRequest::Collision);
                }
                if input.pressed_now.contains(Key::Pause) {
                    queue.request(TransitionRequest::Pause);
                }
            },
            GameState::InGame(PauseState::Paused) => {
                if input.pressed_now.contains(Key::End) {
                    queue.request(TransitionRequest::End);
                }
                if input.pressed_now.contains(Key::Resume) {
                    queue.request(TransitionRequest::Resume);
                }
            },
        }
        proof {
            assert(queue@ =~= start.frame_requests(*input, dt as int));
            lemma_boundary_resolves(start, *input, dt as int);
            assert(body_view(body) == start.integrated(*input, dt as int));
            assert(slot_view(obstacle) == start.moved(dt as int));
            assert(asked == start.asked(dt as int));
        }
        let resolution = queue.drain(before);
        let next = resolution.state;
        let events = lifecycle_events(before, next, had_obstacle, asked);
        if !next.is_in_game() {
            self.body = None;
            self.obstacle = None;
        } else if before.is_in_game() {
            self.body = body;
            self.obstacle = match asked {
                Some(LifecycleRequest::Create(_)) => Some(Obstacle::spawn()),
                Some(LifecycleRequest::Destroy(_)) => None,
                None => obstacle,
            };
        } else {
            self.body = Some(Body::spawn());
            self.obstacle = None;
        }
        self.state = next;
        FrameOutcome {
            state: next,
            lifecycle_events: events,
            should_quit,
            applied: resolution.applied,
        }
    }

    /// Plays the given frames in order and reports each. The frame in which
    /// the player leaves is played to its end and is the last.
    pub fn run(&mut self, frames: &Vec<Frame>) -> (outcomes: Vec<FrameOutcome>)
        requires
            old(self).wf(),
        ensures
            final(self).wf(),
            final(self)@ == old(self)@.run(frames@),
            outcome_views(outcomes@) == old(self)@.outcomes(frames@),
    {
        let ghost start = self@;
        let mut outcomes: Vec<FrameOutcome> = Vec::new();
        let mut i: usize = 0;
        let mut quit = false;
        proof {
            assert(frames@.skip(0) =~= frames@);
            assert(outcome_views(outcomes@) + start.outcomes(frames@) =~= start.outcomes(frames@));
        }
        while i < frames.len() && !quit
            invariant
                i <= frames@.len(),
                self.wf(),
                !quit ==> start.run(frames@) == self@.run(frames@.skip(i as int)),
                !quit ==> start.outcomes(frames@) == outcome_views(outcomes@) + self@.outcomes(
                    frames@.skip(i as int),
                ),
                quit ==> start.run(frames@) == self@,
                quit ==> start.outcomes(frames@) == outcome_views(outcomes@),
            decreases frames@.len() - i,
        {
            let ghost here = self@;
            let ghost rest = frames@.skip(i as int);
            let ghost reported = outcome_views(outcomes@);
            let frame = frames[i];
            proof {
                assert(rest[0] == frame);
                assert(rest.skip(1) =~= frames@.skip(i + 1));
            }
            let outcome = self.step(frame.delta_time, &frame.input);
            quit = outcome.should_quit;
            outcomes.push(outcome);
            i += 1;
            proof {
                let first = seq![here.outcome(frame.input, frame.delta_time as int)];
                assert(outcome_views(outcomes@) =~= reported + first);
                if quit {
                    assert(here.outcomes(rest) == first);
                } else {
                    assert(here.outcomes(rest) == first + self@.outcomes(rest.skip(1)));
                    assert(reported + (first + self@.outcomes(rest.skip(1))) =~= (reported
                        + first) + self@.outcomes(rest.skip(1)));
                }
            }
        }
        proof {
            if !quit {
                assert(frames@.skip(i as int).len() == 0);
                assert(outcome_views(outcomes@) + Seq::<OutcomeModel>::empty() =~= outcome_views(
                    outcomes@,
                ));
            }
        }
        outcomes
    }
}

} // verus!
