//! What holds of the core as a whole, proved from the models that the
//! functions' contracts are stated over.

use vstd::prelude::*;
use crate::frame::{clamp_delta, Frame, OutcomeModel, SimModel};
use crate::input::{InputSnapshot, Key};
use crate::lifecycle::{EntityKind, LifecycleEvent};
use crate::physics::{lemma_integrate_wf, BodyModel};
use crate::spawner::ObstacleModel;
use crate::state::{chosen, live, resolve, GameState, PauseState, TransitionRequest};
use crate::vector::Point;
use crate::world::{FLOOR_Y, MAX_JUMP_SPEED};

verus! {

/// The input that the integrator sees in one frame.
pub struct JumpFrame {
    pub held: bool,
    pub released: bool,
    pub dt: nat,
}

/// The body after a sequence of integrator frames.
pub open spec fn integrate_all(body: BodyModel, frames: Seq<JumpFrame>) -> BodyModel
    decreases frames.len(),
{
    if frames.len() == 0 {
        body
    } else {
        let frame = frames.last();
        integrate_all(body, frames.drop_last()).integrate(
            frame.held,
            frame.released,
            frame.dt as int,
        )
    }
}

/// Whatever is held or released, for however long and however often: a valid
/// body stays valid, and so its charge never leaves `[0, MAX_JUMP_SPEED]`.
pub proof fn lemma_charge_clamped(body: BodyModel, frames: Seq<JumpFrame>)
    requires
        body.wf(),
    ensures
        integrate_all(body, frames).wf(),
        0 <= integrate_all(body, frames).charge.y <= MAX_JUMP_SPEED,
    decreases frames.len(),
{
    if frames.len() > 0 {
        let frame = frames.last();
        lemma_charge_clamped(body, frames.drop_last());
        lemma_integrate_wf(
            integrate_all(body, frames.drop_last()),
            frame.held,
            frame.released,
            frame.dt as int,
        );
    }
}

/// Releasing the jump input away from resting height, in particular in the
/// air, does nothing: the body, and with it its velocity, is the same with
/// the release as without.
pub proof fn lemma_release_off_ground(body: BodyModel, held: bool, dt: int)
    requires
        !body.grounded(),
    ensures
        body.release_step(true) == body,
        body.release_step(true).velocity == body.velocity,
        body.integrate(held, true, dt) == body.integrate(held, false, dt),
{
}

/// A body that rests on the ground is a fixed point of the integrator when
/// no time passes and nothing is pressed.
pub proof fn lemma_rest_is_fixed(body: BodyModel)
    requires
        body.grounded(),
        body.velocity == (Point { x: 0, y: 0 }),
    ensures
        body.integrate(false, false, 0) == body,
{
}

/// A body that is not under resting height does not move when no time
/// passes.
pub proof fn lemma_no_time_no_motion(body: BodyModel, held: bool, released: bool)
    requires
        body.position.y >= FLOOR_Y,
    ensures
        body.integrate(held, released, 0).position == body.position,
{
}

/// After a frame a valid body is never under resting height, and it has not
/// moved sideways.
pub proof fn lemma_on_or_above_floor(body: BodyModel, held: bool, released: bool, dt: int)
    requires
        body.wf(),
        0 <= dt,
    ensures
        body.integrate(held, released, dt).position.y >= FLOOR_Y,
        body.integrate(held, released, dt).position.x == body.position.x,
{
    let pulled = body.charge_step(held, dt).release_step(released).gravity_step(dt);
    assert(pulled.velocity.x == 0);
    assert(pulled.velocity.x * dt == 0);
}

/// A body that a frame has put back on the ground is at rest.
pub proof fn lemma_landing_stops(body: BodyModel, held: bool, released: bool, dt: int)
    requires
        body.charge_step(held, dt).release_step(released).gravity_step(dt).move_step(
            dt,
        ).position.y < FLOOR_Y,
    ensures
        body.integrate(held, released, dt).grounded(),
        body.integrate(held, released, dt).velocity == (Point { x: 0, y: 0 }),
{
}

/// A negative time delta is a frame of no time.
pub proof fn lemma_negative_delta(sim: SimModel, input: InputSnapshot, delta_time: int)
    requires
        delta_time < 0,
    ensures
        sim.step(input, delta_time) == sim.step(input, 0),
        sim.outcome(input, delta_time) == sim.outcome(input, 0),
{
}

/// A live collision wins over every other request and ends the round.
pub proof fn lemma_collision_first(state: GameState, requests: Seq<TransitionRequest>)
    requires
        live(state, requests, TransitionRequest::Collision),
    ensures
        chosen(state, requests) == Some(TransitionRequest::Collision),
        resolve(state, requests) == GameState::Menu,
{
}

/// While paused, ending the round wins over resuming it.
pub proof fn lemma_end_before_resume(requests: Seq<TransitionRequest>)
    requires
        requests.contains(TransitionRequest::End),
    ensures
        resolve(GameState::InGame(PauseState::Paused), requests) == GameState::Menu,
{
}

/// One frame keeps a valid simulation valid.
pub proof fn lemma_step_wf(sim: SimModel, input: InputSnapshot, delta_time: int)
    requires
        sim.wf(),
    ensures
        sim.step(input, delta_time).wf(),
{
    let dt = clamp_delta(delta_time);
    if sim.state.running() {
        lemma_integrate_wf(
            sim.body->0,
            input.held@.contains(Key::Jump),
            input.released_now@.contains(Key::Jump),
            dt,
        );
    }
}

/// Any number of frames keeps a valid simulation valid.
pub proof fn lemma_run_wf(sim: SimModel, frames: Seq<Frame>)
    requires
        sim.wf(),
    ensures
        sim.run(frames).wf(),
    decreases frames.len(),
{
    if frames.len() > 0 {
        lemma_step_wf(sim, frames[0].input, frames[0].delta_time as int);
        if !sim.quits(frames[0].input) {
            lemma_run_wf(sim.step(frames[0].input, frames[0].delta_time as int), frames.skip(1));
        }
    }
}

/// Every game starts afresh: whenever a frame leads from the menu into a
/// game, the game is running, the body is at its spawn point, at rest and
/// uncharged, and there is no obstacle yet.
pub proof fn lemma_fresh_start(sim: SimModel, input: InputSnapshot, delta_time: int)
    requires
        sim.wf(),
        !sim.state.in_game(),
        sim.step(input, delta_time).state.in_game(),
    ensures
        sim.step(input, delta_time).state == GameState::InGame(PauseState::Running),
        sim.step(input, delta_time).body == Some(BodyModel::spawn()),
        sim.step(input, delta_time).obstacle == None::<ObstacleModel>,
{
}

/// A paused game stands still: a frame that stays paused changes neither
/// body nor obstacle and creates and destroys nothing.
pub proof fn lemma_pause_freezes(sim: SimModel, input: InputSnapshot, delta_time: int)
    requires
        sim.wf(),
        sim.state.paused(),
        sim.step(input, delta_time).state.paused(),
    ensures
        sim.step(input, delta_time).body == sim.body,
        sim.step(input, delta_time).obstacle == sim.obstacle,
        sim.outcome(input, delta_time).lifecycle_events == Seq::<LifecycleEvent>::empty(),
{
}

/// By how much an event changes the number of live entities of a kind.
pub open spec fn change(kind: EntityKind, event: LifecycleEvent) -> int {
    match event {
        LifecycleEvent::Create(made, _) => if made == kind {
            1
        } else {
            0
        },
        LifecycleEvent::Destroy(id) => if id.kind() == Some(kind) {
            -1
        } else {
            0
        },
    }
}

/// By how much a sequence of events changes the number of live entities of a
/// kind.
pub open spec fn net_change(kind: EntityKind, events: Seq<LifecycleEvent>) -> int
    decreases events.len(),
{
    if events.len() == 0 {
        0
    } else {
        net_change(kind, events.drop_last()) + change(kind, events.last())
    }
}

/// The number of entities of a kind that a simulation holds: none or one.
pub open spec fn population(sim: SimModel, kind: EntityKind) -> int {
    let present = match kind {
        EntityKind::Body => sim.body is Some,
        EntityKind::Ground => sim.state.in_game(),
        EntityKind::Obstacle => sim.obstacle is Some,
    };
    if present {
        1
    } else {
        0
    }
}

/// All events of a run, in order.
pub open spec fn event_log(outcomes: Seq<OutcomeModel>) -> Seq<LifecycleEvent>
    decreases outcomes.len(),
{
    if outcomes.len() == 0 {
        Seq::empty()
    } else {
        outcomes[0].lifecycle_events + event_log(outcomes.skip(1))
    }
}

/// One more event changes the count by that event's change.
pub proof fn lemma_net_change_push(
    kind: EntityKind,
    events: Seq<LifecycleEvent>,
    event: LifecycleEvent,
)
    ensures
        net_change(kind, events.push(event)) == net_change(kind, events) + change(kind, event),
{
    assert(events.push(event).drop_last() =~= events);
}

/// The change of two sequences in a row is the sum of their changes.
pub proof fn lemma_net_change_concat(
    kind: EntityKind,
    first: Seq<LifecycleEvent>,
    second: Seq<LifecycleEvent>,
)
    ensures
        net_change(kind, first + second) == net_change(kind, first) + net_change(kind, second),
    decreases second.len(),
{
    if second.len() == 0 {
        assert(first + second =~= first);
    } else {
        lemma_net_change_concat(kind, first, second.drop_last());
        assert((first + second).drop_last() =~= first + second.drop_last());
    }
}

/// The events of a frame account for every entity: what the simulation holds
/// after the frame is what it held before, changed by the frame's events.
pub proof fn lemma_step_population(
    sim: SimModel,
    input: InputSnapshot,
    delta_time: int,
    kind: EntityKind,
)
    requires
        sim.wf(),
    ensures
        population(sim.step(input, delta_time), kind) == population(sim, kind) + net_change(
            kind,
            sim.outcome(input, delta_time).lifecycle_events,
        ),
{
    let events = sim.outcome(input, delta_time).lifecycle_events;
    let none = Seq::<LifecycleEvent>::empty();
    if events.len() == 1 {
        assert(events =~= none.push(events[0]));
        lemma_net_change_push(kind, none, events[0]);
    } else if events.len() == 2 {
        assert(events =~= none.push(events[0]).push(events[1]));
        lemma_net_change_push(kind, none, events[0]);
        lemma_net_change_push(kind, none.push(events[0]), events[1]);
    } else if events.len() == 3 {
        assert(events =~= none.push(events[0]).push(events[1]).push(events[2]));
        lemma_net_change_push(kind, none, events[0]);
        lemma_net_change_push(kind, none.push(events[0]), events[1]);
        lemma_net_change_push(kind, none.push(events[0]).push(events[1]), events[2]);
    }
}

/// After any number of frames, whoever has followed the events from the
/// start counts, of each kind, what the simulation holds: never more than
/// one. In particular there is at most one obstacle at every frame boundary.
pub proof fn lemma_single_occupancy(sim: SimModel, frames: Seq<Frame>, kind: EntityKind)
    requires
        sim.wf(),
    ensures
        population(sim.run(frames), kind) == population(sim, kind) + net_change(
            kind,
            event_log(sim.outcomes(frames)),
        ),
        0 <= population(sim, kind) + net_change(kind, event_log(sim.outcomes(frames))) <= 1,
    decreases frames.len(),
{
    if frames.len() > 0 {
        let input = frames[0].input;
        let delta_time = frames[0].delta_time as int;
        let after = sim.step(input, delta_time);
        let first = seq![sim.outcome(input, delta_time)];
        let events = first[0].lifecycle_events;
        lemma_step_population(sim, input, delta_time, kind);
        if sim.quits(input) {
            assert(first.skip(1).len() == 0);
            assert(event_log(first.skip(1)) =~= Seq::<LifecycleEvent>::empty());
            assert(event_log(first) =~= events);
        } else {
            let rest = after.outcomes(frames.skip(1));
            lemma_step_wf(sim, input, delta_time);
            lemma_single_occupancy(after, frames.skip(1), kind);
            assert((first + rest).skip(1) =~= rest);
            assert(event_log(first + rest) == events + event_log(rest));
            lemma_net_change_concat(kind, events, event_log(rest));
        }
    }
}

} // verus!
