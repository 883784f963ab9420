//! The game-state machine: menu, running and paused, the requests that move
//! between them, and the queue that holds requests until the frame boundary.

use vstd::prelude::*;
use crate::lifecycle::{EntityKind, LifecycleEvent, LifecycleRequest};

verus! {

/// Whether the simulation advances. It exists only inside a game.
#[derive(Clone, Copy, Debug, PartialEq, Eq, Structural)]
pub enum PauseState {
    Running,
    Paused,
}

/// The top-level mode. A pause outside a game cannot be written down.
#[derive(Clone, Copy, Debug, PartialEq, Eq, Structural)]
pub enum GameState {
    Menu,
    InGame(PauseState),
}

/// A request to change state. It takes effect at the frame boundary, if the
/// state it meets there accepts it.
#[derive(Clone, Copy, Debug, PartialEq, Eq, Structural)]
pub enum TransitionRequest {
    /// "Play" was pressed in the menu.
    Play,
    /// A pause was asked for while running.
    Pause,
    /// Resuming was asked for while paused.
    Resume,
    /// Ending the round was asked for while paused.
    End,
    /// The body touched the obstacle.
    Collision,
}

impl GameState {
    /// The state a fresh simulation starts in.
    pub open spec fn initial() -> GameState {
        GameState::Menu
    }

    /// A game is on, running or paused.
    pub open spec fn in_game(self) -> bool {
        self is InGame
    }

    /// A game is on and not paused.
    pub open spec fn running(self) -> bool {
        self == GameState::InGame(PauseState::Running)
    }

    /// A game is on and paused.
    pub open spec fn paused(self) -> bool {
        self == GameState::InGame(PauseState::Paused)
    }

    /// The transition table's left side: which request each state accepts.
    pub open spec fn accepts(self, request: TransitionRequest) -> bool {
        match (self, request) {
            (GameState::Menu, TransitionRequest::Play) => true,
            (GameState::InGame(PauseState::Running), TransitionRequest::Pause) => true,
            (GameState::InGame(PauseState::Running), TransitionRequest::Collision) => true,
            (GameState::InGame(PauseState::Paused), TransitionRequest::Resume) => true,
            (GameState::InGame(PauseState::Paused), TransitionRequest::End) => true,
            _ => false,
        }
    }

    /// The transition table's right side: where an accepted request leads.
    /// A request that is not accepted changes nothing.
    pub open spec fn after(self, request: TransitionRequest) -> GameState {
        if self.accepts(request) {
            match request {
                TransitionRequest::Play => GameState::InGame(PauseState::Running),
                TransitionRequest::Pause => GameState::InGame(PauseState::Paused),
                TransitionRequest::Resume => GameState::InGame(PauseState::Running),
                TransitionRequest::End => GameState::Menu,
                TransitionRequest::Collision => GameState::Menu,
            }
        } else {
            self
        }
    }

    /// Whether a game is on.
    pub fn is_in_game(&self) -> (yes: bool)
        ensures
            yes == self.in_game(),
    {
        match self {
            GameState::Menu => false,
            GameState::InGame(_) => true,
        }
    }

    /// Whether a game is on and not paused.
    pub fn is_running(&self) -> (yes: bool)
        ensures
            yes == self.running(),
    {
        match self {
            GameState::InGame(PauseState::Running) => true,
            _ => false,
        }
    }

    /// Whether a game is on and paused.
    pub fn is_paused(&self) -> (yes: bool)
        ensures
            yes == self.paused(),
    {
        match self {
            GameState::InGame(PauseState::Paused) => true,
            _ => false,
        }
    }

    /// Whether this state accepts the request.
    pub fn allows(&self, request: TransitionRequest) -> (yes: bool)
        ensures
            yes == self.accepts(request),
    {
        match (self, request) {
            (GameState::Menu, TransitionRequest::Play) => true,
            (GameState::InGame(PauseState::Running), TransitionRequest::Pause) => true,
            (GameState::InGame(PauseState::Running), TransitionRequest::Collision) => true,
            (GameState::InGame(PauseState::Paused), TransitionRequest::Resume) => true,
            (GameState::InGame(PauseState::Paused), TransitionRequest::End) => true,
            _ => false,
        }
    }

    /// The state after one request.
    pub fn apply(&self, request: TransitionRequest) -> (next: GameState)
        ensures
            next == self.after(request),
    {
        if self.allows(request) {
            match request {
                TransitionRequest::Play => GameState::InGame(PauseState::Running),
                TransitionRequest::Pause => GameState::InGame(PauseState::Paused),
                TransitionRequest::Resume => GameState::InGame(PauseState::Running),
                TransitionRequest::End => GameState::Menu,
                TransitionRequest::Collision => GameState::Menu,
            }
        } else {
            *self
        }
    }
}

/// A request is live when it was made and the state accepts it.
pub open spec fn live(
    state: GameState,
    requests: Seq<TransitionRequest>,
    request: TransitionRequest,
) -> bool {
    requests.contains(request) && state.accepts(request)
}

/// The one request that is applied at a frame boundary, if any. Among the
/// live requests the round-ending ones win, a collision before a manual end;
/// then come play, pause and resume.
pub open spec fn chosen(state: GameState, requests: Seq<TransitionRequest>) -> Option<
    TransitionRequest,
> {
    if live(state, requests, TransitionRequest::Collision) {
        Some(TransitionRequest::Collision)
    } else if live(state, requests, TransitionRequest::End) {
        Some(TransitionRequest::End)
    } else if live(state, requests, TransitionRequest::Play) {
        Some(TransitionRequest::Play)
    } else if live(state, requests, TransitionRequest::Pause) {
        Some(TransitionRequest::Pause)
    } else if live(state, requests, TransitionRequest::Resume) {
        Some(TransitionRequest::Resume)
    } else {
        None
    }
}

/// The state after a frame boundary at which the given requests are pending.
pub open spec fn resolve(state: GameState, requests: Seq<TransitionRequest>) -> GameState {
    match chosen(state, requests) {
        Some(request) => state.after(request),
        None => state,
    }
}

/// What a frame boundary decided.
#[derive(Clone, Copy, Debug, PartialEq, Eq, Structural)]
pub struct Resolution {
    /// The state from the boundary on.
    pub state: GameState,
    /// The request that was applied, if one was.
    pub applied: Option<TransitionRequest>,
}

/// Holds the transition requests of a frame until its boundary.
#[derive(Debug)]
pub struct TransitionQueue {
    pending: Vec<TransitionRequest>,
}

impl View for TransitionQueue {
    type V = Seq<TransitionRequest>;

    closed spec fn view(&self) -> Seq<TransitionRequest> {
        self.pending@
    }
}

impl TransitionQueue {
    /// A queue with nothing pending.
    pub fn new() -> (queue: TransitionQueue)
        ensures
            queue@ == Seq::<TransitionRequest>::empty(),
    {
        TransitionQueue { pending: Vec::new() }
    }

    /// The number of pending requests.
    pub fn len(&self) -> (n: usize)
        ensures
            n == self@.len(),
    {
        self.pending.len()
    }

    /// Adds a request behind those already pending.
    pub fn request(&mut self, request: TransitionRequest)
        ensures
            final(self)@ == old(self)@.push(request),
    {
        self.pending.push(request);
    }

    /// Whether the request is pending.
    pub fn has(&self, request: TransitionRequest) -> (found: bool)
        ensures
            found == self@.contains(request),
    {
        let mut found = false;
        let mut i: usize = 0;
        while i < self.pending.len()
            invariant
                i <= self.pending@.len(),
                found == (exists|j: int| 0 <= j < i && self.pending@[j] == request),
            decreases self.pending@.len() - i,
        {
            if self.pending[i] == request {
                found = true;
            }
            i += 1;
        }
        found
    }

    /// Empties the queue at a frame boundary and applies the one request
    /// that wins there.
    pub fn drain(&mut self, state: GameState) -> (out: Resolution)
        ensures
            final(self)@ == Seq::<TransitionRequest>::empty(),
            out.applied == chosen(state, old(self)@),
            out.state == resolve(state, old(self)@),
    {
        let applied = if state.allows(TransitionRequest::Collision) && self.has(
            TransitionRequest::Collision,
        ) {
            Some(TransitionRequest::Collision)
        } else if state.allows(TransitionRequest::End) && self.has(TransitionRequest::End) {
            Some(TransitionRequest::End)
        } else if state.allows(TransitionRequest::Play) && self.has(TransitionRequest::Play) {
            Some(TransitionRequest::Play)
        } else if state.allows(TransitionRequest::Pause) && self.has(TransitionRequest::Pause) {
            Some(TransitionRequest::Pause)
        } else if state.allows(TransitionRequest::Resume) && self.has(TransitionRequest::Resume) {
            Some(TransitionRequest::Resume)
        } else {
            None
        };
        self.pending.clear();
        let next = match applied {
            Some(request) => state.apply(request),
            None => state,
        };
        Resolution { state: next, applied }
    }
}

/// Whether the machine grants a subsystem's request at the boundary. It
/// creates an obstacle only into an empty slot, destroys one only where one
/// is, and lets no subsystem create or destroy anything else.
pub open spec fn grants(request: LifecycleRequest, obstacle_live: bool) -> bool {
    match request {
        LifecycleRequest::Create(kind) => kind == EntityKind::Obstacle && !obstacle_live,
        LifecycleRequest::Destroy(id) => id.kind() == Some(EntityKind::Obstacle) && obstacle_live,
    }
}

/// The event that granting a request produces.
pub open spec fn granted(request: LifecycleRequest) -> LifecycleEvent {
    match request {
        LifecycleRequest::Create(kind) => kind.created(),
        LifecycleRequest::Destroy(id) => LifecycleEvent::Destroy(id),
    }
}

/// The creations and destructions of one frame boundary, in order. Entering
/// a game creates body and ground. Leaving it destroys body, obstacle (if
/// there is one) and ground. Inside a game the subsystem's request is
/// granted or dropped.
pub open spec fn boundary_events(
    before: GameState,
    after: GameState,
    obstacle_live: bool,
    request: Option<LifecycleRequest>,
) -> Seq<LifecycleEvent> {
    if !before.in_game() && after.in_game() {
        seq![EntityKind::Body.created(), EntityKind::Ground.created()]
    } else if before.in_game() && !after.in_game() {
        if obstacle_live {
            seq![
                EntityKind::Body.destroyed(),
                EntityKind::Obstacle.destroyed(),
                EntityKind::Ground.destroyed(),
            ]
        } else {
            seq![EntityKind::Body.destroyed(), EntityKind::Ground.destroyed()]
        }
    } else if before.in_game() && request is Some && grants(request->0, obstacle_live) {
        seq![granted(request->0)]
    } else {
        Seq::empty()
    }
}

/// Whether the machine grants a subsystem's request.
pub fn is_granted(request: LifecycleRequest, obstacle_live: bool) -> (yes: bool)
    ensures
        yes == grants(request, obstacle_live),
{
    match request {
        LifecycleRequest::Create(kind) => kind == EntityKind::Obstacle && !obstacle_live,
        LifecycleRequest::Destroy(id) => id.slot == 2 && obstacle_live,
    }
}

/// The creations and destructions of one frame boundary, in order.
pub fn lifecycle_events(
    before: GameState,
    after: GameState,
    obstacle_live: bool,
    request: Option<LifecycleRequest>,
) -> (events: Vec<LifecycleEvent>)
    ensures
        events@ == boundary_events(before, after, obstacle_live, request),
{
    let mut events: Vec<LifecycleEvent> = Vec::new();
    if !before.is_in_game() && after.is_in_game() {
        events.push(EntityKind::Body.create_event());
        events.push(EntityKind::Ground.create_event());
    } else if before.is_in_game() && !after.is_in_game() {
        events.push(EntityKind::Body.destroy_event());
        if obstacle_live {
            events.push(EntityKind::Obstacle.destroy_event());
        }
        events.push(EntityKind::Ground.destroy_event());
    } else if before.is_in_game() {
        match request {
            Some(LifecycleRequest::Create(kind)) => {
                if is_granted(LifecycleRequest::Create(kind), obstacle_live) {
                    events.push(kind.create_event());
                }
            },
            Some(LifecycleRequest::Destroy(id)) => {
                if is_granted(LifecycleRequest::Destroy(id), obstacle_live) {
                    events.push(LifecycleEvent::Destroy(id));
                }
            },
            None => {},
        }
    }
    proof {
        assert(events@ =~= boundary_events(before, after, obstacle_live, request));
    }
    events
}

} // verus!
