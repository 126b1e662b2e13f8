//! Protocol-level types shared by both ends of a connection: the context
//! tag used for routing, usernames, the message envelope, turn status and
//! role availability.

use vstd::prelude::*;

use crate::game::Role;

verus! {

/// The step of a turn the active player is in: discard an ability, choose
/// the ability to fight with, attach it to a monster, then defend.
#[derive(Debug, PartialEq, Eq, Copy, Clone, Structural)]
pub enum GamePhaseKind {
    DropAbility,
    SelectAbility,
    AttachMonster,
    Defend,
}

impl Default for GamePhaseKind {
    /// A turn starts by discarding an ability.
    fn default() -> (p: Self)
        ensures
            p == GamePhaseKind::DropAbility,
    {
        GamePhaseKind::DropAbility
    }
}

/// The tag-only projection of a context or of a context-bound message:
/// which phase of the session it belongs to. Used for routing and for
/// comparison, never for data.
#[derive(Debug, Clone, Copy, PartialEq, Eq, Structural)]
pub enum GameContextKind {
    Intro,
    Home,
    Roles,
    Game,
}

/// The error of asking for the phase after the last one.
#[derive(Debug, Clone, Copy, PartialEq, Eq, Structural)]
pub enum NextContextError {
    NoNextContext,
}

impl GameContextKind {
    /// Position of a phase in the fixed forward order.
    pub open spec fn spec_index(self) -> int {
        match self {
            GameContextKind::Intro => 0,
            GameContextKind::Home => 1,
            GameContextKind::Roles => 2,
            GameContextKind::Game => 3,
        }
    }

    /// The phase after this one, if any: sessions only ever move forward
    /// through Intro, Home, Roles, Game.
    pub open spec fn spec_try_next(self) -> Result<GameContextKind, NextContextError> {
        match self {
            GameContextKind::Intro => Ok(GameContextKind::Home),
            GameContextKind::Home => Ok(GameContextKind::Roles),
            GameContextKind::Roles => Ok(GameContextKind::Game),
            GameContextKind::Game => Err(NextContextError::NoNextContext),
        }
    }

    /// The phase a peer in this phase advances to next; only the last phase
    /// has none.
    pub fn try_next_context(self) -> (r: Result<GameContextKind, NextContextError>)
        ensures
            r == self.spec_try_next(),
    {
        match self {
            GameContextKind::Intro => Ok(GameContextKind::Home),
            GameContextKind::Home => Ok(GameContextKind::Roles),
            GameContextKind::Roles => Ok(GameContextKind::Game),
            GameContextKind::Game => Err(NextContextError::NoNextContext),
        }
    }
}

/// Context advancement is monotonic: every successful step moves exactly one
/// phase forward, so repeated advancement from Intro visits Home, Roles and
/// Game in that order and never returns to Intro; only Game has no successor.
pub proof fn lemma_context_advancement_monotonic(k: GameContextKind)
    ensures
        k.spec_try_next() matches Ok(n) ==> n.spec_index() == k.spec_index() + 1,
        k.spec_try_next() matches Ok(n) ==> n != GameContextKind::Intro,
        k.spec_try_next() is Err <==> k == GameContextKind::Game,
{
}

/// The error reported when a message's context tag differs from the context
/// of the peer it was sent to.
#[derive(Debug, Clone, Copy, PartialEq, Eq, Structural)]
pub struct UnexpectedContext {
    pub expected: GameContextKind,
    pub found: GameContextKind,
}

/// Why a context transition was refused. A refusal hands the old state back
/// untouched: a failed transition never leaves a half-built context.
#[derive(Debug, Clone, Copy, PartialEq, Eq, Structural)]
pub enum TransitionError {
    /// A client cannot leave Intro before a successful login was recorded.
    NotLogged,
    /// A client cannot enter Home before the chat log has been fetched.
    MissingChatLog,
    /// The server cannot advance a peer out of Intro before a login has
    /// recorded a username.
    MissingName,
    /// The server cannot advance a peer from Roles to Game before a role is
    /// chosen.
    MissingRole,
    /// The requested phase is not reachable from the current phase.
    Unexpected(UnexpectedContext),
}

/// A player's display name: at least 2 and at most 20 bytes of text.
#[derive(Debug)]
pub struct Username {
    name: String,
}

/// The error of an ill-sized username; holds the rejected byte length.
#[derive(Debug, Clone, Copy, PartialEq, Eq, Structural)]
pub struct UsernameError(pub usize);

impl Username {
    /// Byte length of a username's text, as a machine word measures it.
    pub open spec fn spec_byte_len(text: Seq<char>) -> int {
        (vstd::utf8::encode_utf8(text).len() as usize) as int
    }

    /// A well-formed username: its text is 2 to 20 bytes long.
    pub open spec fn wf(self) -> bool {
        1 < Self::spec_byte_len(self@) <= 20
    }

    /// Validate a name. Accepts exactly the strings of 2 to 20 bytes; the
    /// error carries the offending length.
    pub fn new(value: String) -> (r: Result<Username, UsernameError>)
        ensures
            match r {
                Ok(u) => u@ == value@ && u.wf(),
                Err(e) => !(1 < Self::spec_byte_len(value@) <= 20) && e.0 == Self::spec_byte_len(
                    value@,
                ),
            },
    {
        let n = value.as_str().len();
        if 1 < n && n <= 20 {
            Ok(Username { name: value })
        } else {
            Err(UsernameError(n))
        }
    }

    /// The name as text.
    pub fn as_str(&self) -> (s: &str)
        ensures
            s@ == self@,
    {
        self.name.as_str()
    }
}

impl View for Username {
    type V = Seq<char>;

    closed spec fn view(&self) -> Seq<char> {
        self.name@
    }
}

impl Clone for Username {
    fn clone(&self) -> (r: Self)
        ensures
            r == *self,
    {
        Username { name: self.name.clone() }
    }
}

impl PartialEq for Username {
    fn eq(&self, other: &Self) -> (r: bool) {
        self.name == other.name
    }
}

impl vstd::std_specs::cmp::PartialEqSpecImpl for Username {
    open spec fn obeys_eq_spec() -> bool {
        true
    }

    open spec fn eq_spec(&self, other: &Self) -> bool {
        self@ == other@
    }
}

/// The outer message envelope: either a message every phase understands or
/// a message of the current phase.
#[derive(Debug, Clone)]
pub enum Msg<SharedMsg, StateMsg> {
    Shared(SharedMsg),
    State(StateMsg),
}

/// The data a peer needs to enter its next context: nothing for Home, the
/// kept role selection for Roles, the start-of-game snapshot for Game.
#[derive(Debug, Clone)]
pub enum DataForNextContext<S, G> {
    Intro,
    Home,
    SelectRole(S),
    Game(G),
}

impl<S, G> DataForNextContext<S, G> {
    /// Which phase this data is for.
    pub open spec fn spec_kind(&self) -> GameContextKind {
        match self {
            DataForNextContext::Intro => GameContextKind::Intro,
            DataForNextContext::Home => GameContextKind::Home,
            DataForNextContext::SelectRole(_) => GameContextKind::Roles,
            DataForNextContext::Game(_) => GameContextKind::Game,
        }
    }

    /// Which phase this data is for: the total, payload-free projection.
    pub fn kind(&self) -> (k: GameContextKind)
        ensures
            k == self.spec_kind(),
    {
        match self {
            DataForNextContext::Intro => GameContextKind::Intro,
            DataForNextContext::Home => GameContextKind::Home,
            DataForNextContext::SelectRole(_) => GameContextKind::Roles,
            DataForNextContext::Game(_) => GameContextKind::Game,
        }
    }
}

/// Availability of one role, derived fresh from live selections on each
/// query, never stored.
#[derive(PartialEq, Eq, Copy, Clone, Debug, Structural)]
pub enum RoleStatus {
    NotAvailable(Role),
    Available(Role),
}

impl RoleStatus {
    /// The role this status speaks of.
    pub open spec fn spec_role(self) -> Role {
        match self {
            RoleStatus::NotAvailable(r) => r,
            RoleStatus::Available(r) => r,
        }
    }

    /// The role this status speaks of, whichever the availability.
    pub fn role(&self) -> (r: Role)
        ensures
            r == self.spec_role(),
    {
        match *self {
            RoleStatus::NotAvailable(r) => r,
            RoleStatus::Available(r) => r,
        }
    }
}

/// Whose turn it is, as told to one client: its own turn (with the phase to
/// play) or someone else's.
#[derive(Clone, Copy, Debug, PartialEq, Eq, Structural)]
pub enum TurnStatus {
    Ready(GamePhaseKind),
    Wait,
}

impl TurnStatus {
    /// True exactly when it is our turn and the phase satisfies `f`.
    #[must_use]
    #[inline]
    pub fn is_ready_and<F: FnOnce(GamePhaseKind) -> bool>(self, f: F) -> (b: bool)
        requires
            self is Ready ==> call_requires(f, (self->0,)),
        ensures
            self is Wait ==> !b,
            self is Ready ==> call_ensures(f, (self->0,), b),
    {
        match self {
            TurnStatus::Wait => false,
            TurnStatus::Ready(phase) => f(phase),
        }
    }
}

/// The outcome of a game action sent to the server: the echoed value when it
/// was the sender's turn, else the name of the player whose turn it is.
#[derive(Clone, Debug)]
pub enum TurnResult<T> {
    Completed(T),
    NotYourTurn(Username),
}

/// Implemented by a message type read off the socket for one phase.
pub trait IncomingSocketMessage {
    type Msg;
}

/// Implemented by a message type written to the socket for one phase.
pub trait SendSocketMessage {
    type Msg;
}

/// Implemented by a state that knows which state follows it.
pub trait NextState {
    type Next;
}

/// A handler that consumes one inbound message against some state handle.
pub trait MessageReceiver<M, S> {
    fn reduce(&mut self, msg: M, state: S) -> Result<(), UnexpectedContext>;
}

/// Holds a line-delimited inbound stream while messages are decoded off it.
/// Decoding itself happens outside the library; this type only carries the
/// stream from construction to its reader.
pub struct MessageDecoder<S> {
    pub stream: S,
}

impl<S> MessageDecoder<S> {
    /// Wrap a stream for decoding.
    pub fn new(stream: S) -> (d: MessageDecoder<S>)
        ensures
            d.stream == stream,
    {
        MessageDecoder { stream }
    }
}

} // verus!
