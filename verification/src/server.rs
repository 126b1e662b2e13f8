//! The server's view of one peer: the per-phase state structs, the context
//! state machine that carries a peer from Intro to Game, and the message
//! types the server sends to clients.

use vstd::prelude::*;

use crate::game::{AbilityDeck, Card, Rank, Role};
use crate::protocol::{
    GameContextKind, GamePhaseKind, RoleStatus, TransitionError, TurnResult, TurnStatus,
    UnexpectedContext, Username,
};

verus! {

/// The answer to a login attempt.
#[derive(Debug, Clone, Copy, PartialEq, Eq, Structural)]
pub enum LoginStatus {
    Logged,
    Reconnected,
    AlreadyLogged,
    PlayerLimit,
    InvalidName,
}

impl LoginStatus {
    /// Whether the login was accepted; a rejected peer's connection closes.
    pub open spec fn spec_is_accepted(self) -> bool {
        self == LoginStatus::Logged || self == LoginStatus::Reconnected
    }

    /// Whether the login was accepted, as executable code.
    pub fn is_accepted(self) -> (b: bool)
        ensures
            b == self.spec_is_accepted(),
    {
        match self {
            LoginStatus::Logged | LoginStatus::Reconnected => true,
            _ => false,
        }
    }
}

/// One line of the room's chat log.
#[derive(Debug)]
pub enum ChatLine {
    Text { from: Username, text: String },
    GameEvent(String),
    Connection(Username),
    Reconnection(Username),
    Disconnection(Username),
}

impl Clone for ChatLine {
    fn clone(&self) -> (r: Self)
        ensures
            r == *self,
    {
        match self {
            ChatLine::Text { from, text } => ChatLine::Text {
                from: from.clone(),
                text: text.clone(),
            },
            ChatLine::GameEvent(t) => ChatLine::GameEvent(t.clone()),
            ChatLine::Connection(u) => ChatLine::Connection(u.clone()),
            ChatLine::Reconnection(u) => ChatLine::Reconnection(u.clone()),
            ChatLine::Disconnection(u) => ChatLine::Disconnection(u.clone()),
        }
    }
}

/// The answer to a role selection request.
#[derive(Debug, Clone, Copy, PartialEq, Eq, Structural)]
pub enum SelectRoleStatus {
    Selected(Role),
    Busy,
    AlreadySelected,
}

/// What a peer entering its next context needs from the server: nothing for
/// Home or Roles, the start-of-game snapshot for Game.
#[derive(Debug, Clone)]
pub enum ServerNextContextData {
    Intro,
    Home,
    Roles,
    Game(ServerStartGameData),
}

/// The server-side snapshot handed to a peer when a match starts.
#[derive(Debug, Clone)]
pub struct ServerStartGameData {
    pub monsters: [Option<Card>; 2],
}

impl ServerNextContextData {
    /// Which phase this data is for.
    pub open spec fn spec_kind(&self) -> GameContextKind {
        match self {
            ServerNextContextData::Intro => GameContextKind::Intro,
            ServerNextContextData::Home => GameContextKind::Home,
            ServerNextContextData::Roles => GameContextKind::Roles,
            ServerNextContextData::Game(_) => GameContextKind::Game,
        }
    }

    /// Which phase this data is for: the total, payload-free projection.
    pub fn kind(&self) -> (k: GameContextKind)
        ensures
            k == self.spec_kind(),
    {
        match self {
            ServerNextContextData::Intro => GameContextKind::Intro,
            ServerNextContextData::Home => GameContextKind::Home,
            ServerNextContextData::Roles => GameContextKind::Roles,
            ServerNextContextData::Game(_) => GameContextKind::Game,
        }
    }
}

/// What the server answers during login.
#[derive(Debug)]
pub enum IntroMsg {
    LoginStatus(LoginStatus),
}

/// What the server sends while roles are being picked.
#[derive(Debug)]
pub enum RolesMsg {
    SelectedStatus(SelectRoleStatus),
    AvailableRoles(Vec<RoleStatus>),
}

/// What the server sends during a match: turn announcements, echoes of
/// accepted actions, and refreshed game data.
#[derive(Debug)]
pub enum GameMsg {
    Turn(TurnStatus),
    DropAbility(TurnResult<Rank>),
    SelectAbility(TurnResult<Rank>),
    Attack(TurnResult<Card>),
    Continue(TurnResult<bool>),
    UpdateGameData(([Option<Card>; 2], [Option<Rank>; 3])),
}

/// What the server sends in any phase.
#[derive(Debug)]
pub enum AppMsg {
    Pong,
    Logout,
    Chat(ChatLine),
    ChatLog(Vec<ChatLine>),
    NextContext(crate::client::ClientNextContextData),
}

/// Everything the server can send to a client: one phase-bound message
/// per phase that has any, plus the phase-independent messages.
#[derive(Debug)]
pub enum Msg {
    App(AppMsg),
    Intro(IntroMsg),
    Roles(RolesMsg),
    Game(GameMsg),
}

impl Msg {
    /// The phase a message belongs to; phase-independent messages have
    /// none.
    pub open spec fn spec_kind(&self) -> Option<GameContextKind> {
        match self {
            Msg::App(_) => None,
            Msg::Intro(_) => Some(GameContextKind::Intro),
            Msg::Roles(_) => Some(GameContextKind::Roles),
            Msg::Game(_) => Some(GameContextKind::Game),
        }
    }

    /// The phase a message belongs to, or `None` for the shared messages
    /// every phase accepts.
    pub fn kind(&self) -> (k: Option<GameContextKind>)
        ensures
            k == self.spec_kind(),
    {
        match self {
            Msg::App(_) => None,
            Msg::Intro(_) => Some(GameContextKind::Intro),
            Msg::Roles(_) => Some(GameContextKind::Roles),
            Msg::Game(_) => Some(GameContextKind::Game),
        }
    }
}

/// Server-side Intro state: the username once login has claimed a slot.
#[derive(Debug)]
pub struct Intro {
    pub name: Option<Username>,
}

/// Server-side Home state.
#[derive(Debug)]
pub struct Home {
    pub name: Username,
}

/// Server-side role-selection state.
#[derive(Debug)]
pub struct SelectRole {
    pub name: Username,
    pub role: Option<Role>,
}

/// Server-side in-game state: the peer's role and its ability pile.
#[derive(Debug)]
pub struct Game {
    pub name: Username,
    pub role: Role,
    pub abilities: AbilityDeck,
    pub selected_ability: Option<Rank>,
}

/// The full state of one peer on the server, exactly one phase at a time.
#[derive(Debug)]
pub enum ServerGameContext {
    Intro(Intro),
    Home(Home),
    SelectRole(SelectRole),
    Game(Game),
}

impl ServerGameContext {
    /// The phase tag of this state.
    pub open spec fn spec_kind(&self) -> GameContextKind {
        match self {
            ServerGameContext::Intro(_) => GameContextKind::Intro,
            ServerGameContext::Home(_) => GameContextKind::Home,
            ServerGameContext::SelectRole(_) => GameContextKind::Roles,
            ServerGameContext::Game(_) => GameContextKind::Game,
        }
    }

    /// The phase tag of this state: a total, side-effect-free projection.
    pub fn kind(&self) -> (k: GameContextKind)
        ensures
            k == self.spec_kind(),
    {
        match self {
            ServerGameContext::Intro(_) => GameContextKind::Intro,
            ServerGameContext::Home(_) => GameContextKind::Home,
            ServerGameContext::SelectRole(_) => GameContextKind::Roles,
            ServerGameContext::Game(_) => GameContextKind::Game,
        }
    }

    /// Whether a username has been recorded: always, except in Intro before
    /// login.
    pub open spec fn spec_has_name(&self) -> bool {
        match self {
            ServerGameContext::Intro(i) => i.name is Some,
            _ => true,
        }
    }

    /// The recorded username's text.
    pub open spec fn spec_username(&self) -> Seq<char> {
        match self {
            ServerGameContext::Intro(i) => match i.name {
                Some(u) => u@,
                None => Seq::empty(),
            },
            ServerGameContext::Home(h) => h.name@,
            ServerGameContext::SelectRole(s) => s.name@,
            ServerGameContext::Game(g) => g.name@,
        }
    }

    /// The role this peer has chosen or been dealt, if any: a selection in
    /// Roles, the fixed role in Game, nothing earlier.
    pub open spec fn spec_role(&self) -> Option<Role> {
        match self {
            ServerGameContext::Intro(_) => None,
            ServerGameContext::Home(_) => None,
            ServerGameContext::SelectRole(s) => s.role,
            ServerGameContext::Game(g) => Some(g.role),
        }
    }

    /// The role this peer holds, if any, as executable code.
    pub fn role(&self) -> (r: Option<Role>)
        ensures
            r == self.spec_role(),
    {
        match self {
            ServerGameContext::Intro(_) => None,
            ServerGameContext::Home(_) => None,
            ServerGameContext::SelectRole(s) => s.role,
            ServerGameContext::Game(g) => Some(g.role),
        }
    }

    /// The recorded username. A peer visible to the room always has one.
    pub fn get_username(&self) -> (u: Username)
        requires
            self.spec_has_name(),
        ensures
            u@ == self.spec_username(),
    {
        match self {
            ServerGameContext::Intro(i) => match &i.name {
                Some(u) => u.clone(),
                None => unreached(),
            },
            ServerGameContext::Home(h) => h.name.clone(),
            ServerGameContext::SelectRole(s) => s.name.clone(),
            ServerGameContext::Game(g) => g.name.clone(),
        }
    }

    /// Step this peer's state to the requested next context.
    ///
    /// Asking for the current context again is an intentional no-op; asking
    /// for any other context than the one directly after this one is
    /// refused; Intro needs a recorded name, and Roles needs a chosen role,
    /// before they can advance. Ownership moves through, so a refusal hands
    /// the old state back unchanged.
    pub fn to_next(self, next: &ServerNextContextData) -> (r: Result<
        ServerGameContext,
        (ServerGameContext, TransitionError),
    >)
        ensures
            match r {
                Ok(c) => {
                    &&& (next.spec_kind() == self.spec_kind() ==> c == self)
                    &&& (next.spec_kind() != self.spec_kind() ==> {
                        &&& self.spec_kind().spec_try_next() == Ok::<GameContextKind, crate::protocol::NextContextError>(next.spec_kind())
                        &&& c.spec_kind() == next.spec_kind()
                        &&& self.spec_has_name()
                        &&& c.spec_username() == self.spec_username()
                        &&& (next.spec_kind() == GameContextKind::Roles ==> c.spec_role() is None)
                        &&& (next.spec_kind() == GameContextKind::Game ==> {
                            &&& self.spec_role() matches Some(rl)
                            &&& c.spec_role() == self.spec_role()
                            &&& c matches ServerGameContext::Game(g)
                            &&& g.selected_ability is None
                            &&& g.abilities.suit == rl.spec_suit()
                            &&& g.abilities.ranks@.to_multiset() == Rank::spec_all().to_multiset()
                        })
                    })
                },
                Err((c, e)) => {
                    &&& c == self
                    &&& match e {
                        TransitionError::MissingName => self.spec_kind() == GameContextKind::Intro
                            && next.spec_kind() == GameContextKind::Home
                            && !self.spec_has_name(),
                        TransitionError::MissingRole => self.spec_kind() == GameContextKind::Roles
                            && next.spec_kind() == GameContextKind::Game && self.spec_role()
                            is None,
                        TransitionError::Unexpected(u) => u.expected == self.spec_kind()
                            && u.found == next.spec_kind() && next.spec_kind()
                            != self.spec_kind() && Ok::<GameContextKind, crate::protocol::NextContextError>(next.spec_kind())
                            != self.spec_kind().spec_try_next(),
                        _ => false,
                    }
                },
            },
    {
        let current = self.kind();
        let wanted = next.kind();
        if wanted == current {
            // asking for the phase we are already in: a logged no-op
            return Ok(self);
        }
        match current.try_next_context() {
            Ok(succ) if succ == wanted => {},
            _ => {
                return Err(
                    (
                        self,
                        TransitionError::Unexpected(
                            UnexpectedContext { expected: current, found: wanted },
                        ),
                    ),
                );
            },
        }
        match self {
            ServerGameContext::Intro(i) => {
                match i.name {
                    Some(name) => Ok(ServerGameContext::Home(Home { name })),
                    None => Err(
                        (ServerGameContext::Intro(Intro { name: None }), TransitionError::MissingName),
                    ),
                }
            },
            ServerGameContext::Home(h) => {
                Ok(ServerGameContext::SelectRole(SelectRole { name: h.name, role: None }))
            },
            ServerGameContext::SelectRole(s) => {
                match s.role {
                    Some(role) => {
                        let mut abilities = AbilityDeck::new(role.suit());
                        abilities.shuffle();
                        Ok(
                            ServerGameContext::Game(
                                Game { name: s.name, role, abilities, selected_ability: None },
                            ),
                        )
                    },
                    None => Err((ServerGameContext::SelectRole(s), TransitionError::MissingRole)),
                }
            },
            ServerGameContext::Game(_) => unreached(),
        }
    }
}

} // verus!
