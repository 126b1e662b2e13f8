//! The client's side of the session: the messages a client sends, the
//! per-phase state it keeps, and the context state machine that follows the
//! server's next-context announcements.

use vstd::prelude::*;

use crate::game::{Card, Rank, Role, Suit};
use crate::protocol::{DataForNextContext, GameContextKind, RoleStatus, TransitionError, UnexpectedContext};
use crate::server::{ChatLine, LoginStatus};

verus! {

/// What a client asks for while logging in.
#[derive(Debug, Clone)]
pub enum IntroMsg {
    AddPlayer(String),
    GetChatLog,
}

/// What a client does in the lobby.
#[derive(Debug, Clone)]
pub enum HomeMsg {
    Chat(String),
    StartGame,
}

/// What a client does while roles are being picked.
#[derive(Debug, Clone)]
pub enum SelectRoleMsg {
    Chat(String),
    Select(Role),
}

/// What a client does during a match.
#[derive(Debug, Clone)]
pub enum GameMsg {
    Chat(String),
    DropAbility(Rank),
    SelectAbility(Rank),
    Attack(Card),
    Continue,
}

/// Messages understood in every phase.
#[derive(Debug, Clone)]
pub enum AppMsg {
    Ping,
    Logout,
    NextContext,
}

/// Everything a client can send: one phase-bound message per phase, plus
/// the phase-independent messages.
#[derive(Debug, Clone)]
pub enum Msg {
    Intro(IntroMsg),
    Home(HomeMsg),
    SelectRole(SelectRoleMsg),
    Game(GameMsg),
    App(AppMsg),
}

impl Msg {
    /// The phase a message belongs to; phase-independent messages have none.
    pub open spec fn spec_kind(&self) -> Option<GameContextKind> {
        match self {
            Msg::Intro(_) => Some(GameContextKind::Intro),
            Msg::Home(_) => Some(GameContextKind::Home),
            Msg::SelectRole(_) => Some(GameContextKind::Roles),
            Msg::Game(_) => Some(GameContextKind::Game),
            Msg::App(_) => None,
        }
    }

    /// The phase a message belongs to, or `None` for the shared messages
    /// that every phase accepts.
    pub fn kind(&self) -> (k: Option<GameContextKind>)
        ensures
            k == self.spec_kind(),
    {
        match self {
            Msg::Intro(_) => Some(GameContextKind::Intro),
            Msg::Home(_) => Some(GameContextKind::Home),
            Msg::SelectRole(_) => Some(GameContextKind::Roles),
            Msg::Game(_) => Some(GameContextKind::Game),
            Msg::App(_) => None,
        }
    }
}

/// Client-side Intro state: what the server has answered so far.
#[derive(Debug)]
pub struct Intro {
    pub status: Option<LoginStatus>,
    pub chat_log: Option<Vec<ChatLine>>,
}

impl Default for Intro {
    /// Before login, nothing has been answered.
    fn default() -> (i: Intro)
        ensures
            i.status is None,
            i.chat_log is None,
    {
        Intro { status: None, chat_log: None }
    }
}

/// What every logged-in phase shows: the chat view.
#[derive(Debug)]
pub struct App {
    pub chat: Vec<ChatLine>,
}

/// Client-side Home state.
#[derive(Debug)]
pub struct Home {
    pub app: App,
}

/// Client-side role-selection state.
#[derive(Debug)]
pub struct SelectRole {
    pub app: App,
    pub selected: Option<Role>,
    pub roles: Vec<RoleStatus>,
}

/// Client-side in-game state.
#[derive(Debug)]
pub struct Game {
    pub app: App,
    pub role: Suit,
    pub abilities: [Option<Rank>; 3],
    pub monsters: [Option<Card>; 2],
}

/// The snapshot a client needs to enter the Game phase.
#[derive(Debug, Clone)]
pub struct ClientStartGameData {
    pub abilities: [Option<Rank>; 3],
    pub monsters: [Option<Card>; 2],
    pub role: Suit,
}

/// What the server attaches to a next-context announcement for a client:
/// the kept selection when re-entering Roles, the start snapshot for Game.
pub type ClientNextContextData = DataForNextContext<Option<Role>, ClientStartGameData>;

/// The full state of a client, exactly one phase at a time.
#[derive(Debug)]
pub enum ClientGameContext {
    Intro(Intro),
    Home(Home),
    SelectRole(SelectRole),
    Game(Game),
}

impl ClientGameContext {
    /// A fresh connection starts in Intro with nothing answered yet.
    pub fn new() -> (c: ClientGameContext)
        ensures
            c matches ClientGameContext::Intro(i) && i.status is None && i.chat_log is None,
    {
        ClientGameContext::Intro(Intro::default())
    }

    /// The phase tag of this state.
    pub open spec fn spec_kind(&self) -> GameContextKind {
        match self {
            ClientGameContext::Intro(_) => GameContextKind::Intro,
            ClientGameContext::Home(_) => GameContextKind::Home,
            ClientGameContext::SelectRole(_) => GameContextKind::Roles,
            ClientGameContext::Game(_) => GameContextKind::Game,
        }
    }

    /// The phase tag of this state: a total, side-effect-free projection.
    pub fn kind(&self) -> (k: GameContextKind)
        ensures
            k == self.spec_kind(),
    {
        match self {
            ClientGameContext::Intro(_) => GameContextKind::Intro,
            ClientGameContext::Home(_) => GameContextKind::Home,
            ClientGameContext::SelectRole(_) => GameContextKind::Roles,
            ClientGameContext::Game(_) => GameContextKind::Game,
        }
    }

    /// Whether the recorded login answer allows leaving Intro.
    pub open spec fn spec_logged_in(&self) -> bool {
        self matches ClientGameContext::Intro(i) ==> (i.status matches Some(st)
            && st.spec_is_accepted())
    }

    /// Step the client's state to the context the server announced.
    ///
    /// Announcing the current context again is an intentional no-op. From
    /// Intro, a successful login must have been recorded first; entering
    /// Home also needs the fetched chat log; entering Roles or Game from
    /// Intro restores a reconnected client. From any later phase only the
    /// directly following context can be entered. A refusal hands the old
    /// state back unchanged.
    pub fn to_next(self, next: ClientNextContextData) -> (r: Result<
        ClientGameContext,
        (ClientGameContext, TransitionError),
    >)
        ensures
            match r {
                Ok(c) => {
                    &&& (next.spec_kind() == self.spec_kind() ==> c == self)
                    &&& (next.spec_kind() != self.spec_kind() ==> {
                        &&& c.spec_kind() == next.spec_kind()
                        &&& (self matches ClientGameContext::Intro(i) ==> {
                            &&& self.spec_logged_in()
                            &&& (next matches DataForNextContext::Home ==> {
                                &&& i.chat_log is Some
                                &&& c matches ClientGameContext::Home(h)
                                &&& h.app.chat == i.chat_log->Some_0
                            })
                            &&& (next matches DataForNextContext::SelectRole(sel) ==> {
                                &&& c matches ClientGameContext::SelectRole(s)
                                &&& s.selected == sel
                                &&& s.app.chat@.len() == 0
                                &&& s.roles@.len() == 0
                            })
                            &&& (next matches DataForNextContext::Game(d) ==> {
                                &&& c matches ClientGameContext::Game(g)
                                &&& g.role == d.role
                                &&& g.abilities == d.abilities
                                &&& g.monsters == d.monsters
                                &&& g.app.chat@.len() == 0
                            })
                        })
                        &&& (self matches ClientGameContext::Home(h) ==> {
                            &&& next matches DataForNextContext::SelectRole(_)
                            &&& c matches ClientGameContext::SelectRole(s)
                            &&& s.app == h.app
                            &&& s.selected is None
                            &&& s.roles@.len() == 0
                        })
                        &&& (self matches ClientGameContext::SelectRole(sr) ==> {
                            &&& next matches DataForNextContext::Game(d)
                            &&& c matches ClientGameContext::Game(g)
                            &&& g.app == sr.app
                            &&& g.role == d.role
                            &&& g.abilities == d.abilities
                            &&& g.monsters == d.monsters
                        })
                        &&& !(self is Game)
                    })
                },
                Err((c, e)) => {
                    &&& c == self
                    &&& next.spec_kind() != self.spec_kind()
                    &&& match e {
                        TransitionError::NotLogged => self is Intro && !self.spec_logged_in(),
                        TransitionError::MissingChatLog => {
                            &&& self matches ClientGameContext::Intro(i)
                            &&& self.spec_logged_in()
                            &&& next matches DataForNextContext::Home
                            &&& i.chat_log is None
                        },
                        TransitionError::Unexpected(u) => {
                            &&& u.expected == self.spec_kind()
                            &&& u.found == next.spec_kind()
                            &&& !(self is Intro)
                            &&& match self {
                                ClientGameContext::Home(_) => !(next matches
                                    DataForNextContext::SelectRole(_)),
                                ClientGameContext::SelectRole(_) => !(next matches
                                    DataForNextContext::Game(_)),
                                ClientGameContext::Game(_) => true,
                                ClientGameContext::Intro(_) => false,
                            }
                        },
                        _ => false,
                    }
                },
            },
    {
        let current = self.kind();
        let wanted = next.kind();
        if wanted == current {
            // the server announced the phase we are already in: a logged no-op
            return Ok(self);
        }
        match self {
            ClientGameContext::Intro(i) => {
                let accepted = match i.status {
                    Some(st) => st.is_accepted(),
                    None => false,
                };
                if !accepted {
                    return Err((ClientGameContext::Intro(i), TransitionError::NotLogged));
                }
                match next {
                    DataForNextContext::Intro => unreached(),
                    DataForNextContext::Home => {
                        match i.chat_log {
                            Some(chat) => Ok(ClientGameContext::Home(Home { app: App { chat } })),
                            None => Err(
                                (
                                    ClientGameContext::Intro(Intro { status: i.status, chat_log: None }),
                                    TransitionError::MissingChatLog,
                                ),
                            ),
                        }
                    },
                    DataForNextContext::SelectRole(sel) => {
                        Ok(
                            ClientGameContext::SelectRole(
                                SelectRole {
                                    app: App { chat: Vec::new() },
                                    selected: sel,
                                    roles: Vec::new(),
                                },
                            ),
                        )
                    },
                    DataForNextContext::Game(d) => {
                        Ok(
                            ClientGameContext::Game(
                                Game {
                                    app: App { chat: Vec::new() },
                                    role: d.role,
                                    abilities: d.abilities,
                                    monsters: d.monsters,
                                },
                            ),
                        )
                    },
                }
            },
            ClientGameContext::Home(h) => {
                match next {
                    DataForNextContext::SelectRole(_) => {
                        Ok(
                            ClientGameContext::SelectRole(
                                SelectRole { app: h.app, selected: None, roles: Vec::new() },
                            ),
                        )
                    },
                    _ => Err(
                        (
                            ClientGameContext::Home(h),
                            TransitionError::Unexpected(
                                UnexpectedContext { expected: current, found: wanted },
                            ),
                        ),
                    ),
                }
            },
            ClientGameContext::SelectRole(sr) => {
                match next {
                    DataForNextContext::Game(d) => {
                        Ok(
                            ClientGameContext::Game(
                                Game {
                                    app: sr.app,
                                    role: d.role,
                                    abilities: d.abilities,
                                    monsters: d.monsters,
                                },
                            ),
                        )
                    },
                    _ => Err(
                        (
                            ClientGameContext::SelectRole(sr),
                            TransitionError::Unexpected(
                                UnexpectedContext { expected: current, found: wanted },
                            ),
                        ),
                    ),
                }
            },
            ClientGameContext::Game(g) => {
                Err(
                    (
                        ClientGameContext::Game(g),
                        TransitionError::Unexpected(
                            UnexpectedContext { expected: current, found: wanted },
                        ),
                    ),
                )
            },
        }
    }
}

} // verus!
