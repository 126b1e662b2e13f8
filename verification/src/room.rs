//! The room: the server's roster of peer slots and the shared chat log,
//! with the arbitration logic that the server actor runs over it — login
//! and reconnection, role bookkeeping, turn order and the context admission rule.

use vstd::prelude::*;

use crate::game::{Deck, Rank, Role};
use crate::protocol::{GameContextKind, RoleStatus, Username};
use crate::server::{
    ChatLine, Intro, LoginStatus, SelectRole, SelectRoleStatus, ServerGameContext,
    ServerNextContextData, ServerStartGameData,
};
use crate::session::GameSession;
use crate::MAX_PLAYER_COUNT;

verus! {

/// A stable token for one live connection; a reconnecting player arrives
/// with a fresh one.
pub type PlayerId = u64;

/// Whether a slot's player is on a live socket or waiting to reconnect.
#[derive(Debug, Clone, Copy, PartialEq, Eq, Structural)]
pub enum PeerStatus {
    Connected,
    WaitReconnection,
}

/// One seat of the room: the connection token, its liveness, and the
/// server-side state of the peer sitting there.
#[derive(Debug)]
pub struct PeerSlot {
    pub addr: PlayerId,
    pub status: PeerStatus,
    pub peer: ServerGameContext,
}

impl PeerSlot {
    /// Seat a freshly connected peer.
    pub fn new(addr: PlayerId, peer: ServerGameContext) -> (s: PeerSlot)
        ensures
            s.addr == addr,
            s.status == PeerStatus::Connected,
            s.peer == peer,
    {
        PeerSlot { addr, status: PeerStatus::Connected, peer }
    }
}

/// Why a room operation could not find its subject.
#[derive(Debug, Clone, Copy, PartialEq, Eq, Structural)]
pub enum RoomError {
    PeerNotFound,
}

/// What came of a request to advance: whom it moved, or why it was a
/// no-op for now.
#[derive(Debug)]
pub enum AdvanceOutcome {
    /// The requesting peer entered Home; broadcast this connection line.
    ToHome(ChatLine),
    /// The admission conditions are not met yet; nothing changed.
    NotReady,
    /// The whole room entered Roles.
    ToRoles,
    /// The whole room entered Game; here is the match's fresh session.
    StartGame(GameSession),
}

/// Why a request to advance failed outright.
#[derive(Debug, Clone, Copy, PartialEq, Eq, Structural)]
pub enum AdvanceError {
    /// No seated peer uses the requesting token.
    PeerNotFound,
    /// The requester is already in the last phase.
    NoNextContext,
    /// A Roles-phase request found the room not full or in mixed phases:
    /// a programming error, fatal for the acting server.
    RoomInvariantBroken,
}

/// The server actor itself carries no state of its own: everything it
/// arbitrates lives in the [`Room`] it reduces commands against.
#[derive(Debug, Default)]
pub struct Server {}

/// The single match lobby: a fixed array of optional peer slots and the
/// chat history. Created once at server start.
#[derive(Debug)]
pub struct Room {
    pub slots: Vec<Option<PeerSlot>>,
    pub chat: Vec<ChatLine>,
}

impl Room {
    /// Is seat `i` taken?
    pub open spec fn spec_occupied(self, i: int) -> bool {
        0 <= i < self.slots@.len() && self.slots@[i] is Some
    }

    /// The slot at seat `i`.
    pub open spec fn spec_slot(self, i: int) -> PeerSlot
        recommends
            self.spec_occupied(i),
    {
        self.slots@[i]->Some_0
    }

    /// A room the server can work with: exactly [`MAX_PLAYER_COUNT`] seats;
    /// every seated peer has a recorded username; connection tokens,
    /// usernames and chosen roles are all distinct across seats.
    pub open spec fn wf(self) -> bool {
        &&& self.slots@.len() == MAX_PLAYER_COUNT
        &&& forall|i: int|
            self.spec_occupied(i) ==> (#[trigger] self.spec_slot(i)).peer.spec_has_name()
        &&& forall|i: int, j: int|
            self.spec_occupied(i) && self.spec_occupied(j) && i != j ==> (
            #[trigger] self.spec_slot(i)).addr != (#[trigger] self.spec_slot(j)).addr
        &&& forall|i: int, j: int|
            self.spec_occupied(i) && self.spec_occupied(j) && i != j ==> (
            #[trigger] self.spec_slot(i)).peer.spec_username() != (
            #[trigger] self.spec_slot(j)).peer.spec_username()
        &&& forall|i: int, j: int|
            self.spec_occupied(i) && self.spec_occupied(j) && i != j && (
            #[trigger] self.spec_slot(i)).peer.spec_role() is Some ==> self.spec_slot(
                i,
            ).peer.spec_role() != (#[trigger] self.spec_slot(j)).peer.spec_role()
    }

    /// Does some seated peer use this connection token?
    pub open spec fn spec_has_addr(self, addr: PlayerId) -> bool {
        exists|i: int| self.spec_occupied(i) && (#[trigger] self.spec_slot(i)).addr == addr
    }

    /// The seat of the peer with this connection token.
    pub open spec fn spec_index_of_addr(self, addr: PlayerId) -> int
        recommends
            self.spec_has_addr(addr),
    {
        choose|i: int| self.spec_occupied(i) && (#[trigger] self.spec_slot(i)).addr == addr
    }

    /// Does some seated peer carry this username?
    pub open spec fn spec_has_username(self, name: Seq<char>) -> bool {
        exists|i: int|
            self.spec_occupied(i) && (#[trigger] self.spec_slot(i)).peer.spec_username() == name
    }

    /// Is some seated peer's chosen role this one?
    pub open spec fn spec_role_taken(self, role: Role) -> bool {
        exists|i: int|
            self.spec_occupied(i) && (#[trigger] self.spec_slot(i)).peer.spec_role() == Some(role)
    }

    /// Is every seat taken?
    pub open spec fn spec_is_full(self) -> bool {
        forall|i: int| 0 <= i < self.slots@.len() ==> self.spec_occupied(i)
    }

    /// An empty room with every seat free and no chat yet.
    pub fn new() -> (r: Room)
        ensures
            r.wf(),
            r.slots@.len() == MAX_PLAYER_COUNT,
            forall|i: int| 0 <= i < MAX_PLAYER_COUNT ==> !r.spec_occupied(i),
            r.chat@.len() == 0,
    {
        let mut slots: Vec<Option<PeerSlot>> = Vec::new();
        slots.push(None);
        slots.push(None);
        Room { slots, chat: Vec::new() }
    }

    /// Whether every seat is taken.
    pub fn is_full(&self) -> (b: bool)
        ensures
            b == self.spec_is_full(),
    {
        let mut i: usize = 0;
        while i < self.slots.len()
            invariant
                i <= self.slots@.len(),
                forall|j: int| 0 <= j < i ==> self.spec_occupied(j),
            decreases self.slots@.len() - i,
        {
            if self.slots[i].is_none() {
                proof {
                    assert(!self.spec_occupied(i as int));
                }
                return false;
            }
            i = i + 1;
        }
        true
    }

    /// The seat of the peer on this connection token, if any.
    pub(crate) fn find_addr(&self, addr: PlayerId) -> (r: Option<usize>)
        ensures
            match r {
                Some(i) => self.spec_occupied(i as int) && self.spec_slot(i as int).addr == addr
                    && self.spec_has_addr(addr),
                None => !self.spec_has_addr(addr),
            },
    {
        let mut i: usize = 0;
        while i < self.slots.len()
            invariant
                i <= self.slots@.len(),
                forall|j: int|
                    0 <= j < i && self.spec_occupied(j) ==> (#[trigger] self.spec_slot(j)).addr
                        != addr,
            decreases self.slots@.len() - i,
        {
            match &self.slots[i] {
                Some(s) => {
                    if s.addr == addr {
                        return Some(i);
                    }
                },
                None => {},
            }
            i = i + 1;
        }
        None
    }

    /// Record one line in the chat history.
    pub fn append_chat(&mut self, line: ChatLine)
        ensures
            final(self).chat@ == old(self).chat@.push(line),
            final(self).slots == old(self).slots,
    {
        self.chat.push(line);
    }

    /// A copy of the whole chat history, sent to peers that join.
    pub fn get_chat_log(&self) -> (log: Vec<ChatLine>)
        ensures
            log@ == self.chat@,
    {
        let mut log: Vec<ChatLine> = Vec::new();
        let mut i: usize = 0;
        while i < self.chat.len()
            invariant
                i <= self.chat@.len(),
                log@ == self.chat@.take(i as int),
            decreases self.chat@.len() - i,
        {
            log.push(self.chat[i].clone());
            proof {
                assert(log@ =~= self.chat@.take(i as int + 1));
            }
            i = i + 1;
        }
        proof {
            assert(self.chat@.take(self.chat@.len() as int) =~= self.chat@);
        }
        log
    }

    /// Whether the peer on this token is seated and on a live socket.
    pub fn is_peer_connected(&self, addr: PlayerId) -> (b: bool)
        requires
            self.wf(),
        ensures
            b == exists|i: int|
                self.spec_occupied(i) && (#[trigger] self.spec_slot(i)).addr == addr
                    && self.spec_slot(i).status == PeerStatus::Connected,
    {
        match self.find_addr(addr) {
            Some(i) => {
                match &self.slots[i] {
                    Some(s) => {
                        let connected = match s.status {
                            PeerStatus::Connected => true,
                            PeerStatus::WaitReconnection => false,
                        };
                        proof {
                            if connected {
                                assert(self.spec_occupied(i as int) && self.spec_slot(
                                    i as int,
                                ).addr == addr && self.spec_slot(i as int).status
                                    == PeerStatus::Connected);
                            } else {
                                assert forall|j: int|
                                    self.spec_occupied(j) && (#[trigger] self.spec_slot(j)).addr
                                        == addr implies self.spec_slot(j).status
                                    != PeerStatus::Connected by {
                                    assert(j == i as int);
                                }
                            }
                        }
                        connected
                    },
                    None => unreached(),
                }
            },
            None => false,
        }
    }

    /// The username of the peer on this token.
    pub fn get_peer_username(&self, addr: PlayerId) -> (r: Result<Username, RoomError>)
        requires
            self.wf(),
        ensures
            match r {
                Ok(u) => self.spec_has_addr(addr) && u@ == self.spec_slot(
                    self.spec_index_of_addr(addr),
                ).peer.spec_username(),
                Err(e) => e == RoomError::PeerNotFound && !self.spec_has_addr(addr),
            },
    {
        match self.find_addr(addr) {
            Some(i) => {
                match &self.slots[i] {
                    Some(s) => {
                        let u = s.peer.get_username();
                        proof {
                            let k = self.spec_index_of_addr(addr);
                            assert(self.spec_occupied(k) && self.spec_slot(k).addr == addr);
                            assert(k == i as int);
                        }
                        Ok(u)
                    },
                    None => unreached(),
                }
            },
            None => Err(RoomError::PeerNotFound),
        }
    }

    /// Replacing one seat keeps the room well-formed, provided the new
    /// occupant's token, username and role clash with no other seat.
    pub(crate) proof fn lemma_wf_after_update(pre: Room, post: Room, i: int, ns: PeerSlot)
        requires
            pre.wf(),
            0 <= i < pre.slots@.len(),
            post.slots@ == pre.slots@.update(i, Some(ns)),
            ns.peer.spec_has_name(),
            forall|j: int|
                pre.spec_occupied(j) && j != i ==> (#[trigger] pre.spec_slot(j)).addr != ns.addr,
            forall|j: int|
                pre.spec_occupied(j) && j != i ==> (#[trigger] pre.spec_slot(j)).peer.spec_username()
                    != ns.peer.spec_username(),
            forall|j: int|
                pre.spec_occupied(j) && j != i && ns.peer.spec_role() is Some ==> (
                #[trigger] pre.spec_slot(j)).peer.spec_role() != ns.peer.spec_role(),
        ensures
            post.wf(),
    {
        assert forall|p: int| post.spec_occupied(p) implies (
        #[trigger] post.spec_slot(p)).peer.spec_has_name() by {
            if p != i {
                assert(post.spec_slot(p) == pre.spec_slot(p));
            }
        }
        assert forall|p: int, q: int|
            post.spec_occupied(p) && post.spec_occupied(q) && p != q implies (
        #[trigger] post.spec_slot(p)).addr != (#[trigger] post.spec_slot(q)).addr by {
            if p != i && q != i {
                assert(post.spec_slot(p) == pre.spec_slot(p));
                assert(post.spec_slot(q) == pre.spec_slot(q));
            } else if p == i {
                assert(post.spec_slot(q) == pre.spec_slot(q));
            } else {
                assert(post.spec_slot(p) == pre.spec_slot(p));
            }
        }
        assert forall|p: int, q: int|
            post.spec_occupied(p) && post.spec_occupied(q) && p != q implies (
        #[trigger] post.spec_slot(p)).peer.spec_username() != (
        #[trigger] post.spec_slot(q)).peer.spec_username() by {
            if p != i && q != i {
                assert(post.spec_slot(p) == pre.spec_slot(p));
                assert(post.spec_slot(q) == pre.spec_slot(q));
            } else if p == i {
                assert(post.spec_slot(q) == pre.spec_slot(q));
            } else {
                assert(post.spec_slot(p) == pre.spec_slot(p));
            }
        }
        assert forall|p: int, q: int|
            post.spec_occupied(p) && post.spec_occupied(q) && p != q && (
        #[trigger] post.spec_slot(p)).peer.spec_role() is Some implies post.spec_slot(
            p,
        ).peer.spec_role() != (#[trigger] post.spec_slot(q)).peer.spec_role() by {
            if p != i && q != i {
                assert(post.spec_slot(p) == pre.spec_slot(p));
                assert(post.spec_slot(q) == pre.spec_slot(q));
            } else if p == i {
                assert(post.spec_slot(q) == pre.spec_slot(q));
            } else {
                assert(post.spec_slot(p) == pre.spec_slot(p));
            }
        }
    }

    /// Whether a room is well-formed depends on its seats alone: a change
    /// that leaves the seats as they were, such as recording a chat line,
    /// keeps it well-formed.
    pub(crate) proof fn lemma_wf_same_slots(pre: Room, post: Room)
        requires
            pre.wf(),
            post.slots@ == pre.slots@,
        ensures
            post.wf(),
    {
        assert forall|p: int| post.spec_occupied(p) implies (
        #[trigger] post.spec_slot(p)).peer.spec_has_name() by {
            assert(pre.spec_occupied(p));
            assert(post.spec_slot(p) == pre.spec_slot(p));
        }
        assert forall|p: int, q: int|
            post.spec_occupied(p) && post.spec_occupied(q) && p != q implies (
        #[trigger] post.spec_slot(p)).addr != (#[trigger] post.spec_slot(q)).addr by {
            assert(post.spec_slot(p) == pre.spec_slot(p));
            assert(post.spec_slot(q) == pre.spec_slot(q));
        }
        assert forall|p: int, q: int|
            post.spec_occupied(p) && post.spec_occupied(q) && p != q implies (
        #[trigger] post.spec_slot(p)).peer.spec_username() != (
        #[trigger] post.spec_slot(q)).peer.spec_username() by {
            assert(post.spec_slot(p) == pre.spec_slot(p));
            assert(post.spec_slot(q) == pre.spec_slot(q));
        }
        assert forall|p: int, q: int|
            post.spec_occupied(p) && post.spec_occupied(q) && p != q && (
        #[trigger] post.spec_slot(p)).peer.spec_role() is Some implies post.spec_slot(
            p,
        ).peer.spec_role() != (#[trigger] post.spec_slot(q)).peer.spec_role() by {
            assert(post.spec_slot(p) == pre.spec_slot(p));
            assert(post.spec_slot(q) == pre.spec_slot(q));
        }
    }

    /// Freeing one seat keeps the room well-formed.
    proof fn lemma_wf_after_clear(pre: Room, post: Room, i: int)
        requires
            pre.wf(),
            0 <= i < pre.slots@.len(),
            post.slots@ == pre.slots@.update(i, None::<PeerSlot>),
        ensures
            post.wf(),
    {
        assert forall|p: int| post.spec_occupied(p) implies (
        #[trigger] post.spec_slot(p)).peer.spec_has_name() by {
            assert(post.spec_slot(p) == pre.spec_slot(p));
        }
        assert forall|p: int, q: int|
            post.spec_occupied(p) && post.spec_occupied(q) && p != q implies (
        #[trigger] post.spec_slot(p)).addr != (#[trigger] post.spec_slot(q)).addr by {
            assert(post.spec_slot(p) == pre.spec_slot(p));
            assert(post.spec_slot(q) == pre.spec_slot(q));
        }
        assert forall|p: int, q: int|
            post.spec_occupied(p) && post.spec_occupied(q) && p != q implies (
        #[trigger] post.spec_slot(p)).peer.spec_username() != (
        #[trigger] post.spec_slot(q)).peer.spec_username() by {
            assert(post.spec_slot(p) == pre.spec_slot(p));
            assert(post.spec_slot(q) == pre.spec_slot(q));
        }
        assert forall|p: int, q: int|
            post.spec_occupied(p) && post.spec_occupied(q) && p != q && (
        #[trigger] post.spec_slot(p)).peer.spec_role() is Some implies post.spec_slot(
            p,
        ).peer.spec_role() != (#[trigger] post.spec_slot(q)).peer.spec_role() by {
            assert(post.spec_slot(p) == pre.spec_slot(p));
            assert(post.spec_slot(q) == pre.spec_slot(q));
        }
    }

    /// How a login attempt relates the room before it to the room after it.
    ///
    /// A username already seated and waiting for reconnection takes its old
    /// seat back on the new connection token, state untouched. A username
    /// already seated and live is turned away. A new username takes the
    /// first free seat, starting in Intro; with no seat free it is turned
    /// away. Login never answers `InvalidName`: name validation happens
    /// before the room is asked.
    /// Seat `i` held this username waiting for reconnection, and the new
    /// connection took it back: token renewed, state untouched.
    pub open spec fn spec_reconnected_at(
        pre: Room,
        addr: PlayerId,
        username: Username,
        post: Room,
        i: int,
    ) -> bool {
        &&& pre.spec_occupied(i)
        &&& pre.spec_slot(i).peer.spec_username() == username@
        &&& pre.spec_slot(i).status == PeerStatus::WaitReconnection
        &&& post.slots@ == pre.slots@.update(
            i,
            Some(PeerSlot { addr, status: PeerStatus::Connected, peer: pre.spec_slot(i).peer }),
        )
    }

    /// Seat `k` was the first free one and the new player took it, seated
    /// in Intro with its username recorded.
    pub open spec fn spec_logged_at(
        pre: Room,
        addr: PlayerId,
        username: Username,
        post: Room,
        k: int,
    ) -> bool {
        &&& 0 <= k < pre.slots@.len()
        &&& !pre.spec_occupied(k)
        &&& forall|j: int| 0 <= j < k ==> pre.spec_occupied(j)
        &&& post.slots@ == pre.slots@.update(
            k,
            Some(
                PeerSlot {
                    addr,
                    status: PeerStatus::Connected,
                    peer: ServerGameContext::Intro(Intro { name: Some(username) }),
                },
            ),
        )
    }

    pub open spec fn spec_add_player_rel(
        pre: Room,
        addr: PlayerId,
        username: Username,
        post: Room,
        st: LoginStatus,
    ) -> bool {
        &&& post.chat == pre.chat
        &&& match st {
            LoginStatus::Reconnected => exists|i: int|
                #[trigger] Room::spec_reconnected_at(pre, addr, username, post, i),
            LoginStatus::AlreadyLogged => {
                &&& exists|i: int|
                    {
                        &&& #[trigger] pre.spec_occupied(i)
                        &&& pre.spec_slot(i).peer.spec_username() == username@
                        &&& pre.spec_slot(i).status == PeerStatus::Connected
                    }
                &&& post == pre
            },
            LoginStatus::Logged => {
                &&& !pre.spec_has_username(username@)
                &&& exists|k: int| #[trigger] Room::spec_logged_at(pre, addr, username, post, k)
            },
            LoginStatus::PlayerLimit => {
                &&& !pre.spec_has_username(username@)
                &&& pre.spec_is_full()
                &&& post == pre
            },
            LoginStatus::InvalidName => false,
        }
    }

    /// Log a connection in: scan the seats for the
    /// same username, reconnect or reject on a hit; otherwise take the
    /// first free seat or report the room full.
    pub fn add_player(&mut self, addr: PlayerId, username: Username) -> (st: LoginStatus)
        requires
            old(self).wf(),
            !old(self).spec_has_addr(addr),
        ensures
            final(self).wf(),
            Room::spec_add_player_rel(*old(self), addr, username, *final(self), st),
    {
        let mut i: usize = 0;
        while i < self.slots.len()
            invariant
                old(self).wf(),
                *self == *old(self),
                !old(self).spec_has_addr(addr),
                i <= self.slots@.len(),
                forall|j: int|
                    0 <= j < i && self.spec_occupied(j) ==> (
                    #[trigger] self.spec_slot(j)).peer.spec_username() != username@,
            decreases self.slots@.len() - i,
        {
            let mut matched = false;
            let mut waiting = false;
            match &self.slots[i] {
                Some(s) => {
                    proof {
                        assert(self.spec_occupied(i as int));
                        assert(self.spec_slot(i as int).peer.spec_has_name());
                    }
                    let u = s.peer.get_username();
                    if u == username {
                        matched = true;
                        waiting = matches!(s.status, PeerStatus::WaitReconnection);
                    }
                },
                None => {},
            }
            if matched {
                if waiting {
                    let mut taken: Option<PeerSlot> = None;
                    core::mem::swap(&mut taken, &mut self.slots[i]);
                    match taken {
                        Some(ps) => {
                            self.slots[i] = Some(
                                PeerSlot { addr, status: PeerStatus::Connected, peer: ps.peer },
                            );
                            proof {
                                let ns = PeerSlot {
                                    addr,
                                    status: PeerStatus::Connected,
                                    peer: old(self).spec_slot(i as int).peer,
                                };
                                assert(self.slots@ =~= old(self).slots@.update(i as int, Some(ns)));
                                assert forall|j: int|
                                    old(self).spec_occupied(j) && j != i as int implies (
                                #[trigger] old(self).spec_slot(j)).addr != ns.addr by {
                                    assert(!old(self).spec_has_addr(addr));
                                }
                                Room::lemma_wf_after_update(*old(self), *self, i as int, ns);
                                assert(Room::spec_reconnected_at(
                                    *old(self),
                                    addr,
                                    username,
                                    *self,
                                    i as int,
                                ));
                            }
                            return LoginStatus::Reconnected;
                        },
                        None => unreached(),
                    }
                } else {
                    return LoginStatus::AlreadyLogged;
                }
            }
            i = i + 1;
        }
        // no seated peer carries this username: take the first free seat
        let mut k: usize = 0;
        while k < self.slots.len()
            invariant
                old(self).wf(),
                *self == *old(self),
                !old(self).spec_has_addr(addr),
                k <= self.slots@.len(),
                forall|j: int| 0 <= j < k ==> self.spec_occupied(j),
                !self.spec_has_username(username@),
            decreases self.slots@.len() - k,
        {
            if self.slots[k].is_none() {
                proof {
                    assert(!self.spec_occupied(k as int));
                }
                self.slots[k] = Some(
                    PeerSlot {
                        addr,
                        status: PeerStatus::Connected,
                        peer: ServerGameContext::Intro(Intro { name: Some(username) }),
                    },
                );
                proof {
                    let ns = PeerSlot {
                        addr,
                        status: PeerStatus::Connected,
                        peer: ServerGameContext::Intro(Intro { name: Some(username) }),
                    };
                    assert(self.slots@ =~= old(self).slots@.update(k as int, Some(ns)));
                    assert forall|j: int|
                        old(self).spec_occupied(j) && j != k as int implies (
                    #[trigger] old(self).spec_slot(j)).addr != ns.addr by {
                        assert(!old(self).spec_has_addr(addr));
                    }
                    assert forall|j: int|
                        old(self).spec_occupied(j) && j != k as int implies (
                    #[trigger] old(self).spec_slot(j)).peer.spec_username()
                        != ns.peer.spec_username() by {
                        assert(!old(self).spec_has_username(username@));
                    }
                    Room::lemma_wf_after_update(*old(self), *self, k as int, ns);
                    assert(Room::spec_logged_at(*old(self), addr, username, *self, k as int));
                }
                return LoginStatus::Logged;
            }
            k = k + 1;
        }
        LoginStatus::PlayerLimit
    }

    /// How dropping a connection relates the room before it to the room
    /// after it: a peer that had not yet entered a match (Intro, Home)
    /// loses its seat outright; one inside Roles or Game keeps the seat,
    /// marked as waiting for reconnection, state untouched.
    /// Seat `i` belonged to the dropped token and was freed or parked,
    /// depending on how far its peer had come.
    pub open spec fn spec_dropped_at(pre: Room, addr: PlayerId, post: Room, i: int) -> bool {
        &&& pre.spec_occupied(i)
        &&& pre.spec_slot(i).addr == addr
        &&& if pre.spec_slot(i).peer.spec_kind() == GameContextKind::Intro || pre.spec_slot(
            i,
        ).peer.spec_kind() == GameContextKind::Home {
            post.slots@ == pre.slots@.update(i, None::<PeerSlot>)
        } else {
            post.slots@ == pre.slots@.update(
                i,
                Some(
                    PeerSlot {
                        addr,
                        status: PeerStatus::WaitReconnection,
                        peer: pre.spec_slot(i).peer,
                    },
                ),
            )
        }
    }

    pub open spec fn spec_drop_peer_rel(pre: Room, addr: PlayerId, post: Room) -> bool {
        &&& post.chat == pre.chat
        &&& exists|i: int| #[trigger] Room::spec_dropped_at(pre, addr, post, i)
    }

    /// Drop the peer on this token; answers the
    /// chat line announcing the disconnection, to be broadcast by the
    /// caller.
    pub fn drop_peer(&mut self, addr: PlayerId) -> (r: Result<ChatLine, RoomError>)
        requires
            old(self).wf(),
        ensures
            final(self).wf(),
            match r {
                Ok(line) => {
                    &&& Room::spec_drop_peer_rel(*old(self), addr, *final(self))
                    &&& line matches ChatLine::Disconnection(u) && u@ == old(self).spec_slot(
                        old(self).spec_index_of_addr(addr),
                    ).peer.spec_username()
                },
                Err(e) => {
                    &&& e == RoomError::PeerNotFound
                    &&& !old(self).spec_has_addr(addr)
                    &&& *final(self) == *old(self)
                },
            },
    {
        let found = self.find_addr(addr);
        match found {
            Some(i) => {
                proof {
                    assert(self.spec_occupied(i as int));
                    assert(self.spec_slot(i as int).peer.spec_has_name());
                    let j = self.spec_index_of_addr(addr);
                    assert(self.spec_occupied(j) && self.spec_slot(j).addr == addr);
                    assert(j == i as int);
                }
                let mut taken: Option<PeerSlot> = None;
                core::mem::swap(&mut taken, &mut self.slots[i]);
                match taken {
                    Some(ps) => {
                        let line = ChatLine::Disconnection(ps.peer.get_username());
                        let kind = ps.peer.kind();
                        if matches!(kind, GameContextKind::Intro | GameContextKind::Home) {
                            // nothing worth resuming: free the seat
                            proof {
                                assert(self.slots@ =~= old(self).slots@.update(
                                    i as int,
                                    None::<PeerSlot>,
                                ));
                                Room::lemma_wf_after_clear(*old(self), *self, i as int);
                                assert(Room::spec_dropped_at(*old(self), addr, *self, i as int));
                            }
                            Ok(line)
                        } else {
                            // keep the seat for a later reconnection
                            self.slots[i] = Some(
                                PeerSlot {
                                    addr,
                                    status: PeerStatus::WaitReconnection,
                                    peer: ps.peer,
                                },
                            );
                            proof {
                                let ns = PeerSlot {
                                    addr,
                                    status: PeerStatus::WaitReconnection,
                                    peer: old(self).spec_slot(i as int).peer,
                                };
                                assert(self.slots@ =~= old(self).slots@.update(i as int, Some(ns)));
                                assert forall|j: int|
                                    old(self).spec_occupied(j) && j != i as int implies (
                                #[trigger] old(self).spec_slot(j)).addr != ns.addr by {
                                    assert(old(self).spec_slot(i as int).addr == addr);
                                }
                                Room::lemma_wf_after_update(*old(self), *self, i as int, ns);
                                assert(Room::spec_dropped_at(*old(self), addr, *self, i as int));
                            }
                            Ok(line)
                        }
                    },
                    None => unreached(),
                }
            },
            None => Err(RoomError::PeerNotFound),
        }
    }

    /// Whether some seated peer holds this role.
    fn role_taken(&self, role: Role) -> (b: bool)
        ensures
            b == self.spec_role_taken(role),
    {
        let mut i: usize = 0;
        while i < self.slots.len()
            invariant
                i <= self.slots@.len(),
                forall|j: int|
                    0 <= j < i && self.spec_occupied(j) ==> (
                    #[trigger] self.spec_slot(j)).peer.spec_role() != Some(role),
            decreases self.slots@.len() - i,
        {
            match &self.slots[i] {
                Some(s) => {
                    match s.peer.role() {
                        Some(pr) => {
                            if pr == role {
                                proof {
                                    assert(self.spec_occupied(i as int) && self.spec_slot(
                                        i as int,
                                    ).peer.spec_role() == Some(role));
                                }
                                return true;
                            }
                        },
                        None => {},
                    }
                },
                None => {},
            }
            i = i + 1;
        }
        false
    }

    /// The fresh availability list: for each role, in reporting order,
    /// whether some seated peer holds it. Computed from the live selections
    /// on every query — never cached.
    pub fn collect_roles(&self) -> (v: Vec<RoleStatus>)
        ensures
            v@.len() == Role::spec_all().len(),
            forall|k: int|
                0 <= k < v@.len() ==> (#[trigger] v@[k]).spec_role() == Role::spec_all()[k],
            forall|k: int|
                0 <= k < v@.len() ==> ((#[trigger] v@[k]) is NotAvailable <==> self.spec_role_taken(
                    Role::spec_all()[k],
                )),
    {
        let roles = Role::all();
        let mut v: Vec<RoleStatus> = Vec::new();
        let mut k: usize = 0;
        while k < roles.len()
            invariant
                roles@ == Role::spec_all(),
                k <= roles@.len(),
                v@.len() == k,
                forall|m: int|
                    0 <= m < k ==> (#[trigger] v@[m]).spec_role() == Role::spec_all()[m],
                forall|m: int|
                    0 <= m < k ==> ((#[trigger] v@[m]) is NotAvailable <==> self.spec_role_taken(
                        Role::spec_all()[m],
                    )),
            decreases roles@.len() - k,
        {
            let r = roles[k];
            if self.role_taken(r) {
                v.push(RoleStatus::NotAvailable(r));
            } else {
                v.push(RoleStatus::Available(r));
            }
            k = k + 1;
        }
        v
    }

    /// Whether every seated peer has chosen a role.
    pub fn are_all_have_roles(&self) -> (b: bool)
        ensures
            b == forall|i: int|
                self.spec_occupied(i) ==> (#[trigger] self.spec_slot(i)).peer.spec_role() is Some,
    {
        let mut i: usize = 0;
        while i < self.slots.len()
            invariant
                i <= self.slots@.len(),
                forall|j: int|
                    0 <= j < i && self.spec_occupied(j) ==> (
                    #[trigger] self.spec_slot(j)).peer.spec_role() is Some,
            decreases self.slots@.len() - i,
        {
            match &self.slots[i] {
                Some(s) => {
                    if s.peer.role().is_none() {
                        proof {
                            assert(self.spec_occupied(i as int) && self.spec_slot(
                                i as int,
                            ).peer.spec_role() is None);
                        }
                        return false;
                    }
                },
                None => {},
            }
            i = i + 1;
        }
        true
    }

    /// Answer a role selection request: refused with
    /// `Busy` when another seated peer holds the role, with
    /// `AlreadySelected` when the requester itself does; otherwise the
    /// requester's selection becomes this role, displacing any earlier one.
    pub fn set_role_for_peer(&mut self, sender: PlayerId, role: Role) -> (st: SelectRoleStatus)
        requires
            old(self).wf(),
            old(self).spec_has_addr(sender),
            old(self).spec_slot(old(self).spec_index_of_addr(sender)).peer.spec_kind()
                == GameContextKind::Roles,
        ensures
            final(self).wf(),
            final(self).chat == old(self).chat,
            ({
                let i = old(self).spec_index_of_addr(sender);
                match st {
                    SelectRoleStatus::Busy => {
                        &&& *final(self) == *old(self)
                        &&& exists|j: int|
                            j != i && #[trigger] old(self).spec_occupied(j) && old(self).spec_slot(
                                j,
                            ).peer.spec_role() == Some(role)
                    },
                    SelectRoleStatus::AlreadySelected => {
                        &&& *final(self) == *old(self)
                        &&& old(self).spec_slot(i).peer.spec_role() == Some(role)
                    },
                    SelectRoleStatus::Selected(r) => {
                        &&& r == role
                        &&& !old(self).spec_role_taken(role)
                        &&& final(self).slots@ == old(self).slots@.update(
                            i,
                            Some(
                                PeerSlot {
                                    addr: sender,
                                    status: old(self).spec_slot(i).status,
                                    peer: ServerGameContext::SelectRole(
                                        SelectRole {
                                            name: old(self).spec_slot(i).peer->SelectRole_0.name,
                                            role: Some(role),
                                        },
                                    ),
                                },
                            ),
                        )
                    },
                }
            }),
    {
        let mut j: usize = 0;
        while j < self.slots.len()
            invariant
                old(self).wf(),
                *self == *old(self),
                old(self).spec_has_addr(sender),
                j <= self.slots@.len(),
                forall|m: int|
                    0 <= m < j && self.spec_occupied(m) ==> (
                    #[trigger] self.spec_slot(m)).peer.spec_role() != Some(role),
            decreases self.slots@.len() - j,
        {
            let mut held = false;
            let mut by_sender = false;
            match &self.slots[j] {
                Some(s) => {
                    match s.peer.role() {
                        Some(pr) => {
                            if pr == role {
                                held = true;
                                by_sender = s.addr == sender;
                                proof {
                                    assert(self.spec_occupied(j as int) && self.spec_slot(
                                        j as int,
                                    ).peer.spec_role() == Some(role));
                                }
                            }
                        },
                        None => {},
                    }
                },
                None => {},
            }
            if held {
                if by_sender {
                    proof {
                        let i = old(self).spec_index_of_addr(sender);
                        assert(old(self).spec_occupied(i) && old(self).spec_slot(i).addr == sender);
                        assert(i == j as int);
                    }
                    return SelectRoleStatus::AlreadySelected;
                } else {
                    proof {
                        let i = old(self).spec_index_of_addr(sender);
                        assert(old(self).spec_occupied(i) && old(self).spec_slot(i).addr == sender);
                        assert(j as int != i);
                    }
                    return SelectRoleStatus::Busy;
                }
            }
            j = j + 1;
        }
        // the role is free: record the selection on the sender's seat
        match self.find_addr(sender) {
            Some(i) => {
                let mut taken: Option<PeerSlot> = None;
                core::mem::swap(&mut taken, &mut self.slots[i]);
                match taken {
                    Some(ps) => {
                        proof {
                            let ix = old(self).spec_index_of_addr(sender);
                            assert(old(self).spec_occupied(ix) && old(self).spec_slot(ix).addr
                                == sender);
                            assert(ix == i as int);
                        }
                        match ps.peer {
                            ServerGameContext::SelectRole(sr) => {
                                self.slots[i] = Some(
                                    PeerSlot {
                                        addr: ps.addr,
                                        status: ps.status,
                                        peer: ServerGameContext::SelectRole(
                                            SelectRole { name: sr.name, role: Some(role) },
                                        ),
                                    },
                                );
                                proof {
                                    let ns = PeerSlot {
                                        addr: sender,
                                        status: old(self).spec_slot(i as int).status,
                                        peer: ServerGameContext::SelectRole(
                                            SelectRole {
                                                name: old(
                                                    self,
                                                ).spec_slot(i as int).peer->SelectRole_0.name,
                                                role: Some(role),
                                            },
                                        ),
                                    };
                                    assert(self.slots@ =~= old(self).slots@.update(
                                        i as int,
                                        Some(ns),
                                    ));
                                    assert forall|m: int|
                                        old(self).spec_occupied(m) && m != i as int implies (
                                    #[trigger] old(self).spec_slot(m)).peer.spec_role()
                                        != ns.peer.spec_role() by {
                                        assert(old(self).spec_slot(m).peer.spec_role() != Some(
                                            role,
                                        ));
                                    }
                                    Room::lemma_wf_after_update(*old(self), *self, i as int, ns);
                                }
                                SelectRoleStatus::Selected(role)
                            },
                            _ => unreached(),
                        }
                    },
                    None => unreached(),
                }
            },
            None => unreached(),
        }
    }

    /// All seated connection tokens, in seat order, for starting a match.
    pub fn get_all_peers(&self) -> (v: Vec<PlayerId>)
        requires
            self.spec_is_full(),
        ensures
            v@.len() == self.slots@.len(),
            forall|i: int| 0 <= i < v@.len() ==> v@[i] == self.spec_slot(i).addr,
    {
        let mut v: Vec<PlayerId> = Vec::new();
        let mut i: usize = 0;
        while i < self.slots.len()
            invariant
                self.spec_is_full(),
                i <= self.slots@.len(),
                v@.len() == i,
                forall|j: int| 0 <= j < i ==> v@[j] == self.spec_slot(j).addr,
            decreases self.slots@.len() - i,
        {
            match &self.slots[i] {
                Some(s) => {
                    v.push(s.addr);
                },
                None => {
                    proof {
                        assert(self.spec_occupied(i as int));
                    }
                    unreached()
                },
            }
            i = i + 1;
        }
        v
    }

    /// Free every seat: the server is shutting the room down. The chat log
    /// stays until the room itself is gone.
    pub fn shutdown(&mut self)
        ensures
            final(self).wf(),
            final(self).slots@.len() == MAX_PLAYER_COUNT,
            forall|i: int| !final(self).spec_occupied(i),
            final(self).chat == old(self).chat,
    {
        let n = self.slots.len();
        self.slots.clear();
        let mut i: usize = 0;
        while i < MAX_PLAYER_COUNT
            invariant
                i <= MAX_PLAYER_COUNT,
                self.slots@.len() == i,
                forall|j: int| 0 <= j < i ==> self.slots@[j] is None,
                self.chat == old(self).chat,
            decreases MAX_PLAYER_COUNT - i,
        {
            self.slots.push(None);
            i = i + 1;
        }
    }

    /// The token of the peer whose turn comes after this one's: the next
    /// seat around the ring. Asked only of a full room.
    pub open spec fn spec_next_player(self, current: PlayerId) -> PlayerId {
        let i = self.spec_index_of_addr(current);
        self.spec_slot((i + 1) % (self.slots@.len() as int)).addr
    }

    /// Walk the seat ring from the seat after `current`, wrapping around,
    /// to the peer whose turn is next.
    pub fn next_player_for_turn(&self, current: PlayerId) -> (next: PlayerId)
        requires
            self.wf(),
            self.spec_is_full(),
            self.spec_has_addr(current),
        ensures
            next == self.spec_next_player(current),
            self.spec_has_addr(next),
            next != current,
    {
        match self.find_addr(current) {
            Some(i) => {
                proof {
                    let ix = self.spec_index_of_addr(current);
                    assert(self.spec_occupied(ix) && self.spec_slot(ix).addr == current);
                    assert(ix == i as int);
                }
                let n = (i + 1) % self.slots.len();
                proof {
                    assert(self.spec_occupied(n as int));
                }
                match &self.slots[n] {
                    Some(s) => {
                        proof {
                            assert(self.spec_slot(n as int).addr == s.addr);
                        }
                        s.addr
                    },
                    None => unreached(),
                }
            },
            None => unreached(),
        }
    }

    /// Whether every seated peer is in this phase.
    pub open spec fn spec_all_in_kind(self, k: GameContextKind) -> bool {
        forall|m: int|
            self.spec_occupied(m) ==> (#[trigger] self.spec_slot(m)).peer.spec_kind() == k
    }

    /// Whether every seated peer is in this phase, as executable code.
    fn all_in_kind(&self, k: GameContextKind) -> (b: bool)
        ensures
            b == self.spec_all_in_kind(k),
    {
        let mut i: usize = 0;
        while i < self.slots.len()
            invariant
                i <= self.slots@.len(),
                forall|j: int|
                    0 <= j < i && self.spec_occupied(j) ==> (
                    #[trigger] self.spec_slot(j)).peer.spec_kind() == k,
            decreases self.slots@.len() - i,
        {
            match &self.slots[i] {
                Some(s) => {
                    if !(s.peer.kind() == k) {
                        proof {
                            assert(self.spec_occupied(i as int) && self.spec_slot(
                                i as int,
                            ).peer.spec_kind() != k);
                        }
                        return false;
                    }
                },
                None => {},
            }
            i = i + 1;
        }
        true
    }

    /// Every seat moved from Home into Roles, with nothing chosen yet;
    /// tokens, liveness and usernames are untouched.
    pub open spec fn spec_advanced_to_roles(pre: Room, post: Room) -> bool {
        &&& post.slots@.len() == pre.slots@.len()
        &&& post.chat == pre.chat
        &&& forall|m: int|
            0 <= m < post.slots@.len() ==> {
                &&& #[trigger] post.spec_occupied(m)
                &&& post.spec_slot(m).addr == pre.spec_slot(m).addr
                &&& post.spec_slot(m).status == pre.spec_slot(m).status
                &&& post.spec_slot(m).peer.spec_kind() == GameContextKind::Roles
                &&& post.spec_slot(m).peer.spec_username() == pre.spec_slot(m).peer.spec_username()
                &&& post.spec_slot(m).peer.spec_role() is None
            }
    }

    /// Every seat moved from Roles into Game, keeping its chosen role and
    /// receiving a fresh, full ability pile of that role's suit; tokens,
    /// liveness and usernames are untouched.
    pub open spec fn spec_advanced_to_game(pre: Room, post: Room) -> bool {
        &&& post.slots@.len() == pre.slots@.len()
        &&& post.chat == pre.chat
        &&& forall|m: int|
            0 <= m < post.slots@.len() ==> {
                &&& #[trigger] post.spec_occupied(m)
                &&& post.spec_slot(m).addr == pre.spec_slot(m).addr
                &&& post.spec_slot(m).status == pre.spec_slot(m).status
                &&& post.spec_slot(m).peer.spec_username() == pre.spec_slot(m).peer.spec_username()
                &&& post.spec_slot(m).peer.spec_role() == pre.spec_slot(m).peer.spec_role()
                &&& post.spec_slot(m).peer matches ServerGameContext::Game(g)
                &&& g.selected_ability is None
                &&& (pre.spec_slot(m).peer.spec_role() matches Some(rl) && g.abilities.suit
                    == rl.spec_suit())
                &&& g.abilities.ranks@.to_multiset() == Rank::spec_all().to_multiset()
            }
    }

    /// Act on a peer's request to advance to its next context.
    ///
    /// Intro to Home is unconditional for that one peer. Home to Roles
    /// happens for the whole room at once, and only when the room is full
    /// and everyone is in Home: the first mover waits for the rest, and
    /// until then nothing changes. Roles to Game happens for the whole
    /// room at once, once every peer has chosen a role; it builds the
    /// match's session, whose ring is the seats in order and whose first
    /// active player opens with a DropAbility step. A request from the
    /// last phase is refused; a request finding the room in mixed phases
    /// other than the lobby is a programming error, reported for the
    /// caller to treat as fatal.
    pub fn request_next_context_after(&mut self, sender: PlayerId) -> (r: Result<
        AdvanceOutcome,
        AdvanceError,
    >)
        requires
            old(self).wf(),
        ensures
            final(self).wf(),
            ({
                let i = old(self).spec_index_of_addr(sender);
                let ck = old(self).spec_slot(i).peer.spec_kind();
                match r {
                    Result::Err(AdvanceError::PeerNotFound) => {
                        &&& !old(self).spec_has_addr(sender)
                        &&& *final(self) == *old(self)
                    },
                    Result::Err(AdvanceError::NoNextContext) => {
                        &&& old(self).spec_has_addr(sender)
                        &&& ck == GameContextKind::Game
                        &&& *final(self) == *old(self)
                    },
                    Result::Err(AdvanceError::RoomInvariantBroken) => {
                        &&& old(self).spec_has_addr(sender)
                        &&& ck == GameContextKind::Roles
                        &&& !(old(self).spec_is_full() && old(self).spec_all_in_kind(
                            GameContextKind::Roles,
                        ))
                        &&& *final(self) == *old(self)
                    },
                    Result::Ok(out) => {
                        &&& old(self).spec_has_addr(sender)
                        &&& match out {
                            AdvanceOutcome::ToHome(line) => {
                                &&& ck == GameContextKind::Intro
                                &&& final(self).chat == old(self).chat
                                &&& final(self).slots@.len() == old(self).slots@.len()
                                &&& forall|m: int|
                                    0 <= m < old(self).slots@.len() && m != i
                                        ==> final(self).slots@[m] == old(self).slots@[m]
                                &&& final(self).spec_occupied(i)
                                &&& final(self).spec_slot(i).addr == sender
                                &&& final(self).spec_slot(i).status == old(self).spec_slot(
                                    i,
                                ).status
                                &&& final(self).spec_slot(i).peer.spec_kind()
                                    == GameContextKind::Home
                                &&& final(self).spec_slot(i).peer.spec_username() == old(
                                    self,
                                ).spec_slot(i).peer.spec_username()
                                &&& line matches ChatLine::Connection(u) && u@ == old(
                                    self,
                                ).spec_slot(i).peer.spec_username()
                            },
                            AdvanceOutcome::NotReady => {
                                &&& *final(self) == *old(self)
                                &&& (ck == GameContextKind::Home && !(old(self).spec_is_full()
                                    && old(self).spec_all_in_kind(GameContextKind::Home))) || (ck
                                    == GameContextKind::Roles && old(self).spec_is_full() && old(
                                    self,
                                ).spec_all_in_kind(GameContextKind::Roles) && !(forall|m: int|
                                    old(self).spec_occupied(m) ==> (#[trigger] old(
                                        self,
                                    ).spec_slot(m)).peer.spec_role() is Some))
                            },
                            AdvanceOutcome::ToRoles => {
                                &&& ck == GameContextKind::Home
                                &&& old(self).spec_is_full()
                                &&& old(self).spec_all_in_kind(GameContextKind::Home)
                                &&& Room::spec_advanced_to_roles(*old(self), *final(self))
                            },
                            AdvanceOutcome::StartGame(session) => {
                                &&& ck == GameContextKind::Roles
                                &&& old(self).spec_is_full()
                                &&& old(self).spec_all_in_kind(GameContextKind::Roles)
                                &&& forall|m: int|
                                    old(self).spec_occupied(m) ==> (#[trigger] old(
                                        self,
                                    ).spec_slot(m)).peer.spec_role() is Some
                                &&& Room::spec_advanced_to_game(*old(self), *final(self))
                                &&& session.wf()
                                &&& session.players@.len() == old(self).slots@.len()
                                &&& forall|m: int|
                                    0 <= m < session.players@.len() ==> session.players@[m] == old(
                                        self,
                                    ).spec_slot(m).addr
                                &&& session.active == 0
                                &&& session.phase
                                    == crate::protocol::GamePhaseKind::DropAbility
                                &&& session.monsters@.len() == 2
                                &&& session.monsters@[0] is Some
                                &&& session.monsters@[1] is Some
                                &&& session.deck@.len() == crate::game::DECK_SIZE - 2
                            },
                        }
                    },
                }
            }),
    {
        let i = match self.find_addr(sender) {
            Some(i) => i,
            None => {
                return Err(AdvanceError::PeerNotFound);
            },
        };
        proof {
            let ix = self.spec_index_of_addr(sender);
            assert(self.spec_occupied(ix) && self.spec_slot(ix).addr == sender);
            assert(ix == i as int);
        }
        let current = match &self.slots[i] {
            Some(s) => s.peer.kind(),
            None => unreached(),
        };
        let next = match current.try_next_context() {
            Ok(n) => n,
            Err(_) => {
                return Err(AdvanceError::NoNextContext);
            },
        };
        proof {
            crate::protocol::lemma_context_advancement_monotonic(current);
        }
        match next {
            GameContextKind::Intro => unreached(),
            GameContextKind::Home => {
                // Intro -> Home: unconditional for this one peer
                let mut taken: Option<PeerSlot> = None;
                core::mem::swap(&mut taken, &mut self.slots[i]);
                match taken {
                    Some(ps) => {
                        match ps.peer.to_next(&ServerNextContextData::Home) {
                            Ok(c) => {
                                let u = c.get_username();
                                self.slots[i] = Some(
                                    PeerSlot { addr: ps.addr, status: ps.status, peer: c },
                                );
                                proof {
                                    let ns = self.spec_slot(i as int);
                                    assert(self.slots@ =~= old(self).slots@.update(
                                        i as int,
                                        Some(ns),
                                    ));
                                    Room::lemma_wf_after_update(*old(self), *self, i as int, ns);
                                }
                                Ok(AdvanceOutcome::ToHome(ChatLine::Connection(u)))
                            },
                            Err(_) => unreached(),
                        }
                    },
                    None => unreached(),
                }
            },
            GameContextKind::Roles => {
                // Home -> Roles: the whole room advances together, once
                // everyone has arrived in Home
                if !self.is_full() {
                    return Ok(AdvanceOutcome::NotReady);
                }
                if !self.all_in_kind(GameContextKind::Home) {
                    return Ok(AdvanceOutcome::NotReady);
                }
                self.advance_all_to_roles();
                Ok(AdvanceOutcome::ToRoles)
            },
            GameContextKind::Game => {
                // Roles -> Game: the whole room must already sit in Roles
                if !self.is_full() {
                    return Err(AdvanceError::RoomInvariantBroken);
                }
                if !self.all_in_kind(GameContextKind::Roles) {
                    return Err(AdvanceError::RoomInvariantBroken);
                }
                if !self.are_all_have_roles() {
                    return Ok(AdvanceOutcome::NotReady);
                }
                let players = self.get_all_peers();
                let deck = Deck::new_monster_deck();
                proof {
                    assert forall|p: int, q: int|
                        0 <= p < q < players@.len() implies players@[p] != players@[q] by {
                        assert(players@[p] == self.spec_slot(p).addr);
                        assert(players@[q] == self.spec_slot(q).addr);
                    }
                }
                let session = GameSession::new(players, deck);
                let monsters = session.get_monsters();
                self.advance_all_to_game(monsters);
                Ok(AdvanceOutcome::StartGame(session))
            },
        }
    }

    /// Move every seated peer from Home into Roles.
    fn advance_all_to_roles(&mut self)
        requires
            old(self).wf(),
            old(self).spec_is_full(),
            old(self).spec_all_in_kind(GameContextKind::Home),
        ensures
            final(self).wf(),
            Room::spec_advanced_to_roles(*old(self), *final(self)),
    {
        let n = self.slots.len();
        let mut j: usize = 0;
        while j < n
            invariant
                n == self.slots@.len(),
                n == old(self).slots@.len(),
                old(self).wf(),
                old(self).spec_is_full(),
                old(self).spec_all_in_kind(GameContextKind::Home),
                self.chat == old(self).chat,
                j <= n,
                forall|m: int| j <= m < n ==> self.slots@[m] == old(self).slots@[m],
                forall|m: int| 0 <= m < j ==> #[trigger] self.spec_occupied(m),
                forall|m: int|
                    0 <= m < j ==> (#[trigger] self.spec_slot(m)).addr == old(self).spec_slot(
                        m,
                    ).addr,
                forall|m: int|
                    0 <= m < j ==> (#[trigger] self.spec_slot(m)).status == old(self).spec_slot(
                        m,
                    ).status,
                forall|m: int|
                    0 <= m < j ==> (#[trigger] self.spec_slot(m)).peer.spec_kind()
                        == GameContextKind::Roles,
                forall|m: int|
                    0 <= m < j ==> (#[trigger] self.spec_slot(m)).peer.spec_has_name(),
                forall|m: int|
                    0 <= m < j ==> (#[trigger] self.spec_slot(m)).peer.spec_username() == old(
                        self,
                    ).spec_slot(m).peer.spec_username(),
                forall|m: int|
                    0 <= m < j ==> (#[trigger] self.spec_slot(m)).peer.spec_role() is None,
            decreases n - j,
        {
            let ghost pre_iter = *self;
            proof {
                assert(old(self).spec_occupied(j as int));
                assert(self.slots@[j as int] == old(self).slots@[j as int]);
            }
            let mut taken: Option<PeerSlot> = None;
            core::mem::swap(&mut taken, &mut self.slots[j]);
            match taken {
                Some(ps) => {
                    proof {
                        assert(ps == old(self).spec_slot(j as int));
                        assert(ps.peer.spec_kind() == GameContextKind::Home);
                    }
                    match ps.peer.to_next(&ServerNextContextData::Roles) {
                        Ok(c) => {
                            self.slots[j] = Some(
                                PeerSlot { addr: ps.addr, status: ps.status, peer: c },
                            );
                            proof {
                                assert(self.slots@ =~= pre_iter.slots@.update(
                                    j as int,
                                    Some(PeerSlot { addr: ps.addr, status: ps.status, peer: c }),
                                ));
                                assert(c.spec_kind() == GameContextKind::Roles);
                                assert(c.spec_has_name());
                                assert forall|m: int|
                                    #![trigger self.spec_occupied(m)]
                                    #![trigger self.spec_slot(m)]
                                    0 <= m < j as int + 1 implies {
                                    &&& self.spec_occupied(m)
                                    &&& self.spec_slot(m).addr == old(self).spec_slot(m).addr
                                    &&& self.spec_slot(m).status == old(self).spec_slot(m).status
                                    &&& self.spec_slot(m).peer.spec_kind()
                                        == GameContextKind::Roles
                                    &&& self.spec_slot(m).peer.spec_has_name()
                                    &&& self.spec_slot(m).peer.spec_username() == old(
                                        self,
                                    ).spec_slot(m).peer.spec_username()
                                    &&& self.spec_slot(m).peer.spec_role() is None
                                } by {
                                    if m == j as int {
                                        assert(self.spec_occupied(m));
                                        assert(self.spec_slot(m).peer == c);
                                    } else {
                                        assert(self.slots@[m] == pre_iter.slots@[m]);
                                        assert(pre_iter.spec_occupied(m));
                                        assert(self.spec_slot(m) == pre_iter.spec_slot(m));
                                    }
                                }
                            }
                        },
                        Err(_) => unreached(),
                    }
                },
                None => unreached(),
            }
            j = j + 1;
        }
        proof {
            self.lemma_wf_from_projections(*old(self));
        }
    }

    /// Move every seated peer from Roles into Game, handing each the
    /// start-of-game snapshot.
    fn advance_all_to_game(&mut self, monsters: [Option<crate::game::Card>; 2])
        requires
            old(self).wf(),
            old(self).spec_is_full(),
            old(self).spec_all_in_kind(GameContextKind::Roles),
            forall|m: int|
                old(self).spec_occupied(m) ==> (#[trigger] old(self).spec_slot(
                    m,
                )).peer.spec_role() is Some,
        ensures
            final(self).wf(),
            Room::spec_advanced_to_game(*old(self), *final(self)),
    {
        let n = self.slots.len();
        let mut j: usize = 0;
        while j < n
            invariant
                n == self.slots@.len(),
                n == old(self).slots@.len(),
                old(self).wf(),
                old(self).spec_is_full(),
                old(self).spec_all_in_kind(GameContextKind::Roles),
                forall|m: int|
                    old(self).spec_occupied(m) ==> (#[trigger] old(self).spec_slot(
                        m,
                    )).peer.spec_role() is Some,
                self.chat == old(self).chat,
                j <= n,
                forall|m: int| j <= m < n ==> self.slots@[m] == old(self).slots@[m],
                forall|m: int|
                    0 <= m < j ==> {
                        &&& #[trigger] self.spec_occupied(m)
                        &&& self.spec_slot(m).addr == old(self).spec_slot(m).addr
                        &&& self.spec_slot(m).status == old(self).spec_slot(m).status
                        &&& self.spec_slot(m).peer.spec_has_name()
                        &&& self.spec_slot(m).peer.spec_username() == old(self).spec_slot(
                            m,
                        ).peer.spec_username()
                        &&& self.spec_slot(m).peer.spec_role() == old(self).spec_slot(
                            m,
                        ).peer.spec_role()
                        &&& self.spec_slot(m).peer matches ServerGameContext::Game(g)
                        &&& g.selected_ability is None
                        &&& (old(self).spec_slot(m).peer.spec_role() matches Some(rl)
                            && g.abilities.suit == rl.spec_suit())
                        &&& g.abilities.ranks@.to_multiset() == Rank::spec_all().to_multiset()
                    },
            decreases n - j,
        {
            let ghost pre_iter = *self;
            proof {
                assert(old(self).spec_occupied(j as int));
                assert(self.slots@[j as int] == old(self).slots@[j as int]);
            }
            let mut taken: Option<PeerSlot> = None;
            core::mem::swap(&mut taken, &mut self.slots[j]);
            match taken {
                Some(ps) => {
                    proof {
                        assert(ps == old(self).spec_slot(j as int));
                        assert(ps.peer.spec_kind() == GameContextKind::Roles);
                        assert(ps.peer.spec_role() is Some);
                    }
                    match ps.peer.to_next(
                        &ServerNextContextData::Game(ServerStartGameData { monsters }),
                    ) {
                        Ok(c) => {
                            self.slots[j] = Some(
                                PeerSlot { addr: ps.addr, status: ps.status, peer: c },
                            );
                            proof {
                                assert(self.slots@ =~= pre_iter.slots@.update(
                                    j as int,
                                    Some(PeerSlot { addr: ps.addr, status: ps.status, peer: c }),
                                ));
                                assert(c.spec_kind() == GameContextKind::Game);
                                assert(c matches ServerGameContext::Game(_));
                                assert(c.spec_has_name());
                                assert forall|m: int|
                                    #![trigger self.spec_occupied(m)]
                                    #![trigger self.spec_slot(m)]
                                    0 <= m < j as int + 1 implies {
                                    &&& self.spec_occupied(m)
                                    &&& self.spec_slot(m).addr == old(self).spec_slot(m).addr
                                    &&& self.spec_slot(m).status == old(self).spec_slot(m).status
                                    &&& self.spec_slot(m).peer.spec_has_name()
                                    &&& self.spec_slot(m).peer.spec_username() == old(
                                        self,
                                    ).spec_slot(m).peer.spec_username()
                                    &&& self.spec_slot(m).peer.spec_role() == old(self).spec_slot(
                                        m,
                                    ).peer.spec_role()
                                    &&& self.spec_slot(m).peer matches ServerGameContext::Game(g)
                                    &&& g.selected_ability is None
                                    &&& (old(self).spec_slot(m).peer.spec_role() matches Some(rl)
                                        && g.abilities.suit == rl.spec_suit())
                                    &&& g.abilities.ranks@.to_multiset()
                                        == Rank::spec_all().to_multiset()
                                } by {
                                    if m == j as int {
                                        assert(self.spec_occupied(m));
                                        assert(self.spec_slot(m).peer == c);
                                    } else {
                                        assert(self.slots@[m] == pre_iter.slots@[m]);
                                        assert(pre_iter.spec_occupied(m));
                                        assert(self.spec_slot(m) == pre_iter.spec_slot(m));
                                    }
                                }
                            }
                        },
                        Err(_) => unreached(),
                    }
                },
                None => unreached(),
            }
            j = j + 1;
        }
        proof {
            self.lemma_wf_from_projections(*old(self));
        }
    }

    /// A room whose seats kept their tokens, usernames and roles from a
    /// well-formed room, and are all occupied by named peers, is itself
    /// well-formed.
    proof fn lemma_wf_from_projections(self, pre: Room)
        requires
            pre.wf(),
            self.slots@.len() == pre.slots@.len(),
            forall|m: int|
                0 <= m < self.slots@.len() ==> {
                    &&& #[trigger] self.spec_occupied(m)
                    &&& pre.spec_occupied(m)
                    &&& self.spec_slot(m).addr == pre.spec_slot(m).addr
                    &&& self.spec_slot(m).peer.spec_has_name()
                    &&& self.spec_slot(m).peer.spec_username() == pre.spec_slot(
                        m,
                    ).peer.spec_username()
                    &&& (self.spec_slot(m).peer.spec_role() is Some ==> self.spec_slot(
                        m,
                    ).peer.spec_role() == pre.spec_slot(m).peer.spec_role())
                },
        ensures
            self.wf(),
    {
        assert forall|p: int, q: int|
            self.spec_occupied(p) && self.spec_occupied(q) && p != q implies (
        #[trigger] self.spec_slot(p)).addr != (#[trigger] self.spec_slot(q)).addr by {
            assert(pre.spec_slot(p).addr != pre.spec_slot(q).addr);
        }
        assert forall|p: int, q: int|
            self.spec_occupied(p) && self.spec_occupied(q) && p != q implies (
        #[trigger] self.spec_slot(p)).peer.spec_username() != (
        #[trigger] self.spec_slot(q)).peer.spec_username() by {
            assert(pre.spec_slot(p).peer.spec_username() != pre.spec_slot(q).peer.spec_username());
        }
        assert forall|p: int, q: int|
            self.spec_occupied(p) && self.spec_occupied(q) && p != q && (
        #[trigger] self.spec_slot(p)).peer.spec_role() is Some implies self.spec_slot(
            p,
        ).peer.spec_role() != (#[trigger] self.spec_slot(q)).peer.spec_role() by {
            if self.spec_slot(q).peer.spec_role() is Some {
                assert(self.spec_slot(p).peer.spec_role() == pre.spec_slot(p).peer.spec_role());
                assert(self.spec_slot(q).peer.spec_role() == pre.spec_slot(q).peer.spec_role());
            }
        }
    }

    /// Turn rotation is a total cyclic order over the seats of a full room:
    /// the next player is someone else, stepping [`MAX_PLAYER_COUNT`] times
    /// returns to the starting player, and every seated player is visited
    /// exactly once along the way.
    pub proof fn lemma_turn_rotation_cycle(room: Room, p: PlayerId)
        requires
            room.wf(),
            room.spec_is_full(),
            room.spec_has_addr(p),
        ensures
            ({
                let q = room.spec_next_player(p);
                &&& room.spec_has_addr(q)
                &&& q != p
                &&& room.spec_next_player(q) == p
                &&& forall|r: PlayerId| room.spec_has_addr(r) ==> r == p || r == q
            }),
    {
        let i = room.spec_index_of_addr(p);
        assert(room.spec_occupied(i) && room.spec_slot(i).addr == p);
        let n = (i + 1) % (room.slots@.len() as int);
        assert(room.spec_occupied(n));
        let q = room.spec_slot(n).addr;
        assert(room.spec_has_addr(q));
        assert(n != i);
        assert(q != p);
        let j = room.spec_index_of_addr(q);
        assert(room.spec_occupied(j) && room.spec_slot(j).addr == q);
        assert(j == n);
        assert((j + 1) % (room.slots@.len() as int) == i);
        assert(room.spec_next_player(q) == p);
        assert forall|r: PlayerId| room.spec_has_addr(r) implies r == p || r == q by {
            let k = room.spec_index_of_addr(r);
            assert(room.spec_occupied(k) && room.spec_slot(k).addr == r);
            assert(k == i || k == n);
        }
    }

    /// Reconnection round-trip: a peer dropped while in Roles or Game keeps
    /// its seat waiting for reconnection, and a later login under the same
    /// username is answered `Reconnected` and puts the very same peer state
    /// back on a live connection, at the same seat, on the new token.
    pub proof fn lemma_reconnection_round_trip(
        r0: Room,
        r1: Room,
        r2: Room,
        addr: PlayerId,
        new_addr: PlayerId,
        username: Username,
        st: LoginStatus,
    )
        requires
            r0.wf(),
            r1.wf(),
            r0.spec_has_addr(addr),
            ({
                let i = r0.spec_index_of_addr(addr);
                &&& (r0.spec_slot(i).peer.spec_kind() == GameContextKind::Roles || r0.spec_slot(
                    i,
                ).peer.spec_kind() == GameContextKind::Game)
                &&& username@ == r0.spec_slot(i).peer.spec_username()
            }),
            Room::spec_drop_peer_rel(r0, addr, r1),
            Room::spec_add_player_rel(r1, new_addr, username, r2, st),
        ensures
            st == LoginStatus::Reconnected,
            ({
                let i = r0.spec_index_of_addr(addr);
                &&& r2.spec_occupied(i)
                &&& r2.spec_slot(i).addr == new_addr
                &&& r2.spec_slot(i).status == PeerStatus::Connected
                &&& r2.spec_slot(i).peer == r0.spec_slot(i).peer
            }),
    {
        let i = r0.spec_index_of_addr(addr);
        assert(r0.spec_occupied(i) && r0.spec_slot(i).addr == addr);
        let j = choose|j: int| #[trigger] Room::spec_dropped_at(r0, addr, r1, j);
        assert(j == i);
        // the seat was parked, not freed
        assert(r1.slots@ == r0.slots@.update(
            i,
            Some(
                PeerSlot { addr, status: PeerStatus::WaitReconnection, peer: r0.spec_slot(i).peer },
            ),
        ));
        assert(r1.spec_occupied(i));
        assert(r1.spec_slot(i).peer == r0.spec_slot(i).peer);
        assert(r1.spec_slot(i).status == PeerStatus::WaitReconnection);
        assert(r1.spec_slot(i).peer.spec_username() == username@);
        match st {
            LoginStatus::Reconnected => {
                let m = choose|m: int|
                    #[trigger] Room::spec_reconnected_at(r1, new_addr, username, r2, m);
                assert(m == i);
                assert(r2.spec_occupied(i));
            },
            LoginStatus::AlreadyLogged => {
                let m = choose|m: int|
                    #[trigger] r1.spec_occupied(m) && r1.spec_slot(m).peer.spec_username()
                        == username@ && r1.spec_slot(m).status == PeerStatus::Connected;
                assert(m == i);
                assert(false);
            },
            LoginStatus::Logged => {
                assert(r1.spec_has_username(username@));
                assert(false);
            },
            LoginStatus::PlayerLimit => {
                assert(r1.spec_has_username(username@));
                assert(false);
            },
            LoginStatus::InvalidName => {
                assert(false);
            },
        }
    }

    /// The context phase of the peer on this token.
    pub fn get_peer_kind(&self, addr: PlayerId) -> (r: Result<GameContextKind, RoomError>)
        requires
            self.wf(),
        ensures
            match r {
                Ok(k) => self.spec_has_addr(addr) && k == self.spec_slot(
                    self.spec_index_of_addr(addr),
                ).peer.spec_kind(),
                Err(e) => e == RoomError::PeerNotFound && !self.spec_has_addr(addr),
            },
    {
        match self.find_addr(addr) {
            Some(i) => {
                match &self.slots[i] {
                    Some(s) => {
                        let k = s.peer.kind();
                        proof {
                            let j = self.spec_index_of_addr(addr);
                            assert(self.spec_occupied(j) && self.spec_slot(j).addr == addr);
                            assert(j == i as int);
                        }
                        Ok(k)
                    },
                    None => unreached(),
                }
            },
            None => Err(RoomError::PeerNotFound),
        }
    }
}

} // verus!
