//! The peer actor's decisions: routing an inbound message against the
//! peer's current context, the login conversation, chat relay, and the
//! turn-checked game actions.

use vstd::prelude::*;

use crate::client;
use crate::game::{Card, Rank};
use crate::protocol::{GameContextKind, UnexpectedContext, Username};
use crate::room::{PlayerId, PeerSlot, Room, RoomError};
use crate::server::{self, ChatLine, Game, LoginStatus, ServerGameContext};
use crate::session::{
    attack, continue_game, drop_ability, select_ability, spec_attack_rel, spec_continue_rel,
    spec_drop_ability_rel, spec_select_ability_rel, GameError, GameSession,
};

verus! {

/// Admit an inbound message to the handler of the peer's current context,
/// the routing discipline: a message bound to another phase
/// than the peer's is refused with `UnexpectedContext`, naming both
/// phases; the phase-independent messages pass whatever the phase.
pub fn dispatch(current: GameContextKind, msg: &client::Msg) -> (r: Result<(), UnexpectedContext>)
    ensures
        match msg.spec_kind() {
            None => r is Ok,
            Some(mk) => if mk == current {
                r is Ok
            } else {
                r == Err::<(), UnexpectedContext>(
                    UnexpectedContext { expected: current, found: mk },
                )
            },
        },
{
    match msg.kind() {
        None => Ok(()),
        Some(mk) => {
            if mk == current {
                Ok(())
            } else {
                Err(UnexpectedContext { expected: current, found: mk })
            }
        },
    }
}

/// Whether an outbound message may go to a peer in the given phase: the
/// same discipline applied on the way out, so that no phase-bound server
/// message crosses into another context.
pub fn should_deliver(peer_kind: GameContextKind, msg: &server::Msg) -> (b: bool)
    ensures
        b == (msg.spec_kind() is None || msg.spec_kind() == Some(peer_kind)),
{
    match msg.kind() {
        None => true,
        Some(mk) => mk == peer_kind,
    }
}

/// Handle a login request: an ill-sized name is refused as `InvalidName`
/// without asking the room; otherwise the room arbitrates between fresh
/// login, reconnection and rejection. The caller reports the status to
/// the client and closes the connection unless it is accepted.
pub fn login(room: &mut Room, addr: PlayerId, name: String) -> (st: LoginStatus)
    requires
        old(room).wf(),
        !old(room).spec_has_addr(addr),
    ensures
        final(room).wf(),
        if 1 < Username::spec_byte_len(name@) <= 20 {
            exists|u: Username|
                u@ == name@ && #[trigger] Room::spec_add_player_rel(
                    *old(room),
                    addr,
                    u,
                    *final(room),
                    st,
                )
        } else {
            st == LoginStatus::InvalidName && *final(room) == *old(room)
        },
{
    match Username::new(name) {
        Ok(u) => {
            let ghost gu = u;
            let st = room.add_player(addr, u);
            proof {
                assert(Room::spec_add_player_rel(*old(room), addr, gu, *room, st));
            }
            st
        },
        Err(_) => LoginStatus::InvalidName,
    }
}

/// Answer a chat-history request: only a peer that is seated and on a
/// live connection may read the log; anyone else is turned away and the
/// caller closes the connection.
pub fn chat_log_for_peer(room: &Room, addr: PlayerId) -> (r: Option<Vec<ChatLine>>)
    requires
        room.wf(),
    ensures
        match r {
            Some(log) => {
                &&& log@ == room.chat@
                &&& exists|i: int|
                    room.spec_occupied(i) && (#[trigger] room.spec_slot(i)).addr == addr
                        && room.spec_slot(i).status == crate::room::PeerStatus::Connected
            },
            None => !exists|i: int|
                room.spec_occupied(i) && (#[trigger] room.spec_slot(i)).addr == addr
                    && room.spec_slot(i).status == crate::room::PeerStatus::Connected,
        },
{
    if room.is_peer_connected(addr) {
        Some(room.get_chat_log())
    } else {
        None
    }
}

/// Relay one chat message: the line carries the sender's username and is
/// recorded in the room's log; the caller broadcasts the returned line to
/// everyone else.
pub fn broadcast_chat(room: &mut Room, sender: PlayerId, text: String) -> (r: Result<
    ChatLine,
    RoomError,
>)
    requires
        old(room).wf(),
    ensures
        final(room).wf(),
        match r {
            Ok(line) => {
                &&& old(room).spec_has_addr(sender)
                &&& line matches ChatLine::Text { from, text: t } && from@ == old(room).spec_slot(
                    old(room).spec_index_of_addr(sender),
                ).peer.spec_username() && t@ == text@
                &&& final(room).chat@ == old(room).chat@.push(line)
                &&& final(room).slots == old(room).slots
            },
            Err(e) => {
                &&& e == RoomError::PeerNotFound
                &&& !old(room).spec_has_addr(sender)
                &&& *final(room) == *old(room)
            },
        },
{
    match room.get_peer_username(sender) {
        Ok(u) => {
            let line = ChatLine::Text { from: u, text };
            room.append_chat(line.clone());
            proof {
                Room::lemma_wf_same_slots(*old(room), *room);
            }
            Ok(line)
        },
        Err(e) => Err(e),
    }
}

/// What came of a turn-checked game action.
#[derive(Debug)]
pub enum GameActionOutcome {
    /// It is someone else's turn; here is their name, for the rejection
    /// sent back to the client.
    NotYourTurn(Username),
    /// It was the sender's turn, but the action itself was illegal;
    /// nothing changed.
    Refused(GameError),
    /// The action happened; here is the player whose turn it now is.
    Acted(PlayerId),
}

/// The acting peer's in-game state, taken out of its seat for one action.
#[verifier::inline]
pub open spec fn spec_game_state_at(room: Room, i: int) -> Game {
    room.spec_slot(i).peer->Game_0
}

/// The sender's seat ended up holding in-game state `g1`, with its token,
/// liveness, username and role untouched; nothing else moved.
pub open spec fn spec_seat_updated_with(
    pre: Room,
    post: Room,
    sender: PlayerId,
    g1: Game,
) -> bool {
    post.slots@ == pre.slots@.update(
        pre.spec_index_of_addr(sender),
        Some(
            PeerSlot {
                addr: sender,
                status: pre.spec_slot(pre.spec_index_of_addr(sender)).status,
                peer: ServerGameContext::Game(g1),
            },
        ),
    )
}

/// The turn check shared by every game action : a sender
/// that does not hold the active turn is told whose turn it is, and
/// nothing changes; otherwise the action runs against the sender's own
/// in-game state and the shared session, and the seat keeps its token,
/// liveness, username and role.
///
/// The check preconditions are the dispatcher's promises: the sender is
/// seated, in the Game phase, and the session's active player is seated.
#[verifier::rlimit(60)]
pub fn handle_drop_ability(
    room: &mut Room,
    s: &mut GameSession,
    sender: PlayerId,
    rank: Rank,
) -> (out: GameActionOutcome)
    requires
        old(room).wf(),
        old(s).wf(),
        old(room).spec_has_addr(sender),
        old(room).spec_slot(old(room).spec_index_of_addr(sender)).peer matches
            ServerGameContext::Game(_),
        old(room).spec_has_addr(old(s).spec_active_player()),
    ensures
        final(room).wf(),
        final(s).wf(),
        final(room).chat == old(room).chat,
        out matches GameActionOutcome::NotYourTurn(u) ==> {
            &&& old(s).spec_active_player() != sender
            &&& u@ == old(room).spec_slot(
                old(room).spec_index_of_addr(old(s).spec_active_player()),
            ).peer.spec_username()
            &&& *final(room) == *old(room)
            &&& *final(s) == *old(s)
        },
        out matches GameActionOutcome::Refused(e) ==> {
            &&& old(s).spec_active_player() == sender
            &&& spec_drop_ability_rel(
                spec_game_state_at(*old(room), old(room).spec_index_of_addr(sender)),
                *old(s),
                spec_game_state_at(*old(room), old(room).spec_index_of_addr(sender)),
                *old(s),
                rank,
                Err(e),
            )
            &&& final(room).slots@ == old(room).slots@
            &&& *final(s) == *old(s)
        },
        out matches GameActionOutcome::Acted(p) ==> {
            &&& old(s).spec_active_player() == sender
            &&& final(room).spec_slot(old(room).spec_index_of_addr(sender)).peer matches
                ServerGameContext::Game(g1)
            &&& spec_drop_ability_rel(
                spec_game_state_at(*old(room), old(room).spec_index_of_addr(sender)),
                *old(s),
                g1,
                *final(s),
                rank,
                Ok(p),
            )
            &&& spec_seat_updated_with(*old(room), *final(room), sender, g1)
        },
{
    let active = s.get_active_player();
    if active != sender {
        match room.get_peer_username(active) {
            Ok(u) => {
                return GameActionOutcome::NotYourTurn(u);
            },
            Err(_) => unreached(),
        }
    }
    let i = match room.find_addr(sender) {
        Some(i) => i,
        None => unreached(),
    };
    proof {
        let ix = old(room).spec_index_of_addr(sender);
        assert(old(room).spec_occupied(ix) && old(room).spec_slot(ix).addr == sender);
        assert(ix == i as int);
    }
    let mut taken: Option<PeerSlot> = None;
    core::mem::swap(&mut taken, &mut room.slots[i]);
    match taken {
        Some(ps) => {
            proof {
                assert(ps == old(room).spec_slot(i as int));
                assert(ps.addr == sender);
            }
            match ps.peer {
                ServerGameContext::Game(mut g) => {
                    proof {
                        assert(g == spec_game_state_at(*old(room), i as int));
                    }
                    let r = drop_ability(&mut g, s, rank);
                    let ghost g1 = g;
                    room.slots[i] = Some(
                        PeerSlot {
                            addr: ps.addr,
                            status: ps.status,
                            peer: ServerGameContext::Game(g),
                        },
                    );
                    proof {
                        let ns = room.spec_slot(i as int);
                        assert(room.slots@ =~= old(room).slots@.update(i as int, Some(ns)));
                        Room::lemma_wf_after_update(*old(room), *room, i as int, ns);
                        match r {
                            Ok(p) => {
                                assert(spec_drop_ability_rel(
                                    spec_game_state_at(*old(room), i as int),
                                    *old(s),
                                    g1,
                                    *s,
                                    rank,
                                    Ok(p),
                                ));
                                assert(ns == PeerSlot {
                                    addr: sender,
                                    status: old(room).spec_slot(i as int).status,
                                    peer: ServerGameContext::Game(g1),
                                });
                                assert(spec_seat_updated_with(*old(room), *room, sender, g1));
                                assert(room.spec_slot(
                                    old(room).spec_index_of_addr(sender),
                                ).peer == ServerGameContext::Game(g1));
                            },
                            Err(_) => {
                                assert(room.slots@ =~= old(room).slots@);
                            },
                        }
                    }
                    match r {
                        Ok(p) => GameActionOutcome::Acted(p),
                        Err(e) => GameActionOutcome::Refused(e),
                    }
                },
                _ => unreached(),
            }
        },
        None => unreached(),
    }
}

/// The SelectAbility step under the same turn check as
/// [`handle_drop_ability`].
#[verifier::rlimit(60)]
pub fn handle_select_ability(
    room: &mut Room,
    s: &mut GameSession,
    sender: PlayerId,
    rank: Rank,
) -> (out: GameActionOutcome)
    requires
        old(room).wf(),
        old(s).wf(),
        old(room).spec_has_addr(sender),
        old(room).spec_slot(old(room).spec_index_of_addr(sender)).peer matches
            ServerGameContext::Game(_),
        old(room).spec_has_addr(old(s).spec_active_player()),
    ensures
        final(room).wf(),
        final(s).wf(),
        final(room).chat == old(room).chat,
        out matches GameActionOutcome::NotYourTurn(u) ==> {
            &&& old(s).spec_active_player() != sender
            &&& u@ == old(room).spec_slot(
                old(room).spec_index_of_addr(old(s).spec_active_player()),
            ).peer.spec_username()
            &&& *final(room) == *old(room)
            &&& *final(s) == *old(s)
        },
        out matches GameActionOutcome::Refused(e) ==> {
            &&& old(s).spec_active_player() == sender
            &&& spec_select_ability_rel(
                spec_game_state_at(*old(room), old(room).spec_index_of_addr(sender)),
                *old(s),
                spec_game_state_at(*old(room), old(room).spec_index_of_addr(sender)),
                *old(s),
                rank,
                Err(e),
            )
            &&& final(room).slots@ == old(room).slots@
            &&& *final(s) == *old(s)
        },
        out matches GameActionOutcome::Acted(p) ==> {
            &&& old(s).spec_active_player() == sender
            &&& final(room).spec_slot(old(room).spec_index_of_addr(sender)).peer matches
                ServerGameContext::Game(g1)
            &&& spec_select_ability_rel(
                spec_game_state_at(*old(room), old(room).spec_index_of_addr(sender)),
                *old(s),
                g1,
                *final(s),
                rank,
                Ok(p),
            )
            &&& spec_seat_updated_with(*old(room), *final(room), sender, g1)
        },
{
    let active = s.get_active_player();
    if active != sender {
        match room.get_peer_username(active) {
            Ok(u) => {
                return GameActionOutcome::NotYourTurn(u);
            },
            Err(_) => unreached(),
        }
    }
    let i = match room.find_addr(sender) {
        Some(i) => i,
        None => unreached(),
    };
    proof {
        let ix = old(room).spec_index_of_addr(sender);
        assert(old(room).spec_occupied(ix) && old(room).spec_slot(ix).addr == sender);
        assert(ix == i as int);
    }
    let mut taken: Option<PeerSlot> = None;
    core::mem::swap(&mut taken, &mut room.slots[i]);
    match taken {
        Some(ps) => {
            proof {
                assert(ps == old(room).spec_slot(i as int));
                assert(ps.addr == sender);
            }
            match ps.peer {
                ServerGameContext::Game(mut g) => {
                    proof {
                        assert(g == spec_game_state_at(*old(room), i as int));
                    }
                    let r = select_ability(&mut g, s, rank);
                    let ghost g1 = g;
                    room.slots[i] = Some(
                        PeerSlot {
                            addr: ps.addr,
                            status: ps.status,
                            peer: ServerGameContext::Game(g),
                        },
                    );
                    proof {
                        let ns = room.spec_slot(i as int);
                        assert(room.slots@ =~= old(room).slots@.update(i as int, Some(ns)));
                        Room::lemma_wf_after_update(*old(room), *room, i as int, ns);
                        match r {
                            Ok(p) => {
                                assert(spec_select_ability_rel(
                                    spec_game_state_at(*old(room), i as int),
                                    *old(s),
                                    g1,
                                    *s,
                                    rank,
                                    Ok(p),
                                ));
                                assert(ns == PeerSlot {
                                    addr: sender,
                                    status: old(room).spec_slot(i as int).status,
                                    peer: ServerGameContext::Game(g1),
                                });
                                assert(spec_seat_updated_with(*old(room), *room, sender, g1));
                                assert(room.spec_slot(
                                    old(room).spec_index_of_addr(sender),
                                ).peer == ServerGameContext::Game(g1));
                            },
                            Err(_) => {
                                assert(room.slots@ =~= old(room).slots@);
                            },
                        }
                    }
                    match r {
                        Ok(p) => GameActionOutcome::Acted(p),
                        Err(e) => GameActionOutcome::Refused(e),
                    }
                },
                _ => unreached(),
            }
        },
        None => unreached(),
    }
}

/// The AttachMonster step — an attack — under the same turn check as
/// [`handle_drop_ability`].
#[verifier::rlimit(60)]
pub fn handle_attack(
    room: &mut Room,
    s: &mut GameSession,
    sender: PlayerId,
    monster: Card,
) -> (out: GameActionOutcome)
    requires
        old(room).wf(),
        old(s).wf(),
        old(room).spec_has_addr(sender),
        old(room).spec_slot(old(room).spec_index_of_addr(sender)).peer matches
            ServerGameContext::Game(_),
        old(room).spec_has_addr(old(s).spec_active_player()),
    ensures
        final(room).wf(),
        final(s).wf(),
        final(room).chat == old(room).chat,
        out matches GameActionOutcome::NotYourTurn(u) ==> {
            &&& old(s).spec_active_player() != sender
            &&& u@ == old(room).spec_slot(
                old(room).spec_index_of_addr(old(s).spec_active_player()),
            ).peer.spec_username()
            &&& *final(room) == *old(room)
            &&& *final(s) == *old(s)
        },
        out matches GameActionOutcome::Refused(e) ==> {
            &&& old(s).spec_active_player() == sender
            &&& spec_attack_rel(
                spec_game_state_at(*old(room), old(room).spec_index_of_addr(sender)),
                *old(s),
                spec_game_state_at(*old(room), old(room).spec_index_of_addr(sender)),
                *old(s),
                monster,
                Err(e),
            )
            &&& final(room).slots@ == old(room).slots@
            &&& *final(s) == *old(s)
        },
        out matches GameActionOutcome::Acted(p) ==> {
            &&& old(s).spec_active_player() == sender
            &&& final(room).spec_slot(old(room).spec_index_of_addr(sender)).peer matches
                ServerGameContext::Game(g1)
            &&& spec_attack_rel(
                spec_game_state_at(*old(room), old(room).spec_index_of_addr(sender)),
                *old(s),
                g1,
                *final(s),
                monster,
                Ok(p),
            )
            &&& spec_seat_updated_with(*old(room), *final(room), sender, g1)
        },
{
    let active = s.get_active_player();
    if active != sender {
        match room.get_peer_username(active) {
            Ok(u) => {
                return GameActionOutcome::NotYourTurn(u);
            },
            Err(_) => unreached(),
        }
    }
    let i = match room.find_addr(sender) {
        Some(i) => i,
        None => unreached(),
    };
    proof {
        let ix = old(room).spec_index_of_addr(sender);
        assert(old(room).spec_occupied(ix) && old(room).spec_slot(ix).addr == sender);
        assert(ix == i as int);
    }
    let mut taken: Option<PeerSlot> = None;
    core::mem::swap(&mut taken, &mut room.slots[i]);
    match taken {
        Some(ps) => {
            proof {
                assert(ps == old(room).spec_slot(i as int));
                assert(ps.addr == sender);
            }
            match ps.peer {
                ServerGameContext::Game(mut g) => {
                    proof {
                        assert(g == spec_game_state_at(*old(room), i as int));
                    }
                    let r = attack(&mut g, s, monster);
                    let ghost g1 = g;
                    room.slots[i] = Some(
                        PeerSlot {
                            addr: ps.addr,
                            status: ps.status,
                            peer: ServerGameContext::Game(g),
                        },
                    );
                    proof {
                        let ns = room.spec_slot(i as int);
                        assert(room.slots@ =~= old(room).slots@.update(i as int, Some(ns)));
                        Room::lemma_wf_after_update(*old(room), *room, i as int, ns);
                        match r {
                            Ok(p) => {
                                assert(spec_attack_rel(
                                    spec_game_state_at(*old(room), i as int),
                                    *old(s),
                                    g1,
                                    *s,
                                    monster,
                                    Ok(p),
                                ));
                                assert(ns == PeerSlot {
                                    addr: sender,
                                    status: old(room).spec_slot(i as int).status,
                                    peer: ServerGameContext::Game(g1),
                                });
                                assert(spec_seat_updated_with(*old(room), *room, sender, g1));
                                assert(room.spec_slot(
                                    old(room).spec_index_of_addr(sender),
                                ).peer == ServerGameContext::Game(g1));
                            },
                            Err(_) => {
                                assert(room.slots@ =~= old(room).slots@);
                            },
                        }
                    }
                    match r {
                        Ok(p) => GameActionOutcome::Acted(p),
                        Err(e) => GameActionOutcome::Refused(e),
                    }
                },
                _ => unreached(),
            }
        },
        None => unreached(),
    }
}

/// The Continue step — close the round and open the next one — under the
/// same turn check as [`handle_drop_ability`]; it cannot itself fail.
#[verifier::rlimit(60)]
pub fn handle_continue(room: &mut Room, s: &mut GameSession, sender: PlayerId) -> (out:
    GameActionOutcome)
    requires
        old(room).wf(),
        old(s).wf(),
        old(room).spec_has_addr(sender),
        old(room).spec_slot(old(room).spec_index_of_addr(sender)).peer matches
            ServerGameContext::Game(_),
        old(room).spec_has_addr(old(s).spec_active_player()),
    ensures
        final(room).wf(),
        final(s).wf(),
        final(room).chat == old(room).chat,
        !(out is Refused),
        out matches GameActionOutcome::NotYourTurn(u) ==> {
            &&& old(s).spec_active_player() != sender
            &&& u@ == old(room).spec_slot(
                old(room).spec_index_of_addr(old(s).spec_active_player()),
            ).peer.spec_username()
            &&& *final(room) == *old(room)
            &&& *final(s) == *old(s)
        },
        out matches GameActionOutcome::Acted(p) ==> {
            &&& old(s).spec_active_player() == sender
            &&& final(room).spec_slot(old(room).spec_index_of_addr(sender)).peer matches
                ServerGameContext::Game(g1)
            &&& spec_continue_rel(
                spec_game_state_at(*old(room), old(room).spec_index_of_addr(sender)),
                *old(s),
                g1,
                *final(s),
                p,
            )
            &&& spec_seat_updated_with(*old(room), *final(room), sender, g1)
        },
{
    let active = s.get_active_player();
    if active != sender {
        match room.get_peer_username(active) {
            Ok(u) => {
                return GameActionOutcome::NotYourTurn(u);
            },
            Err(_) => unreached(),
        }
    }
    let i = match room.find_addr(sender) {
        Some(i) => i,
        None => unreached(),
    };
    proof {
        let ix = old(room).spec_index_of_addr(sender);
        assert(old(room).spec_occupied(ix) && old(room).spec_slot(ix).addr == sender);
        assert(ix == i as int);
    }
    let mut taken: Option<PeerSlot> = None;
    core::mem::swap(&mut taken, &mut room.slots[i]);
    match taken {
        Some(ps) => {
            proof {
                assert(ps == old(room).spec_slot(i as int));
                assert(ps.addr == sender);
            }
            match ps.peer {
                ServerGameContext::Game(mut g) => {
                    proof {
                        assert(g == spec_game_state_at(*old(room), i as int));
                    }
                    let p = continue_game(&mut g, s);
                    let ghost g1 = g;
                    room.slots[i] = Some(
                        PeerSlot {
                            addr: ps.addr,
                            status: ps.status,
                            peer: ServerGameContext::Game(g),
                        },
                    );
                    proof {
                        let ns = room.spec_slot(i as int);
                        assert(room.slots@ =~= old(room).slots@.update(i as int, Some(ns)));
                        Room::lemma_wf_after_update(*old(room), *room, i as int, ns);
                        assert(spec_continue_rel(
                            spec_game_state_at(*old(room), i as int),
                            *old(s),
                            g1,
                            *s,
                            p,
                        ));
                        assert(ns == PeerSlot {
                            addr: sender,
                            status: old(room).spec_slot(i as int).status,
                            peer: ServerGameContext::Game(g1),
                        });
                        assert(spec_seat_updated_with(*old(room), *room, sender, g1));
                        assert(room.spec_slot(old(room).spec_index_of_addr(sender)).peer
                            == ServerGameContext::Game(g1));
                    }
                    GameActionOutcome::Acted(p)
                },
                _ => unreached(),
            }
        },
        None => unreached(),
    }
}

} // verus!
