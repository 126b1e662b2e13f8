use ascension::client;
use ascension::game::Role;
use ascension::peer::{
    broadcast_chat, chat_log_for_peer, dispatch, should_deliver, GameActionOutcome,
};
use ascension::protocol::{GameContextKind, RoleStatus, Username};
use ascension::room::{
    AdvanceError, AdvanceOutcome, PeerSlot, PeerStatus, Room, RoomError,
};
use ascension::server::{
    AppMsg, ChatLine, Home, LoginStatus, Msg, SelectRole, SelectRoleStatus, ServerGameContext,
};

fn name(n: &str) -> Username {
    Username::new(n.to_string()).unwrap()
}

/// A room with alice (token 1) and bob (token 2) seated, both in Roles.
fn roles_room() -> Room {
    let mut room = Room::new();
    assert_eq!(room.add_player(1, name("alice")), LoginStatus::Logged);
    assert_eq!(room.add_player(2, name("bob")), LoginStatus::Logged);
    assert!(matches!(room.request_next_context_after(1), Ok(AdvanceOutcome::ToHome(_))));
    assert!(matches!(room.request_next_context_after(2), Ok(AdvanceOutcome::ToHome(_))));
    assert!(matches!(room.request_next_context_after(1), Ok(AdvanceOutcome::ToRoles)));
    room
}

#[test]
fn login_fills_seats_in_order() {
    let mut room = Room::new();
    assert!(!room.is_full());
    assert_eq!(room.add_player(1, name("alice")), LoginStatus::Logged);
    assert_eq!(room.add_player(2, name("bob")), LoginStatus::Logged);
    assert!(room.is_full());
    assert_eq!(room.get_peer_username(1).unwrap().as_str(), "alice");
    assert_eq!(room.get_peer_username(2).unwrap().as_str(), "bob");
    assert_eq!(room.get_peer_kind(1).unwrap(), GameContextKind::Intro);
}

#[test]
fn login_rejects_a_live_duplicate_and_a_full_room() {
    let mut room = Room::new();
    assert_eq!(room.add_player(1, name("alice")), LoginStatus::Logged);
    assert_eq!(room.add_player(2, name("alice")), LoginStatus::AlreadyLogged);
    assert_eq!(room.add_player(2, name("bob")), LoginStatus::Logged);
    assert_eq!(room.add_player(3, name("carol")), LoginStatus::PlayerLimit);
}

#[test]
fn login_checks_the_name_first() {
    let mut room = Room::new();
    assert_eq!(ascension::peer::login(&mut room, 1, "a".to_string()), LoginStatus::InvalidName);
    assert_eq!(ascension::peer::login(&mut room, 1, "alice".to_string()), LoginStatus::Logged);
}

#[test]
fn dropping_a_lobby_peer_frees_its_seat() {
    let mut room = Room::new();
    room.add_player(1, name("alice"));
    let line = room.drop_peer(1).unwrap();
    match line {
        ChatLine::Disconnection(u) => assert_eq!(u.as_str(), "alice"),
        _ => panic!("expected a disconnection line"),
    }
    // the seat is free again: the same name logs in fresh
    assert_eq!(room.add_player(3, name("alice")), LoginStatus::Logged);
    assert_eq!(room.drop_peer(9).unwrap_err(), RoomError::PeerNotFound);
}

#[test]
fn reconnection_round_trip_keeps_the_seat() {
    let mut room = roles_room();
    assert_eq!(room.set_role_for_peer(1, Role::Mage), SelectRoleStatus::Selected(Role::Mage));
    // alice disconnects mid-match: her seat waits instead of emptying
    room.drop_peer(1).unwrap();
    assert!(!room.is_peer_connected(1));
    assert_eq!(room.get_peer_kind(1).unwrap(), GameContextKind::Roles);
    // logging in again under the same name resumes the same seat
    assert_eq!(room.add_player(7, name("alice")), LoginStatus::Reconnected);
    assert!(room.is_peer_connected(7));
    assert!(!room.is_peer_connected(1));
    assert_eq!(room.get_peer_kind(7).unwrap(), GameContextKind::Roles);
    // the kept selection still blocks the role for others
    assert_eq!(room.set_role_for_peer(2, Role::Mage), SelectRoleStatus::Busy);
}

#[test]
fn role_collection_follows_live_selections() {
    let mut room = roles_room();
    let all_free = room.collect_roles();
    assert_eq!(all_free.len(), 4);
    for st in &all_free {
        assert!(matches!(st, RoleStatus::Available(_)));
    }
    assert_eq!(
        room.set_role_for_peer(1, Role::Warrior),
        SelectRoleStatus::Selected(Role::Warrior)
    );
    let after = room.collect_roles();
    assert_eq!(after[0], RoleStatus::NotAvailable(Role::Warrior));
    assert_eq!(after[1], RoleStatus::Available(Role::Rogue));
    assert_eq!(after[2], RoleStatus::Available(Role::Paladin));
    assert_eq!(after[3], RoleStatus::Available(Role::Mage));
    // a second peer asking for the same role is turned away
    assert_eq!(room.set_role_for_peer(2, Role::Warrior), SelectRoleStatus::Busy);
    // the holder asking again is told it already has it
    assert_eq!(room.set_role_for_peer(1, Role::Warrior), SelectRoleStatus::AlreadySelected);
    // and a different free role is granted
    assert_eq!(room.set_role_for_peer(2, Role::Mage), SelectRoleStatus::Selected(Role::Mage));
    assert!(room.are_all_have_roles());
}

#[test]
fn turn_rotation_cycles_over_the_seats() {
    let room = roles_room();
    let next_of_1 = room.next_player_for_turn(1);
    assert_eq!(next_of_1, 2);
    assert_eq!(room.next_player_for_turn(2), 1);
    assert_eq!(room.next_player_for_turn(room.next_player_for_turn(1)), 1);
}

#[test]
fn advance_waits_for_the_whole_lobby() {
    // end-to-end: two peers log in, both reach Home, and Roles opens only
    // once both have asked
    let mut room = Room::new();
    room.add_player(1, name("alice"));
    room.add_player(2, name("bob"));
    match room.request_next_context_after(1) {
        Ok(AdvanceOutcome::ToHome(ChatLine::Connection(u))) => assert_eq!(u.as_str(), "alice"),
        _ => panic!("expected alice to enter Home"),
    }
    assert_eq!(room.get_peer_kind(1).unwrap(), GameContextKind::Home);
    // alice is alone in Home: she is held back
    assert!(matches!(room.request_next_context_after(1), Ok(AdvanceOutcome::NotReady)));
    assert_eq!(room.get_peer_kind(1).unwrap(), GameContextKind::Home);
    assert!(matches!(room.request_next_context_after(2), Ok(AdvanceOutcome::ToHome(_))));
    // now both are present and the whole room advances
    assert!(matches!(room.request_next_context_after(1), Ok(AdvanceOutcome::ToRoles)));
    assert_eq!(room.get_peer_kind(1).unwrap(), GameContextKind::Roles);
    assert_eq!(room.get_peer_kind(2).unwrap(), GameContextKind::Roles);
}

#[test]
fn advance_needs_every_role_chosen() {
    let mut room = roles_room();
    assert!(matches!(room.request_next_context_after(1), Ok(AdvanceOutcome::NotReady)));
    room.set_role_for_peer(1, Role::Warrior);
    assert!(matches!(room.request_next_context_after(1), Ok(AdvanceOutcome::NotReady)));
    room.set_role_for_peer(2, Role::Mage);
    let session = match room.request_next_context_after(1) {
        Ok(AdvanceOutcome::StartGame(s)) => s,
        _ => panic!("expected the match to start"),
    };
    assert_eq!(session.players, vec![1, 2]);
    assert_eq!(room.get_peer_kind(1).unwrap(), GameContextKind::Game);
    assert_eq!(room.get_peer_kind(2).unwrap(), GameContextKind::Game);
    // each player got a full ability pile of its own suit
    for slot in &room.slots {
        match &slot.as_ref().unwrap().peer {
            ServerGameContext::Game(g) => {
                assert_eq!(g.abilities.ranks.len(), 12);
                assert_eq!(g.abilities.suit, g.role.suit());
                assert!(g.selected_ability.is_none());
            }
            _ => panic!("everyone should be in Game now"),
        }
    }
    // a further request from the last phase is refused
    assert_eq!(room.request_next_context_after(1).unwrap_err(), AdvanceError::NoNextContext);
}

#[test]
fn advance_rejects_unknown_peers_and_mixed_phases() {
    let mut room = Room::new();
    assert_eq!(room.request_next_context_after(5).unwrap_err(), AdvanceError::PeerNotFound);
    // a hand-mixed room (one peer in Roles, one still in Home) is a
    // programming error refused as fatal
    let mut broken = Room::new();
    broken.slots[0] = Some(PeerSlot::new(
        1,
        ServerGameContext::SelectRole(SelectRole { name: name("alice"), role: None }),
    ));
    broken.slots[1] = Some(PeerSlot::new(
        2,
        ServerGameContext::Home(Home { name: name("bob") }),
    ));
    assert_eq!(
        broken.request_next_context_after(1).unwrap_err(),
        AdvanceError::RoomInvariantBroken
    );
}

#[test]
fn chat_lines_are_recorded_and_relayed() {
    let mut room = Room::new();
    room.add_player(1, name("alice"));
    let line = broadcast_chat(&mut room, 1, "hello".to_string()).unwrap();
    match &line {
        ChatLine::Text { from, text } => {
            assert_eq!(from.as_str(), "alice");
            assert_eq!(text, "hello");
        }
        _ => panic!("expected a text line"),
    }
    assert!(matches!(
        broadcast_chat(&mut room, 9, "ghost".to_string()),
        Err(RoomError::PeerNotFound)
    ));
    let log = chat_log_for_peer(&room, 1).unwrap();
    assert_eq!(log.len(), 1);
    assert!(matches!(&log[0], ChatLine::Text { .. }));
    // a token nobody is connected on may not read the history
    assert!(chat_log_for_peer(&room, 9).is_none());
}

#[test]
fn dispatch_blocks_cross_context_messages() {
    let msg = client::Msg::SelectRole(client::SelectRoleMsg::Select(Role::Mage));
    let err = dispatch(GameContextKind::Home, &msg).unwrap_err();
    assert_eq!(err.expected, GameContextKind::Home);
    assert_eq!(err.found, GameContextKind::Roles);
    assert!(dispatch(GameContextKind::Roles, &msg).is_ok());
    // the shared messages pass in any phase
    let ping = client::Msg::App(client::AppMsg::Ping);
    assert!(dispatch(GameContextKind::Intro, &ping).is_ok());
    assert!(dispatch(GameContextKind::Game, &ping).is_ok());
}

#[test]
fn outbound_messages_respect_the_context_too() {
    let pong = Msg::App(AppMsg::Pong);
    assert!(should_deliver(GameContextKind::Intro, &pong));
    assert!(should_deliver(GameContextKind::Game, &pong));
    let login = Msg::Intro(ascension::server::IntroMsg::LoginStatus(LoginStatus::Logged));
    assert!(should_deliver(GameContextKind::Intro, &login));
    assert!(!should_deliver(GameContextKind::Game, &login));
}

#[test]
fn shutdown_empties_every_seat() {
    let mut room = roles_room();
    room.shutdown();
    for slot in &room.slots {
        assert!(slot.is_none());
    }
    assert!(!room.is_full());
}

#[test]
fn wrong_turn_is_rejected_with_the_active_name() {
    // end-to-end: a peer that does not hold the turn is told whose turn
    // it is, and an overreaching attack is refused without state change
    let mut room = roles_room();
    room.set_role_for_peer(1, Role::Warrior);
    room.set_role_for_peer(2, Role::Mage);
    let mut session = match room.request_next_context_after(1) {
        Ok(AdvanceOutcome::StartGame(s)) => s,
        _ => panic!("expected the match to start"),
    };
    assert_eq!(session.get_active_player(), 1);
    // bob acts out of turn
    let out = ascension::peer::handle_attack(
        &mut room,
        &mut session,
        2,
        ascension::game::Card { rank: ascension::game::Rank::Two, suit: ascension::game::Suit::Hearts },
    );
    match out {
        GameActionOutcome::NotYourTurn(u) => assert_eq!(u.as_str(), "alice"),
        _ => panic!("bob does not hold the turn"),
    }
    assert_eq!(session.get_active_player(), 1);
}
