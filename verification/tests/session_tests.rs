use ascension::game::{AbilityDeck, Card, Deck, Rank, Suit};
use ascension::peer::GameActionOutcome;
use ascension::protocol::{GamePhaseKind, TurnStatus};
use ascension::room::{AdvanceOutcome, Room};
use ascension::server::LoginStatus;
use ascension::session::{turn_status_for, GameError, GameSession};

fn card(rank: Rank, suit: Suit) -> Card {
    Card { rank, suit }
}

/// A fixed, tiny deck for deterministic engine tests.
fn small_deck() -> Deck {
    Deck {
        cards: vec![
            card(Rank::Two, Suit::Hearts),
            card(Rank::Three, Suit::Clubs),
            card(Rank::King, Suit::Spades),
            card(Rank::Four, Suit::Diamonds),
        ],
    }
}

#[test]
fn create_deck() {
    let deck = Deck::new_monster_deck();
    deck.cards.iter().enumerate().for_each(|(i, m)| println!("{i}: {:?}", m));
}

#[test]
fn monster_deck_has_a_boss_every_fourth_card() {
    let deck = Deck::new_monster_deck();
    assert_eq!(deck.cards.len(), 48);
    for (i, c) in deck.cards.iter().enumerate() {
        let is_boss = matches!(c.rank, Rank::Jack | Rank::Queen | Rank::King);
        if (i + 1) % 4 == 0 {
            assert!(is_boss, "card {} should be a boss, found {:?}", i, c);
        } else {
            assert!(!is_boss, "card {} should be numeric, found {:?}", i, c);
        }
    }
}

#[test]
fn shuffle_keeps_the_same_cards() {
    let mut deck = Deck::default();
    let before = deck.cards.clone();
    deck.shuffle();
    assert_eq!(deck.cards.len(), before.len());
    for c in &before {
        let n_before = before.iter().filter(|x| *x == c).count();
        let n_after = deck.cards.iter().filter(|x| *x == c).count();
        assert_eq!(n_before, n_after, "{:?} changed multiplicity", c);
    }
}

#[test]
fn full_deck_is_rank_major() {
    let deck = Deck::default();
    assert_eq!(deck.cards.len(), 48);
    assert_eq!(deck.cards[0], card(Rank::Two, Suit::Hearts));
    assert_eq!(deck.cards[1], card(Rank::Two, Suit::Diamonds));
    assert_eq!(deck.cards[4], card(Rank::Three, Suit::Hearts));
    assert_eq!(deck.cards[47], card(Rank::King, Suit::Spades));
}

#[test]
fn rank_power_is_ascending() {
    assert_eq!(Rank::Two.power(), 1);
    assert_eq!(Rank::Ten.power(), 9);
    assert_eq!(Rank::King.power(), 12);
    let all = Rank::all();
    assert_eq!(all.len(), 12);
    for w in all.windows(2) {
        assert!(w[0].power() < w[1].power());
    }
}

#[test]
fn ability_deck_tracks_the_active_hand() {
    let mut d = AbilityDeck::new(Suit::Spades);
    assert_eq!(d.suit, Suit::Spades);
    assert_eq!(d.ranks.len(), 12);
    assert_eq!(d.active_items(), [Some(Rank::Two), Some(Rank::Three), Some(Rank::Four)]);
    assert!(d.drop_item(Rank::Three));
    assert_eq!(d.active_items(), [Some(Rank::Two), Some(Rank::Four), Some(Rank::Five)]);
    // a rank that already left the pile cannot leave twice
    assert!(!d.drop_item(Rank::Three));
    assert_eq!(d.ranks.len(), 11);
    d.next_actives();
    assert_eq!(d.ranks.len(), 8);
    assert_eq!(d.active_items(), [Some(Rank::Six), Some(Rank::Seven), Some(Rank::Eight)]);
}

#[test]
fn ability_deck_next_actives_on_a_short_pile() {
    let mut d = AbilityDeck { suit: Suit::Hearts, ranks: vec![Rank::King, Rank::Queen] };
    d.next_actives();
    assert_eq!(d.ranks.len(), 0);
    assert_eq!(d.active_items(), [None, None, None]);
}

#[test]
fn session_draws_the_first_monster_row() {
    let s = GameSession::new(vec![10, 20], small_deck());
    assert_eq!(s.get_active_player(), 10);
    assert_eq!(s.get_game_phase(), GamePhaseKind::DropAbility);
    assert_eq!(
        s.get_monsters(),
        [Some(card(Rank::Two, Suit::Hearts)), Some(card(Rank::Three, Suit::Clubs))]
    );
    assert_eq!(s.deck.len(), 2);
}

#[test]
fn switch_to_next_player_rotates() {
    let mut s = GameSession::new(vec![10, 20], small_deck());
    assert_eq!(s.switch_to_next_player(), 20);
    assert_eq!(s.switch_to_next_player(), 10);
    assert_eq!(s.switch_to_next_player(), 20);
}

#[test]
fn turn_status_names_the_phase_for_the_active_player() {
    let s = GameSession::new(vec![10, 20], small_deck());
    assert_eq!(turn_status_for(&s, 10), TurnStatus::Ready(GamePhaseKind::DropAbility));
    assert_eq!(turn_status_for(&s, 20), TurnStatus::Wait);
}

#[test]
fn drop_monster_clears_one_slot() {
    let mut s = GameSession::new(vec![10, 20], small_deck());
    let shown = card(Rank::Three, Suit::Clubs);
    assert!(s.drop_monster(shown).is_ok());
    assert_eq!(s.get_monsters(), [Some(card(Rank::Two, Suit::Hearts)), None]);
    assert_eq!(
        s.drop_monster(shown).unwrap_err(),
        GameError::MonsterNotPresent(shown)
    );
}

#[test]
fn next_monsters_replaces_the_row_while_the_pile_lasts() {
    let mut s = GameSession::new(vec![10, 20], small_deck());
    s.next_monsters();
    assert_eq!(
        s.get_monsters(),
        [Some(card(Rank::King, Suit::Spades)), Some(card(Rank::Four, Suit::Diamonds))]
    );
    assert_eq!(s.deck.len(), 0);
    s.next_monsters();
    assert_eq!(s.get_monsters(), [None, None]);
}

/// A room with alice (1) and bob (2) already in a running match.
fn running_match() -> (Room, GameSession) {
    let mut room = Room::new();
    room.add_player(1, ascension::protocol::Username::new("alice".to_string()).unwrap());
    room.add_player(2, ascension::protocol::Username::new("bob".to_string()).unwrap());
    assert!(matches!(room.request_next_context_after(1), Ok(AdvanceOutcome::ToHome(_))));
    assert!(matches!(room.request_next_context_after(2), Ok(AdvanceOutcome::ToHome(_))));
    assert!(matches!(room.request_next_context_after(1), Ok(AdvanceOutcome::ToRoles)));
    room.set_role_for_peer(1, ascension::game::Role::Warrior);
    room.set_role_for_peer(2, ascension::game::Role::Mage);
    let session = match room.request_next_context_after(2) {
        Ok(AdvanceOutcome::StartGame(s)) => s,
        _ => panic!("expected the match to start"),
    };
    (room, session)
}

#[test]
fn game_actions_walk_the_turn_phases() {
    let (mut room, mut s) = running_match();
    assert_eq!(s.get_active_player(), 1);
    // alice discards an ability; the turn passes to bob in SelectAbility
    match ascension::peer::handle_drop_ability(&mut room, &mut s, 1, Rank::Two) {
        GameActionOutcome::Acted(next) => assert_eq!(next, 2),
        _ => panic!("alice holds the turn and the rank"),
    }
    assert_eq!(s.get_game_phase(), GamePhaseKind::SelectAbility);
    // bob picks the ability to fight with; on to AttachMonster
    match ascension::peer::handle_select_ability(&mut room, &mut s, 2, Rank::Five) {
        GameActionOutcome::Acted(next) => assert_eq!(next, 1),
        _ => panic!("bob holds the turn and the rank"),
    }
    assert_eq!(s.get_game_phase(), GamePhaseKind::AttachMonster);
    // alice never selected an ability, so she cannot attack yet
    let monster = s.get_monsters()[0].unwrap();
    match ascension::peer::handle_attack(&mut room, &mut s, 1, monster) {
        GameActionOutcome::Refused(e) => assert_eq!(e, GameError::AbilityNotSelected),
        _ => panic!("an attack needs a selected ability"),
    }
    assert_eq!(s.get_game_phase(), GamePhaseKind::AttachMonster);
    assert_eq!(s.get_active_player(), 1);
    // continuing closes the round: fresh monsters, back to DropAbility
    match ascension::peer::handle_continue(&mut room, &mut s, 1) {
        GameActionOutcome::Acted(next) => assert_eq!(next, 2),
        _ => panic!("alice holds the turn"),
    }
    assert_eq!(s.get_game_phase(), GamePhaseKind::DropAbility);
}

#[test]
fn an_overreaching_attack_changes_nothing() {
    let (mut room, mut s) = running_match();
    // alice selects her weakest ability, then faces a king
    match ascension::peer::handle_select_ability(&mut room, &mut s, 1, Rank::Two) {
        GameActionOutcome::Acted(next) => assert_eq!(next, 2),
        _ => panic!("alice holds the turn and the rank"),
    }
    // bob passes the turn back by selecting too
    match ascension::peer::handle_select_ability(&mut room, &mut s, 2, Rank::Two) {
        GameActionOutcome::Acted(next) => assert_eq!(next, 1),
        _ => panic!("bob holds the turn and the rank"),
    }
    let monsters_before = s.get_monsters();
    let phase_before = s.get_game_phase();
    let strong = card(Rank::King, Suit::Spades);
    match ascension::peer::handle_attack(&mut room, &mut s, 1, strong) {
        GameActionOutcome::Refused(GameError::MonsterTooStrong { monster, ability }) => {
            assert_eq!(monster, Rank::King);
            assert_eq!(ability, Rank::Two);
        }
        _ => panic!("a king outranks a two"),
    }
    // nothing moved: same row, same phase, same turn
    assert_eq!(s.get_monsters(), monsters_before);
    assert_eq!(s.get_game_phase(), phase_before);
    assert_eq!(s.get_active_player(), 1);
}

#[test]
fn dropping_an_unheld_ability_is_refused() {
    let (mut room, mut s) = running_match();
    match ascension::peer::handle_drop_ability(&mut room, &mut s, 1, Rank::Two) {
        GameActionOutcome::Acted(_) => {}
        _ => panic!("alice holds the turn and the rank"),
    }
    // bob's turn; then alice tries to drop the same rank twice
    match ascension::peer::handle_drop_ability(&mut room, &mut s, 2, Rank::Two) {
        GameActionOutcome::Acted(_) => {}
        _ => panic!("bob holds the turn and the rank"),
    }
    match ascension::peer::handle_drop_ability(&mut room, &mut s, 1, Rank::Two) {
        GameActionOutcome::Refused(e) => assert_eq!(e, GameError::AbilityNotHeld(Rank::Two)),
        _ => panic!("the rank already left alice's pile"),
    }
}

#[test]
fn login_status_acceptance() {
    assert!(LoginStatus::Logged.is_accepted());
    assert!(LoginStatus::Reconnected.is_accepted());
    assert!(!LoginStatus::AlreadyLogged.is_accepted());
    assert!(!LoginStatus::PlayerLimit.is_accepted());
    assert!(!LoginStatus::InvalidName.is_accepted());
}
