//! The game session: the shared turn engine of one match. It owns the
//! monster draw pile, the visible monster row, whose turn it is and which
//! step of a turn is being played; the per-player ability piles live in
//! each peer's Game state and are mutated together with the session here.
//!
//! A turn walks its phases in a fixed cycle: the active player discards an
//! ability (DropAbility), chooses the ability to fight with
//! (SelectAbility), attaches it to a monster (AttachMonster), then the
//! round stands in Defend until play continues with a fresh monster row.
//! Every operation that changes whose turn it is hands the next player's
//! token back so the caller can announce `Ready` and `Wait`.

use vstd::prelude::*;

use crate::game::{spec_removed_first, Card, Deck, Rank};
use crate::protocol::{GamePhaseKind, TurnStatus};
use crate::room::PlayerId;
use crate::server::Game;
use crate::MAX_PLAYER_COUNT;

verus! {

/// Why a game action was refused. The connection stays open; the player
/// may retry.
#[derive(Debug, Clone, Copy, PartialEq, Eq, Structural)]
pub enum GameError {
    /// The named rank is not in the acting player's ability pile.
    AbilityNotHeld(Rank),
    /// An attack needs a selected ability first.
    AbilityNotSelected,
    /// The monster outranks the selected ability.
    MonsterTooStrong { monster: Rank, ability: Rank },
    /// The attacked monster is not in the visible row.
    MonsterNotPresent(Card),
}

/// The shared state of one running match.
#[derive(Debug)]
pub struct GameSession {
    pub players: Vec<PlayerId>,
    pub active: usize,
    pub deck: Vec<Card>,
    pub monsters: Vec<Option<Card>>,
    pub phase: GamePhaseKind,
}

impl GameSession {
    /// A session the engine can work with: a full ring of distinct
    /// players, a seat index inside it, and a two-slot monster row.
    pub open spec fn wf(self) -> bool {
        &&& self.players@.len() == MAX_PLAYER_COUNT
        &&& (self.active as int) < self.players@.len()
        &&& forall|i: int, j: int|
            0 <= i < j < self.players@.len() ==> self.players@[i] != self.players@[j]
        &&& self.monsters@.len() == 2
    }

    /// The player whose turn it is.
    pub open spec fn spec_active_player(self) -> PlayerId {
        self.players@[self.active as int]
    }

    /// Start a match: the first player of the ring opens with a
    /// DropAbility step, and the first two cards of the deck form the
    /// visible monster row.
    pub fn new(players: Vec<PlayerId>, deck: Deck) -> (s: GameSession)
        requires
            players@.len() == MAX_PLAYER_COUNT,
            forall|i: int, j: int| 0 <= i < j < players@.len() ==> players@[i] != players@[j],
            deck.cards@.len() >= 2,
        ensures
            s.wf(),
            s.players == players,
            s.active == 0,
            s.phase == GamePhaseKind::DropAbility,
            s.monsters@ =~= seq![Some(deck.cards@[0]), Some(deck.cards@[1])],
            s.deck@ == deck.cards@.skip(2),
    {
        let mut cards = deck.cards;
        let c0 = cards.remove(0);
        let c1 = cards.remove(0);
        proof {
            assert(cards@ =~= deck.cards@.skip(2));
        }
        let mut monsters: Vec<Option<Card>> = Vec::new();
        monsters.push(Some(c0));
        monsters.push(Some(c1));
        GameSession { players, active: 0, deck: cards, monsters, phase: GamePhaseKind::DropAbility }
    }

    /// The player whose turn it is.
    pub fn get_active_player(&self) -> (p: PlayerId)
        requires
            self.wf(),
        ensures
            p == self.spec_active_player(),
    {
        self.players[self.active]
    }

    /// The step of the turn being played.
    pub fn get_game_phase(&self) -> (p: GamePhaseKind)
        ensures
            p == self.phase,
    {
        self.phase
    }

    /// A copy of the visible monster row.
    pub fn get_monsters(&self) -> (m: [Option<Card>; 2])
        requires
            self.wf(),
        ensures
            m@ =~= self.monsters@,
    {
        let m = [self.monsters[0], self.monsters[1]];
        proof {
            assert(m@ =~= self.monsters@);
        }
        m
    }

    /// Pass the turn to the next player around the ring, leaving
    /// everything else as it is, and answer whose turn it now is.
    pub fn switch_to_next_player(&mut self) -> (p: PlayerId)
        requires
            old(self).wf(),
        ensures
            final(self).wf(),
            final(self).active as int == (old(self).active as int + 1) % (
            old(self).players@.len() as int),
            final(self).players == old(self).players,
            final(self).deck == old(self).deck,
            final(self).monsters == old(self).monsters,
            final(self).phase == old(self).phase,
            p == final(self).spec_active_player(),
    {
        self.active = (self.active + 1) % self.players.len();
        self.players[self.active]
    }

    /// Remove one monster from the visible row, the first slot showing
    /// this card; refused when the card is not on show.
    pub fn drop_monster(&mut self, card: Card) -> (r: Result<(), GameError>)
        requires
            old(self).wf(),
        ensures
            final(self).wf(),
            final(self).players == old(self).players,
            final(self).active == old(self).active,
            final(self).deck == old(self).deck,
            final(self).phase == old(self).phase,
            match r {
                Ok(()) => {
                    &&& old(self).monsters@.contains(Some(card))
                    &&& exists|k: int|
                        {
                            &&& 0 <= k < 2
                            &&& old(self).monsters@[k] == Some(card)
                            &&& (forall|m: int| 0 <= m < k ==> old(self).monsters@[m] != Some(card))
                            &&& final(self).monsters@ == old(self).monsters@.update(
                                k,
                                None::<Card>,
                            )
                        }
                },
                Err(e) => {
                    &&& e == GameError::MonsterNotPresent(card)
                    &&& !old(self).monsters@.contains(Some(card))
                    &&& final(self).monsters == old(self).monsters
                },
            },
    {
        let mut k: usize = 0;
        while k < self.monsters.len()
            invariant
                old(self).wf(),
                *self == *old(self),
                k <= self.monsters@.len(),
                forall|m: int| 0 <= m < k ==> old(self).monsters@[m] != Some(card),
            decreases self.monsters@.len() - k,
        {
            let hit = match &self.monsters[k] {
                Some(c) => *c == card,
                None => false,
            };
            if hit {
                self.monsters[k] = None;
                proof {
                    assert(old(self).monsters@.contains(Some(card)));
                }
                return Ok(());
            }
            k = k + 1;
        }
        proof {
            assert forall|m: int|
                0 <= m < old(self).monsters@.len() implies old(self).monsters@[m] != Some(
                card,
            ) by {}
            assert(!old(self).monsters@.contains(Some(card)));
        }
        Err(GameError::MonsterNotPresent(card))
    }

    /// Put the next monster round on show: the old row is discarded and
    /// the first cards of the draw pile take its place, as far as the pile
    /// lasts.
    pub fn next_monsters(&mut self)
        requires
            old(self).wf(),
        ensures
            final(self).wf(),
            final(self).players == old(self).players,
            final(self).active == old(self).active,
            final(self).phase == old(self).phase,
            ({
                let d = old(self).deck@;
                let drawn = if d.len() < 2 {
                    d.len() as int
                } else {
                    2
                };
                &&& final(self).deck@ == d.skip(drawn)
                &&& final(self).monsters@.len() == 2
                &&& forall|k: int|
                    0 <= k < 2 ==> final(self).monsters@[k] == (if k < drawn {
                        Some(d[k])
                    } else {
                        None::<Card>
                    })
            }),
    {
        let first = if self.deck.len() > 0 {
            Some(self.deck.remove(0))
        } else {
            None
        };
        let second = if self.deck.len() > 0 {
            Some(self.deck.remove(0))
        } else {
            None
        };
        proof {
            let d = old(self).deck@;
            if d.len() >= 2 {
                assert(self.deck@ =~= d.skip(2));
            } else if d.len() == 1 {
                assert(self.deck@ =~= d.skip(1));
            } else {
                assert(self.deck@ =~= d.skip(0));
            }
        }
        self.monsters[0] = first;
        self.monsters[1] = second;
    }
}

/// A turn announcement for one player: `Ready` with the phase to play for
/// the player whose turn it is, `Wait` for everyone else.
pub fn turn_status_for(s: &GameSession, addr: PlayerId) -> (t: TurnStatus)
    requires
        s.wf(),
    ensures
        t == (if s.spec_active_player() == addr {
            TurnStatus::Ready(s.phase)
        } else {
            TurnStatus::Wait
        }),
{
    if s.get_active_player() == addr {
        TurnStatus::Ready(s.get_game_phase())
    } else {
        TurnStatus::Wait
    }
}

/// How discarding an ability relates the acting player's state and the
/// session before the call to those after it.
pub open spec fn spec_drop_ability_rel(
    g0: Game,
    s0: GameSession,
    g1: Game,
    s1: GameSession,
    rank: Rank,
    r: Result<PlayerId, GameError>,
) -> bool {
    &&& g1.name == g0.name
    &&& g1.role == g0.role
    &&& match r {
        Ok(p) => {
            &&& g0.abilities.ranks@.contains(rank)
            &&& spec_removed_first(g0.abilities.ranks@, g1.abilities.ranks@, rank)
            &&& g1.abilities.suit == g0.abilities.suit
            &&& g1.selected_ability == g0.selected_ability
            &&& s1.phase == GamePhaseKind::SelectAbility
            &&& s1.active as int == (s0.active as int + 1) % (s0.players@.len() as int)
            &&& s1.players == s0.players
            &&& s1.deck == s0.deck
            &&& s1.monsters == s0.monsters
            &&& p == s1.spec_active_player()
        },
        Err(e) => {
            &&& e == GameError::AbilityNotHeld(rank)
            &&& !g0.abilities.ranks@.contains(rank)
            &&& g1 == g0
            &&& s1 == s0
        },
    }
}

/// The acting player discards one ability: it leaves the pile, the turn
/// moves to SelectAbility for the next player. Refused, with nothing
/// changed, when the rank is not in the pile.
pub fn drop_ability(g: &mut Game, s: &mut GameSession, rank: Rank) -> (r: Result<
    PlayerId,
    GameError,
>)
    requires
        old(s).wf(),
    ensures
        final(s).wf(),
        spec_drop_ability_rel(*old(g), *old(s), *final(g), *final(s), rank, r),
{
    if !g.abilities.drop_item(rank) {
        return Err(GameError::AbilityNotHeld(rank));
    }
    s.phase = GamePhaseKind::SelectAbility;
    let p = s.switch_to_next_player();
    Ok(p)
}

/// How selecting an ability relates the acting player's state and the
/// session before the call to those after it.
pub open spec fn spec_select_ability_rel(
    g0: Game,
    s0: GameSession,
    g1: Game,
    s1: GameSession,
    rank: Rank,
    r: Result<PlayerId, GameError>,
) -> bool {
    &&& g1.name == g0.name
    &&& g1.role == g0.role
    &&& match r {
        Ok(p) => {
            &&& g0.abilities.ranks@.contains(rank)
            &&& g1.abilities == g0.abilities
            &&& g1.selected_ability == Some(rank)
            &&& s1.phase == GamePhaseKind::AttachMonster
            &&& s1.active as int == (s0.active as int + 1) % (s0.players@.len() as int)
            &&& s1.players == s0.players
            &&& s1.deck == s0.deck
            &&& s1.monsters == s0.monsters
            &&& p == s1.spec_active_player()
        },
        Err(e) => {
            &&& e == GameError::AbilityNotHeld(rank)
            &&& !g0.abilities.ranks@.contains(rank)
            &&& g1 == g0
            &&& s1 == s0
        },
    }
}

/// The acting player chooses the ability to fight with: the selection is
/// recorded, the turn moves to AttachMonster for the next player. Refused,
/// with nothing changed, when the rank is not in the pile.
pub fn select_ability(g: &mut Game, s: &mut GameSession, rank: Rank) -> (r: Result<
    PlayerId,
    GameError,
>)
    requires
        old(s).wf(),
    ensures
        final(s).wf(),
        spec_select_ability_rel(*old(g), *old(s), *final(g), *final(s), rank, r),
{
    if !g.abilities.holds(rank) {
        return Err(GameError::AbilityNotHeld(rank));
    }
    g.selected_ability = Some(rank);
    s.phase = GamePhaseKind::AttachMonster;
    let p = s.switch_to_next_player();
    Ok(p)
}

/// How attacking a monster relates the acting player's state and the
/// session before the call to those after it.
pub open spec fn spec_attack_rel(
    g0: Game,
    s0: GameSession,
    g1: Game,
    s1: GameSession,
    monster: Card,
    r: Result<PlayerId, GameError>,
) -> bool {
    &&& g1.name == g0.name
    &&& g1.role == g0.role
    &&& match r {
        Ok(p) => {
            &&& g0.selected_ability matches Some(sel)
            &&& monster.rank.spec_power() <= sel.spec_power()
            &&& s0.monsters@.contains(Some(monster))
            &&& g1 == g0
            &&& exists|k: int|
                {
                    &&& 0 <= k < 2
                    &&& s0.monsters@[k] == Some(monster)
                    &&& (forall|m: int| 0 <= m < k ==> s0.monsters@[m] != Some(monster))
                    &&& s1.monsters@ == s0.monsters@.update(k, None::<Card>)
                }
            &&& s1.phase == GamePhaseKind::Defend
            &&& s1.active as int == (s0.active as int + 1) % (s0.players@.len() as int)
            &&& s1.players == s0.players
            &&& s1.deck == s0.deck
            &&& p == s1.spec_active_player()
        },
        Err(e) => {
            &&& g1 == g0
            &&& s1 == s0
            &&& match e {
                GameError::AbilityNotSelected => g0.selected_ability is None,
                GameError::MonsterTooStrong { monster: m, ability: a } => {
                    &&& g0.selected_ability == Some(a)
                    &&& m == monster.rank
                    &&& m.spec_power() > a.spec_power()
                },
                GameError::MonsterNotPresent(c) => {
                    &&& c == monster
                    &&& g0.selected_ability matches Some(sel)
                    &&& monster.rank.spec_power() <= sel.spec_power()
                    &&& !s0.monsters@.contains(Some(monster))
                },
                _ => false,
            }
        },
    }
}

/// The acting player attacks a visible monster with the selected ability:
/// the monster leaves the row, the round moves to Defend for the next
/// player. Refused, with no state touched, when no ability is selected,
/// when the monster outranks the selected ability, or when it is not on
/// show.
pub fn attack(g: &mut Game, s: &mut GameSession, monster: Card) -> (r: Result<PlayerId, GameError>)
    requires
        old(s).wf(),
    ensures
        final(s).wf(),
        spec_attack_rel(*old(g), *old(s), *final(g), *final(s), monster, r),
{
    let sel = match g.selected_ability {
        Some(sel) => sel,
        None => {
            return Err(GameError::AbilityNotSelected);
        },
    };
    if monster.rank.power() > sel.power() {
        return Err(GameError::MonsterTooStrong { monster: monster.rank, ability: sel });
    }
    match s.drop_monster(monster) {
        Ok(()) => {},
        Err(e) => {
            return Err(e);
        },
    }
    s.phase = GamePhaseKind::Defend;
    let p = s.switch_to_next_player();
    Ok(p)
}

/// How continuing after a round relates the acting player's state and the
/// session before the call to those after it.
pub open spec fn spec_continue_rel(
    g0: Game,
    s0: GameSession,
    g1: Game,
    s1: GameSession,
    p: PlayerId,
) -> bool {
    &&& g1.name == g0.name
    &&& g1.role == g0.role
    &&& g1.selected_ability == g0.selected_ability
    &&& g1.abilities.suit == g0.abilities.suit
    &&& g1.abilities.ranks@ == g0.abilities.ranks@.skip(
        if g0.abilities.ranks@.len() < 3 {
            g0.abilities.ranks@.len() as int
        } else {
            3
        },
    )
    &&& ({
        let d = s0.deck@;
        let drawn = if d.len() < 2 {
            d.len() as int
        } else {
            2
        };
        &&& s1.deck@ == d.skip(drawn)
        &&& forall|k: int|
            0 <= k < 2 ==> s1.monsters@[k] == (if k < drawn {
                Some(d[k])
            } else {
                None::<Card>
            })
    })
    &&& s1.phase == GamePhaseKind::DropAbility
    &&& s1.active as int == (s0.active as int + 1) % (s0.players@.len() as int)
    &&& s1.players == s0.players
    &&& p == s1.spec_active_player()
}

/// Play continues after a round: the acting player's spent hand is
/// discarded and the next three abilities become active, a fresh monster
/// row is drawn, and the next player opens a new turn with DropAbility.
pub fn continue_game(g: &mut Game, s: &mut GameSession) -> (p: PlayerId)
    requires
        old(s).wf(),
    ensures
        final(s).wf(),
        spec_continue_rel(*old(g), *old(s), *final(g), *final(s), p),
{
    g.abilities.next_actives();
    s.next_monsters();
    s.phase = GamePhaseKind::DropAbility;
    s.switch_to_next_player()
}

} // verus!
