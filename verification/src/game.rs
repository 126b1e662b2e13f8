//! Cards, ranks, suits, roles and the two deck shapes of the game: the shared
//! monster deck and a player's ability deck.

use rand::seq::SliceRandom;
use vstd::prelude::*;

verus! {

/// Card rank, from Two (weakest) up to King. Aces do not exist in this game.
#[derive(Debug, Copy, Clone, PartialEq, Eq, Structural)]
pub enum Rank {
    Two,
    Three,
    Four,
    Five,
    Six,
    Seven,
    Eight,
    Nine,
    Ten,
    Jack,
    Queen,
    King,
}

/// How many distinct ranks exist.
pub const RANK_COUNT: usize = 12;

impl Rank {
    /// Numeric strength of a rank, used to compare an attacking ability
    /// against a monster. Two is 1, King is 12.
    pub fn power(self) -> (p: u8)
        ensures
            p == self.spec_power(),
    {
        match self {
            Rank::Two => 1,
            Rank::Three => 2,
            Rank::Four => 3,
            Rank::Five => 4,
            Rank::Six => 5,
            Rank::Seven => 6,
            Rank::Eight => 7,
            Rank::Nine => 8,
            Rank::Ten => 9,
            Rank::Jack => 10,
            Rank::Queen => 11,
            Rank::King => 12,
        }
    }

    /// Strength of a rank as a mathematical value.
    pub open spec fn spec_power(self) -> u8 {
        match self {
            Rank::Two => 1,
            Rank::Three => 2,
            Rank::Four => 3,
            Rank::Five => 4,
            Rank::Six => 5,
            Rank::Seven => 6,
            Rank::Eight => 7,
            Rank::Nine => 8,
            Rank::Ten => 9,
            Rank::Jack => 10,
            Rank::Queen => 11,
            Rank::King => 12,
        }
    }

    /// A boss card is a court card: Jack, Queen or King.
    pub open spec fn spec_is_boss(self) -> bool {
        self == Rank::Jack || self == Rank::Queen || self == Rank::King
    }

    /// All ranks, in ascending order of strength.
    pub fn all() -> (v: Vec<Rank>)
        ensures
            v@ == Self::spec_all(),
    {
        let v: Vec<Rank> = vec![
            Rank::Two,
            Rank::Three,
            Rank::Four,
            Rank::Five,
            Rank::Six,
            Rank::Seven,
            Rank::Eight,
            Rank::Nine,
            Rank::Ten,
            Rank::Jack,
            Rank::Queen,
            Rank::King,
        ];
        proof {
            assert(v@ =~= Self::spec_all());
        }
        v
    }

    /// The sequence of all ranks, ascending.
    pub open spec fn spec_all() -> Seq<Rank> {
        seq![
            Rank::Two,
            Rank::Three,
            Rank::Four,
            Rank::Five,
            Rank::Six,
            Rank::Seven,
            Rank::Eight,
            Rank::Nine,
            Rank::Ten,
            Rank::Jack,
            Rank::Queen,
            Rank::King,
        ]
    }
}

/// Card suit. Each player role owns one suit.
#[derive(Debug, Copy, Clone, PartialEq, Eq, Structural)]
pub enum Suit {
    Hearts,
    Diamonds,
    Clubs,
    Spades,
}

/// How many distinct suits exist.
pub const SUIT_COUNT: usize = 4;

impl Suit {
    /// All suits, in their canonical order.
    pub fn all() -> (v: Vec<Suit>)
        ensures
            v@ == Self::spec_all(),
    {
        let v: Vec<Suit> = vec![Suit::Hearts, Suit::Diamonds, Suit::Clubs, Suit::Spades];
        proof {
            assert(v@ =~= Self::spec_all());
        }
        v
    }

    /// The sequence of all suits, in canonical order.
    pub open spec fn spec_all() -> Seq<Suit> {
        seq![Suit::Hearts, Suit::Diamonds, Suit::Clubs, Suit::Spades]
    }
}

/// A playing card: one rank of one suit. The monster deck holds one card of
/// every rank and suit combination.
#[derive(Debug, PartialEq, Eq, Clone, Copy, Structural)]
pub struct Card {
    pub rank: Rank,
    pub suit: Suit,
}

/// A player role. Each role fights with the ability cards of its own suit.
#[derive(Debug, Copy, Clone, PartialEq, Eq, Structural)]
pub enum Role {
    Warrior,
    Rogue,
    Paladin,
    Mage,
}

/// How many distinct roles exist.
pub const ROLE_COUNT: usize = 4;

impl Role {
    /// All roles, in the order role lists are reported to clients.
    pub fn all() -> (v: Vec<Role>)
        ensures
            v@ == Self::spec_all(),
    {
        let v: Vec<Role> = vec![Role::Warrior, Role::Rogue, Role::Paladin, Role::Mage];
        proof {
            assert(v@ =~= Self::spec_all());
        }
        v
    }

    /// The sequence of all roles, in reporting order.
    pub open spec fn spec_all() -> Seq<Role> {
        seq![Role::Warrior, Role::Rogue, Role::Paladin, Role::Mage]
    }

    /// The suit whose ability cards this role plays with.
    pub fn suit(self) -> (s: Suit)
        ensures
            s == self.spec_suit(),
    {
        match self {
            Role::Warrior => Suit::Hearts,
            Role::Rogue => Suit::Diamonds,
            Role::Paladin => Suit::Clubs,
            Role::Mage => Suit::Spades,
        }
    }

    /// The suit owned by this role, as a mathematical value.
    pub open spec fn spec_suit(self) -> Suit {
        match self {
            Role::Warrior => Suit::Hearts,
            Role::Rogue => Suit::Diamonds,
            Role::Paladin => Suit::Clubs,
            Role::Mage => Suit::Spades,
        }
    }
}

/// Relies on rand's `SliceRandom::shuffle` (a Fisher-Yates pass over the
/// slice that only swaps elements in place), seeded from `rand::thread_rng`:
/// whatever order comes out, the result is a permutation of the input.
#[verifier::external_body]
fn shuffle_vec<T>(items: &mut Vec<T>)
    ensures
        final(items)@.to_multiset() == old(items)@.to_multiset(),
        final(items)@.len() == old(items)@.len(),
{
    let mut rng = rand::thread_rng();
    items.shuffle(&mut rng);
}

/// The number of cards in a full deck: one card of every rank and suit.
pub const DECK_SIZE: usize = 48;

/// The shared monster deck: an ordered pile of at most [`DECK_SIZE`] cards.
#[derive(Debug, Clone)]
pub struct Deck {
    pub cards: Vec<Card>,
}

impl Default for Deck {
    /// The full deck in its unshuffled order: for each rank, ascending, the
    /// four suits in canonical order.
    fn default() -> (d: Deck)
        ensures
            d.cards@.len() == DECK_SIZE,
            forall|ri: int, si: int|
                0 <= ri < RANK_COUNT && 0 <= si < SUIT_COUNT ==> d.cards@[4 * ri + si] == (Card {
                    rank: Rank::spec_all()[ri],
                    suit: Suit::spec_all()[si],
                }),
    {
        let ranks = Rank::all();
        let suits = Suit::all();
        let mut cards: Vec<Card> = Vec::new();
        let mut ri: usize = 0;
        while ri < RANK_COUNT
            invariant
                ri <= RANK_COUNT,
                ranks@ == Rank::spec_all(),
                suits@ == Suit::spec_all(),
                cards@.len() == 4 * ri,
                forall|r: int, s: int|
                    0 <= r < ri && 0 <= s < SUIT_COUNT ==> cards@[4 * r + s] == (Card {
                        rank: Rank::spec_all()[r],
                        suit: Suit::spec_all()[s],
                    }),
            decreases RANK_COUNT - ri,
        {
            let mut si: usize = 0;
            while si < SUIT_COUNT
                invariant
                    ri < RANK_COUNT,
                    si <= SUIT_COUNT,
                    ranks@ == Rank::spec_all(),
                    suits@ == Suit::spec_all(),
                    cards@.len() == 4 * ri + si,
                    forall|r: int, s: int|
                        0 <= r < ri && 0 <= s < SUIT_COUNT ==> cards@[4 * r + s] == (Card {
                            rank: Rank::spec_all()[r],
                            suit: Suit::spec_all()[s],
                        }),
                    forall|s: int|
                        0 <= s < si ==> cards@[4 * ri + s] == (Card {
                            rank: Rank::spec_all()[ri as int],
                            suit: Suit::spec_all()[s],
                        }),
                decreases SUIT_COUNT - si,
            {
                cards.push(Card { rank: ranks[ri], suit: suits[si] });
                si = si + 1;
            }
            ri = ri + 1;
        }
        Deck { cards }
    }
}

impl Deck {
    /// Put the remaining cards in a fresh random order; which order comes out
    /// is not specified, but no card appears or disappears.
    pub fn shuffle(&mut self)
        ensures
            final(self).cards@.to_multiset() == old(self).cards@.to_multiset(),
            final(self).cards@.len() == old(self).cards@.len(),
    {
        shuffle_vec(&mut self.cards);
    }

    /// Build the monster deck for one match: 48 cards where every fourth card
    /// is a boss (a court card) and the cards between them are numeric.
    /// The order inside each group is random; the boss cadence is not.
    pub fn new_monster_deck() -> (d: Deck)
        ensures
            d.cards@.len() == DECK_SIZE,
            forall|p: int| 0 <= p < DECK_SIZE && p % 4 == 3 ==> d.cards@[p].rank.spec_is_boss(),
            forall|p: int|
                0 <= p < DECK_SIZE && p % 4 != 3 ==> d.cards@[p].rank.spec_power() <= 9,
    {
        let mut jacks = court_cards(Rank::Jack);
        let mut kings = court_cards(Rank::King);
        let mut queens = court_cards(Rank::Queen);
        shuffle_vec(&mut jacks);
        shuffle_vec(&mut kings);
        shuffle_vec(&mut queens);
        proof {
            lemma_perm_keeps_boss(spec_court_pile(Rank::Jack), jacks@);
            lemma_perm_keeps_boss(spec_court_pile(Rank::King), kings@);
            lemma_perm_keeps_boss(spec_court_pile(Rank::Queen), queens@);
        }
        let mut others = numeric_cards();
        let ghost numeric_before = others@;
        shuffle_vec(&mut others);
        proof {
            lemma_perm_keeps_numeric(numeric_before, others@);
        }
        let mut cards: Vec<Card> = Vec::new();
        let mut block: usize = 0;
        while block < 12
            invariant
                block <= 12,
                cards@.len() == 4 * block,
                jacks@.len() == 4,
                kings@.len() == 4,
                queens@.len() == 4,
                others@.len() == 36,
                forall|i: int| 0 <= i < 4 ==> (#[trigger] jacks@[i]).rank.spec_is_boss(),
                forall|i: int| 0 <= i < 4 ==> (#[trigger] kings@[i]).rank.spec_is_boss(),
                forall|i: int| 0 <= i < 4 ==> (#[trigger] queens@[i]).rank.spec_is_boss(),
                forall|i: int| 0 <= i < 36 ==> (#[trigger] others@[i]).rank.spec_power() <= 9,
                forall|p: int|
                    0 <= p < cards@.len() && p % 4 == 3 ==> (
                    #[trigger] cards@[p]).rank.spec_is_boss(),
                forall|p: int|
                    0 <= p < cards@.len() && p % 4 != 3 ==> (
                    #[trigger] cards@[p]).rank.spec_power() <= 9,
            decreases 12 - block,
        {
            cards.push(others[3 * block]);
            cards.push(others[3 * block + 1]);
            cards.push(others[3 * block + 2]);
            // every fourth card is a boss; the three court piles take turns
            let k = block + 1;
            let sel = k % 3;
            let idx = k % 4;
            let boss = if sel == 0 {
                jacks[idx]
            } else if sel == 1 {
                kings[idx]
            } else {
                queens[idx]
            };
            cards.push(boss);
            proof {
                assert(forall|p: int|
                    0 <= p < cards@.len() && p % 4 == 3 ==> (
                    #[trigger] cards@[p]).rank.spec_is_boss());
            }
            block = block + 1;
        }
        Deck { cards }
    }
}

/// The four court cards of one rank, one per suit, in canonical suit order.
fn court_cards(rank: Rank) -> (v: Vec<Card>)
    ensures
        v@ == spec_court_pile(rank),
{
    let v: Vec<Card> = vec![
        Card { rank, suit: Suit::Hearts },
        Card { rank, suit: Suit::Diamonds },
        Card { rank, suit: Suit::Clubs },
        Card { rank, suit: Suit::Spades },
    ];
    proof {
        assert(v@ =~= spec_court_pile(rank));
    }
    v
}

/// The unshuffled court pile of one rank.
pub open spec fn spec_court_pile(rank: Rank) -> Seq<Card> {
    Seq::new(4, |i: int| Card { rank, suit: Suit::spec_all()[i] })
}

/// The 36 numeric cards: ranks Two through Ten of every suit.
fn numeric_cards() -> (v: Vec<Card>)
    ensures
        v@.len() == 36,
        forall|i: int| 0 <= i < 36 ==> (#[trigger] v@[i]).rank.spec_power() <= 9,
{
    let ranks = Rank::all();
    let suits = Suit::all();
    let mut v: Vec<Card> = Vec::new();
    let mut ri: usize = 0;
    while ri < 9
        invariant
            ri <= 9,
            ranks@ == Rank::spec_all(),
            suits@ == Suit::spec_all(),
            v@.len() == 4 * ri,
            forall|i: int| 0 <= i < v@.len() ==> (#[trigger] v@[i]).rank.spec_power() <= 9,
        decreases 9 - ri,
    {
        let mut si: usize = 0;
        while si < SUIT_COUNT
            invariant
                ri < 9,
                si <= SUIT_COUNT,
                ranks@ == Rank::spec_all(),
                suits@ == Suit::spec_all(),
                v@.len() == 4 * ri + si,
                forall|i: int| 0 <= i < v@.len() ==> (#[trigger] v@[i]).rank.spec_power() <= 9,
            decreases SUIT_COUNT - si,
        {
            v.push(Card { rank: ranks[ri], suit: suits[si] });
            si = si + 1;
        }
        ri = ri + 1;
    }
    v
}

/// How many abilities of a hand are active (playable) at once.
pub const ACTIVE_ABILITY_COUNT: usize = 3;

/// Did `post` come from `pre` by removing the first occurrence of `x`?
pub open spec fn spec_removed_first(pre: Seq<Rank>, post: Seq<Rank>, x: Rank) -> bool {
    exists|i: int|
        0 <= i < pre.len() && pre[i] == x && (forall|j: int| 0 <= j < i ==> pre[j] != x) && post
            == pre.remove(i)
}

/// A player's ability deck: the ranks of the player's own suit, kept as an
/// ordered pile. The first [`ACTIVE_ABILITY_COUNT`] ranks are the active
/// hand; spent or discarded ranks leave the pile.
#[derive(Debug, Clone)]
pub struct AbilityDeck {
    pub suit: Suit,
    pub ranks: Vec<Rank>,
}

impl AbilityDeck {
    /// A fresh ability deck for one suit: every rank once, ascending.
    pub fn new(suit: Suit) -> (d: AbilityDeck)
        ensures
            d.suit == suit,
            d.ranks@ == Rank::spec_all(),
    {
        AbilityDeck { suit, ranks: Rank::all() }
    }

    /// Put the remaining ranks in a fresh random order; no rank appears or
    /// disappears.
    pub fn shuffle(&mut self)
        ensures
            final(self).suit == old(self).suit,
            final(self).ranks@.to_multiset() == old(self).ranks@.to_multiset(),
            final(self).ranks@.len() == old(self).ranks@.len(),
    {
        shuffle_vec(&mut self.ranks);
    }

    /// The active hand: the first three remaining ranks, padded with `None`
    /// when fewer than three are left.
    pub fn active_items(&self) -> (a: [Option<Rank>; 3])
        ensures
            forall|j: int|
                0 <= j < 3 ==> a@[j] == (if j < self.ranks@.len() {
                    Some(self.ranks@[j])
                } else {
                    None::<Rank>
                }),
    {
        let a0 = if self.ranks.len() > 0 {
            Some(self.ranks[0])
        } else {
            None
        };
        let a1 = if self.ranks.len() > 1 {
            Some(self.ranks[1])
        } else {
            None
        };
        let a2 = if self.ranks.len() > 2 {
            Some(self.ranks[2])
        } else {
            None
        };
        let a = [a0, a1, a2];
        proof {
            assert(a@.len() == 3);
            assert(a@[0] == a0 && a@[1] == a1 && a@[2] == a2);
        }
        a
    }

    /// Whether a rank is still held somewhere in the pile.
    pub fn holds(&self, rank: Rank) -> (b: bool)
        ensures
            b == self.ranks@.contains(rank),
    {
        let mut i: usize = 0;
        while i < self.ranks.len()
            invariant
                i <= self.ranks@.len(),
                forall|j: int| 0 <= j < i ==> self.ranks@[j] != rank,
            decreases self.ranks@.len() - i,
        {
            if self.ranks[i] == rank {
                return true;
            }
            i = i + 1;
        }
        false
    }

    /// Remove the first occurrence of a rank from the pile. Returns whether
    /// the rank was held; when it was not, nothing changes.
    pub fn drop_item(&mut self, rank: Rank) -> (found: bool)
        ensures
            final(self).suit == old(self).suit,
            found == old(self).ranks@.contains(rank),
            found ==> spec_removed_first(old(self).ranks@, final(self).ranks@, rank),
            !found ==> *final(self) == *old(self),
    {
        let mut i: usize = 0;
        while i < self.ranks.len()
            invariant
                i <= self.ranks@.len(),
                self == old(self),
                forall|j: int| 0 <= j < i ==> self.ranks@[j] != rank,
            decreases self.ranks@.len() - i,
        {
            if self.ranks[i] == rank {
                self.ranks.remove(i);
                return true;
            }
            i = i + 1;
        }
        false
    }

    /// Discard the active hand: the first three remaining ranks (or all of
    /// them, when fewer are left) leave the pile, activating the next ranks.
    pub fn next_actives(&mut self)
        ensures
            final(self).suit == old(self).suit,
            final(self).ranks@ == old(self).ranks@.skip(
                if old(self).ranks@.len() < 3 {
                    old(self).ranks@.len() as int
                } else {
                    3
                },
            ),
    {
        let mut dropped: usize = 0;
        while dropped < ACTIVE_ABILITY_COUNT && self.ranks.len() > 0
            invariant
                dropped <= 3,
                self.suit == old(self).suit,
                self.ranks@ == old(self).ranks@.skip(dropped as int),
                dropped <= old(self).ranks@.len(),
                dropped < 3 ==> (self.ranks@.len() == 0 <==> dropped == old(self).ranks@.len()),
            decreases 3 - dropped,
        {
            self.ranks.remove(0);
            proof {
                assert(old(self).ranks@.skip(dropped as int).remove(0) =~= old(
                    self,
                ).ranks@.skip(dropped as int + 1));
            }
            dropped = dropped + 1;
        }
        proof {
            if old(self).ranks@.len() < 3 {
                assert(dropped == old(self).ranks@.len());
            } else {
                assert(dropped == 3);
            }
        }
    }
}

/// A shuffle keeps the boss property: if every card of a pile is a court
/// card before a permutation, every card is one after it.
proof fn lemma_perm_keeps_boss(pre: Seq<Card>, post: Seq<Card>)
    requires
        post.to_multiset() == pre.to_multiset(),
        forall|i: int| 0 <= i < pre.len() ==> (#[trigger] pre[i]).rank.spec_is_boss(),
    ensures
        forall|i: int| 0 <= i < post.len() ==> (#[trigger] post[i]).rank.spec_is_boss(),
{
    broadcast use vstd::seq_lib::group_to_multiset_ensures;

    assert forall|i: int| 0 <= i < post.len() implies (
    #[trigger] post[i]).rank.spec_is_boss() by {
        let x = post[i];
        assert(post.contains(x));
        assert(pre.to_multiset().count(x) > 0);
        assert(pre.contains(x));
        let j = choose|j: int| 0 <= j < pre.len() && pre[j] == x;
        assert(pre[j].rank.spec_is_boss());
    }
}

/// A shuffle keeps the numeric property: if every card of a pile is numeric
/// before a permutation, every card is numeric after it.
proof fn lemma_perm_keeps_numeric(pre: Seq<Card>, post: Seq<Card>)
    requires
        post.to_multiset() == pre.to_multiset(),
        forall|i: int| 0 <= i < pre.len() ==> (#[trigger] pre[i]).rank.spec_power() <= 9,
    ensures
        forall|i: int| 0 <= i < post.len() ==> (#[trigger] post[i]).rank.spec_power() <= 9,
{
    broadcast use vstd::seq_lib::group_to_multiset_ensures;

    assert forall|i: int| 0 <= i < post.len() implies (
    #[trigger] post[i]).rank.spec_power() <= 9 by {
        let x = post[i];
        assert(post.contains(x));
        assert(pre.to_multiset().count(x) > 0);
        assert(pre.contains(x));
        let j = choose|j: int| 0 <= j < pre.len() && pre[j] == x;
        assert(pre[j].rank.spec_power() <= 9);
    }
}

} // verus!
