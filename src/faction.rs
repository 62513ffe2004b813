use vstd::prelude::*;

verus! {

/// How many factions there are.
pub const FACTION_COUNT: usize = 9;

/// The playable factions.
#[derive(Debug, Clone, Copy, PartialEq, Eq, Hash, Structural)]
pub enum FactionId {
    Kit,
    Caylion,
    Kjas,
    Faderan,
    Imdril,
    Eniet,
    Unity,
    Yengii,
    Zeth,
}

/// The edition of the game whose full faction names are wanted.
#[derive(Debug, Clone, Copy, PartialEq, Eq, Hash, Structural)]
pub enum FactionType {
    Base,
    Expansion,
}

/// The rounds of a game.
pub enum RoundId {
    One,
    Two,
    Three,
    Four,
    Five,
    Six,
}

/// The position of a faction in declaration order.
pub open spec fn faction_index(f: FactionId) -> nat {
    match f {
        FactionId::Kit => 0,
        FactionId::Caylion => 1,
        FactionId::Kjas => 2,
        FactionId::Faderan => 3,
        FactionId::Imdril => 4,
        FactionId::Eniet => 5,
        FactionId::Unity => 6,
        FactionId::Yengii => 7,
        FactionId::Zeth => 8,
    }
}

/// The faction at a position; positions past the last one map to the last faction.
pub open spec fn faction_at(i: nat) -> FactionId {
    if i == 0 {
        FactionId::Kit
    } else if i == 1 {
        FactionId::Caylion
    } else if i == 2 {
        FactionId::Kjas
    } else if i == 3 {
        FactionId::Faderan
    } else if i == 4 {
        FactionId::Imdril
    } else if i == 5 {
        FactionId::Eniet
    } else if i == 6 {
        FactionId::Unity
    } else if i == 7 {
        FactionId::Yengii
    } else {
        FactionId::Zeth
    }
}

/// Positions and factions correspond one to one: every faction has a position
/// below `FACTION_COUNT`, no two factions share one, and every such position
/// belongs to a faction.
pub proof fn lemma_faction_index_bijective()
    ensures
        forall|f: FactionId| #[trigger] faction_index(f) < FACTION_COUNT,
        forall|f: FactionId| #[trigger] faction_at(faction_index(f)) == f,
        forall|f: FactionId, g: FactionId|
            #[trigger] faction_index(f) == #[trigger] faction_index(g) ==> f == g,
        forall|i: nat| i < FACTION_COUNT ==> #[trigger] faction_index(faction_at(i)) == i,
{
    assert forall|f: FactionId, g: FactionId|
        #[trigger] faction_index(f) == #[trigger] faction_index(g) implies f == g by {
        assert(faction_at(faction_index(f)) == f);
        assert(faction_at(faction_index(g)) == g);
    }
}

impl FactionId {
    /// The faction's position in declaration order.
    pub fn index(self) -> (r: usize)
        ensures
            r == faction_index(self),
            r < FACTION_COUNT,
    {
        match self {
            FactionId::Kit => 0,
            FactionId::Caylion => 1,
            FactionId::Kjas => 2,
            FactionId::Faderan => 3,
            FactionId::Imdril => 4,
            FactionId::Eniet => 5,
            FactionId::Unity => 6,
            FactionId::Yengii => 7,
            FactionId::Zeth => 8,
        }
    }
}

} // verus!
