use vstd::prelude::*;

use crate::faction::{faction_at, faction_index, lemma_faction_index_bijective, FactionId, FactionType, FACTION_COUNT};

verus! {

/// The four names of a faction, as character sequences.
pub struct NameRecord {
    pub common: Seq<char>,
    pub base: Seq<char>,
    pub expansion: Seq<char>,
    pub shorthand: Seq<char>,
}

impl NameRecord {
    /// The full name under the given edition.
    pub open spec fn full(self, kind: FactionType) -> Seq<char> {
        match kind {
            FactionType::Base => self.base,
            FactionType::Expansion => self.expansion,
        }
    }

    /// All four names hold at least one character.
    pub open spec fn all_non_empty(self) -> bool {
        &&& self.common.len() > 0
        &&& self.base.len() > 0
        &&& self.expansion.len() > 0
        &&& self.shorthand.len() > 0
    }
}

/// How a full name is formed from the common name.
pub enum FullNameRule {
    /// The common name as it stands.
    SameAsCommon,
    /// The common name, one space, then this suffix.
    Suffixed(Seq<char>),
    /// This name, unrelated to the common name.
    Verbatim(Seq<char>),
}

/// The terse form in which a faction's names are written down.
pub struct NamingEntry {
    pub common: Seq<char>,
    pub base: FullNameRule,
    pub expansion: FullNameRule,
    /// A shorthand that differs from the common name, if there is one.
    pub shorthand: Option<Seq<char>>,
}

/// The full name that `rule` gives for the common name `common`.
pub open spec fn apply_rule(common: Seq<char>, rule: FullNameRule) -> Seq<char> {
    match rule {
        FullNameRule::SameAsCommon => common,
        FullNameRule::Suffixed(suffix) => common + seq![' '] + suffix,
        FullNameRule::Verbatim(name) => name,
    }
}

/// The four names that a terse entry stands for.
pub open spec fn expand_entry(e: NamingEntry) -> NameRecord {
    NameRecord {
        common: e.common,
        base: apply_rule(e.common, e.base),
        expansion: apply_rule(e.common, e.expansion),
        shorthand: match e.shorthand {
            Some(s) => s,
            None => e.common,
        },
    }
}

/// The terse entry of each faction.
pub open spec fn naming_entry(f: FactionId) -> NamingEntry {
    match f {
        FactionId::Kit => NamingEntry {
            common: "Kt'zr'kt'rtl"@,
            base: FullNameRule::Suffixed("Adhocracy"@),
            expansion: FullNameRule::Suffixed("Technophiles"@),
            shorthand: Some("Kit"@),
        },
        FactionId::Caylion => NamingEntry {
            common: "Caylion"@,
            base: FullNameRule::Suffixed("Plutocracy"@),
            expansion: FullNameRule::Suffixed("Collaborative"@),
            shorthand: None,
        },
        FactionId::Kjas => NamingEntry {
            common: "Kjasjavikalimm"@,
            base: FullNameRule::Suffixed("Directorate"@),
            expansion: FullNameRule::Suffixed("Independent Nations"@),
            shorthand: Some("Kjas"@),
        },
        FactionId::Faderan => NamingEntry {
            common: "Faderan"@,
            base: FullNameRule::Suffixed("Conclave"@),
            expansion: FullNameRule::Verbatim("Society of Falling Light"@),
            shorthand: None,
        },
        FactionId::Imdril => NamingEntry {
            common: "Im'dril"@,
            base: FullNameRule::Suffixed("Nomads"@),
            expansion: FullNameRule::Verbatim("Grand Fleet"@),
            shorthand: None,
        },
        FactionId::Eniet => NamingEntry {
            common: "Eni Et"@,
            base: FullNameRule::Suffixed("Ascendancy"@),
            expansion: FullNameRule::Suffixed("Engineers"@),
            shorthand: None,
        },
        FactionId::Unity => NamingEntry {
            common: "Unity"@,
            base: FullNameRule::SameAsCommon,
            expansion: FullNameRule::Verbatim("Deep Unity"@),
            shorthand: None,
        },
        FactionId::Yengii => NamingEntry {
            common: "Yengii"@,
            base: FullNameRule::Suffixed("Society"@),
            expansion: FullNameRule::Suffixed("Jii"@),
            shorthand: None,
        },
        FactionId::Zeth => NamingEntry {
            common: "Zeth"@,
            base: FullNameRule::Suffixed("Anocracy"@),
            expansion: FullNameRule::Verbatim("Charity Syndicate"@),
            shorthand: None,
        },
    }
}

/// The names that the registry holds for a faction.
pub open spec fn registry_names(f: FactionId) -> NameRecord {
    expand_entry(naming_entry(f))
}

/// Every name that the registry holds for a faction has at least one character.
pub proof fn lemma_registry_names_non_empty(f: FactionId)
    ensures
        registry_names(f).all_non_empty(),
{
    reveal_strlit("Kt'zr'kt'rtl");
    reveal_strlit("Kit");
    reveal_strlit("Caylion");
    reveal_strlit("Kjasjavikalimm");
    reveal_strlit("Kjas");
    reveal_strlit("Faderan");
    reveal_strlit("Society of Falling Light");
    reveal_strlit("Im'dril");
    reveal_strlit("Grand Fleet");
    reveal_strlit("Eni Et");
    reveal_strlit("Unity");
    reveal_strlit("Deep Unity");
    reveal_strlit("Yengii");
    reveal_strlit("Zeth");
    reveal_strlit("Charity Syndicate");
}

/// The various ways that a faction can be referred to.
#[derive(Debug, Clone, Copy)]
pub struct FactionNames {
    /// The name of the faction that is common to both the base game and
    /// expansion.
    pub common: &'static str,
    /// The full name of the base game version of the faction.
    pub base: &'static str,
    /// The full name of the Bifurcation version of the faction.
    pub expansion: &'static str,
    /// The quick shorthand name for the faction.
    pub shorthand: &'static str,
}

impl View for FactionNames {
    type V = NameRecord;

    open spec fn view(&self) -> NameRecord {
        NameRecord {
            common: self.common@,
            base: self.base@,
            expansion: self.expansion@,
            shorthand: self.shorthand@,
        }
    }
}

impl FactionNames {
    /// The full name under the given edition.
    pub fn full_name(&self, kind: FactionType) -> (r: &'static str)
        ensures
            kind == FactionType::Base ==> r == self.base,
            kind == FactionType::Expansion ==> r == self.expansion,
            r@ == self@.full(kind),
    {
        match kind {
            FactionType::Base => self.base,
            FactionType::Expansion => self.expansion,
        }
    }
}

/// `t` holds one record per position, each the registry's names of the faction
/// at that position.
pub open spec fn is_registry_table(t: Seq<FactionNames>) -> bool {
    &&& t.len() == FACTION_COUNT
    &&& forall|i: int| 0 <= i < FACTION_COUNT ==> (#[trigger] t[i])@ == registry_names(faction_at(i as nat))
}

/// Every faction's names, each at the faction's position in declaration order.
pub fn all_factions() -> (r: [FactionNames; 9])
    ensures
        is_registry_table(r@),
{
    let r: [FactionNames; 9] = [
        FactionNames {
            common: "Kt'zr'kt'rtl",
            base: "Kt'zr'kt'rtl Adhocracy",
            expansion: "Kt'zr'kt'rtl Technophiles",
            shorthand: "Kit",
        },
        FactionNames {
            common: "Caylion",
            base: "Caylion Plutocracy",
            expansion: "Caylion Collaborative",
            shorthand: "Caylion",
        },
        FactionNames {
            common: "Kjasjavikalimm",
            base: "Kjasjavikalimm Directorate",
            expansion: "Kjasjavikalimm Independent Nations",
            shorthand: "Kjas",
        },
        FactionNames {
            common: "Faderan",
            base: "Faderan Conclave",
            expansion: "Society of Falling Light",
            shorthand: "Faderan",
        },
        FactionNames {
            common: "Im'dril",
            base: "Im'dril Nomads",
            expansion: "Grand Fleet",
            shorthand: "Im'dril",
        },
        FactionNames {
            common: "Eni Et",
            base: "Eni Et Ascendancy",
            expansion: "Eni Et Engineers",
            shorthand: "Eni Et",
        },
        FactionNames {
            common: "Unity",
            base: "Unity",
            expansion: "Deep Unity",
            shorthand: "Unity",
        },
        FactionNames {
            common: "Yengii",
            base: "Yengii Society",
            expansion: "Yengii Jii",
            shorthand: "Yengii",
        },
        FactionNames {
            common: "Zeth",
            base: "Zeth Anocracy",
            expansion: "Charity Syndicate",
            shorthand: "Zeth",
        },
    ];
    proof {
        reveal_strlit("Kt'zr'kt'rtl");
        reveal_strlit("Kt'zr'kt'rtl Adhocracy");
        reveal_strlit("Kt'zr'kt'rtl Technophiles");
        reveal_strlit("Kit");
        reveal_strlit("Adhocracy");
        reveal_strlit("Technophiles");
        reveal_strlit("Caylion");
        reveal_strlit("Caylion Plutocracy");
        reveal_strlit("Caylion Collaborative");
        reveal_strlit("Plutocracy");
        reveal_strlit("Collaborative");
        reveal_strlit("Kjasjavikalimm");
        reveal_strlit("Kjasjavikalimm Directorate");
        reveal_strlit("Kjasjavikalimm Independent Nations");
        reveal_strlit("Kjas");
        reveal_strlit("Directorate");
        reveal_strlit("Independent Nations");
        reveal_strlit("Faderan");
        reveal_strlit("Faderan Conclave");
        reveal_strlit("Society of Falling Light");
        reveal_strlit("Conclave");
        reveal_strlit("Im'dril");
        reveal_strlit("Im'dril Nomads");
        reveal_strlit("Grand Fleet");
        reveal_strlit("Nomads");
        reveal_strlit("Eni Et");
        reveal_strlit("Eni Et Ascendancy");
        reveal_strlit("Eni Et Engineers");
        reveal_strlit("Ascendancy");
        reveal_strlit("Engineers");
        reveal_strlit("Unity");
        reveal_strlit("Deep Unity");
        reveal_strlit("Yengii");
        reveal_strlit("Yengii Society");
        reveal_strlit("Yengii Jii");
        reveal_strlit("Society");
        reveal_strlit("Jii");
        reveal_strlit("Zeth");
        reveal_strlit("Zeth Anocracy");
        reveal_strlit("Charity Syndicate");
        reveal_strlit("Anocracy");
    }
    assert forall|i: int| 0 <= i < FACTION_COUNT implies (#[trigger] r@[i])@ == registry_names(faction_at(i as nat)) by {
        let want = registry_names(faction_at(i as nat));
        assert(r@[i].common@ =~= want.common);
        assert(r@[i].base@ =~= want.base);
        assert(r@[i].expansion@ =~= want.expansion);
        assert(r@[i].shorthand@ =~= want.shorthand);
    }
    r
}

/// The names of a faction.
pub fn faction_names(faction: FactionId) -> (r: FactionNames)
    ensures
        r@ == registry_names(faction),
        r@.all_non_empty(),
{
    let table = all_factions();
    let i = faction.index();
    proof {
        lemma_registry_names_non_empty(faction);
    }
    table[i]
}

/// A registry table has exactly one entry for each faction: the entry at the
/// faction's position holds that faction's names, no two factions share a
/// position, and no position is left without a faction.
pub proof fn lemma_registry_table_exhaustive(t: Seq<FactionNames>)
    requires
        is_registry_table(t),
    ensures
        forall|f: FactionId| #[trigger] t[faction_index(f) as int]@ == registry_names(f),
        forall|f: FactionId, g: FactionId|
            #[trigger] faction_index(f) == #[trigger] faction_index(g) ==> f == g,
        forall|i: int| 0 <= i < t.len() ==> faction_index(#[trigger] faction_at(i as nat)) == i,
{
    lemma_faction_index_bijective();
    assert forall|f: FactionId| #[trigger] t[faction_index(f) as int]@ == registry_names(f) by {
        assert(faction_index(f) < FACTION_COUNT);
        assert(faction_at(faction_index(f)) == f);
    }
}

/// Looking up the same faction twice gives the same names both times.
pub proof fn lemma_faction_names_repeatable(f: FactionId, a: FactionNames, b: FactionNames)
    requires
        a@ == registry_names(f),
        b@ == registry_names(f),
    ensures
        a@ == b@,
        a.common@ == b.common@,
        a.base@ == b.base@,
        a.expansion@ == b.expansion@,
        a.shorthand@ == b.shorthand@,
{
}

} // verus!
