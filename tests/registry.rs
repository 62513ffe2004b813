use faction_registry::{all_factions, faction_names, FactionId, FactionNames, FactionType};
use faction_registry::{Caylion, Eniet, Faderan, Imdril, Kit, Kjas, Unity, Yengii, Zeth};

const ALL: [FactionId; 9] = [Kit, Caylion, Kjas, Faderan, Imdril, Eniet, Unity, Yengii, Zeth];

fn assert_names(n: FactionNames, common: &str, base: &str, expansion: &str, shorthand: &str) {
    assert_eq!(n.common, common);
    assert_eq!(n.base, base);
    assert_eq!(n.expansion, expansion);
    assert_eq!(n.shorthand, shorthand);
}

#[test]
fn kit_names() {
    assert_names(
        faction_names(Kit),
        "Kt'zr'kt'rtl",
        "Kt'zr'kt'rtl Adhocracy",
        "Kt'zr'kt'rtl Technophiles",
        "Kit",
    );
}

#[test]
fn caylion_names() {
    assert_names(
        faction_names(Caylion),
        "Caylion",
        "Caylion Plutocracy",
        "Caylion Collaborative",
        "Caylion",
    );
}

#[test]
fn faderan_names() {
    assert_names(
        faction_names(Faderan),
        "Faderan",
        "Faderan Conclave",
        "Society of Falling Light",
        "Faderan",
    );
}

#[test]
fn unity_names() {
    assert_names(faction_names(Unity), "Unity", "Unity", "Deep Unity", "Unity");
}

#[test]
fn yengii_names() {
    assert_names(faction_names(Yengii), "Yengii", "Yengii Society", "Yengii Jii", "Yengii");
}

#[test]
fn remaining_faction_names() {
    assert_names(
        faction_names(Kjas),
        "Kjasjavikalimm",
        "Kjasjavikalimm Directorate",
        "Kjasjavikalimm Independent Nations",
        "Kjas",
    );
    assert_names(faction_names(Imdril), "Im'dril", "Im'dril Nomads", "Grand Fleet", "Im'dril");
    assert_names(faction_names(Eniet), "Eni Et", "Eni Et Ascendancy", "Eni Et Engineers", "Eni Et");
    assert_names(faction_names(Zeth), "Zeth", "Zeth Anocracy", "Charity Syndicate", "Zeth");
}

#[test]
fn every_name_is_non_empty() {
    for f in ALL {
        let n = faction_names(f);
        assert!(!n.common.is_empty());
        assert!(!n.base.is_empty());
        assert!(!n.expansion.is_empty());
        assert!(!n.shorthand.is_empty());
    }
}

#[test]
fn full_name_selects_edition() {
    for f in ALL {
        let n = faction_names(f);
        assert_eq!(n.full_name(FactionType::Base), n.base);
        assert_eq!(n.full_name(FactionType::Expansion), n.expansion);
    }
    let faderan = faction_names(Faderan);
    assert_eq!(faderan.full_name(FactionType::Base), "Faderan Conclave");
    assert_eq!(faderan.full_name(FactionType::Expansion), "Society of Falling Light");
}

#[test]
fn table_has_one_entry_per_faction() {
    let table = all_factions();
    assert_eq!(table.len(), 9);
    let mut seen = [false; 9];
    for f in ALL {
        let i = f.index();
        assert!(i < 9);
        assert!(!seen[i]);
        seen[i] = true;
        assert_eq!(table[i].common, faction_names(f).common);
        assert_eq!(table[i].base, faction_names(f).base);
    }
    assert!(seen.iter().all(|s| *s));
    let commons: Vec<&str> = table.iter().map(|n| n.common).collect();
    for (i, c) in commons.iter().enumerate() {
        assert!(!commons[i + 1..].contains(c));
    }
}

#[test]
fn declaration_order_positions() {
    assert_eq!(Kit.index(), 0);
    assert_eq!(Unity.index(), 6);
    assert_eq!(Zeth.index(), 8);
}

#[test]
fn repeated_lookups_agree() {
    for f in ALL {
        let a = faction_names(f);
        let b = faction_names(f);
        assert_eq!(a.common, b.common);
        assert_eq!(a.base, b.base);
        assert_eq!(a.expansion, b.expansion);
        assert_eq!(a.shorthand, b.shorthand);
    }
}

#[test]
fn shorthand_defaults_to_common() {
    for f in [Caylion, Faderan, Imdril, Eniet, Unity, Yengii, Zeth] {
        let n = faction_names(f);
        assert_eq!(n.shorthand, n.common);
    }
    assert_ne!(faction_names(Kit).shorthand, faction_names(Kit).common);
    assert_ne!(faction_names(Kjas).shorthand, faction_names(Kjas).common);
}
