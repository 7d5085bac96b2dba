use chara_core::chara::{CharaAttrRevision, CharaBaseAttr, Relationship};
use chara_core::chara::Relationship::{ALLY, FRIENDLY, HOSTILE, NEUTRAL};

const ALL: [Relationship; 4] = [ALLY, FRIENDLY, NEUTRAL, HOSTILE];

#[test]
fn ally_defers_to_context() {
    for x in ALL {
        assert_eq!(ALLY.relative(x), x);
    }
}

#[test]
fn neutral_absorbs_everything() {
    for x in ALL {
        assert_eq!(NEUTRAL.relative(x), NEUTRAL);
    }
}

#[test]
fn hostile_against_hostile_reads_friendly() {
    assert_eq!(HOSTILE.relative(HOSTILE), FRIENDLY);
}

#[test]
fn full_relationship_table() {
    let expected = [
        [ALLY, FRIENDLY, NEUTRAL, HOSTILE],
        [FRIENDLY, FRIENDLY, NEUTRAL, HOSTILE],
        [NEUTRAL, NEUTRAL, NEUTRAL, NEUTRAL],
        [HOSTILE, HOSTILE, NEUTRAL, FRIENDLY],
    ];
    for (i, base) in ALL.iter().enumerate() {
        for (j, ctx) in ALL.iter().enumerate() {
            assert_eq!(base.relative(*ctx), expected[i][j]);
        }
    }
}

fn base() -> CharaBaseAttr {
    CharaBaseAttr {
        base_hp: 100,
        strength: 10,
        vitality: 11,
        dexterity: 12,
        intelligence: 13,
        will: 14,
        charisma: 15,
        speed: 16,
    }
}

#[test]
fn revise_adds_elementwise() {
    let d = CharaAttrRevision {
        hp: -30,
        strength: 5,
        vitality: -2,
        dexterity: 0,
        intelligence: 1,
        will: -14,
        charisma: 3,
        speed: 100,
    };
    let out = base().revise(d);
    assert_eq!(out.base_hp, 70);
    assert_eq!(out.strength, 15);
    assert_eq!(out.vitality, 9);
    assert_eq!(out.dexterity, 12);
    assert_eq!(out.intelligence, 14);
    assert_eq!(out.will, 0);
    assert_eq!(out.charisma, 18);
    assert_eq!(out.speed, 116);
}

#[test]
fn revise_commutes() {
    let a = CharaAttrRevision {
        hp: 17,
        strength: -3,
        vitality: 4,
        dexterity: -5,
        intelligence: 6,
        will: -7,
        charisma: 8,
        speed: -9,
    };
    let b = CharaAttrRevision {
        hp: -40,
        strength: 30,
        vitality: -1,
        dexterity: 2,
        intelligence: -3,
        will: 4,
        charisma: -5,
        speed: 6,
    };
    assert_eq!(base().revise(a).revise(b), base().revise(b).revise(a));
}

#[test]
fn zero_revision_is_identity() {
    let zero = CharaAttrRevision {
        hp: 0,
        strength: 0,
        vitality: 0,
        dexterity: 0,
        intelligence: 0,
        will: 0,
        charisma: 0,
        speed: 0,
    };
    assert_eq!(base().revise(zero), base());
}
