use chara_core::chara::{CharaClass, Race, Relationship};
use chara_core::creation::{
    choose_npc_chara_template, create_chara, create_npc_chara, level_weight_den, level_weight_num,
    CharaTemplate, DungeonGenParams, DungeonGenRules, DungeonKind, RaceWeight,
};
use chara_core::WAIT_TIME_NUMERATOR;

fn template(race: Race, gen_level: u32, gen_weight: u16, max_hp: i32) -> CharaTemplate {
    CharaTemplate {
        race,
        gen_level,
        gen_weight,
        max_hp,
        strength: 8,
        vitality: 9,
        dexterity: 10,
        intelligence: 11,
        will: 12,
        charisma: 13,
        speed: 14,
        view_range: 12,
    }
}

fn cave_rules(weights: Vec<RaceWeight>) -> DungeonGenRules {
    DungeonGenRules {
        entries: vec![DungeonGenParams {
            kind: DungeonKind::Cave,
            npc_race_probability: weights,
        }],
    }
}

#[test]
fn level_weight_is_one_at_native_level() {
    for floor in [1u32, 3, 7, 50] {
        assert_eq!(level_weight_num(floor, floor), level_weight_den(floor));
    }
}

#[test]
fn level_weight_is_zero_beyond_margin() {
    assert_eq!(level_weight_num(3, 8), 0);
    assert_eq!(level_weight_num(3, 9), 0);
    assert_eq!(level_weight_num(10, 15), 0);
    assert_eq!(level_weight_num(10, 1000), 0);
}

#[test]
fn level_weight_rises_then_falls() {
    let floor = 10u32;
    for l in 0..floor {
        assert!(level_weight_num(floor, l) < level_weight_num(floor, l + 1));
    }
    for l in floor..floor + 5 {
        assert!(level_weight_num(floor, l) > level_weight_num(floor, l + 1));
    }
}

#[test]
fn level_weight_exact_values() {
    // floor 4: numerators over the denominator 20
    assert_eq!(level_weight_den(4), 20);
    assert_eq!(level_weight_num(4, 0), 0);
    assert_eq!(level_weight_num(4, 2), 10);
    assert_eq!(level_weight_num(4, 4), 20);
    assert_eq!(level_weight_num(4, 5), 16); // (4 + 5 - 5) * 4
    assert_eq!(level_weight_num(4, 8), 4); // (4 + 5 - 8) * 4
    assert_eq!(level_weight_num(4, 9), 0);
}

#[test]
fn create_chara_copies_template_and_fills_hp() {
    let templates = vec![
        template(Race::Human, 1, 1, 30),
        template(Race::Slime, 2, 3, 12),
    ];
    let c = create_chara(&templates, chara_core::chara::CharaTemplateIdx(1));
    assert_eq!(c.hp, 12);
    assert_eq!(c.attr.max_hp, 12);
    assert_eq!(c.attr.strength, 8);
    assert_eq!(c.attr.speed, 14);
    assert_eq!(c.level, 1);
    assert_eq!(c.class, CharaClass::Civilian);
    assert_eq!(c.rel, Relationship::NEUTRAL);
    assert_eq!(c.wait_time, WAIT_TIME_NUMERATOR);
    assert!(c.name.is_none());
    assert!(c.trigger_talk.is_none());
    assert!(c.item_list.items.is_empty());
    assert!(c.equip.items.is_empty());
    assert!(c.status.is_empty());
    assert!(c.skills.skills.is_empty());
}

#[test]
fn single_eligible_template_is_always_chosen() {
    // Only the bug race is declared, so every draw must land on it.
    let rules = cave_rules(vec![RaceWeight {
        race: Race::Bug,
        weight: 1000,
    }]);
    let templates = vec![
        template(Race::Human, 1, 10, 20),
        template(Race::Bug, 1, 10, 5),
        template(Race::Animal, 1, 10, 15),
    ];
    for _ in 0..200 {
        let idx = choose_npc_chara_template(&rules, &templates, DungeonKind::Cave, 1);
        assert_eq!(idx.0, 1);
    }
}

#[test]
fn zero_weight_pool_falls_back_to_first_eligible() {
    // The slime's affinity is declared and positive, but its level weight is
    // zero on this floor, so the whole pool weighs zero.
    let rules = cave_rules(vec![RaceWeight {
        race: Race::Slime,
        weight: 1000,
    }]);
    let templates = vec![
        template(Race::Human, 1, 10, 20),
        template(Race::Slime, 40, 10, 5),
        template(Race::Slime, 50, 10, 5),
    ];
    for _ in 0..50 {
        let idx = choose_npc_chara_template(&rules, &templates, DungeonKind::Cave, 3);
        assert_eq!(idx.0, 1);
    }
}

#[test]
fn npc_is_hostile_with_full_hp() {
    let rules = cave_rules(vec![RaceWeight {
        race: Race::Animal,
        weight: 500,
    }]);
    let templates = vec![template(Race::Animal, 2, 10, 33)];
    for _ in 0..20 {
        let c = create_npc_chara(&rules, &templates, DungeonKind::Cave, 2);
        assert_eq!(c.rel, Relationship::HOSTILE);
        assert_eq!(c.hp, c.attr.max_hp);
        assert_eq!(c.hp, 33);
    }
}

#[test]
fn cave_scenario_always_picks_the_animal() {
    // Floor 3, rules {Animal: 1.0, Bug: 0.5}; the bug's native level 10 lies
    // past the margin (3 + 5), so its weight is zero and the animal template
    // must win every draw.
    let rules = cave_rules(vec![
        RaceWeight {
            race: Race::Animal,
            weight: 1000,
        },
        RaceWeight {
            race: Race::Bug,
            weight: 500,
        },
    ]);
    let templates = vec![
        template(Race::Animal, 3, 10, 18),
        template(Race::Bug, 10, 10, 7),
    ];
    for _ in 0..200 {
        let idx = choose_npc_chara_template(&rules, &templates, DungeonKind::Cave, 3);
        assert_eq!(idx.0, 0);
        let c = create_npc_chara(&rules, &templates, DungeonKind::Cave, 3);
        assert_eq!(c.template.0, 0);
        assert_eq!(c.attr.max_hp, 18);
    }
}

#[test]
fn draws_spread_over_eligible_templates() {
    // With two equally weighted eligible templates both must eventually be
    // drawn; a draw that ignored the random value would stick to one.
    let rules = cave_rules(vec![RaceWeight {
        race: Race::Human,
        weight: 1000,
    }]);
    let templates = vec![
        template(Race::Human, 1, 10, 20),
        template(Race::Human, 1, 10, 21),
    ];
    let mut seen = [false, false];
    for _ in 0..2000 {
        let idx = choose_npc_chara_template(&rules, &templates, DungeonKind::Cave, 1);
        seen[idx.0 as usize] = true;
        if seen[0] && seen[1] {
            break;
        }
    }
    assert!(seen[0] && seen[1]);
}

#[test]
fn derive_base_copies_declared_values() {
    let t = template(Race::Devil, 6, 4, 55);
    let b = t.derive_base(1);
    assert_eq!(b.base_hp, 55);
    assert_eq!(b.strength, 8);
    assert_eq!(b.vitality, 9);
    assert_eq!(b.dexterity, 10);
    assert_eq!(b.intelligence, 11);
    assert_eq!(b.will, 12);
    assert_eq!(b.charisma, 13);
    assert_eq!(b.speed, 14);
}
