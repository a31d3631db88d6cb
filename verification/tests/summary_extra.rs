use dicecloud_models::dnd_model::{ActionType, Character, DamageMult, Proficiency};
use dicecloud_models::flat_model::{FlatCharacter, FlatProp};
use dicecloud_models::frac::Frac;
use dicecloud_models::generic_model::{
    AttributeType, Calculation, CreatureInfo, Identifier, PropType, PropVal, Resource,
};

fn ident(id: &str) -> Identifier {
    Identifier {
        id: id.to_string(),
        collection: "creatureProperties".to_string(),
    }
}

fn record(id: &str, order: usize, prop_type: PropType) -> FlatProp {
    FlatProp {
        id: id.to_string(),
        prop_type,
        tags: vec![],
        order,
        parent: ident("char"),
        ancestors: vec![ident("char")],
        library_node_id: None,
        color: None,
        icon: None,
        library_tags: vec![],
        deactivated_by_toggle: None,
        deactivated_by_ancestor: None,
        inactive: false,
        removed: false,
        removed_at: None,
        removed_with: None,
        dirty: None,
        migration_error: vec![],
    }
}

fn calc(value: PropVal) -> Calculation {
    Calculation {
        calculation: String::new(),
        key: String::new(),
        typ: String::new(),
        hash: 0,
        parse_node: Default::default(),
        errors: vec![],
        value,
        base_value: None,
        effects: vec![],
    }
}

fn character_of(props: Vec<FlatProp>) -> FlatCharacter {
    let mut info = CreatureInfo::default();
    info.name = "Tester".to_string();
    info.alignment = "CG".to_string();
    info.denormalized_stats.xp = 900;
    FlatCharacter {
        creatures: vec![info],
        creature_properties: props,
        creature_variables: vec![],
    }
}

fn attribute(name: &str, attribute_type: AttributeType, total: PropVal, value: PropVal) -> PropType {
    PropType::Attribute {
        name: name.to_string(),
        variable_name: String::new(),
        attribute_type,
        base_value: None,
        description: None,
        damage: 0,
        decimal: false,
        ignore_lower_limit: false,
        ignore_upper_limit: false,
        hide_when_value_zero: false,
        hide_when_total_zero: false,
        reset: None,
        total,
        value,
        effects: vec![],
        hide: false,
        overridden: false,
    }
}

fn skill(name: &str, skill_type: &str, value: i64, prof_hundredths: i64) -> PropType {
    PropType::Skill {
        name: name.to_string(),
        variable_name: None,
        ability: None,
        skill_type: skill_type.to_string(),
        base_proficiency: None,
        base_value: None,
        description: None,
        value,
        ability_mod: 0,
        advantage: 0,
        passive_bonus: 12,
        proficiency: Frac::from_hundredths(prof_hundredths),
        conditional_benifits: vec![],
        fail: 0,
        hide: false,
        overridden: false,
        effects: vec![],
    }
}

#[test]
fn creature_details_carry_over() {
    let c = Character::from_flat_char(character_of(vec![])).unwrap();
    assert_eq!(c.name, "Tester");
    assert_eq!(c.alignment, "CG");
    assert_eq!(c.xp, 900);
}

#[test]
fn scalar_attributes_by_name() {
    let props = vec![
        record(
            "hp",
            1,
            attribute(
                "Hit Points",
                AttributeType::HealthBar {
                    health_bar_color_mid: None,
                    health_bar_no_damage: false,
                    health_bar_no_healing: false,
                    health_bar_no_damage_overflow: false,
                    health_bar_no_healing_overflow: false,
                    health_bar_damage_order: None,
                    health_bar_healing_order: None,
                },
                PropVal::Number(40),
                PropVal::Number(37),
            ),
        ),
        record(
            "pb",
            2,
            attribute(
                "Proficiency Bonus",
                AttributeType::Modifier {},
                PropVal::Number(3),
                PropVal::Number(3),
            ),
        ),
        record(
            "spd",
            3,
            attribute("Speed", AttributeType::Stat {}, PropVal::Number(30), PropVal::Number(30)),
        ),
        record(
            "ac",
            4,
            attribute(
                "Armor Class",
                AttributeType::Stat {},
                PropVal::Number(16),
                PropVal::Number(16),
            ),
        ),
    ];
    let c = Character::from_flat_char(character_of(props)).unwrap();
    assert_eq!(c.hit_points, 37);
    assert_eq!(c.prof_bonus, 3);
    assert_eq!(c.speed, 30);
    assert_eq!(c.ac, 16);
}

#[test]
fn spell_slots_accumulate_by_level() {
    let slot = |id: &str, order: usize, lvl: i64, count: i64| {
        record(
            id,
            order,
            attribute(
                "Slots",
                AttributeType::SpellSlot {
                    spell_slot_level: Some(calc(PropVal::Number(lvl))),
                },
                PropVal::Number(count),
                PropVal::Number(count),
            ),
        )
    };
    let mut inactive_slot = slot("s3", 3, 1, 9);
    inactive_slot.inactive = true;
    let props = vec![slot("s1", 1, 1, 2), slot("s2", 2, 1, 1), slot("s4", 4, 9, 1), inactive_slot];
    let c = Character::from_flat_char(character_of(props)).unwrap();
    assert_eq!(c.spell_slots, vec![3, 0, 0, 0, 0, 0, 0, 0, 1]);
}

#[test]
fn skills_route_by_type() {
    let props = vec![
        record("i", 1, skill("Initiative", "skill", 5, 0)),
        record("s1", 2, skill("Dexterity Save", "save", 4, 100)),
        record("s2", 3, skill("Perception", "skill", 3, 50)),
        record("a", 4, skill("Light Armor", "armor", 0, 100)),
        record("w", 5, skill("Longswords", "weapon", 0, 100)),
        record("l", 6, skill("Elvish", "language", 0, 100)),
        record("t", 7, skill("Thieves' Tools", "tool", 0, 100)),
    ];
    let c = Character::from_flat_char(character_of(props)).unwrap();
    assert_eq!(c.initiative, 5);
    assert_eq!(c.saving_throws.len(), 1);
    assert_eq!(*c.saving_throws[0].prof(), Proficiency::Profficient);
    assert_eq!(c.skills.len(), 1);
    assert_eq!(c.skills[0].name(), "Perception");
    assert_eq!(*c.skills[0].prof(), Proficiency::Half);
    assert_eq!(c.passive_bonus, 12);
    assert_eq!(c.other_profs.0, vec!["Light Armor"]);
    assert_eq!(c.other_profs.1, vec!["Longswords"]);
    assert_eq!(c.other_profs.2, vec!["Elvish"]);
    assert_eq!(c.other_profs.3, vec!["Thieves' Tools"]);
}

#[test]
fn damage_multipliers_expand_types() {
    let mult = |id: &str, order: usize, hundredths: i64, types: Vec<&str>| {
        record(
            id,
            order,
            PropType::DamageMultiplier {
                name: String::new(),
                damage_types: types.into_iter().map(|s| s.to_string()).collect(),
                value: Frac::from_hundredths(hundredths),
                exclude_tags: vec![],
                include_tags: vec![],
            },
        )
    };
    let props = vec![
        mult("m1", 1, 0, vec!["poison", "fire"]),
        mult("m2", 2, 50, vec!["cold"]),
        mult("m3", 3, 200, vec!["psychic"]),
        mult("m4", 4, 100, vec!["radiant"]),
    ];
    let c = Character::from_flat_char(character_of(props)).unwrap();
    assert_eq!(
        c.damage_mults,
        vec![
            DamageMult::Immune("poison".to_string()),
            DamageMult::Immune("fire".to_string()),
            DamageMult::Resist("cold".to_string()),
            DamageMult::Vuln("psychic".to_string()),
        ]
    );
}

#[test]
fn notes_fill_traits() {
    let note = |id: &str, order: usize, name: &str, text: &str| {
        record(
            id,
            order,
            PropType::Note {
                name: name.to_string(),
                summary: Some(dicecloud_models::generic_model::CalculatedText {
                    text: text.to_string(),
                    value: text.to_string(),
                    hash: 0,
                    inline_calculations: vec![],
                }),
                description: None,
            },
        )
    };
    let props = vec![
        note("n1", 1, "Personality Traits", "curious"),
        note("n2", 2, "Ideals", "freedom"),
        note("n3", 3, "Bonds", "family"),
        note("n4", 4, "Flaws", "greedy"),
    ];
    let c = Character::from_flat_char(character_of(props)).unwrap();
    assert_eq!(
        c.traits,
        (
            "curious".to_string(),
            "freedom".to_string(),
            "family".to_string(),
            "greedy".to_string()
        )
    );
}

#[test]
fn actions_map_timing_and_skip_events() {
    let action = |id: &str, order: usize, name: &str, action_type: &str| {
        record(
            id,
            order,
            PropType::Action {
                name: name.to_string(),
                summary: None,
                description: None,
                action_type: action_type.to_string(),
                variable_name: None,
                target: String::new(),
                attack_roll: None,
                uses: Some(calc(PropVal::Number(2))),
                uses_used: 0,
                reset: None,
                silent: false,
                resources: Resource {
                    items_consumed: vec![],
                    attributes_consumed: vec![],
                },
                insufficient_resources: false,
                uses_left: None,
                overridden: false,
            },
        )
    };
    let mut unlimited = action("u", 5, "Dash", "action");
    if let PropType::Action { uses, .. } = &mut unlimited.prop_type {
        *uses = None;
    }
    let props = vec![
        action("f", 1, "Duck", "free"),
        action("b", 2, "Shove", "bonus"),
        action("r", 3, "Parry", "reaction"),
        action("e", 4, "Ambush", "event"),
        unlimited,
    ];
    let c = Character::from_flat_char(character_of(props)).unwrap();
    assert_eq!(c.actions.len(), 4);
    assert_eq!(*c.actions[0].typ(), ActionType::Free);
    assert_eq!(*c.actions[1].typ(), ActionType::Bonus);
    assert_eq!(*c.actions[2].typ(), ActionType::Reaction);
    assert_eq!(*c.actions[3].typ(), ActionType::Action);
    assert_eq!(c.actions[0].uses(), 2);
    assert_eq!(c.actions[3].uses(), -1);
}

#[test]
fn background_and_race_constants() {
    let constant = |id: &str, order: usize, var: &str, calc_text: &str| {
        record(
            id,
            order,
            PropType::Constant {
                name: String::new(),
                variable_name: Some(var.to_string()),
                calculation: Some(calc_text.to_string()),
                errors: vec![],
            },
        )
    };
    let mut filler = record(
        "bg",
        1,
        PropType::SlotFiller {
            name: "Sage".to_string(),
            picture: None,
            description: String::new(),
            slot_filler_type: None,
            slot_quantity_filled: 0,
            slot_filler_condition: None,
        },
    );
    filler.tags = vec!["background".to_string()];
    let mut feat = record(
        "bf",
        2,
        PropType::Feature {
            name: "Researcher".to_string(),
            sumary: None,
            description: None,
        },
    );
    feat.tags = vec!["my background feature".to_string()];
    let props = vec![
        filler,
        feat,
        constant("r1", 3, "race", "\"Elf\""),
        constant("r2", 4, "subRace", "\"High Elf\""),
    ];
    let c = Character::from_flat_char(character_of(props)).unwrap();
    assert_eq!(c.background.name(), "Sage");
    assert_eq!(c.background.background_feature().name(), "Researcher");
    assert_eq!(c.race, "High Elf");
}
