use dicecloud_models::dnd_model::{proficiency_rank, AtkBonus, Character, Proficiency};
use dicecloud_models::flat_model::{FlatCharacter, FlatProp};
use dicecloud_models::frac::Frac;
use dicecloud_models::generic_model::{
    AttributeType, Calculation, CreatureInfo, Effect, Identifier, PropType, PropVal, Resource,
    ValWrap,
};

fn ident(id: &str) -> Identifier {
    Identifier {
        id: id.to_string(),
        collection: "creatureProperties".to_string(),
    }
}

fn record(id: &str, order: usize, ancestors: Vec<&str>, prop_type: PropType) -> FlatProp {
    let parent = ancestors.last().map(|a| ident(a)).unwrap_or_else(|| ident("char"));
    FlatProp {
        id: id.to_string(),
        prop_type,
        tags: vec![],
        order,
        parent,
        ancestors: ancestors.into_iter().map(ident).collect(),
        library_node_id: None,
        color: None,
        icon: None,
        library_tags: vec![],
        deactivated_by_toggle: None,
        deactivated_by_ancestor: None,
        inactive: false,
        removed: false,
        removed_at: None,
        removed_with: None,
        dirty: None,
        migration_error: vec![],
    }
}

fn calc(value: PropVal) -> Calculation {
    Calculation {
        calculation: String::new(),
        key: String::new(),
        typ: String::new(),
        hash: 0,
        parse_node: Default::default(),
        errors: vec![],
        value,
        base_value: None,
        effects: vec![],
    }
}

fn character_of(props: Vec<FlatProp>) -> FlatCharacter {
    let mut info = CreatureInfo::default();
    info.name = "Tester".to_string();
    info.alignment = "N".to_string();
    FlatCharacter {
        creatures: vec![info],
        creature_properties: props,
        creature_variables: vec![],
    }
}

fn spell_list(name: &str) -> PropType {
    PropType::SpellList {
        name: name.to_string(),
        max_prepared: None,
        dc: None,
        attack_roll_bonus: None,
        description: None,
        ability: "int".to_string(),
        ability_mod: 0,
    }
}

fn spell(name: &str, level: i64) -> PropType {
    PropType::Spell {
        name: name.to_string(),
        always_prepared: false,
        prepared: false,
        cast_without_spell_slots: false,
        has_attack_roll: false,
        casting_time: Some("action".to_string()),
        range: None,
        duration: None,
        verbal: true,
        somatic: false,
        concentration: false,
        material: None,
        ritual: false,
        level,
        school: "evocation".to_string(),
        summary: None,
        description: None,
        action_type: "attack".to_string(),
        variable_name: None,
        target: "singleTarget".to_string(),
        attack_roll: None,
        uses: None,
        uses_used: None,
        reset: None,
        silent: false,
        resources: Resource {
            items_consumed: vec![],
            attributes_consumed: vec![],
        },
        insufficient_resources: false,
        uses_left: None,
        overridden: false,
        deactivated_by_self: false,
    }
}

fn item(name: &str, plural: &str, quantity: i64) -> PropType {
    PropType::Item {
        name: name.to_string(),
        plural: plural.to_string(),
        description: None,
        quantity,
        weight: Frac::from_hundredths(0),
        value: Frac::from_hundredths(0),
        requires_attunement: false,
        attuned: None,
        show_increment: false,
        equipped: true,
    }
}

fn attack_action(name: &str, bonus: i64) -> PropType {
    PropType::Action {
        name: name.to_string(),
        summary: None,
        description: None,
        action_type: "attack".to_string(),
        variable_name: None,
        target: "singleTarget".to_string(),
        attack_roll: Some(calc(PropVal::Number(bonus))),
        uses: None,
        uses_used: 0,
        reset: None,
        silent: false,
        resources: Resource {
            items_consumed: vec![],
            attributes_consumed: vec![],
        },
        insufficient_resources: false,
        uses_left: None,
        overridden: false,
    }
}

fn damage(parent: &str, dice: &str, bonus: i64, damage_type: &str) -> PropType {
    PropType::Damage {
        amount: Some(Calculation {
            effects: vec![Effect {
                id: "e1".to_string(),
                name: None,
                operation: "add".to_string(),
                amount: ValWrap {
                    value: PropVal::Number(bonus),
                },
                typ: None,
            }],
            ..calc(PropVal::Str(dice.to_string()))
        }),
        target: parent.to_string(),
        damage_type: damage_type.to_string(),
        silent: false,
    }
}

#[test]
fn spells_attach_to_nearest_list() {
    let props = vec![
        record("A", 1, vec!["char"], spell_list("Wizard Spells")),
        record("F", 2, vec!["char", "A"], spell("Fireball", 3)),
        record("L", 3, vec!["char", "A"], spell("Light", 0)),
    ];
    let c = Character::from_flat_char(character_of(props)).unwrap();
    assert_eq!(c.spell_lists.len(), 1);
    let list = &c.spell_lists[0];
    assert_eq!(list.name.as_str(), "Wizard Spells");
    assert_eq!(list.levels.len(), 2);
    let l3 = list.levels.iter().find(|l| l.lvl() == 3).unwrap();
    assert_eq!(l3.spells().len(), 1);
    assert_eq!(l3.spells()[0].name().as_str(), "Fireball");
    assert_eq!(l3.spells()[0].level(), 3);
    let l0 = list.levels.iter().find(|l| l.lvl() == 0).unwrap();
    assert_eq!(l0.spells().len(), 1);
    assert_eq!(l0.spells()[0].name().as_str(), "Light");
}

#[test]
fn spell_without_matching_list_is_dropped() {
    let props = vec![record("F", 1, vec!["char"], spell("Orphan", 2))];
    let c = Character::from_flat_char(character_of(props)).unwrap();
    assert!(c.spell_lists.is_empty());
}

#[test]
fn damage_attaches_to_parent_attack() {
    let props = vec![
        record("X", 1, vec!["char"], attack_action("Dagger", 5)),
        record("D", 2, vec!["char", "X"], damage("X", "2d6", 3, "fire")),
    ];
    let c = Character::from_flat_char(character_of(props)).unwrap();
    assert_eq!(c.attacks.len(), 1);
    let atk = &c.attacks[0];
    assert_eq!(atk.name().as_str(), "Dagger");
    assert_eq!(*atk.bonus(), AtkBonus::Bonus(5));
    assert_eq!(atk.damage().as_str(), "2d6+3[fire]");
    assert!(atk.damage().contains("fire"));
    assert!(atk.damage().contains("+3"));
}

#[test]
fn unmatched_damage_is_a_silent_no_op() {
    let props = vec![record("D", 1, vec!["char"], damage("nobody", "1d4", 0, "cold"))];
    let c = Character::from_flat_char(character_of(props)).unwrap();
    assert!(c.attacks.is_empty());
}

#[test]
fn coins_and_equipment_split() {
    let props = vec![
        record("G", 1, vec!["char"], item("Gold Piece", "Gold Pieces", 50)),
        record("R", 2, vec!["char"], item("Rope", "Ropes", 1)),
    ];
    let c = Character::from_flat_char(character_of(props)).unwrap();
    assert_eq!(c.coins, (0, 0, 0, 50, 0));
    assert_eq!(c.equipment.len(), 1);
    assert_eq!(c.equipment[0].name().as_str(), "Rope");
    assert_eq!(c.equipment[0].quantity(), 1);
}

#[test]
fn overridden_records_contribute_nothing() {
    let mut with_overridden = vec![
        record("R", 1, vec!["char"], item("Rope", "Ropes", 1)),
        record(
            "S",
            2,
            vec!["char"],
            PropType::Skill {
                name: "Stealth".to_string(),
                variable_name: None,
                ability: None,
                skill_type: "skill".to_string(),
                base_proficiency: None,
                base_value: None,
                description: None,
                value: 4,
                ability_mod: 2,
                advantage: 0,
                passive_bonus: 0,
                proficiency: Frac::from_hundredths(100),
                conditional_benifits: vec![],
                fail: 0,
                hide: false,
                overridden: true,
                effects: vec![],
            },
        ),
    ];
    let c1 = Character::from_flat_char(character_of(with_overridden.split_off(0))).unwrap();
    let c2 = Character::from_flat_char(character_of(vec![record(
        "R",
        1,
        vec!["char"],
        item("Rope", "Ropes", 1),
    )]))
    .unwrap();
    assert_eq!(c1, c2);
    assert!(c1.skills.is_empty());
}

#[test]
fn aggregating_twice_yields_equal_documents() {
    let build = || {
        character_of(vec![
            record("A", 1, vec!["char"], spell_list("Cleric Spells")),
            record("F", 2, vec!["char", "A"], spell("Bless", 1)),
            record("R", 3, vec!["char"], item("Rope", "Ropes", 1)),
        ])
    };
    let c1 = Character::from_flat_char(build()).unwrap();
    let c2 = Character::from_flat_char(build()).unwrap();
    assert_eq!(c1, c2);
}

#[test]
fn missing_creature_entry_is_fatal() {
    let ch = FlatCharacter {
        creatures: vec![],
        creature_properties: vec![],
        creature_variables: vec![],
    };
    let err = Character::from_flat_char(ch).unwrap_err();
    assert_eq!(err, "missing character info");
}

#[test]
fn ability_value_kind_mismatch_aborts() {
    let props = vec![record(
        "A",
        1,
        vec!["char"],
        PropType::Attribute {
            name: "Strength".to_string(),
            variable_name: "strength".to_string(),
            attribute_type: AttributeType::Ability {
                modifier: 0,
                proficiency: None,
            },
            base_value: None,
            description: None,
            damage: 0,
            decimal: false,
            ignore_lower_limit: false,
            ignore_upper_limit: false,
            hide_when_value_zero: false,
            hide_when_total_zero: false,
            reset: None,
            total: PropVal::Number(14),
            value: PropVal::Str("oops".to_string()),
            effects: vec![],
            hide: false,
            overridden: false,
        },
    )];
    let err = Character::from_flat_char(character_of(props)).unwrap_err();
    assert_eq!(err, "Attribute Strength with value oops has the wrong type");
}

fn hit_dice(name: &str, size: &str, count: i64) -> PropType {
    PropType::Attribute {
        name: name.to_string(),
        variable_name: "hd".to_string(),
        attribute_type: AttributeType::HitDice {
            hit_dice_size: size.to_string(),
            constitution_mod: 0,
        },
        base_value: None,
        description: None,
        damage: 0,
        decimal: false,
        ignore_lower_limit: false,
        ignore_upper_limit: false,
        hide_when_value_zero: false,
        hide_when_total_zero: false,
        reset: None,
        total: PropVal::Number(count),
        value: PropVal::Number(count),
        effects: vec![],
        hide: false,
        overridden: false,
    }
}

#[test]
fn hit_dice_parse() {
    let c =
        Character::from_flat_char(character_of(vec![record("H", 1, vec!["char"], hit_dice(
            "Level 1 Hit Dice",
            "1d8",
            3,
        ))]))
        .unwrap();
    assert_eq!(c.hit_dice.len(), 1);
    assert_eq!(c.hit_dice[0].size(), 8);
    assert_eq!(c.hit_dice[0].num(), 3);
}

#[test]
fn hit_dice_bad_size_aborts() {
    let err = Character::from_flat_char(character_of(vec![record(
        "H",
        1,
        vec!["char"],
        hit_dice("Hit Dice", "1dx", 3),
    )]))
    .unwrap_err();
    assert_eq!(err, "invalid digit found in string");
    let err2 = Character::from_flat_char(character_of(vec![record(
        "H",
        1,
        vec!["char"],
        hit_dice("Hit Dice", "nope", 3),
    )]))
    .unwrap_err();
    assert_eq!(err2, "missing hit dice size for Hit Dice");
}

#[test]
fn proficiency_buckets() {
    assert_eq!(proficiency_rank(Frac::from_hundredths(0)), Proficiency::NoProficiency);
    assert_eq!(proficiency_rank(Frac::from_hundredths(49)), Proficiency::Half);
    assert_eq!(proficiency_rank(Frac::from_hundredths(50)), Proficiency::Half);
    assert_eq!(proficiency_rank(Frac::from_hundredths(100)), Proficiency::Profficient);
    assert_eq!(proficiency_rank(Frac::from_hundredths(200)), Proficiency::Expert);
    assert_eq!(proficiency_rank(Frac::from_hundredths(370)), Proficiency::NoProficiency);
}

#[test]
fn starting_class_is_marked_once() {
    let class = |name: &str, level: i64, order: usize, id: &str| {
        record(
            id,
            order,
            vec!["char"],
            PropType::Class {
                name: name.to_string(),
                description: None,
                variable_name: None,
                slot_tags: vec![],
                extra_tags: vec![],
                slot_condition: None,
                level,
                missing_levels: vec![],
            },
        )
    };
    let constant = record(
        "K",
        3,
        vec!["char"],
        PropType::Constant {
            name: String::new(),
            variable_name: Some("startingClass".to_string()),
            calculation: Some("\"wizard\"".to_string()),
            errors: vec![],
        },
    );
    let props = vec![
        class("Wizard", 3, 1, "C1"),
        class("Wizard", 2, 2, "C2"),
        constant,
    ];
    let c = Character::from_flat_char(character_of(props)).unwrap();
    assert!(c.classes[0].start_class);
    assert!(!c.classes[1].start_class);
}
