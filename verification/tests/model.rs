use dicecloud_models::dnd_model::{
    Action, ActionType, AtkBonus, Attack, Class, Die, Item, Skill, SpellList, Proficiency,
};
use dicecloud_models::frac::Frac;
use dicecloud_models::generic_model::PropVal;
use dicecloud_models::text::{
    contains_str, i64_to_dec, parse_i64_chars, replace_str, str_cmp, to_lowercase, NumParseErr,
};
use dicecloud_models::dnd_model::{attribute_type_missmatch, missing, type_missmatch, AbilityScore, DamageMult, Resource, Spell, SpellLevel, SpellPrep};

#[test]
fn prop_val_variants() {
    assert_eq!(PropVal::Number(1), PropVal::Number(1));
    assert_eq!(PropVal::Str("test".to_string()), PropVal::Str("test".to_string()));
    assert_eq!(PropVal::Boolean(true), PropVal::Boolean(true));
    assert_eq!(PropVal::Fraction(Frac::from_hundredths(150)), PropVal::Fraction(Frac::from_hundredths(150)));
    assert_eq!(PropVal::Absent, PropVal::Absent);
    assert_ne!(PropVal::Number(1), PropVal::Boolean(true));
    assert_ne!(PropVal::Number(1), PropVal::Absent);
}

#[test]
fn prop_val_accessors() {
    assert_eq!(PropVal::Boolean(true).as_bool(), Some(true));
    assert_eq!(PropVal::Number(10).as_bool(), None);
    assert_eq!(PropVal::Number(10).as_i64(), Some(10));
    assert_eq!(PropVal::Boolean(true).as_i64(), None);
    assert_eq!(PropVal::Number(10).as_frac(), Some(Frac::from_hundredths(1000)));
    assert_eq!(PropVal::Fraction(Frac::from_hundredths(230)).as_frac(), Some(Frac::from_hundredths(230)));
    assert_eq!(PropVal::Str("test".to_string()).as_frac(), None);
}

#[test]
fn prop_val_render() {
    assert_eq!(PropVal::Boolean(true).render(), "true");
    assert_eq!(PropVal::Absent.render(), "null");
    assert_eq!(PropVal::Number(-12).render(), "-12");
    assert_eq!(PropVal::Fraction(Frac::from_hundredths(150)).render(), "1.5");
    assert_eq!(PropVal::Fraction(Frac::from_hundredths(49)).render(), "0.49");
    assert_eq!(PropVal::Fraction(Frac::from_hundredths(200)).render(), "2");
    assert_eq!(PropVal::Fraction(Frac::from_hundredths(-50)).render(), "-0.5");
    assert_eq!(PropVal::Str("2d6".to_string()).render(), "2d6");
}

#[test]
fn ability_modifiers() {
    let sten = AbilityScore::new("Strength".to_string(), 14);
    let con = AbilityScore::new("Constitution".to_string(), 11);
    let dex = AbilityScore::new("Dexterity".to_string(), 9);
    assert_eq!(sten.modifier(), 2);
    assert_eq!(con.modifier(), 0);
    assert_eq!(dex.modifier(), -1);
}

#[test]
fn attack_add_dmg() {
    let mut atk1 = Attack::new("test".to_string(), AtkBonus::Bonus(0), "1d8+3 [fire]".to_string());
    let mut atk2 = Attack::new("test".to_string(), AtkBonus::Bonus(0), String::new());
    atk1.add_dmg("4 [pir]".to_string());
    atk2.add_dmg("4 [pir]".to_string());
    assert_eq!(atk1.damage(), "1d8+3 [fire] 4 [pir]");
    assert_eq!(atk2.damage(), "4 [pir]");
}

#[test]
fn renders() {
    assert_eq!(Die::new(8, 3).render(), "3d8");
    assert_eq!(AtkBonus::Bonus(5).render(), "+5");
    assert_eq!(AtkBonus::Bonus(-2).render(), "-2");
    assert_eq!(AtkBonus::Bonus(0).render(), "0");
    assert_eq!(AtkBonus::DC(13).render(), "DC 13");
    assert_eq!(ActionType::Free.render(), "fr.");
    assert_eq!(ActionType::Reaction.render(), "rxn");
    assert_eq!(ActionType::Bonus.render(), "bns");
    assert_eq!(ActionType::Action.render(), "a");
    assert_eq!(ActionType::Long("1 hr".to_string()).render(), "1 hr");
}

#[test]
fn skill_ordering() {
    let a = Skill::new("Acrobatics".to_string(), 2, Proficiency::Half);
    let b = Skill::new("Stealth".to_string(), 2, Proficiency::Half);
    assert!(a < b);
    let c = Skill::new("Acrobatics".to_string(), 2, Proficiency::Expert);
    assert!(a < c);
    let d = Skill::new("Acrobatics".to_string(), 5, Proficiency::Half);
    assert!(a < d);
}

#[test]
fn class_ordering() {
    let mut a = Class::new("Wizard".to_string(), 3);
    let b = Class::new("Cleric".to_string(), 5);
    // higher level sorts first
    assert!(b < a);
    // the starting class sorts before everything
    a.start_class = true;
    assert!(a < b);
}

#[test]
fn item_ordering() {
    let a = Item::new(1, "Axe".to_string(), "Axes".to_string());
    let b = Item::new(1, "Rope".to_string(), "Ropes".to_string());
    assert!(a < b);
    let c = Item::new(4, "Axe".to_string(), "Axes".to_string());
    assert!(a < c);
}

#[test]
fn spell_list_ordering() {
    let mut a = SpellList::default();
    a.name = "A".to_string();
    a.max_prepared = 5;
    let mut b = SpellList::default();
    b.name = "B".to_string();
    b.max_prepared = 2;
    // more prepared slots sorts first
    assert!(a < b);
}

#[test]
fn action_accessors() {
    let act = Action::new("Dash".to_string(), -1, ActionType::Action);
    assert_eq!(act.name(), "Dash");
    assert_eq!(act.uses(), -1);
    assert_eq!(*act.typ(), ActionType::Action);
}

#[test]
fn text_tools() {
    assert_eq!(to_lowercase("Gold Piece"), "gold piece");
    assert!(contains_str("gold piece", "piece"));
    assert!(!contains_str("rope", "piece"));
    assert_eq!(replace_str("up to 1 round", "round", "rnd"), "up to 1 rnd");
    assert_eq!(replace_str("a minute or a minute", "minute", "min"), "a min or a min");
    assert_eq!(i64_to_dec(0), "0");
    assert_eq!(i64_to_dec(-120), "-120");
    assert_eq!(i64_to_dec(9007), "9007");
    assert_eq!(parse_i64_chars(&vec!['4', '2']), Ok(42));
    assert_eq!(parse_i64_chars(&vec!['-', '7']), Ok(-7));
    assert_eq!(parse_i64_chars(&vec![]), Err(NumParseErr::Empty));
    assert_eq!(parse_i64_chars(&vec!['4', 'x']), Err(NumParseErr::InvalidDigit));
    assert_eq!(str_cmp("abc", "abd"), std::cmp::Ordering::Less);
    assert_eq!(str_cmp("abc", "abc"), std::cmp::Ordering::Equal);
    assert_eq!(str_cmp("abcd", "abc"), std::cmp::Ordering::Greater);
}

#[test]
fn message_helpers() {
    assert_eq!(missing("ancestors", "Rope"), "missing ancestors for Rope");
    assert_eq!(
        attribute_type_missmatch("Strength", &PropVal::Number(3)),
        "Attribute Strength with value 3 has the wrong type"
    );
    assert_eq!(
        type_missmatch("Speed", "", &PropVal::Absent),
        "Speed  with value null has the wrong type"
    );
}

#[test]
fn more_renders() {
    let mut itm = Item::new(1, "Rope".to_string(), "Ropes".to_string());
    assert_eq!(itm.render(), "1 Rope");
    let mut several = Item::new(3, "Torch".to_string(), "Torches".to_string());
    assert_eq!(several.render(), "3 Torches");
    itm.needs_attuned();
    assert_eq!(itm.render(), "\u{20a0}1 Rope");
    assert!(several.requires_attunement() == false);
    assert_eq!(DamageMult::Immune("fire".to_string()).render(), "fire immunity");
    assert_eq!(DamageMult::Resist("cold".to_string()).render(), "cold resistance");
    assert_eq!(DamageMult::Vuln("acid".to_string()).render(), "acid vulnerability");
    let act = Action::new("Rage".to_string(), 3, ActionType::Bonus);
    assert_eq!(act.render(), "(bns) Rage(_/3)");
    let dash = Action::new("Dash".to_string(), -1, ActionType::Action);
    assert_eq!(dash.render(), "(a) Dash");
    let res = Resource::new("Ki".to_string(), 10);
    assert_eq!(res.render(), "Ki (__/10)");
    let unlimited = Resource::new("Luck".to_string(), -1);
    assert_eq!(unlimited.render(), "Luck ");
}

#[test]
fn spell_preparation_and_vscr() {
    let mut sp = Spell::new(
        "Shield".to_string(),
        1,
        ActionType::Reaction,
        "1 rnd".to_string(),
        "abjuration".to_string(),
        "self".to_string(),
        (true, true, false, false),
        String::new(),
    );
    assert_eq!(sp.prepd(), SpellPrep::NotPrepared);
    sp.prepare();
    assert_eq!(sp.prepd(), SpellPrep::Prepared);
    sp.always_prepare();
    assert_eq!(sp.prepd(), SpellPrep::AlwaysPrepared);
    sp.unprepare();
    assert_eq!(sp.prepd(), SpellPrep::NotPrepared);
    assert_eq!(sp.vscr_to_string(), "vs");
    assert_eq!(sp.level(), 1);
    assert_eq!(sp.school(), "abjuration");
}

#[test]
fn spell_list_max_level() {
    let mk = |lvl: i64| SpellLevel::new(lvl, Vec::<Spell>::new());
    let list = SpellList::new(
        vec![mk(1), mk(4), mk(2)],
        "Book".to_string(),
        13,
        5,
        6,
    );
    assert_eq!(list.max_lvl(), 4);
    let empty = SpellList::new(vec![], "Empty".to_string(), 0, 0, 0);
    assert_eq!(empty.max_lvl(), 0);
}
