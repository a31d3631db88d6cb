//! The wire-format data model.
//!
//! One record of the flat property list carries a polymorphic payload: a
//! closed set of property shapes, each with its own fields, together with the
//! small value and calculation-expression types they embed. This module
//! mirrors that schema; the only algorithmic pieces are the accessors of
//! [`PropVal`] and its text rendering.

use vstd::prelude::*;

verus! {

use crate::frac::Frac;
use crate::text::{dec_int, i64_to_dec};

/// A structure to store the death save info as in the creature settings.
#[derive(PartialEq, Eq, Structural, Debug, Default, Hash, Clone, Copy)]
pub struct DeathSaveInfo {
    pub pass: usize,
    pub fail: usize,
    pub can_death_save: bool,
    pub stable: bool,
}

/// A structure to store the denormalized stats (such as xp and milestone
/// levels) as in the creature settings.
#[derive(PartialEq, Eq, Structural, Debug, Default, Hash, Clone, Copy)]
pub struct DenormalizedStats {
    pub milestone_levels: usize,
    pub xp: usize,
}

/// A character's advanced settings, such as whether to show the tree tab.
#[derive(Default, PartialEq, Debug, Clone)]
pub struct Settings {
    pub show_tree_tab: bool,
    pub hide_rest_buttons: bool,
    pub hide_unused_stats: bool,
    pub hide_spells_tab: bool,
    pub hit_dice_reset_multiplier: Option<Frac>,
    pub discord_webhook: Option<String>,
}

/// A character's overall settings.
#[derive(PartialEq, Debug, Default, Clone)]
pub struct CreatureInfo {
    pub id: String,
    pub owner: String,
    pub name: String,
    pub gender: String,
    pub alignment: String,
    pub allowed_libraries: Vec<String>,
    pub allowed_library_collections: Vec<String>,
    pub death_save: DeathSaveInfo,
    pub denormalized_stats: DenormalizedStats,
    pub typ: String,
    pub settings: Settings,
    pub readers: Vec<String>,
    pub writers: Vec<String>,
    pub public: bool,
    pub picture: Option<String>,
    pub avatar_picture: Option<String>,
}

/// A value an attribute or constant can take.
///
/// `Absent` stands for the wire format's null value.
#[derive(PartialEq, Debug, Clone)]
pub enum PropVal {
    Boolean(bool),
    Absent,
    Number(i64),
    Fraction(Frac),
    Str(String),
}

impl Default for PropVal {
    /// The zero number, as on the wire.
    fn default() -> (r: Self)
        ensures
            r == PropVal::Number(0),
    {
        PropVal::Number(0)
    }
}

/// The text rendering of a fraction stored as hundredths: the integer part,
/// then the fractional digits with trailing zeros dropped.
pub open spec fn frac_text(h: int) -> Seq<char> {
    let sign: Seq<char> = if h < 0 {
        seq!['-']
    } else {
        Seq::<char>::empty()
    };
    let m = if h < 0 {
        -h
    } else {
        h
    };
    if m % 100 == 0 {
        sign + crate::text::dec_nat(m / 100)
    } else if m % 10 == 0 {
        sign + crate::text::dec_nat(m / 100) + seq!['.'] + seq![
            crate::text::dec_digit(m / 10 % 10),
        ]
    } else {
        sign + crate::text::dec_nat(m / 100) + seq!['.'] + seq![
            crate::text::dec_digit(m / 10 % 10),
        ] + seq![crate::text::dec_digit(m % 10)]
    }
}

/// The text a value renders to: booleans and numbers in decimal, strings as
/// themselves, the absent value as `null`.
pub open spec fn prop_val_text(v: PropVal) -> Seq<char> {
    match v {
        PropVal::Boolean(b) => if b {
            "true"@
        } else {
            "false"@
        },
        PropVal::Absent => "null"@,
        PropVal::Number(k) => dec_int(k as int),
        PropVal::Fraction(f) => frac_text(f.hundredths as int),
        PropVal::Str(s) => s@,
    }
}

impl PropVal {
    /// Gets the value as a bool, if it is a bool.
    pub fn as_bool(&self) -> (r: Option<bool>)
        ensures
            r == match *self {
                PropVal::Boolean(b) => Some(b),
                _ => None::<bool>,
            },
    {
        match self {
            PropVal::Boolean(b) => Some(*b),
            _ => None,
        }
    }

    /// Gets the value as an integer, if it is an integer.
    pub fn as_i64(&self) -> (r: Option<i64>)
        ensures
            r == match *self {
                PropVal::Number(k) => Some(k),
                _ => None::<i64>,
            },
    {
        match self {
            PropVal::Number(k) => Some(*k),
            _ => None,
        }
    }

    /// Gets the value as a fraction, if it is number-like. An integer widens
    /// to the fraction of the same value when the scaling stays in range.
    pub fn as_frac(&self) -> (r: Option<Frac>)
        ensures
            r == match *self {
                PropVal::Number(k) => if -92233720368547758 <= k <= 92233720368547758 {
                    Some(Frac { hundredths: (k * 100) as i64 })
                } else {
                    None::<Frac>
                },
                PropVal::Fraction(f) => Some(f),
                _ => None::<Frac>,
            },
    {
        match self {
            PropVal::Number(k) => {
                if -92233720368547758 <= *k && *k <= 92233720368547758 {
                    Some(Frac { hundredths: *k * 100 })
                } else {
                    None
                }
            },
            PropVal::Fraction(f) => Some(*f),
            _ => None,
        }
    }

    /// Render the value as text.
    pub fn render(&self) -> (r: String)
        ensures
            r@ == prop_val_text(*self),
    {
        match self {
            PropVal::Boolean(b) => {
                if *b {
                    "true".to_owned()
                } else {
                    "false".to_owned()
                }
            },
            PropVal::Absent => "null".to_owned(),
            PropVal::Number(k) => i64_to_dec(*k),
            PropVal::Fraction(f) => f.render(),
            PropVal::Str(s) => s.clone(),
        }
    }
}

/// Wraps a value in a structure (relevant for effects).
#[derive(PartialEq, Debug, Default, Clone)]
pub struct ValWrap {
    pub value: PropVal,
}

/// One error reported while a calculation was parsed.
#[derive(PartialEq, Eq, Debug, Default, Hash, Clone)]
pub struct ParseError {
    pub typ: String,
    pub message: String,
}

/// A node of a parsed calculation expression.
#[derive(PartialEq, Debug)]
pub enum ParseNode {
    Accessor { path: Vec<String>, name: String },
    Array { values: Vec<Box<ParseNode>> },
    Call { function_name: String, args: Vec<Box<ParseNode>> },
    Error { error: ParseError },
    Constant { value_type: String, value: PropVal },
    If { condition: Box<ParseNode>, consequent: Box<ParseNode>, alternative: Box<ParseNode> },
    Index { array: Box<ParseNode>, index: Box<ParseNode> },
    Operator { left: Box<ParseNode>, right: Box<ParseNode>, operator: String, fun: String },
    Not { right: Box<ParseNode> },
    Parenthesis { content: Box<ParseNode> },
    Roll { left: Box<ParseNode>, right: Box<ParseNode> },
    Symbol { name: String },
    UnaryOperator { operator: String, right: Box<ParseNode> },
}

impl Default for ParseNode {
    /// The constant zero node.
    fn default() -> (r: Self)
        ensures
            r matches ParseNode::Constant { value_type, value } && value_type@ == "number"@
                && value == PropVal::Number(0),
    {
        ParseNode::Constant { value_type: "number".to_owned(), value: PropVal::Number(0) }
    }
}

/// An effect on an attribute (not an effect property).
#[derive(PartialEq, Debug, Default, Clone)]
pub struct Effect {
    pub id: String,
    pub name: Option<String>,
    pub operation: String,
    pub amount: ValWrap,
    pub typ: Option<String>,
}

/// A calculation, as in a calculated field.
#[derive(PartialEq, Debug, Default)]
pub struct Calculation {
    pub calculation: String,
    pub key: String,
    pub typ: String,
    pub hash: i64,
    pub parse_node: ParseNode,
    pub errors: Vec<ParseError>,
    pub value: PropVal,
    pub base_value: Option<PropVal>,
    pub effects: Vec<Effect>,
}

/// A simpler version of the calculation type for calculated text fields.
#[derive(PartialEq, Debug, Default)]
pub struct SimpleCalc {
    pub calculation: String,
    pub key: String,
    pub typ: String,
    pub hash: i64,
    pub parse_node: ParseNode,
    pub errors: Vec<ParseError>,
    pub value: PropVal,
}

/// An identifier, as in the parent and ancestors fields.
#[derive(PartialEq, Eq, Debug, Default, Hash, Clone)]
pub struct Identifier {
    pub id: String,
    pub collection: String,
}

/// A calculated text field, such as a description: `value` is the final
/// displayed text, `text` the initial text with inline calculations.
#[derive(PartialEq, Debug, Default)]
pub struct CalculatedText {
    pub text: String,
    pub value: String,
    pub hash: i64,
    pub inline_calculations: Vec<SimpleCalc>,
}

/// Ammunition as used by actions.
#[derive(PartialEq, Debug, Default)]
pub struct ConsumedItem {
    pub id: String,
    pub tag: Option<String>,
    pub quantity: Option<Calculation>,
    pub item_id: Option<String>,
    pub item_name: Option<String>,
}

/// A resource consumed by an action.
#[derive(PartialEq, Debug, Default)]
pub struct ConsumedResource {
    pub id: String,
    pub variable_name: Option<String>,
    pub quantity: Option<Calculation>,
    pub available: i64,
    pub stat_name: Option<String>,
}

/// The extra-tags field, used by slot-like properties for tag logic.
#[derive(PartialEq, Eq, Debug, Default, Clone, Hash)]
pub struct ExtraTag {
    pub id: String,
    pub operation: String,
    pub tags: Vec<String>,
}

/// The total resources consumed by an action, attributes and items included.
#[derive(PartialEq, Debug, Default)]
pub struct Resource {
    pub items_consumed: Vec<ConsumedItem>,
    pub attributes_consumed: Vec<ConsumedResource>,
}

/// An icon; the shape is the raw SVG.
#[derive(PartialEq, Eq, Debug, Default, Clone, Hash)]
pub struct Icon {
    pub name: String,
    pub shape: String,
}

/// The type of branch for a branch property.
#[derive(PartialEq, Debug)]
pub enum BranchType {
    EachTarget {},
    FailedSave {},
    Hit {},
    If { condition: Calculation },
    Index { condition: Calculation },
    Miss {},
    SuccessfulSave {},
    Random {},
}

/// A row of a point-buy property.
#[derive(PartialEq, Debug, Default, Clone)]
pub struct PointBuyRow {
    pub id: String,
    pub name: String,
    pub variable_name: Option<String>,
    pub value: i64,
    pub spent: i64,
    pub errors: Vec<ParseError>,
}

/// The sub-kind of an attribute property, with its kind-specific fields.
#[derive(PartialEq, Debug)]
pub enum AttributeType {
    Ability { modifier: i64, proficiency: Option<Frac> },
    HealthBar {
        health_bar_color_mid: Option<String>,
        health_bar_no_damage: bool,
        health_bar_no_healing: bool,
        health_bar_no_damage_overflow: bool,
        health_bar_no_healing_overflow: bool,
        health_bar_damage_order: Option<i64>,
        health_bar_healing_order: Option<i64>,
    },
    HitDice { hit_dice_size: String, constitution_mod: i64 },
    Modifier {},
    Resource {},
    Stat {},
    SpellSlot { spell_slot_level: Option<Calculation> },
    Utility {},
}

impl Default for AttributeType {
    /// The utility sub-kind.
    fn default() -> (r: Self)
        ensures
            r == (AttributeType::Utility {}),
    {
        AttributeType::Utility {}
    }
}

/// A cache for errors on ref properties.
#[derive(PartialEq, Eq, Debug, Default, Clone, Hash)]
pub struct Cache {
    pub error: String,
}

/// The closed set of property payload shapes.
#[derive(PartialEq, Debug)]
pub enum PropType {
    Action {
        name: String,
        summary: Option<CalculatedText>,
        description: Option<CalculatedText>,
        action_type: String,
        variable_name: Option<String>,
        target: String,
        attack_roll: Option<Calculation>,
        uses: Option<Calculation>,
        uses_used: i64,
        reset: Option<String>,
        silent: bool,
        resources: Resource,
        insufficient_resources: bool,
        uses_left: Option<i64>,
        overridden: bool,
    },
    Adjustment {
        amount: Option<Calculation>,
        target: String,
        stat: Option<String>,
        operation: String,
        silent: bool,
    },
    Attribute {
        name: String,
        variable_name: String,
        attribute_type: AttributeType,
        base_value: Option<Calculation>,
        description: Option<CalculatedText>,
        damage: i64,
        decimal: bool,
        ignore_lower_limit: bool,
        ignore_upper_limit: bool,
        hide_when_value_zero: bool,
        hide_when_total_zero: bool,
        reset: Option<String>,
        total: PropVal,
        value: PropVal,
        effects: Vec<Effect>,
        hide: bool,
        overridden: bool,
    },
    Branch { branch_type: BranchType, text: Option<String>, silent: bool },
    Buff {
        name: String,
        description: Option<CalculatedText>,
        hide_remove_button: bool,
        duration: Option<Calculation>,
        target: String,
        silent: bool,
        skip_crystalization: bool,
        applied_by: Option<String>,
    },
    BuffRemover {
        name: String,
        target_parent_buff: bool,
        target: String,
        remove_all: bool,
        target_tags: Vec<String>,
        extra_tags: Vec<ExtraTag>,
        silent: bool,
    },
    Class {
        name: String,
        description: Option<CalculatedText>,
        variable_name: Option<String>,
        slot_tags: Vec<String>,
        extra_tags: Vec<ExtraTag>,
        slot_condition: Option<Calculation>,
        level: i64,
        missing_levels: Vec<i64>,
    },
    ClassLevel {
        name: String,
        description: Option<CalculatedText>,
        variable_name: Option<String>,
        level: i64,
        slot_filler_condition: Option<Calculation>,
    },
    Constant {
        name: String,
        variable_name: Option<String>,
        calculation: Option<String>,
        errors: Vec<ParseError>,
    },
    Container {
        name: String,
        carried: bool,
        contents_weightless: bool,
        weight: Frac,
        value: Frac,
        description: Option<CalculatedText>,
        contents_weight: Frac,
        carried_weight: Frac,
        contents_value: Frac,
        carried_value: Frac,
    },
    Damage { amount: Option<Calculation>, target: String, damage_type: String, silent: bool },
    DamageMultiplier {
        name: String,
        damage_types: Vec<String>,
        value: Frac,
        exclude_tags: Vec<String>,
        include_tags: Vec<String>,
    },
    Effect {
        name: String,
        operation: String,
        amount: Option<Calculation>,
        text: Option<String>,
        stats: Vec<String>,
        target_by_tags: bool,
        target_field: Option<String>,
        target_tags: Option<Vec<String>>,
        extra_tags: Vec<ExtraTag>,
    },
    Feature { name: String, sumary: Option<CalculatedText>, description: Option<CalculatedText> },
    Folder {
        name: String,
        group_stats: bool,
        hide_stats_group: Option<bool>,
        tab: Option<String>,
        location: Option<String>,
    },
    Item {
        name: String,
        plural: String,
        description: Option<CalculatedText>,
        quantity: i64,
        weight: Frac,
        value: Frac,
        requires_attunement: bool,
        attuned: Option<bool>,
        show_increment: bool,
        equipped: bool,
    },
    Note { name: String, summary: Option<CalculatedText>, description: Option<CalculatedText> },
    PointBuy {
        name: String,
        ignored: bool,
        values: Vec<PointBuyRow>,
        min: Option<Calculation>,
        max: Option<Calculation>,
        total: Option<Calculation>,
        cost: Calculation,
        spent: i64,
        points_left: i64,
        errors: Vec<ParseError>,
    },
    Proficiency { name: String, stats: Vec<String>, value: Frac },
    PropertySlot {
        name: String,
        description: Option<CalculatedText>,
        slot_type: Option<String>,
        slot_tags: Vec<String>,
        extra_tags: Vec<ExtraTag>,
        quantity_expected: Option<Calculation>,
        ignored: bool,
        slot_condition: Option<Calculation>,
        hide_when_full: bool,
        unique: String,
        total_filled: i64,
        space_left: Option<i64>,
    },
    Reference { refer: Identifier, cache: Cache },
    Roll {
        name: String,
        variable_name: String,
        roll: Option<Calculation>,
        silent: bool,
    },
    SavingThrow {
        name: String,
        dc: Option<Calculation>,
        target: String,
        stat: Option<String>,
        silent: bool,
    },
    Skill {
        name: String,
        variable_name: Option<String>,
        ability: Option<String>,
        skill_type: String,
        base_proficiency: Option<Frac>,
        base_value: Option<Calculation>,
        description: Option<CalculatedText>,
        value: i64,
        ability_mod: i64,
        advantage: i64,
        passive_bonus: i64,
        proficiency: Frac,
        conditional_benifits: Vec<String>,
        fail: i64,
        hide: bool,
        overridden: bool,
        effects: Vec<Effect>,
    },
    SlotFiller {
        name: String,
        picture: Option<String>,
        description: String,
        slot_filler_type: Option<String>,
        slot_quantity_filled: i64,
        slot_filler_condition: Option<String>,
    },
    SpellList {
        name: String,
        max_prepared: Option<Calculation>,
        dc: Option<Calculation>,
        attack_roll_bonus: Option<Calculation>,
        description: Option<CalculatedText>,
        ability: String,
        ability_mod: i64,
    },
    Spell {
        name: String,
        always_prepared: bool,
        prepared: bool,
        cast_without_spell_slots: bool,
        has_attack_roll: bool,
        casting_time: Option<String>,
        range: Option<String>,
        duration: Option<String>,
        verbal: bool,
        somatic: bool,
        concentration: bool,
        material: Option<String>,
        ritual: bool,
        level: i64,
        school: String,
        summary: Option<CalculatedText>,
        description: Option<CalculatedText>,
        action_type: String,
        variable_name: Option<String>,
        target: String,
        attack_roll: Option<Calculation>,
        uses: Option<Calculation>,
        uses_used: Option<i64>,
        reset: Option<String>,
        silent: bool,
        resources: Resource,
        insufficient_resources: bool,
        uses_left: Option<i64>,
        overridden: bool,
        deactivated_by_self: bool,
    },
    Toggle {
        name: String,
        variable_name: Option<String>,
        show_ui: bool,
        disabled: Option<bool>,
        enabled: Option<bool>,
        condition: Option<Calculation>,
        deactivated_by_self: bool,
    },
    Trigger {
        name: String,
        description: Option<CalculatedText>,
        event: String,
        action_property_type: Option<String>,
        timing: String,
        condition: Option<Calculation>,
        target_tags: Vec<String>,
        extra_tags: Vec<ExtraTag>,
        silent: bool,
    },
}

impl Default for PropType {
    /// An empty folder.
    fn default() -> (r: Self)
        ensures
            r matches PropType::Folder {
                name,
                group_stats,
                hide_stats_group,
                tab,
                location,
            } && name@ == Seq::<char>::empty() && !group_stats && hide_stats_group is None
                && tab is None && location is None,
    {
        PropType::Folder {
            name: String::new(),
            group_stats: false,
            hide_stats_group: None,
            tab: None,
            location: None,
        }
    }
}

/// The display name carried by a property payload; empty for the few shapes
/// that have none.
pub open spec fn prop_display_name(p: PropType) -> Seq<char> {
    match p {
        PropType::Action { name, .. } => name@,
        PropType::Adjustment { .. } => Seq::<char>::empty(),
        PropType::Attribute { name, .. } => name@,
        PropType::Branch { .. } => Seq::<char>::empty(),
        PropType::Buff { name, .. } => name@,
        PropType::BuffRemover { name, .. } => name@,
        PropType::Class { name, .. } => name@,
        PropType::ClassLevel { name, .. } => name@,
        PropType::Constant { name, .. } => name@,
        PropType::Container { name, .. } => name@,
        PropType::Damage { .. } => Seq::<char>::empty(),
        PropType::DamageMultiplier { name, .. } => name@,
        PropType::Effect { name, .. } => name@,
        PropType::Feature { name, .. } => name@,
        PropType::Folder { name, .. } => name@,
        PropType::Item { name, .. } => name@,
        PropType::Note { name, .. } => name@,
        PropType::PointBuy { name, .. } => name@,
        PropType::Proficiency { name, .. } => name@,
        PropType::PropertySlot { name, .. } => name@,
        PropType::Reference { .. } => Seq::<char>::empty(),
        PropType::Roll { name, .. } => name@,
        PropType::SavingThrow { name, .. } => name@,
        PropType::Skill { name, .. } => name@,
        PropType::SlotFiller { name, .. } => name@,
        PropType::SpellList { name, .. } => name@,
        PropType::Spell { name, .. } => name@,
        PropType::Toggle { name, .. } => name@,
        PropType::Trigger { name, .. } => name@,
    }
}

impl PropType {
    /// The display name of this payload; empty for the few shapes without
    /// one.
    pub fn display_name(&self) -> (r: String)
        ensures
            r@ == prop_display_name(*self),
    {
        match self {
            PropType::Action { name, .. } => name.clone(),
            PropType::Adjustment { .. } => String::new(),
            PropType::Attribute { name, .. } => name.clone(),
            PropType::Branch { .. } => String::new(),
            PropType::Buff { name, .. } => name.clone(),
            PropType::BuffRemover { name, .. } => name.clone(),
            PropType::Class { name, .. } => name.clone(),
            PropType::ClassLevel { name, .. } => name.clone(),
            PropType::Constant { name, .. } => name.clone(),
            PropType::Container { name, .. } => name.clone(),
            PropType::Damage { .. } => String::new(),
            PropType::DamageMultiplier { name, .. } => name.clone(),
            PropType::Effect { name, .. } => name.clone(),
            PropType::Feature { name, .. } => name.clone(),
            PropType::Folder { name, .. } => name.clone(),
            PropType::Item { name, .. } => name.clone(),
            PropType::Note { name, .. } => name.clone(),
            PropType::PointBuy { name, .. } => name.clone(),
            PropType::Proficiency { name, .. } => name.clone(),
            PropType::PropertySlot { name, .. } => name.clone(),
            PropType::Reference { .. } => String::new(),
            PropType::Roll { name, .. } => name.clone(),
            PropType::SavingThrow { name, .. } => name.clone(),
            PropType::Skill { name, .. } => name.clone(),
            PropType::SlotFiller { name, .. } => name.clone(),
            PropType::SpellList { name, .. } => name.clone(),
            PropType::Spell { name, .. } => name.clone(),
            PropType::Toggle { name, .. } => name.clone(),
            PropType::Trigger { name, .. } => name.clone(),
        }
    }
}

/// The different types of variables in the creature-variables field.
#[derive(PartialEq, Debug)]
pub enum VariableType {
    Attribute {
        base_value: Option<Calculation>,
        description: Option<CalculatedText>,
        damage: Option<i64>,
        decimal: bool,
        ignore_lower_limit: bool,
        ignore_upper_limit: bool,
        hide_when_value_zero: bool,
        hide_when_total_zero: bool,
        reset: Option<String>,
        total: PropVal,
        value: PropVal,
        effects: Vec<Effect>,
        hide: bool,
        overridden: bool,
    },
    Constant { calculation: Option<String>, value: ParseNode, errors: Vec<ParseError> },
    Class {
        description: Option<CalculatedText>,
        slot_tags: Vec<String>,
        extra_tags: Vec<ExtraTag>,
        slot_condition: Option<Calculation>,
        level: i64,
        missing_levels: Vec<i64>,
    },
    Skill {
        ability: Option<String>,
        skill_type: String,
        base_proficiency: Option<Frac>,
        base_value: Option<Calculation>,
        description: Option<CalculatedText>,
        value: i64,
        ability_mod: i64,
        advantage: i64,
        passive_bonus: i64,
        proficiency: Frac,
        conditional_benifits: Vec<String>,
        fail: i64,
        hide: bool,
        overridden: bool,
        effects: Vec<Effect>,
    },
    Toggle {
        show_ui: bool,
        disabled: Option<bool>,
        enabled: Option<bool>,
        condition: Option<Calculation>,
        deactivated_by_self: bool,
    },
}

/// A variable in the creature-variables field.
#[derive(PartialEq, Debug)]
pub struct GenericVariable {
    pub id: String,
    pub variable_name: String,
    pub name: String,
    pub order: i64,
    pub var_type: VariableType,
    pub library_tags: Vec<String>,
    pub library_node_id: Option<String>,
}

/// An entry of the creature-variables field.
#[derive(PartialEq, Debug)]
pub enum CharacterVar {
    Empty { v: Option<i64> },
    Str(String),
    Var(GenericVariable),
}

impl Default for CharacterVar {
    /// The empty entry.
    fn default() -> (r: Self)
        ensures
            r == (CharacterVar::Empty { v: None::<i64> }),
    {
        CharacterVar::Empty { v: None }
    }
}

} // verus!
