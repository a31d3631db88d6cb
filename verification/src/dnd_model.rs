//! The display-ready character summary and the pass that builds it.
//!
//! A sorted, filtered flat record list is folded once into a `Character`:
//! ability scores, skills, classes, spell lists, inventory and the rest, with
//! damage records attached to the attacks that declared them and spells to
//! the nearest enclosing spell list.

use vstd::prelude::*;

verus! {

use crate::frac::Frac;
use crate::generic_model::{prop_val_text, AttributeType, CalculatedText, Calculation, CreatureInfo, Identifier, PropType, PropVal};
use crate::text::{dec_int, i64_to_dec};
use vstd::string::StringExecFns;

broadcast use vstd::std_specs::vec::group_vec_axioms, vstd::seq::group_seq_axioms;

/// An ability score: a name and a value.
#[derive(Clone, Eq, PartialEq, Hash, Debug, Default)]
pub struct AbilityScore {
    pub score: i64,
    pub name: String,
}

/// The view of an ability score.
pub ghost struct AbilityScoreV {
    pub score: i64,
    pub name: Seq<char>,
}

impl View for AbilityScore {
    type V = AbilityScoreV;

    open spec fn view(&self) -> AbilityScoreV {
        AbilityScoreV { score: self.score, name: self.name@ }
    }
}

impl DeepView for AbilityScore {
    type V = AbilityScoreV;

    open spec fn deep_view(&self) -> AbilityScoreV {
        self.view()
    }
}

/// The listed ranks of proficiency.
#[derive(Debug, Eq, PartialEq, Structural, PartialOrd, Ord, Clone, Copy, Hash, Default)]
pub enum Proficiency {
    #[default]
    NoProficiency,
    Half,
    Profficient,
    Expert,
}

/// The proficiency rank a numeric proficiency multiplier stands for: one
/// half for 0.49 or 0.5, proficient for 1, expert for 2, and none for any
/// other value.
pub open spec fn spec_proficiency_rank(p: Frac) -> Proficiency {
    if p.hundredths == 49 || p.hundredths == 50 {
        Proficiency::Half
    } else if p.hundredths == 100 {
        Proficiency::Profficient
    } else if p.hundredths == 200 {
        Proficiency::Expert
    } else {
        Proficiency::NoProficiency
    }
}

/// Bucket a numeric proficiency multiplier into its rank.
pub fn proficiency_rank(p: Frac) -> (r: Proficiency)
    ensures
        r == spec_proficiency_rank(p),
{
    let h: i64 = p.hundredths;
    if h == 49 || h == 50 {
        Proficiency::Half
    } else if h == 100 {
        Proficiency::Profficient
    } else if h == 200 {
        Proficiency::Expert
    } else {
        Proficiency::NoProficiency
    }
}

/// A skill: a bonus, a name, and a proficiency rank.
#[derive(Debug, Eq, PartialEq, Clone, Hash, Default)]
pub struct Skill {
    pub bonus: i64,
    pub name: String,
    pub prof_rank: Proficiency,
}

/// The view of a skill.
pub ghost struct SkillV {
    pub bonus: i64,
    pub name: Seq<char>,
    pub prof_rank: Proficiency,
}

impl View for Skill {
    type V = SkillV;

    open spec fn view(&self) -> SkillV {
        SkillV { bonus: self.bonus, name: self.name@, prof_rank: self.prof_rank }
    }
}

impl DeepView for Skill {
    type V = SkillV;

    open spec fn deep_view(&self) -> SkillV {
        self.view()
    }
}

/// A class: a name, a level, and whether it is the starting class.
#[derive(Debug, Eq, PartialEq, Clone, Hash, Default)]
pub struct Class {
    pub name: String,
    pub level: i64,
    pub start_class: bool,
}

/// The view of a class.
pub ghost struct ClassV {
    pub name: Seq<char>,
    pub level: i64,
    pub start_class: bool,
}

impl View for Class {
    type V = ClassV;

    open spec fn view(&self) -> ClassV {
        ClassV { name: self.name@, level: self.level, start_class: self.start_class }
    }
}

impl DeepView for Class {
    type V = ClassV;

    open spec fn deep_view(&self) -> ClassV {
        self.view()
    }
}

/// A named feature with its description.
#[derive(Debug, Eq, PartialEq, Clone, Hash, Default)]
pub struct Feature {
    pub name: String,
    pub description: String,
}

/// The view of a feature.
pub ghost struct FeatureV {
    pub name: Seq<char>,
    pub description: Seq<char>,
}

impl View for Feature {
    type V = FeatureV;

    open spec fn view(&self) -> FeatureV {
        FeatureV { name: self.name@, description: self.description@ }
    }
}

impl DeepView for Feature {
    type V = FeatureV;

    open spec fn deep_view(&self) -> FeatureV {
        self.view()
    }
}

/// A background: a name and its feature.
#[derive(Debug, Eq, PartialEq, Clone, Hash, Default)]
pub struct Background {
    pub name: String,
    pub background_feature: Feature,
}

/// The view of a background.
pub ghost struct BackgroundV {
    pub name: Seq<char>,
    pub background_feature: FeatureV,
}

impl View for Background {
    type V = BackgroundV;

    open spec fn view(&self) -> BackgroundV {
        BackgroundV { name: self.name@, background_feature: self.background_feature@ }
    }
}

impl DeepView for Background {
    type V = BackgroundV;

    open spec fn deep_view(&self) -> BackgroundV {
        self.view()
    }
}

/// A kind of hit die: a size, and how many of it.
#[derive(Debug, Eq, PartialEq, Structural, Clone, Copy, Hash, Default)]
pub struct Die {
    pub size: i64,
    pub num: i64,
}

impl DeepView for Die {
    type V = Die;

    open spec fn deep_view(&self) -> Die {
        *self
    }
}

/// An attack bonus: a plain bonus or a save difficulty class.
#[derive(Debug, Eq, PartialEq, Structural, Clone, Copy, PartialOrd, Ord, Hash)]
pub enum AtkBonus {
    Bonus(i64),
    DC(i64),
}

impl Default for AtkBonus {
    /// The zero bonus.
    fn default() -> (r: Self)
        ensures
            r == AtkBonus::Bonus(0),
    {
        AtkBonus::Bonus(0)
    }
}

/// The text an attack bonus renders to: a plain bonus with its sign, a
/// difficulty class with a `DC` prefix.
pub open spec fn atk_bonus_text(b: AtkBonus) -> Seq<char> {
    match b {
        AtkBonus::Bonus(k) => if k > 0 {
            seq!['+'] + dec_int(k as int)
        } else {
            dec_int(k as int)
        },
        AtkBonus::DC(k) => "DC "@ + dec_int(k as int),
    }
}

impl AtkBonus {
    /// Render the bonus as text.
    pub fn render(&self) -> (r: String)
        ensures
            r@ == atk_bonus_text(*self),
    {
        match self {
            AtkBonus::Bonus(k) => {
                if *k > 0 {
                    let mut s = String::from_str("+");
                    let d = i64_to_dec(*k);
                    s.append(d.as_str());
                    proof {
                        assert(s@ =~= seq!['+'] + dec_int(*k as int)) by {
                            reveal_strlit("+");
                        }
                    }
                    s
                } else {
                    i64_to_dec(*k)
                }
            },
            AtkBonus::DC(k) => {
                let mut s = String::from_str("DC ");
                let d = i64_to_dec(*k);
                s.append(d.as_str());
                s
            },
        }
    }
}

/// An attack: a name, an attack bonus, and accumulated damage text.
#[derive(Debug, Eq, PartialEq, Clone, PartialOrd, Ord, Default, Hash)]
pub struct Attack {
    pub name: String,
    pub bonus: AtkBonus,
    pub damage: String,
}

/// The view of an attack.
pub ghost struct AttackV {
    pub name: Seq<char>,
    pub bonus: AtkBonus,
    pub damage: Seq<char>,
}

impl View for Attack {
    type V = AttackV;

    open spec fn view(&self) -> AttackV {
        AttackV { name: self.name@, bonus: self.bonus, damage: self.damage@ }
    }
}

impl DeepView for Attack {
    type V = AttackV;

    open spec fn deep_view(&self) -> AttackV {
        self.view()
    }
}

/// Damage text appended to an attack: after a space when some is already
/// there, bare otherwise.
pub open spec fn add_dmg_text(damage: Seq<char>, dmg: Seq<char>) -> Seq<char> {
    if damage.len() > 0 {
        damage + " "@ + dmg
    } else {
        dmg
    }
}

impl Attack {
    /// Append damage text to the attack.
    pub fn add_dmg(&mut self, dmg: String)
        ensures
            final(self).name == old(self).name,
            final(self).bonus == old(self).bonus,
            final(self).damage@ == add_dmg_text(old(self).damage@, dmg@),
    {
        if !self.damage.as_str().is_empty() {
            self.damage.append(" ");
            self.damage.append(dmg.as_str());
        } else {
            self.damage = dmg;
        }
    }
}

/// An item: a quantity, names, and whether it requires attunement.
#[derive(Debug, Eq, PartialEq, Clone, Hash, Default)]
pub struct Item {
    pub quantity: i64,
    pub name: String,
    pub plural_name: String,
    pub requires_attunement: bool,
}

/// The view of an item.
pub ghost struct ItemV {
    pub quantity: i64,
    pub name: Seq<char>,
    pub plural_name: Seq<char>,
    pub requires_attunement: bool,
}

impl View for Item {
    type V = ItemV;

    open spec fn view(&self) -> ItemV {
        ItemV {
            quantity: self.quantity,
            name: self.name@,
            plural_name: self.plural_name@,
            requires_attunement: self.requires_attunement,
        }
    }
}

impl DeepView for Item {
    type V = ItemV;

    open spec fn deep_view(&self) -> ItemV {
        self.view()
    }
}

/// How a spell is prepared.
#[derive(Debug, Eq, PartialEq, Structural, Clone, Copy, Hash, Default, PartialOrd, Ord)]
pub enum SpellPrep {
    AlwaysPrepared,
    Prepared,
    #[default]
    NotPrepared,
}

/// The timing category of an action or casting time.
#[derive(Debug, Eq, PartialEq, Clone, Hash, PartialOrd, Ord, Default)]
pub enum ActionType {
    Free,
    Reaction,
    Bonus,
    #[default]
    Action,
    Long(String),
}

/// The view of a timing category.
pub ghost enum ActionTypeV {
    Free,
    Reaction,
    Bonus,
    Action,
    Long(Seq<char>),
}

impl View for ActionType {
    type V = ActionTypeV;

    open spec fn view(&self) -> ActionTypeV {
        match self {
            ActionType::Free => ActionTypeV::Free,
            ActionType::Reaction => ActionTypeV::Reaction,
            ActionType::Bonus => ActionTypeV::Bonus,
            ActionType::Action => ActionTypeV::Action,
            ActionType::Long(s) => ActionTypeV::Long(s@),
        }
    }
}

impl DeepView for ActionType {
    type V = ActionTypeV;

    open spec fn deep_view(&self) -> ActionTypeV {
        self.view()
    }
}

/// The text a timing category renders to.
pub open spec fn action_type_text(t: ActionTypeV) -> Seq<char> {
    match t {
        ActionTypeV::Free => "fr."@,
        ActionTypeV::Reaction => "rxn"@,
        ActionTypeV::Bonus => "bns"@,
        ActionTypeV::Action => "a"@,
        ActionTypeV::Long(time) => time,
    }
}

impl ActionType {
    /// Render the timing category as text.
    pub fn render(&self) -> (r: String)
        ensures
            r@ == action_type_text(self@),
    {
        match self {
            ActionType::Free => "fr.".to_owned(),
            ActionType::Reaction => "rxn".to_owned(),
            ActionType::Bonus => "bns".to_owned(),
            ActionType::Action => "a".to_owned(),
            ActionType::Long(time) => time.clone(),
        }
    }
}

/// A spell: its name, level, and casting details.
#[derive(Debug, Eq, PartialEq, Hash, Default)]
pub struct Spell {
    pub name: String,
    pub level: i64,
    pub casting_time: ActionType,
    pub duration: String,
    pub school: String,
    pub range: String,
    pub vscr: (bool, bool, bool, bool),
    pub material: String,
    pub prepd: SpellPrep,
}

/// The view of a spell.
pub ghost struct SpellV {
    pub name: Seq<char>,
    pub level: i64,
    pub casting_time: ActionTypeV,
    pub duration: Seq<char>,
    pub school: Seq<char>,
    pub range: Seq<char>,
    pub vscr: (bool, bool, bool, bool),
    pub material: Seq<char>,
    pub prepd: SpellPrep,
}

impl View for Spell {
    type V = SpellV;

    open spec fn view(&self) -> SpellV {
        SpellV {
            name: self.name@,
            level: self.level,
            casting_time: self.casting_time@,
            duration: self.duration@,
            school: self.school@,
            range: self.range@,
            vscr: self.vscr,
            material: self.material@,
            prepd: self.prepd,
        }
    }
}

impl DeepView for Spell {
    type V = SpellV;

    open spec fn deep_view(&self) -> SpellV {
        self.view()
    }
}

/// All spells of one level within a spell list.
#[derive(Debug, Eq, PartialEq, Hash, Default)]
pub struct SpellLevel {
    pub level: i64,
    pub spells: Vec<Spell>,
}

/// The view of one leveled spell bucket.
pub ghost struct SpellLevelV {
    pub level: i64,
    pub spells: Seq<SpellV>,
}

impl View for SpellLevel {
    type V = SpellLevelV;

    open spec fn view(&self) -> SpellLevelV {
        SpellLevelV { level: self.level, spells: self.spells.deep_view() }
    }
}

impl DeepView for SpellLevel {
    type V = SpellLevelV;

    open spec fn deep_view(&self) -> SpellLevelV {
        self.view()
    }
}

/// A spell list: leveled spell buckets with a casting ability, save
/// difficulty class, and attack bonus.
#[derive(Debug, Eq, PartialEq, Default)]
pub struct SpellList {
    pub levels: Vec<SpellLevel>,
    pub name: String,
    pub save_dc: i64,
    pub atk_bonus: i64,
    pub max_prepared: i64,
}

/// The view of a spell list.
pub ghost struct SpellListV {
    pub levels: Seq<SpellLevelV>,
    pub name: Seq<char>,
    pub save_dc: i64,
    pub atk_bonus: i64,
    pub max_prepared: i64,
}

impl View for SpellList {
    type V = SpellListV;

    open spec fn view(&self) -> SpellListV {
        SpellListV {
            levels: self.levels.deep_view(),
            name: self.name@,
            save_dc: self.save_dc,
            atk_bonus: self.atk_bonus,
            max_prepared: self.max_prepared,
        }
    }
}

impl DeepView for SpellList {
    type V = SpellListV;

    open spec fn deep_view(&self) -> SpellListV {
        self.view()
    }
}

/// A damage multiplier: immunity, resistance, or vulnerability to a damage
/// type.
#[derive(Debug, Eq, PartialEq, Clone, Hash, PartialOrd, Ord)]
pub enum DamageMult {
    Immune(String),
    Resist(String),
    Vuln(String),
}

/// The view of a damage multiplier.
pub ghost enum DamageMultV {
    Immune(Seq<char>),
    Resist(Seq<char>),
    Vuln(Seq<char>),
}

impl View for DamageMult {
    type V = DamageMultV;

    open spec fn view(&self) -> DamageMultV {
        match self {
            DamageMult::Immune(s) => DamageMultV::Immune(s@),
            DamageMult::Resist(s) => DamageMultV::Resist(s@),
            DamageMult::Vuln(s) => DamageMultV::Vuln(s@),
        }
    }
}

impl DeepView for DamageMult {
    type V = DamageMultV;

    open spec fn deep_view(&self) -> DamageMultV {
        self.view()
    }
}

/// An action: a name, a timing category, and a use count, `-1` meaning
/// unlimited.
#[derive(Debug, Eq, PartialEq, Clone, Hash, PartialOrd, Ord)]
pub struct Action {
    pub name: String,
    pub typ: ActionType,
    pub uses: i64,
}

/// The view of an action.
pub ghost struct ActionV {
    pub name: Seq<char>,
    pub typ: ActionTypeV,
    pub uses: i64,
}

impl View for Action {
    type V = ActionV;

    open spec fn view(&self) -> ActionV {
        ActionV { name: self.name@, typ: self.typ@, uses: self.uses }
    }
}

impl DeepView for Action {
    type V = ActionV;

    open spec fn deep_view(&self) -> ActionV {
        self.view()
    }
}

impl Default for Action {
    /// An unnamed standard action with unlimited uses.
    fn default() -> (r: Action)
        ensures
            r.name@ == Seq::<char>::empty(),
            r.typ == ActionType::Action,
            r.uses == -1,
    {
        Action { name: String::new(), typ: ActionType::Action, uses: -1i64 }
    }
}

/// A consumable resource: a name and a total.
#[derive(Debug, Eq, PartialEq, Clone, Hash, PartialOrd, Ord)]
pub struct Resource {
    pub name: String,
    pub total: i64,
}

/// The view of a resource.
pub ghost struct ResourceV {
    pub name: Seq<char>,
    pub total: i64,
}

impl View for Resource {
    type V = ResourceV;

    open spec fn view(&self) -> ResourceV {
        ResourceV { name: self.name@, total: self.total }
    }
}

impl DeepView for Resource {
    type V = ResourceV;

    open spec fn deep_view(&self) -> ResourceV {
        self.view()
    }
}

/// Addition clamped to the 64-bit signed range.
pub open spec fn spec_sat_add(a: int, b: int) -> i64 {
    if a + b > i64::MAX {
        i64::MAX
    } else if a + b < i64::MIN {
        i64::MIN
    } else {
        (a + b) as i64
    }
}

/// Add, clamping to the 64-bit signed range.
pub fn sat_add(a: i64, b: i64) -> (r: i64)
    ensures
        r == spec_sat_add(a as int, b as int),
{
    if b >= 0 {
        if a > i64::MAX - b {
            i64::MAX
        } else {
            a + b
        }
    } else {
        if a < i64::MIN - b {
            i64::MIN
        } else {
            a + b
        }
    }
}

/// An unsigned count clamped to the 64-bit signed range.
pub open spec fn spec_clamp_i64(x: int) -> i64 {
    if x > i64::MAX {
        i64::MAX
    } else {
        x as i64
    }
}

/// Clamp an unsigned count to the 64-bit signed range.
pub fn clamp_usize_i64(x: usize) -> (r: i64)
    ensures
        r == spec_clamp_i64(x as int),
{
    let v: u64 = x as u64;
    if v > 9223372036854775807u64 {
        9223372036854775807i64
    } else {
        v as i64
    }
}

/// The abbreviation of a damage type: short names stay whole, `piercing`
/// becomes `pir.`, any other long name keeps its first three characters
/// before a dot.
pub open spec fn spec_abbrev_damage_type(t: Seq<char>) -> Seq<char> {
    if t.len() < 5 {
        t
    } else if t == "piercing"@ {
        "pir."@
    } else {
        t.take(3) + "."@
    }
}

/// Abbreviate a damage type.
fn damage_type_abreviator(typ: String) -> (r: String)
    ensures
        r@ == spec_abbrev_damage_type(typ@),
{
    let n: usize = typ.as_str().unicode_len();
    if n < 5 {
        return typ;
    }
    if crate::text::str_eq(typ.as_str(), "piercing") {
        return "pir.".to_owned();
    }
    let cv = crate::text::chars_of(typ.as_str());
    let mut out: Vec<char> = Vec::new();
    out.push(cv[0]);
    out.push(cv[1]);
    out.push(cv[2]);
    out.push('.');
    proof {
        assert(out@ =~= typ@.take(3) + "."@) by {
            reveal_strlit(".");
        }
    }
    crate::text::string_from_chars(out)
}

/// The first position among key-value pairs whose key is `key`, or the
/// length when there is none.
pub open spec fn assoc_index<T>(s: Seq<(Seq<char>, T)>, key: Seq<char>) -> int
    decreases s.len(),
{
    if s.len() == 0 {
        0
    } else if s[0].0 == key {
        0
    } else {
        1 + assoc_index(s.skip(1), key)
    }
}

proof fn lemma_assoc_index_agrees<T>(s: Seq<(Seq<char>, T)>, key: Seq<char>, j: int)
    requires
        0 <= j <= s.len(),
        forall|k: int| 0 <= k < j ==> (#[trigger] s[k]).0 != key,
        j < s.len() ==> s[j].0 == key,
    ensures
        assoc_index(s, key) == j,
    decreases s.len(),
{
    if s.len() > 0 {
        if j == 0 {
        } else {
            assert(s[0].0 != key);
            assert(forall|k: int| 0 <= k < j - 1 ==> (#[trigger] s.skip(1)[k]) == s[k + 1]);
            lemma_assoc_index_agrees(s.skip(1), key, j - 1);
        }
    }
}

proof fn lemma_assoc_index_range<T>(s: Seq<(Seq<char>, T)>, key: Seq<char>)
    ensures
        0 <= assoc_index(s, key) <= s.len(),
        assoc_index(s, key) < s.len() ==> s[assoc_index(s, key)].0 == key,
        forall|j: int| 0 <= j < assoc_index(s, key) ==> (#[trigger] s[j]).0 != key,
    decreases s.len(),
{
    if s.len() > 0 && s[0].0 != key {
        lemma_assoc_index_range(s.skip(1), key);
        assert forall|j: int| 0 <= j < assoc_index(s, key) implies (#[trigger] s[j]).0
            != key by {
            if j > 0 {
                assert(s.skip(1)[j - 1] == s[j]);
            }
        }
    }
}

/// The first position among key-value pairs whose key is `key`, or the
/// length when there is none.
fn assoc_position<T: DeepView>(v: &Vec<(String, T)>, key: &str) -> (r: usize)
    ensures
        r as int == assoc_index(v.deep_view(), key@),
        r <= v@.len(),
{
    proof {
        assert(v.deep_view().len() == v@.len());
    }
    let n: usize = v.len();
    let mut j: usize = 0;
    while j < n
        invariant
            n == v@.len(),
            j <= n,
            forall|k: int| 0 <= k < j ==> (#[trigger] v@[k]).0@ != key@,
        decreases n - j,
    {
        if crate::text::string_eq_str(&v[j].0, key) {
            proof {
                assert(forall|k: int|
                    0 <= k < j ==> (#[trigger] v.deep_view()[k]).0 == v@[k].0@);
                assert(v.deep_view()[j as int].0 == v@[j as int].0@);
                lemma_assoc_index_agrees(v.deep_view(), key@, j as int);
            }
            return j;
        }
        j = j + 1;
    }
    proof {
        assert(forall|k: int| 0 <= k < n ==> (#[trigger] v.deep_view()[k]).0 == v@[k].0@);
        lemma_assoc_index_agrees(v.deep_view(), key@, n as int);
    }
    n
}

/// Whether some tag equals `t`.
pub open spec fn spec_tags_have(tags: Seq<String>, t: Seq<char>) -> bool {
    exists|i: int| 0 <= i < tags.len() && (#[trigger] tags[i])@ == t
}

/// Whether some tag equals `t`.
fn tags_have(tags: &Vec<String>, t: &str) -> (r: bool)
    ensures
        r == spec_tags_have(tags@, t@),
{
    let mut i: usize = 0;
    while i < tags.len()
        invariant
            i <= tags@.len(),
            forall|k: int| 0 <= k < i ==> (#[trigger] tags@[k])@ != t@,
        decreases tags@.len() - i,
    {
        if crate::text::string_eq_str(&tags[i], t) {
            return true;
        }
        i = i + 1;
    }
    false
}

/// Whether some tag holds `t` as a substring.
pub open spec fn spec_tags_mention(tags: Seq<String>, t: Seq<char>) -> bool {
    exists|i: int|
        0 <= i < tags.len() && crate::text::contains_seq((#[trigger] tags[i])@, t)
}

/// Whether some tag holds `t` as a substring.
fn tags_mention(tags: &Vec<String>, t: &str) -> (r: bool)
    ensures
        r == spec_tags_mention(tags@, t@),
{
    let mut i: usize = 0;
    while i < tags.len()
        invariant
            i <= tags@.len(),
            forall|k: int|
                0 <= k < i ==> !crate::text::contains_seq((#[trigger] tags@[k])@, t@),
        decreases tags@.len() - i,
    {
        if crate::text::contains_str(tags[i].as_str(), t) {
            return true;
        }
        i = i + 1;
    }
    false
}

/// The damage bonus of an effect: its amount when that is an integer, zero
/// otherwise.
pub open spec fn spec_effect_amount(e: crate::generic_model::Effect) -> i64 {
    match e.amount.value {
        PropVal::Number(k) => k,
        _ => 0,
    }
}

/// The integer amounts of the effects from position `i` on, summed onto
/// `acc` with clamping.
pub open spec fn spec_effects_bonus(
    s: Seq<crate::generic_model::Effect>,
    i: int,
    acc: i64,
) -> i64
    decreases s.len() - i,
{
    if i < 0 || i >= s.len() {
        acc
    } else {
        spec_effects_bonus(s, i + 1, spec_sat_add(acc as int, spec_effect_amount(s[i]) as int))
    }
}

/// Sum the integer amounts of the effects, clamped.
fn effects_bonus(s: &Vec<crate::generic_model::Effect>) -> (r: i64)
    ensures
        r == spec_effects_bonus(s@, 0, 0),
{
    let mut acc: i64 = 0;
    let mut i: usize = 0;
    while i < s.len()
        invariant
            i <= s@.len(),
            spec_effects_bonus(s@, i as int, acc) == spec_effects_bonus(s@, 0, 0),
        decreases s@.len() - i,
    {
        let a: i64 = match (&s[i]).amount.value.as_i64() {
            Some(k) => k,
            None => 0,
        };
        acc = sat_add(acc, a);
        i = i + 1;
    }
    acc
}

/// The id of the nearest ancestor, scanning from the closest to the
/// farthest, that is registered as a spell list; empty when none is.
pub open spec fn spec_spell_list_id<T>(
    assoc: Seq<(Seq<char>, T)>,
    ancestors: Seq<crate::generic_model::Identifier>,
) -> Seq<char>
    decreases ancestors.len(),
{
    if ancestors.len() == 0 {
        Seq::<char>::empty()
    } else if assoc_index(assoc, ancestors.last().id@) < assoc.len() {
        ancestors.last().id@
    } else {
        spec_spell_list_id(assoc, ancestors.drop_last())
    }
}

/// Find the id of the nearest ancestor registered as a spell list; an empty
/// string when none is.
fn find_spell_list_id<T: DeepView>(
    assoc: &Vec<(String, T)>,
    ancestors: &Vec<crate::generic_model::Identifier>,
) -> (r: String)
    ensures
        r@ == spec_spell_list_id(assoc.deep_view(), ancestors@),
{
    let mut i: usize = ancestors.len();
    proof {
        assert(ancestors@.take(ancestors@.len() as int) =~= ancestors@);
    }
    while i > 0
        invariant
            i <= ancestors@.len(),
            spec_spell_list_id(assoc.deep_view(), ancestors@.take(i as int))
                == spec_spell_list_id(assoc.deep_view(), ancestors@),
        decreases i,
    {
        let p: usize = assoc_position(assoc, (&ancestors[i - 1]).id.as_str());
        proof {
            assert(ancestors@.take(i as int).last() == ancestors@[i - 1]);
            assert(ancestors@.take(i as int).drop_last() =~= ancestors@.take(i - 1));
        }
        if p < assoc.len() {
            return (&ancestors[i - 1]).id.clone();
        }
        i = i - 1;
    }
    proof {
        assert(ancestors@.take(0) =~= Seq::<crate::generic_model::Identifier>::empty());
    }
    String::new()
}

/// The timing category a casting-time string maps to.
pub open spec fn spec_casting_time(ct: Seq<char>) -> ActionTypeV {
    if ct == "action"@ {
        ActionTypeV::Action
    } else if ct == "bonus"@ {
        ActionTypeV::Bonus
    } else if crate::text::contains_seq(ct, "reaction"@) {
        ActionTypeV::Reaction
    } else if ct == "free"@ {
        ActionTypeV::Free
    } else {
        ActionTypeV::Long(
            crate::text::replace_seq(
                crate::text::replace_seq(
                    crate::text::replace_seq(ct, "round"@, "rnd"@),
                    "minute"@,
                    "min"@,
                ),
                "hour"@,
                "hr"@,
            ),
        )
    }
}

/// Map a casting-time string to its timing category.
fn casting_time_of(ct: String) -> (r: ActionType)
    ensures
        r@ == spec_casting_time(ct@),
{
    if crate::text::string_eq_str(&ct, "action") {
        ActionType::Action
    } else if crate::text::string_eq_str(&ct, "bonus") {
        ActionType::Bonus
    } else if crate::text::contains_str(ct.as_str(), "reaction") {
        ActionType::Reaction
    } else if crate::text::string_eq_str(&ct, "free") {
        ActionType::Free
    } else {
        let a = crate::text::replace_str(ct.as_str(), "round", "rnd");
        let b = crate::text::replace_str(a.as_str(), "minute", "min");
        let c = crate::text::replace_str(b.as_str(), "hour", "hr");
        ActionType::Long(c)
    }
}

/// A duration string normalized for display: lower case, `up to ` dropped,
/// time units abbreviated.
pub open spec fn spec_norm_duration(d: Seq<char>) -> Seq<char> {
    crate::text::replace_seq(
        crate::text::replace_seq(
            crate::text::replace_seq(
                crate::text::replace_seq(crate::text::lower(d), "up to "@, ""@),
                "round"@,
                "rnd"@,
            ),
            "minute"@,
            "min"@,
        ),
        "hour"@,
        "hr"@,
    )
}

/// Normalize a duration string for display.
fn norm_duration(d: String) -> (r: String)
    ensures
        r@ == spec_norm_duration(d@),
{
    let a = crate::text::to_lowercase(d.as_str());
    let b = crate::text::replace_str(a.as_str(), "up to ", "");
    let c = crate::text::replace_str(b.as_str(), "round", "rnd");
    let e = crate::text::replace_str(c.as_str(), "minute", "min");
    crate::text::replace_str(e.as_str(), "hour", "hr")
}

/// A range string normalized for display: distance words abbreviated and a
/// sniper multiplier dropped.
pub open spec fn spec_norm_range(r: Seq<char>) -> Seq<char> {
    crate::text::replace_seq(
        crate::text::replace_seq(
            crate::text::replace_seq(
                crate::text::replace_seq(
                    crate::text::replace_seq(
                        crate::text::replace_seq(r, "feet"@, "ft"@),
                        "miles"@,
                        "mi"@,
                    ),
                    "mile"@,
                    "mi"@,
                ),
                "slotLevel"@,
                "sl"@,
            ),
            "foot"@,
            "ft"@,
        ),
        "radius"@,
        "rad"@,
    )
}

/// Normalize a range string for display.
fn norm_range(r: String) -> (res: String)
    ensures
        res@ == crate::text::replace_seq(spec_norm_range(r@), " * (1 + spellSniper)"@, ""@),
{
    let a = crate::text::replace_str(r.as_str(), "feet", "ft");
    let b = crate::text::replace_str(a.as_str(), "miles", "mi");
    let c = crate::text::replace_str(b.as_str(), "mile", "mi");
    let d = crate::text::replace_str(c.as_str(), "slotLevel", "sl");
    let e = crate::text::replace_str(d.as_str(), "foot", "ft");
    let f = crate::text::replace_str(e.as_str(), "radius", "rad");
    crate::text::replace_str(f.as_str(), " * (1 + spellSniper)", "")
}

/// The first position of `c` in `s`, or the length when it is absent.
pub open spec fn spec_index_of(s: Seq<char>, c: char) -> int
    decreases s.len(),
{
    if s.len() == 0 {
        0
    } else if s[0] == c {
        0
    } else {
        1 + spec_index_of(s.skip(1), c)
    }
}

proof fn lemma_index_of_agrees(s: Seq<char>, c: char, j: int)
    requires
        0 <= j <= s.len(),
        forall|k: int| 0 <= k < j ==> s[k] != c,
        j < s.len() ==> s[j] == c,
    ensures
        spec_index_of(s, c) == j,
    decreases s.len(),
{
    if s.len() > 0 {
        if j == 0 {
        } else {
            assert(forall|k: int| 0 <= k < j - 1 ==> s.skip(1)[k] == s[k + 1]);
            lemma_index_of_agrees(s.skip(1), c, j - 1);
        }
    }
}

/// The text between the first and second `d` of a hit-die size string: what
/// the die-size parse reads. Absent when the string has no `d` at all.
pub open spec fn spec_die_digits(hd: Seq<char>) -> Option<Seq<char>> {
    let i = spec_index_of(hd, 'd');
    if i >= hd.len() {
        None
    } else {
        let rest = hd.skip(i + 1);
        Some(rest.take(spec_index_of(rest, 'd')))
    }
}

/// The die size a hit-die size string of the shape `NdM` declares, or the
/// failure of reading one.
pub open spec fn spec_die_size(hd: Seq<char>) -> Result<i64, crate::text::NumParseErr> {
    match spec_die_digits(hd) {
        None => Err(crate::text::NumParseErr::Empty),
        Some(ds) => crate::text::parse_i64_spec(ds),
    }
}

/// Read the die size out of a hit-die size string of the shape `NdM`: the
/// part between the first and second `d`, parsed as an integer. `None` when
/// the string has no `d` at all.
fn die_size_of(hd: &String) -> (r: Option<Result<i64, crate::text::NumParseErr>>)
    ensures
        match r {
            None => spec_die_digits(hd@) is None,
            Some(res) => spec_die_digits(hd@) is Some && res == spec_die_size(hd@),
        },
{
    let cv = crate::text::chars_of(hd.as_str());
    let i: usize = match crate::text::find_char(&cv, 'd') {
        Some(i) => {
            proof {
                lemma_index_of_agrees(hd@, 'd', i as int);
            }
            i
        },
        None => {
            proof {
                lemma_index_of_agrees(hd@, 'd', hd@.len() as int);
            }
            return None;
        },
    };
    let mut rest: Vec<char> = Vec::new();
    let mut k: usize = i + 1;
    while k < cv.len()
        invariant
            i + 1 <= k <= cv@.len(),
            cv@ == hd@,
            i < hd@.len(),
            rest@ == hd@.subrange(i + 1, k as int),
        decreases cv@.len() - k,
    {
        rest.push(cv[k]);
        proof {
            assert(rest@ =~= hd@.subrange(i + 1, k + 1));
        }
        k = k + 1;
    }
    proof {
        assert(rest@ =~= hd@.skip(i + 1));
    }
    let j: usize = match crate::text::find_char(&rest, 'd') {
        Some(j) => {
            proof {
                lemma_index_of_agrees(rest@, 'd', j as int);
            }
            j
        },
        None => {
            proof {
                lemma_index_of_agrees(rest@, 'd', rest@.len() as int);
            }
            rest.len()
        },
    };
    let mut digits: Vec<char> = Vec::new();
    let mut m: usize = 0;
    while m < j
        invariant
            m <= j <= rest@.len(),
            digits@ == rest@.subrange(0, m as int),
        decreases j - m,
    {
        digits.push(rest[m]);
        proof {
            assert(digits@ =~= rest@.subrange(0, m + 1));
        }
        m = m + 1;
    }
    proof {
        assert(digits@ =~= rest@.take(j as int));
    }
    Some(crate::text::parse_i64_chars(&digits))
}

/// The message reported when a required piece of a record is missing.
pub open spec fn missing_text(thing: Seq<char>, name: Seq<char>) -> Seq<char> {
    "missing "@ + thing + " for "@ + name
}

/// Report a required piece of a record as missing.
pub fn missing(thing: &str, name: &str) -> (r: String)
    ensures
        r@ == missing_text(thing@, name@),
{
    let mut s = String::new();
    s.append("missing ");
    s.append(thing);
    s.append(" for ");
    s.append(name);
    s
}

/// The message reported when an attribute's value has the wrong kind.
pub open spec fn attribute_type_missmatch_text(name: Seq<char>, val: PropVal) -> Seq<char> {
    "Attribute "@ + name + " with value "@ + prop_val_text(val) + " has the wrong type"@
}

/// Report an attribute whose value has the wrong kind.
pub fn attribute_type_missmatch(name: &str, val: &PropVal) -> (r: String)
    ensures
        r@ == attribute_type_missmatch_text(name@, *val),
{
    let mut s = String::new();
    s.append("Attribute ");
    s.append(name);
    s.append(" with value ");
    let rendered = val.render();
    s.append(rendered.as_str());
    s.append(" has the wrong type");
    s
}

/// The message reported when some field's value has the wrong kind.
pub open spec fn type_missmatch_text(typ: Seq<char>, name: Seq<char>, val: PropVal) -> Seq<
    char,
> {
    typ + " "@ + name + " with value "@ + prop_val_text(val) + " has the wrong type"@
}

/// Report a field whose value has the wrong kind.
pub fn type_missmatch(typ: &str, name: &str, val: &PropVal) -> (r: String)
    ensures
        r@ == type_missmatch_text(typ@, name@, *val),
{
    let mut s = String::new();
    s.append(typ);
    s.append(" ");
    s.append(name);
    s.append(" with value ");
    let rendered = val.render();
    s.append(rendered.as_str());
    s.append(" has the wrong type");
    s
}

impl AbilityScore {
    /// The score value.
    pub fn score(&self) -> (r: i64)
        ensures
            r == self.score,
    {
        self.score
    }

    /// The ability's name.
    pub fn name(&self) -> (r: &String)
        ensures
            r@ == self@.name,
    {
        &self.name
    }

    /// The score's modifier: half the score, rounded toward zero, less
    /// five.
    pub fn modifier(&self) -> (r: i64)
        ensures
            self.score >= 0 ==> r == self.score / 2 - 5,
            self.score < 0 ==> r == -((-(self.score as int)) / 2) - 5,
    {
        self.score / 2 - 5
    }

    /// Build an ability score.
    pub fn new(name: String, score: i64) -> (r: AbilityScore)
        ensures
            r@ == (AbilityScoreV { score, name: name@ }),
    {
        AbilityScore { score, name }
    }
}

impl Skill {
    /// The proficiency rank.
    pub fn prof(&self) -> (r: &Proficiency)
        ensures
            r == self.prof_rank,
    {
        &self.prof_rank
    }

    /// The skill's modifier.
    pub fn modifier(&self) -> (r: i64)
        ensures
            r == self.bonus,
    {
        self.bonus
    }

    /// The skill's name.
    pub fn name(&self) -> (r: &String)
        ensures
            r@ == self@.name,
    {
        &self.name
    }

    /// Build a skill.
    pub fn new(name: String, bonus: i64, prof_rank: Proficiency) -> (r: Skill)
        ensures
            r@ == (SkillV { bonus, name: name@, prof_rank }),
    {
        Skill { bonus, name, prof_rank }
    }
}

impl Class {
    /// The class's name.
    pub fn name(&self) -> (r: &String)
        ensures
            r@ == self@.name,
    {
        &self.name
    }

    /// The class's level.
    pub fn level(&self) -> (r: i64)
        ensures
            r == self.level,
    {
        self.level
    }

    /// Build a class, not yet marked as the starting class.
    pub fn new(name: String, level: i64) -> (r: Class)
        ensures
            r@ == (ClassV { name: name@, level, start_class: false }),
    {
        Class { name, level, start_class: false }
    }
}

impl Feature {
    /// The feature's name.
    pub fn name(&self) -> (r: &String)
        ensures
            r@ == self@.name,
    {
        &self.name
    }

    /// The feature's description.
    pub fn description(&self) -> (r: &String)
        ensures
            r@ == self@.description,
    {
        &self.description
    }

    /// Build a feature.
    pub fn new(name: String, description: String) -> (r: Feature)
        ensures
            r@ == (FeatureV { name: name@, description: description@ }),
    {
        Feature { name, description }
    }
}

impl Background {
    /// The background's name.
    pub fn name(&self) -> (r: &String)
        ensures
            r@ == self@.name,
    {
        &self.name
    }

    /// The background's feature.
    pub fn background_feature(&self) -> (r: &Feature)
        ensures
            r@ == self@.background_feature,
    {
        &self.background_feature
    }

    /// Replace the background's feature.
    pub fn set_background_feature(&mut self, feat: Feature)
        ensures
            final(self)@ == (BackgroundV {
                name: old(self)@.name,
                background_feature: feat@,
            }),
    {
        self.background_feature = feat;
    }

    /// Build a background with an empty feature.
    pub fn new(name: String) -> (r: Background)
        ensures
            r@.name == name@,
            r@.background_feature == (FeatureV {
                name: Seq::<char>::empty(),
                description: Seq::<char>::empty(),
            }),
    {
        Background {
            name,
            background_feature: Feature { name: String::new(), description: String::new() },
        }
    }
}

/// The text a die renders to: the count, a `d`, and the size.
pub open spec fn die_text(d: Die) -> Seq<char> {
    dec_int(d.num as int) + "d"@ + dec_int(d.size as int)
}

impl Die {
    /// The die's size.
    pub fn size(&self) -> (r: i64)
        ensures
            r == self.size,
    {
        self.size
    }

    /// How many of the die there are.
    pub fn num(&self) -> (r: i64)
        ensures
            r == self.num,
    {
        self.num
    }

    /// Build a die.
    pub fn new(size: i64, num: i64) -> (r: Die)
        ensures
            r == (Die { size, num }),
    {
        Die { size, num }
    }

    /// Render the die as text.
    pub fn render(&self) -> (r: String)
        ensures
            r@ == die_text(*self),
    {
        let mut s = i64_to_dec(self.num);
        s.append("d");
        let sz = i64_to_dec(self.size);
        s.append(sz.as_str());
        s
    }
}

impl Attack {
    /// The attack's name.
    pub fn name(&self) -> (r: &String)
        ensures
            r@ == self@.name,
    {
        &self.name
    }

    /// The attack's bonus.
    pub fn bonus(&self) -> (r: &AtkBonus)
        ensures
            r == self.bonus,
    {
        &self.bonus
    }

    /// The bonus rendered as text.
    pub fn bonus_as_string(&self) -> (r: String)
        ensures
            r@ == atk_bonus_text(self.bonus),
    {
        self.bonus.render()
    }

    /// The accumulated damage text.
    pub fn damage(&self) -> (r: &String)
        ensures
            r@ == self@.damage,
    {
        &self.damage
    }

    /// Build an attack.
    pub fn new(name: String, bonus: AtkBonus, damage: String) -> (r: Attack)
        ensures
            r@ == (AttackV { name: name@, bonus, damage: damage@ }),
    {
        Attack { name, bonus, damage }
    }
}

impl Item {
    /// The item's quantity.
    pub fn quantity(&self) -> (r: i64)
        ensures
            r == self.quantity,
    {
        self.quantity
    }

    /// The item's name.
    pub fn name(&self) -> (r: &String)
        ensures
            r@ == self@.name,
    {
        &self.name
    }

    /// The item's plural name.
    pub fn plural_name(&self) -> (r: &String)
        ensures
            r@ == self@.plural_name,
    {
        &self.plural_name
    }

    /// Whether the item requires attunement.
    pub fn requires_attunement(&self) -> (r: bool)
        ensures
            r == self.requires_attunement,
    {
        self.requires_attunement
    }

    /// Build an item, not requiring attunement.
    pub fn new(quantity: i64, name: String, plural_name: String) -> (r: Item)
        ensures
            r@ == (ItemV {
                quantity,
                name: name@,
                plural_name: plural_name@,
                requires_attunement: false,
            }),
    {
        Item { quantity, name, plural_name, requires_attunement: false }
    }

    /// Mark the item as requiring attunement.
    pub fn needs_attuned(&mut self)
        ensures
            final(self)@ == (ItemV { requires_attunement: true, ..old(self)@ }),
    {
        self.requires_attunement = true;
    }
}

/// The text a spell's component letters render to: one letter for each of
/// verbal, somatic, concentration and ritual, in that order.
pub open spec fn vscr_text(vscr: (bool, bool, bool, bool)) -> Seq<char> {
    (if vscr.0 {
        "v"@
    } else {
        Seq::<char>::empty()
    }) + (if vscr.1 {
        "s"@
    } else {
        Seq::<char>::empty()
    }) + (if vscr.2 {
        "c"@
    } else {
        Seq::<char>::empty()
    }) + (if vscr.3 {
        "r"@
    } else {
        Seq::<char>::empty()
    })
}

impl Spell {
    /// The spell's name.
    pub fn name(&self) -> (r: &String)
        ensures
            r@ == self@.name,
    {
        &self.name
    }

    /// The spell's level.
    pub fn level(&self) -> (r: i64)
        ensures
            r == self.level,
    {
        self.level
    }

    /// The spell's casting time.
    pub fn casting_time(&self) -> (r: &ActionType)
        ensures
            r@ == self@.casting_time,
    {
        &self.casting_time
    }

    /// The spell's duration.
    pub fn duration(&self) -> (r: &String)
        ensures
            r@ == self@.duration,
    {
        &self.duration
    }

    /// The spell's school.
    pub fn school(&self) -> (r: &String)
        ensures
            r@ == self@.school,
    {
        &self.school
    }

    /// The spell's range.
    pub fn range(&self) -> (r: &String)
        ensures
            r@ == self@.range,
    {
        &self.range
    }

    /// The verbal/somatic/concentration/ritual flags.
    pub fn vscr(&self) -> (r: (bool, bool, bool, bool))
        ensures
            r == self.vscr,
    {
        self.vscr
    }

    /// The component letters rendered as text.
    pub fn vscr_to_string(&self) -> (r: String)
        ensures
            r@ == vscr_text(self.vscr),
    {
        let mut s = String::new();
        if self.vscr.0 {
            s.append("v");
        }
        if self.vscr.1 {
            s.append("s");
        }
        if self.vscr.2 {
            s.append("c");
        }
        if self.vscr.3 {
            s.append("r");
        }
        proof {
            assert(s@ =~= vscr_text(self.vscr));
        }
        s
    }

    /// The spell's material components.
    pub fn material(&self) -> (r: &String)
        ensures
            r@ == self@.material,
    {
        &self.material
    }

    /// How the spell is prepared.
    pub fn prepd(&self) -> (r: SpellPrep)
        ensures
            r == self.prepd,
    {
        self.prepd
    }

    /// Build a spell, not yet prepared.
    pub fn new(
        name: String,
        level: i64,
        casting_time: ActionType,
        duration: String,
        school: String,
        range: String,
        vscr: (bool, bool, bool, bool),
        material: String,
    ) -> (r: Spell)
        ensures
            r@ == (SpellV {
                name: name@,
                level,
                casting_time: casting_time@,
                duration: duration@,
                school: school@,
                range: range@,
                vscr,
                material: material@,
                prepd: SpellPrep::NotPrepared,
            }),
    {
        Spell {
            name,
            level,
            casting_time,
            duration,
            school,
            range,
            vscr,
            material,
            prepd: SpellPrep::NotPrepared,
        }
    }

    /// Mark the spell as prepared.
    pub fn prepare(&mut self)
        ensures
            final(self)@ == (SpellV { prepd: SpellPrep::Prepared, ..old(self)@ }),
    {
        self.prepd = SpellPrep::Prepared;
    }

    /// Mark the spell as always prepared.
    pub fn always_prepare(&mut self)
        ensures
            final(self)@ == (SpellV { prepd: SpellPrep::AlwaysPrepared, ..old(self)@ }),
    {
        self.prepd = SpellPrep::AlwaysPrepared;
    }

    /// Mark the spell as not prepared.
    pub fn unprepare(&mut self)
        ensures
            final(self)@ == (SpellV { prepd: SpellPrep::NotPrepared, ..old(self)@ }),
    {
        self.prepd = SpellPrep::NotPrepared;
    }
}

impl SpellLevel {
    /// The bucket's level.
    pub fn lvl(&self) -> (r: i64)
        ensures
            r == self.level,
    {
        self.level
    }

    /// The spells in the bucket.
    pub fn spells(&self) -> (r: &Vec<Spell>)
        ensures
            r.deep_view() == self@.spells,
    {
        &self.spells
    }

    /// Build a leveled bucket.
    pub fn new(level: i64, spells: Vec<Spell>) -> (r: SpellLevel)
        ensures
            r@ == (SpellLevelV { level, spells: spells.deep_view() }),
    {
        SpellLevel { level, spells }
    }

    /// Add a spell to the bucket.
    pub fn add_spell(&mut self, spell: Spell)
        ensures
            final(self)@ == (SpellLevelV {
                level: old(self)@.level,
                spells: old(self)@.spells.push(spell@),
            }),
    {
        let ghost pre = self.spells.deep_view();
        let ghost sv = spell@;
        self.spells.push(spell);
        proof {
            assert(self.spells.deep_view() =~= pre.push(sv));
        }
    }
}

/// The greatest level among a spell list's buckets, or zero when there is
/// none, scanning from position `i` with `mx` the greatest so far.
pub open spec fn spec_max_lvl_from(levels: Seq<SpellLevelV>, i: int, mx: i64) -> i64
    decreases levels.len() - i,
{
    if i < 0 || i >= levels.len() {
        mx
    } else {
        spec_max_lvl_from(
            levels,
            i + 1,
            if levels[i].level > mx {
                levels[i].level
            } else {
                mx
            },
        )
    }
}

impl SpellList {
    /// Build a spell list.
    pub fn new(
        levels: Vec<SpellLevel>,
        name: String,
        save_dc: i64,
        atk_bonus: i64,
        max_prepared: i64,
    ) -> (r: SpellList)
        ensures
            r@ == (SpellListV {
                levels: levels.deep_view(),
                name: name@,
                save_dc,
                atk_bonus,
                max_prepared,
            }),
    {
        SpellList { levels, name, save_dc, atk_bonus, max_prepared }
    }

    /// The greatest level among the buckets, or zero when there is none.
    pub fn max_lvl(&self) -> (r: i64)
        ensures
            r == spec_max_lvl_from(self@.levels, 0, 0),
    {
        let mut mx: i64 = 0;
        let mut i: usize = 0;
        while i < self.levels.len()
            invariant
                i <= self.levels@.len(),
                spec_max_lvl_from(self@.levels, i as int, mx) == spec_max_lvl_from(
                    self@.levels,
                    0,
                    0,
                ),
            decreases self.levels@.len() - i,
        {
            proof {
                assert(self@.levels[i as int] == self.levels@[i as int].deep_view());
            }
            if self.levels[i].level > mx {
                mx = self.levels[i].level;
            }
            i = i + 1;
        }
        mx
    }
}

impl Action {
    /// The action's name.
    pub fn name(&self) -> (r: &String)
        ensures
            r@ == self@.name,
    {
        &self.name
    }

    /// The action's use count, `-1` meaning unlimited.
    pub fn uses(&self) -> (r: i64)
        ensures
            r == self.uses,
    {
        self.uses
    }

    /// The action's timing category.
    pub fn typ(&self) -> (r: &ActionType)
        ensures
            r@ == self@.typ,
    {
        &self.typ
    }

    /// Build an action.
    pub fn new(name: String, uses: i64, typ: ActionType) -> (r: Action)
        ensures
            r@ == (ActionV { name: name@, typ: typ@, uses }),
    {
        Action { name, uses, typ }
    }
}

impl Resource {
    /// The resource's name.
    pub fn name(&self) -> (r: &String)
        ensures
            r@ == self@.name,
    {
        &self.name
    }

    /// The resource's total.
    pub fn total(&self) -> (r: i64)
        ensures
            r == self.total,
    {
        self.total
    }

    /// Build a resource.
    pub fn new(name: String, total: i64) -> (r: Resource)
        ensures
            r@ == (ResourceV { name: name@, total }),
    {
        Resource { name, total }
    }
}

/// A run of `n` underscores: the blank of a use-tracking box.
pub open spec fn underscores(n: int) -> Seq<char> {
    Seq::new(n as nat, |i: int| '_')
}

/// Render a run of `n` underscores.
fn underscore_run(n: usize) -> (r: Vec<char>)
    ensures
        r@ == underscores(n as int),
{
    let mut v: Vec<char> = Vec::new();
    let mut i: usize = 0;
    while i < n
        invariant
            i <= n,
            v@ == underscores(i as int),
        decreases n - i,
    {
        v.push('_');
        i = i + 1;
        proof {
            assert(v@ =~= underscores(i as int));
        }
    }
    v
}

/// The use-tracking box rendered after a named thing with `total` uses:
/// empty for an unlimited `-1`, otherwise a blank as wide as the count over
/// the count.
pub open spec fn uses_box_text(total: i64) -> Seq<char> {
    if total == -1 {
        Seq::<char>::empty()
    } else {
        "("@ + underscores(dec_int(total as int).len() as int) + "/"@ + dec_int(total as int)
            + ")"@
    }
}

/// Render the use-tracking box for `total` uses.
fn uses_box(total: i64) -> (r: String)
    ensures
        r@ == uses_box_text(total),
{
    if total == -1i64 {
        return String::new();
    }
    let digits = i64_to_dec(total);
    let blanks = crate::text::string_from_chars(underscore_run(digits.as_str().unicode_len()));
    let mut s = String::from_str("(");
    s.append(blanks.as_str());
    s.append("/");
    s.append(digits.as_str());
    s.append(")");
    s
}

/// The text an item renders to: an attunement mark when required, the
/// quantity, and the singular or plural name as the quantity demands.
pub open spec fn item_text(it: ItemV) -> Seq<char> {
    (if it.requires_attunement {
        "\u{20a0}"@
    } else {
        Seq::<char>::empty()
    }) + dec_int(it.quantity as int) + " "@ + (if it.quantity == 1 {
        it.name
    } else {
        it.plural_name
    })
}

impl Item {
    /// Render the item as text.
    pub fn render(&self) -> (r: String)
        ensures
            r@ == item_text(self@),
    {
        let mut s = if self.requires_attunement {
            String::from_str("\u{20a0}")
        } else {
            String::new()
        };
        let q = i64_to_dec(self.quantity);
        s.append(q.as_str());
        s.append(" ");
        if self.quantity == 1i64 {
            s.append(self.name.as_str());
        } else {
            s.append(self.plural_name.as_str());
        }
        s
    }
}

/// The text a damage multiplier renders to: the damage type, then the word
/// for the multiplier's kind.
pub open spec fn damage_mult_text(m: DamageMultV) -> Seq<char> {
    match m {
        DamageMultV::Immune(t) => t + " immunity"@,
        DamageMultV::Resist(t) => t + " resistance"@,
        DamageMultV::Vuln(t) => t + " vulnerability"@,
    }
}

impl DamageMult {
    /// Render the multiplier as text.
    pub fn render(&self) -> (r: String)
        ensures
            r@ == damage_mult_text(self@),
    {
        match self {
            DamageMult::Immune(t) => {
                let mut s = t.clone();
                s.append(" immunity");
                s
            },
            DamageMult::Resist(t) => {
                let mut s = t.clone();
                s.append(" resistance");
                s
            },
            DamageMult::Vuln(t) => {
                let mut s = t.clone();
                s.append(" vulnerability");
                s
            },
        }
    }
}

/// The text an action renders to: its timing in parentheses, its name, and
/// a use-tracking box when its uses are limited.
pub open spec fn action_text(a: ActionV) -> Seq<char> {
    "("@ + action_type_text(a.typ) + ") "@ + a.name + uses_box_text(a.uses)
}

impl Action {
    /// Render the action as text.
    pub fn render(&self) -> (r: String)
        ensures
            r@ == action_text(self@),
    {
        let mut s = String::from_str("(");
        let t = self.typ.render();
        s.append(t.as_str());
        s.append(") ");
        s.append(self.name.as_str());
        let ub = uses_box(self.uses);
        s.append(ub.as_str());
        s
    }
}

/// The text a resource renders to: its name, a space, and a use-tracking
/// box when its total is limited.
pub open spec fn resource_text(rs: ResourceV) -> Seq<char> {
    rs.name + " "@ + uses_box_text(rs.total)
}

impl Resource {
    /// Render the resource as text.
    pub fn render(&self) -> (r: String)
        ensures
            r@ == resource_text(self@),
    {
        let mut s = self.name.clone();
        s.append(" ");
        let ub = uses_box(self.total);
        s.append(ub.as_str());
        s
    }
}

/// The order on two integers, ascending.
pub open spec fn int_cmp(a: int, b: int) -> core::cmp::Ordering {
    if a < b {
        core::cmp::Ordering::Less
    } else if a > b {
        core::cmp::Ordering::Greater
    } else {
        core::cmp::Ordering::Equal
    }
}

/// The numeric weight of a proficiency rank, in ascending order of rank.
pub open spec fn prof_weight(p: Proficiency) -> int {
    match p {
        Proficiency::NoProficiency => 0,
        Proficiency::Half => 1,
        Proficiency::Profficient => 2,
        Proficiency::Expert => 3,
    }
}

/// The display order on skills: name, then proficiency rank, then modifier,
/// all ascending.
pub open spec fn spec_skill_cmp(a: SkillV, b: SkillV) -> core::cmp::Ordering {
    if a.name != b.name {
        crate::text::lex_cmp(a.name, b.name)
    } else if a.prof_rank != b.prof_rank {
        int_cmp(prof_weight(a.prof_rank), prof_weight(b.prof_rank))
    } else {
        int_cmp(a.bonus as int, b.bonus as int)
    }
}

impl PartialOrd for Skill {
    fn partial_cmp(&self, other: &Skill) -> (r: Option<core::cmp::Ordering>) {
        if !crate::text::string_eq_str(&self.name, other.name.as_str()) {
            Some(crate::text::str_cmp(self.name.as_str(), other.name.as_str()))
        } else if prof_weight_exec(self.prof_rank) != prof_weight_exec(other.prof_rank) {
            if prof_weight_exec(self.prof_rank) < prof_weight_exec(other.prof_rank) {
                Some(core::cmp::Ordering::Less)
            } else {
                Some(core::cmp::Ordering::Greater)
            }
        } else if self.bonus < other.bonus {
            Some(core::cmp::Ordering::Less)
        } else if self.bonus > other.bonus {
            Some(core::cmp::Ordering::Greater)
        } else {
            Some(core::cmp::Ordering::Equal)
        }
    }
}

impl vstd::std_specs::cmp::PartialOrdSpecImpl for Skill {
    open spec fn obeys_partial_cmp_spec() -> bool {
        true
    }

    open spec fn partial_cmp_spec(&self, other: &Skill) -> Option<core::cmp::Ordering> {
        Some(spec_skill_cmp(self@, other@))
    }
}

/// The numeric weight of a proficiency rank, in ascending order of rank.
pub fn prof_weight_exec(p: Proficiency) -> (r: u8)
    ensures
        r as int == prof_weight(p),
{
    match p {
        Proficiency::NoProficiency => 0,
        Proficiency::Half => 1,
        Proficiency::Profficient => 2,
        Proficiency::Expert => 3,
    }
}

/// The display order on classes: the starting class first, then level
/// descending, then name ascending.
pub open spec fn spec_class_cmp(a: ClassV, b: ClassV) -> core::cmp::Ordering {
    if a.start_class != b.start_class {
        if a.start_class && !b.start_class {
            core::cmp::Ordering::Less
        } else {
            core::cmp::Ordering::Greater
        }
    } else if a.level != b.level {
        int_cmp(b.level as int, a.level as int)
    } else {
        crate::text::lex_cmp(a.name, b.name)
    }
}

impl PartialOrd for Class {
    fn partial_cmp(&self, other: &Class) -> (r: Option<core::cmp::Ordering>) {
        if self.start_class != other.start_class {
            if self.start_class && !other.start_class {
                Some(core::cmp::Ordering::Less)
            } else {
                Some(core::cmp::Ordering::Greater)
            }
        } else if self.level != other.level {
            if other.level < self.level {
                Some(core::cmp::Ordering::Less)
            } else {
                Some(core::cmp::Ordering::Greater)
            }
        } else {
            Some(crate::text::str_cmp(self.name.as_str(), other.name.as_str()))
        }
    }
}

impl vstd::std_specs::cmp::PartialOrdSpecImpl for Class {
    open spec fn obeys_partial_cmp_spec() -> bool {
        true
    }

    open spec fn partial_cmp_spec(&self, other: &Class) -> Option<core::cmp::Ordering> {
        Some(spec_class_cmp(self@, other@))
    }
}

/// The display order on items: name ascending, then quantity ascending.
pub open spec fn spec_item_cmp(a: ItemV, b: ItemV) -> core::cmp::Ordering {
    if a.name != b.name {
        crate::text::lex_cmp(a.name, b.name)
    } else {
        int_cmp(a.quantity as int, b.quantity as int)
    }
}

impl PartialOrd for Item {
    fn partial_cmp(&self, other: &Item) -> (r: Option<core::cmp::Ordering>) {
        if !crate::text::string_eq_str(&self.name, other.name.as_str()) {
            Some(crate::text::str_cmp(self.name.as_str(), other.name.as_str()))
        } else if self.quantity < other.quantity {
            Some(core::cmp::Ordering::Less)
        } else if self.quantity > other.quantity {
            Some(core::cmp::Ordering::Greater)
        } else {
            Some(core::cmp::Ordering::Equal)
        }
    }
}

impl vstd::std_specs::cmp::PartialOrdSpecImpl for Item {
    open spec fn obeys_partial_cmp_spec() -> bool {
        true
    }

    open spec fn partial_cmp_spec(&self, other: &Item) -> Option<core::cmp::Ordering> {
        Some(spec_item_cmp(self@, other@))
    }
}

/// The display order on spell lists: most prepared first, then highest
/// contained level first, then name, save difficulty class and attack bonus
/// ascending.
pub open spec fn spec_spell_list_cmp(a: SpellListV, b: SpellListV) -> core::cmp::Ordering {
    if a.max_prepared != b.max_prepared {
        int_cmp(b.max_prepared as int, a.max_prepared as int)
    } else if spec_max_lvl_from(a.levels, 0, 0) != spec_max_lvl_from(b.levels, 0, 0) {
        int_cmp(spec_max_lvl_from(b.levels, 0, 0) as int, spec_max_lvl_from(a.levels, 0, 0) as int)
    } else if a.name != b.name {
        crate::text::lex_cmp(a.name, b.name)
    } else if a.save_dc != b.save_dc {
        int_cmp(a.save_dc as int, b.save_dc as int)
    } else {
        int_cmp(a.atk_bonus as int, b.atk_bonus as int)
    }
}

impl PartialOrd for SpellList {
    fn partial_cmp(&self, other: &SpellList) -> (r: Option<core::cmp::Ordering>) {
        let own_lvl = self.max_lvl();
        let other_lvl = other.max_lvl();
        if self.max_prepared != other.max_prepared {
            if other.max_prepared < self.max_prepared {
                Some(core::cmp::Ordering::Less)
            } else {
                Some(core::cmp::Ordering::Greater)
            }
        } else if own_lvl != other_lvl {
            if other_lvl < own_lvl {
                Some(core::cmp::Ordering::Less)
            } else {
                Some(core::cmp::Ordering::Greater)
            }
        } else if !crate::text::string_eq_str(&self.name, other.name.as_str()) {
            Some(crate::text::str_cmp(self.name.as_str(), other.name.as_str()))
        } else if self.save_dc != other.save_dc {
            if self.save_dc < other.save_dc {
                Some(core::cmp::Ordering::Less)
            } else {
                Some(core::cmp::Ordering::Greater)
            }
        } else {
            if self.atk_bonus < other.atk_bonus {
                Some(core::cmp::Ordering::Less)
            } else if self.atk_bonus > other.atk_bonus {
                Some(core::cmp::Ordering::Greater)
            } else {
                Some(core::cmp::Ordering::Equal)
            }
        }
    }
}

impl vstd::std_specs::cmp::PartialOrdSpecImpl for SpellList {
    open spec fn obeys_partial_cmp_spec() -> bool {
        true
    }

    open spec fn partial_cmp_spec(&self, other: &SpellList) -> Option<core::cmp::Ordering> {
        Some(spec_spell_list_cmp(self@, other@))
    }
}

/// A parsed character summary, ready for display.
#[derive(Debug, Eq, PartialEq, Default)]
pub struct Character {
    pub name: String,
    pub classes: Vec<Class>,
    pub background: Background,
    pub damage_mults: Vec<DamageMult>,
    pub race: String,
    pub alignment: String,
    pub xp: i64,
    pub ability_scores: Vec<AbilityScore>,
    pub prof_bonus: i64,
    pub saving_throws: Vec<Skill>,
    pub skills: Vec<Skill>,
    pub ac: i64,
    pub passive_bonus: i64,
    pub initiative: i64,
    pub speed: i64,
    pub hit_points: i64,
    pub hit_dice: Vec<Die>,
    pub attacks: Vec<Attack>,
    pub actions: Vec<Action>,
    pub resources: Vec<Resource>,
    pub equipment: Vec<Item>,
    pub traits: (String, String, String, String),
    pub features: Vec<String>,
    pub other_profs: (Vec<String>, Vec<String>, Vec<String>, Vec<String>),
    pub coins: (i64, i64, i64, i64, i64),
    pub spell_lists: Vec<SpellList>,
    pub spell_slots: Vec<i64>,
    pub char_img: Option<String>,
}

/// The view of a character summary.
pub ghost struct CharacterV {
    pub name: Seq<char>,
    pub classes: Seq<ClassV>,
    pub background: BackgroundV,
    pub damage_mults: Seq<DamageMultV>,
    pub race: Seq<char>,
    pub alignment: Seq<char>,
    pub xp: i64,
    pub ability_scores: Seq<AbilityScoreV>,
    pub prof_bonus: i64,
    pub saving_throws: Seq<SkillV>,
    pub skills: Seq<SkillV>,
    pub ac: i64,
    pub passive_bonus: i64,
    pub initiative: i64,
    pub speed: i64,
    pub hit_points: i64,
    pub hit_dice: Seq<Die>,
    pub attacks: Seq<AttackV>,
    pub actions: Seq<ActionV>,
    pub resources: Seq<ResourceV>,
    pub equipment: Seq<ItemV>,
    pub traits: (Seq<char>, Seq<char>, Seq<char>, Seq<char>),
    pub features: Seq<Seq<char>>,
    pub other_profs: (Seq<Seq<char>>, Seq<Seq<char>>, Seq<Seq<char>>, Seq<Seq<char>>),
    pub coins: (i64, i64, i64, i64, i64),
    pub spell_lists: Seq<SpellListV>,
    pub spell_slots: Seq<i64>,
    pub char_img: Option<Seq<char>>,
}

impl View for Character {
    type V = CharacterV;

    open spec fn view(&self) -> CharacterV {
        CharacterV {
            name: self.name@,
            classes: self.classes.deep_view(),
            background: self.background@,
            damage_mults: self.damage_mults.deep_view(),
            race: self.race@,
            alignment: self.alignment@,
            xp: self.xp,
            ability_scores: self.ability_scores.deep_view(),
            prof_bonus: self.prof_bonus,
            saving_throws: self.saving_throws.deep_view(),
            skills: self.skills.deep_view(),
            ac: self.ac,
            passive_bonus: self.passive_bonus,
            initiative: self.initiative,
            speed: self.speed,
            hit_points: self.hit_points,
            hit_dice: self.hit_dice.deep_view(),
            attacks: self.attacks.deep_view(),
            actions: self.actions.deep_view(),
            resources: self.resources.deep_view(),
            equipment: self.equipment.deep_view(),
            traits: (self.traits.0@, self.traits.1@, self.traits.2@, self.traits.3@),
            features: self.features.deep_view(),
            other_profs: (
                self.other_profs.0.deep_view(),
                self.other_profs.1.deep_view(),
                self.other_profs.2.deep_view(),
                self.other_profs.3.deep_view(),
            ),
            coins: self.coins,
            spell_lists: self.spell_lists.deep_view(),
            spell_slots: self.spell_slots@,
            char_img: match self.char_img {
                Some(s) => Some(s@),
                None => None,
            },
        }
    }
}

/// The state the single aggregation pass accumulates: the summary's lists
/// and scalars, the two association lists that damage records and spells
/// resolve against, and the starting-class name once discovered.
pub ghost struct AccV {
    pub ability_scores: Seq<AbilityScoreV>,
    pub skills: Seq<SkillV>,
    pub saving_throws: Seq<SkillV>,
    pub initiative: i64,
    pub prof_bonus: i64,
    pub damage_mults: Seq<DamageMultV>,
    pub passive_bns: i64,
    pub speed: i64,
    pub hit_points: i64,
    pub ac: i64,
    pub traits: (Seq<char>, Seq<char>, Seq<char>, Seq<char>),
    pub attacks: Seq<(Seq<char>, AttackV)>,
    pub actions: Seq<ActionV>,
    pub classes: Seq<ClassV>,
    pub features: Seq<Seq<char>>,
    pub starting_class: Seq<char>,
    pub resources: Seq<ResourceV>,
    pub equipment: Seq<ItemV>,
    pub hit_dice: Seq<Die>,
    pub background: BackgroundV,
    pub race: Seq<char>,
    pub coins: (i64, i64, i64, i64, i64),
    pub other_profs: (Seq<Seq<char>>, Seq<Seq<char>>, Seq<Seq<char>>, Seq<Seq<char>>),
    pub spell_lists: Seq<(Seq<char>, SpellListV)>,
    pub spell_slots: Seq<i64>,
}

/// The empty accumulator the pass starts from.
pub open spec fn acc_init() -> AccV {
    AccV {
        ability_scores: Seq::empty(),
        skills: Seq::empty(),
        saving_throws: Seq::empty(),
        initiative: 0,
        prof_bonus: 0,
        damage_mults: Seq::empty(),
        passive_bns: 0,
        speed: 0,
        hit_points: 0,
        ac: 0,
        traits: (Seq::empty(), Seq::empty(), Seq::empty(), Seq::empty()),
        attacks: Seq::empty(),
        actions: Seq::empty(),
        classes: Seq::empty(),
        features: Seq::empty(),
        starting_class: Seq::empty(),
        resources: Seq::empty(),
        equipment: Seq::empty(),
        hit_dice: Seq::empty(),
        background: BackgroundV {
            name: Seq::empty(),
            background_feature: FeatureV { name: Seq::empty(), description: Seq::empty() },
        },
        race: Seq::empty(),
        coins: (0, 0, 0, 0, 0),
        other_profs: (Seq::empty(), Seq::empty(), Seq::empty(), Seq::empty()),
        spell_lists: Seq::empty(),
        spell_slots: seq![0i64, 0i64, 0i64, 0i64, 0i64, 0i64, 0i64, 0i64, 0i64],
    }
}

/// The first position among leveled buckets holding `lvl`, or the length
/// when there is none.
pub open spec fn level_index(levels: Seq<SpellLevelV>, lvl: i64) -> int
    decreases levels.len(),
{
    if levels.len() == 0 {
        0
    } else if levels[0].level == lvl {
        0
    } else {
        1 + level_index(levels.skip(1), lvl)
    }
}

proof fn lemma_level_index_agrees(levels: Seq<SpellLevelV>, lvl: i64, j: int)
    requires
        0 <= j <= levels.len(),
        forall|k: int| 0 <= k < j ==> (#[trigger] levels[k]).level != lvl,
        j < levels.len() ==> levels[j].level == lvl,
    ensures
        level_index(levels, lvl) == j,
    decreases levels.len(),
{
    if levels.len() > 0 {
        if j == 0 {
        } else {
            assert(forall|k: int|
                0 <= k < j - 1 ==> (#[trigger] levels.skip(1)[k]) == levels[k + 1]);
            lemma_level_index_agrees(levels.skip(1), lvl, j - 1);
        }
    }
}

/// How one record changes the accumulator, or the error that aborts the
/// pass. A removed record changes nothing; an overridden one, wherever its
/// shape carries that flag, changes nothing either.
pub open spec fn spec_step(acc: AccV, p: crate::flat_model::FlatProp) -> Result<AccV, Seq<char>> {
    if p.removed {
        Ok(acc)
    } else {
        match p.prop_type {
            PropType::Attribute { name, attribute_type, total, value, overridden, .. } => {
                if overridden {
                    Ok(acc)
                } else {
                    spec_step_attribute(acc, p, name, attribute_type, total, value)
                }
            },
            PropType::Skill { name, skill_type, value, passive_bonus, proficiency, overridden, .. } => {
                if overridden {
                    Ok(acc)
                } else if name@ == "Initiative"@ {
                    Ok(AccV { initiative: value, ..acc })
                } else if skill_type@ == "save"@ {
                    Ok(
                        AccV {
                            saving_throws: acc.saving_throws.push(
                                SkillV {
                                    bonus: value,
                                    name: name@,
                                    prof_rank: spec_proficiency_rank(proficiency),
                                },
                            ),
                            ..acc
                        },
                    )
                } else if skill_type@ == "skill"@ {
                    let acc1 = if name@ == "Perception"@ {
                        AccV { passive_bns: passive_bonus, ..acc }
                    } else {
                        acc
                    };
                    Ok(
                        AccV {
                            skills: acc1.skills.push(
                                SkillV {
                                    bonus: value,
                                    name: name@,
                                    prof_rank: spec_proficiency_rank(proficiency),
                                },
                            ),
                            ..acc1
                        },
                    )
                } else if skill_type@ == "armor"@ {
                    Ok(
                        AccV {
                            other_profs: (
                                acc.other_profs.0.push(name@),
                                acc.other_profs.1,
                                acc.other_profs.2,
                                acc.other_profs.3,
                            ),
                            ..acc
                        },
                    )
                } else if skill_type@ == "weapon"@ {
                    Ok(
                        AccV {
                            other_profs: (
                                acc.other_profs.0,
                                acc.other_profs.1.push(name@),
                                acc.other_profs.2,
                                acc.other_profs.3,
                            ),
                            ..acc
                        },
                    )
                } else if skill_type@ == "language"@ {
                    Ok(
                        AccV {
                            other_profs: (
                                acc.other_profs.0,
                                acc.other_profs.1,
                                acc.other_profs.2.push(name@),
                                acc.other_profs.3,
                            ),
                            ..acc
                        },
                    )
                } else if skill_type@ == "tool"@ {
                    Ok(
                        AccV {
                            other_profs: (
                                acc.other_profs.0,
                                acc.other_profs.1,
                                acc.other_profs.2,
                                acc.other_profs.3.push(name@),
                            ),
                            ..acc
                        },
                    )
                } else {
                    Ok(acc)
                }
            },
            PropType::Feature { name, description, .. } => {
                if spec_tags_mention(p.tags@, "background"@) {
                    Ok(
                        AccV {
                            background: BackgroundV {
                                name: acc.background.name,
                                background_feature: FeatureV {
                                    name: name@,
                                    description: match description {
                                        Some(c) => c.text@,
                                        None => Seq::<char>::empty(),
                                    },
                                },
                            },
                            ..acc
                        },
                    )
                } else {
                    Ok(AccV { features: acc.features.push(name@), ..acc })
                }
            },
            PropType::SpellList { name, max_prepared, dc, attack_roll_bonus, .. } => {
                let mp = match max_prepared {
                    Some(c) => match c.value {
                        PropVal::Number(k) => Ok(k),
                        _ => Err(type_missmatch_text("SpellList max prepared"@, name@, c.value)),
                    },
                    None => Ok(0),
                };
                let dcv = match dc {
                    Some(c) => match c.value {
                        PropVal::Number(k) => Ok(k),
                        _ => Err(type_missmatch_text("SpellList dc"@, name@, c.value)),
                    },
                    None => Ok(0),
                };
                let ab = match attack_roll_bonus {
                    Some(c) => match c.value {
                        PropVal::Number(k) => Ok(k),
                        _ => Err(type_missmatch_text("SpellList attack bonus"@, name@, c.value)),
                    },
                    None => Ok(0),
                };
                if mp is Err {
                    Err(mp.get_Err_0())
                } else if dcv is Err {
                    Err(dcv.get_Err_0())
                } else if ab is Err {
                    Err(ab.get_Err_0())
                } else if assoc_index(acc.spell_lists, p.id@) < acc.spell_lists.len() {
                    Ok(acc)
                } else {
                    Ok(
                        AccV {
                            spell_lists: acc.spell_lists.push(
                                (
                                    p.id@,
                                    SpellListV {
                                        levels: Seq::empty(),
                                        name: name@,
                                        save_dc: dcv.get_Ok_0(),
                                        atk_bonus: ab.get_Ok_0(),
                                        max_prepared: mp.get_Ok_0(),
                                    },
                                ),
                            ),
                            ..acc
                        },
                    )
                }
            },
            PropType::Spell {
                name,
                always_prepared,
                prepared,
                casting_time,
                range,
                duration,
                verbal,
                somatic,
                concentration,
                material,
                ritual,
                level,
                school,
                overridden,
                ..
            } => {
                if overridden || p.deactivated_by_ancestor == Some(true) {
                    Ok(acc)
                } else {
                    let slid = spec_spell_list_id(acc.spell_lists, p.ancestors@);
                    let j = assoc_index(acc.spell_lists, slid);
                    if j >= acc.spell_lists.len() {
                        Ok(acc)
                    } else {
                        let spv = SpellV {
                            name: name@,
                            level,
                            casting_time: spec_casting_time(
                                match casting_time {
                                    Some(s) => s@,
                                    None => "long"@,
                                },
                            ),
                            duration: spec_norm_duration(
                                match duration {
                                    Some(s) => s@,
                                    None => Seq::<char>::empty(),
                                },
                            ),
                            school: school@,
                            range: crate::text::replace_seq(
                                spec_norm_range(
                                    match range {
                                        Some(s) => s@,
                                        None => Seq::<char>::empty(),
                                    },
                                ),
                                " * (1 + spellSniper)"@,
                                ""@,
                            ),
                            vscr: (verbal, somatic, concentration, ritual),
                            material: match material {
                                Some(s) => s@,
                                None => Seq::<char>::empty(),
                            },
                            prepd: if always_prepared {
                                SpellPrep::AlwaysPrepared
                            } else if prepared {
                                SpellPrep::Prepared
                            } else {
                                SpellPrep::NotPrepared
                            },
                        };
                        let list = acc.spell_lists[j].1;
                        let k = level_index(list.levels, level);
                        let levels1 = if k < list.levels.len() {
                            list.levels.update(
                                k,
                                SpellLevelV {
                                    level: list.levels[k].level,
                                    spells: list.levels[k].spells.push(spv),
                                },
                            )
                        } else {
                            list.levels.push(SpellLevelV { level, spells: seq![spv] })
                        };
                        Ok(
                            AccV {
                                spell_lists: acc.spell_lists.update(
                                    j,
                                    (acc.spell_lists[j].0, SpellListV { levels: levels1, ..list }),
                                ),
                                ..acc
                            },
                        )
                    }
                }
            },
            PropType::DamageMultiplier { damage_types, value, .. } => {
                if value.hundredths == 0 {
                    Ok(
                        AccV {
                            damage_mults: acc.damage_mults + damage_types.deep_view().map_values(
                                |t: Seq<char>| DamageMultV::Immune(t),
                            ),
                            ..acc
                        },
                    )
                } else if value.hundredths == 50 {
                    Ok(
                        AccV {
                            damage_mults: acc.damage_mults + damage_types.deep_view().map_values(
                                |t: Seq<char>| DamageMultV::Resist(t),
                            ),
                            ..acc
                        },
                    )
                } else if value.hundredths == 200 {
                    Ok(
                        AccV {
                            damage_mults: acc.damage_mults + damage_types.deep_view().map_values(
                                |t: Seq<char>| DamageMultV::Vuln(t),
                            ),
                            ..acc
                        },
                    )
                } else {
                    Ok(acc)
                }
            },
            PropType::Note { name, summary, .. } => {
                let text = match summary {
                    Some(t) => t.text@,
                    None => Seq::<char>::empty(),
                };
                if name@ == "Flaws"@ {
                    Ok(AccV { traits: (acc.traits.0, acc.traits.1, acc.traits.2, text), ..acc })
                } else if name@ == "Ideals"@ {
                    Ok(AccV { traits: (acc.traits.0, text, acc.traits.2, acc.traits.3), ..acc })
                } else if name@ == "Personality Traits"@ {
                    Ok(AccV { traits: (text, acc.traits.1, acc.traits.2, acc.traits.3), ..acc })
                } else if name@ == "Bonds"@ {
                    Ok(AccV { traits: (acc.traits.0, acc.traits.1, text, acc.traits.3), ..acc })
                } else {
                    Ok(acc)
                }
            },
            PropType::Action { name, action_type, attack_roll, uses, overridden, .. } => {
                if overridden || p.deactivated_by_ancestor == Some(true) {
                    Ok(acc)
                } else if action_type@ == "attack"@ && !p.inactive {
                    let bonus = match attack_roll {
                        Some(c) => match c.value {
                            PropVal::Number(k) => Ok(k),
                            _ => Err(type_missmatch_text("Attack roll"@, name@, c.value)),
                        },
                        None => Ok(0),
                    };
                    match bonus {
                        Err(e) => Err(e),
                        Ok(b) => {
                            let atk = AttackV {
                                name: name@,
                                bonus: AtkBonus::Bonus(b),
                                damage: Seq::empty(),
                            };
                            let j = assoc_index(acc.attacks, p.id@);
                            if j < acc.attacks.len() {
                                Ok(
                                    AccV {
                                        attacks: acc.attacks.update(j, (acc.attacks[j].0, atk)),
                                        ..acc
                                    },
                                )
                            } else {
                                Ok(AccV { attacks: acc.attacks.push((p.id@, atk)), ..acc })
                            }
                        },
                    }
                } else {
                    let uses_v = match uses {
                        Some(c) => match c.value {
                            PropVal::Number(k) => Ok(k),
                            _ => Err(type_missmatch_text("Action uses"@, name@, c.value)),
                        },
                        None => Ok(-1i64),
                    };
                    match uses_v {
                        Err(e) => Err(e),
                        Ok(u) => {
                            if action_type@ == "event"@ {
                                Ok(acc)
                            } else {
                                let typ = if action_type@ == "free"@ {
                                    ActionTypeV::Free
                                } else if action_type@ == "bonus"@ {
                                    ActionTypeV::Bonus
                                } else if action_type@ == "reaction"@ {
                                    ActionTypeV::Reaction
                                } else if action_type@ == "action"@ {
                                    ActionTypeV::Action
                                } else if action_type@ == "long"@ {
                                    ActionTypeV::Long("lng"@)
                                } else {
                                    ActionTypeV::Action
                                };
                                Ok(
                                    AccV {
                                        actions: acc.actions.push(
                                            ActionV { name: name@, typ, uses: u },
                                        ),
                                        ..acc
                                    },
                                )
                            }
                        },
                    }
                }
            },
            PropType::Damage { amount, damage_type, .. } => {
                let die_txt = match amount {
                    Some(c) => prop_val_text(c.value),
                    None => "0d0"@,
                };
                let bonus = match amount {
                    Some(c) => spec_effects_bonus(c.effects@, 0, 0),
                    None => 0,
                };
                let dmg = die_txt + (if bonus >= 0 {
                    "+"@
                } else {
                    Seq::<char>::empty()
                }) + dec_int(bonus as int) + "["@ + spec_abbrev_damage_type(damage_type@) + "]"@;
                let j = assoc_index(acc.attacks, p.parent.id@);
                if j < acc.attacks.len() {
                    let a = acc.attacks[j].1;
                    Ok(
                        AccV {
                            attacks: acc.attacks.update(
                                j,
                                (
                                    acc.attacks[j].0,
                                    AttackV { damage: add_dmg_text(a.damage, dmg), ..a },
                                ),
                            ),
                            ..acc
                        },
                    )
                } else {
                    Ok(acc)
                }
            },
            PropType::Class { name, level, .. } => {
                Ok(
                    AccV {
                        classes: acc.classes.push(
                            ClassV { name: name@, level, start_class: false },
                        ),
                        ..acc
                    },
                )
            },
            PropType::Item { name, plural, quantity, requires_attunement, .. } => {
                let low = crate::text::lower(name@);
                if crate::text::contains_seq(low, "piece"@) {
                    if crate::text::contains_seq(low, "platinum"@) {
                        Ok(
                            AccV {
                                coins: (
                                    acc.coins.0,
                                    acc.coins.1,
                                    acc.coins.2,
                                    acc.coins.3,
                                    quantity,
                                ),
                                ..acc
                            },
                        )
                    } else if crate::text::contains_seq(low, "gold"@) {
                        Ok(
                            AccV {
                                coins: (
                                    acc.coins.0,
                                    acc.coins.1,
                                    acc.coins.2,
                                    quantity,
                                    acc.coins.4,
                                ),
                                ..acc
                            },
                        )
                    } else if crate::text::contains_seq(low, "electrum"@) {
                        Ok(
                            AccV {
                                coins: (
                                    acc.coins.0,
                                    acc.coins.1,
                                    quantity,
                                    acc.coins.3,
                                    acc.coins.4,
                                ),
                                ..acc
                            },
                        )
                    } else if crate::text::contains_seq(low, "silver"@) {
                        Ok(
                            AccV {
                                coins: (
                                    acc.coins.0,
                                    quantity,
                                    acc.coins.2,
                                    acc.coins.3,
                                    acc.coins.4,
                                ),
                                ..acc
                            },
                        )
                    } else if crate::text::contains_seq(low, "copper"@) {
                        Ok(
                            AccV {
                                coins: (
                                    quantity,
                                    acc.coins.1,
                                    acc.coins.2,
                                    acc.coins.3,
                                    acc.coins.4,
                                ),
                                ..acc
                            },
                        )
                    } else {
                        Ok(acc)
                    }
                } else {
                    Ok(
                        AccV {
                            equipment: acc.equipment.push(
                                ItemV {
                                    quantity,
                                    name: name@,
                                    plural_name: plural@,
                                    requires_attunement,
                                },
                            ),
                            ..acc
                        },
                    )
                }
            },
            PropType::SlotFiller { name, .. } => {
                if spec_tags_have(p.tags@, "background"@) {
                    Ok(
                        AccV {
                            background: BackgroundV {
                                name: name@,
                                background_feature: FeatureV {
                                    name: Seq::empty(),
                                    description: Seq::empty(),
                                },
                            },
                            ..acc
                        },
                    )
                } else {
                    Ok(acc)
                }
            },
            PropType::Constant { variable_name, calculation, .. } => {
                let calc = match calculation {
                    Some(c) => c@,
                    None => Seq::<char>::empty(),
                };
                let stripped = crate::text::replace_seq(calc, "\""@, ""@);
                match variable_name {
                    Some(vn) => {
                        if vn@ == "race"@ {
                            if acc.race.len() == 0 {
                                Ok(AccV { race: stripped, ..acc })
                            } else {
                                Ok(acc)
                            }
                        } else if vn@ == "subRace"@ {
                            Ok(AccV { race: stripped, ..acc })
                        } else if vn@ == "startingClass"@ {
                            Ok(AccV { starting_class: stripped, ..acc })
                        } else {
                            Ok(acc)
                        }
                    },
                    None => Ok(acc),
                }
            },
            _ => Ok(acc),
        }
    }
}

/// The attribute shapes' contribution to the accumulator.
pub open spec fn spec_step_attribute(
    acc: AccV,
    p: crate::flat_model::FlatProp,
    name: String,
    attribute_type: crate::generic_model::AttributeType,
    total: PropVal,
    value: PropVal,
) -> Result<AccV, Seq<char>> {
    match attribute_type {
        AttributeType::Ability { .. } => match value {
            PropVal::Number(score) => Ok(
                AccV {
                    ability_scores: acc.ability_scores.push(
                        AbilityScoreV { score, name: name@ },
                    ),
                    ..acc
                },
            ),
            _ => Err(attribute_type_missmatch_text(name@, value)),
        },
        AttributeType::HitDice { hit_dice_size, .. } => {
            if spec_die_digits(hit_dice_size@) is None {
                Err(missing_text("hit dice size"@, name@))
            } else {
                match spec_die_size(hit_dice_size@) {
                    Err(e) => Err(crate::text::parse_err_text(e)),
                    Ok(size) => match value {
                        PropVal::Number(num) => Ok(
                            AccV { hit_dice: acc.hit_dice.push(Die { size, num }), ..acc },
                        ),
                        _ => Err(
                            "Number of hitdice, "@ + prop_val_text(value)
                                + ", has incorrect type"@,
                        ),
                    },
                }
            }
        },
        AttributeType::SpellSlot { spell_slot_level } => {
            if p.inactive {
                Ok(acc)
            } else {
                match spell_slot_level {
                    None => Err(missing_text("Spell Slot level"@, name@)),
                    Some(c) => match c.value {
                        PropVal::Number(lvl) => match value {
                            PropVal::Number(num) => {
                                if 1 <= lvl <= 9 {
                                    Ok(
                                        AccV {
                                            spell_slots: acc.spell_slots.update(
                                                lvl - 1,
                                                spec_sat_add(
                                                    acc.spell_slots[lvl - 1] as int,
                                                    num as int,
                                                ),
                                            ),
                                            ..acc
                                        },
                                    )
                                } else {
                                    Ok(acc)
                                }
                            },
                            _ => Err(attribute_type_missmatch_text(name@, value)),
                        },
                        _ => Err(type_missmatch_text("Spell Slot level"@, name@, c.value)),
                    },
                }
            }
        },
        AttributeType::Resource {  } => Ok(
            AccV {
                resources: acc.resources.push(
                    ResourceV {
                        name: name@,
                        total: match total {
                            PropVal::Number(k) => k,
                            _ => 0,
                        },
                    },
                ),
                ..acc
            },
        ),
        AttributeType::HealthBar { .. } => {
            if name@ == "Hit Points"@ {
                match value {
                    PropVal::Number(k) => Ok(AccV { hit_points: k, ..acc }),
                    _ => Err(type_missmatch_text("Hit Points"@, ""@, value)),
                }
            } else {
                Ok(acc)
            }
        },
        _ => {
            if name@ == "Proficiency Bonus"@ {
                match value {
                    PropVal::Number(k) => Ok(AccV { prof_bonus: k, ..acc }),
                    _ => Err(type_missmatch_text("Proficiency Bonus"@, ""@, value)),
                }
            } else if name@ == "Speed"@ {
                match total {
                    PropVal::Number(k) => Ok(AccV { speed: k, ..acc }),
                    _ => Err(type_missmatch_text("Speed"@, ""@, value)),
                }
            } else if name@ == "Armor Class"@ {
                match total {
                    PropVal::Number(k) => Ok(AccV { ac: k, ..acc }),
                    _ => Err(type_missmatch_text("AC"@, ""@, value)),
                }
            } else {
                Ok(acc)
            }
        },
    }
}

/// Fold the records from position `i` on into the accumulator, stopping at
/// the first error.
pub open spec fn spec_fold(
    acc: AccV,
    ps: Seq<crate::flat_model::FlatProp>,
    i: int,
) -> Result<AccV, Seq<char>>
    decreases ps.len() - i,
{
    if i < 0 || i >= ps.len() {
        Ok(acc)
    } else {
        match spec_step(acc, ps[i]) {
            Ok(a) => spec_fold(a, ps, i + 1),
            Err(e) => Err(e),
        }
    }
}

/// The classes with the first whose lowercased name equals `target` marked
/// as the starting class; marking stops at that first match.
pub open spec fn spec_mark_start(classes: Seq<ClassV>, i: int, target: Seq<char>) -> Seq<ClassV>
    decreases classes.len() - i,
{
    if i < 0 || i >= classes.len() {
        classes
    } else if crate::text::lower(classes[i].name) == target {
        classes.update(i, ClassV { start_class: true, ..classes[i] })
    } else {
        spec_mark_start(classes, i + 1, target)
    }
}

/// The accumulated attacks from position `i` on whose names are non-empty,
/// in order.
pub open spec fn spec_final_attacks(s: Seq<(Seq<char>, AttackV)>, i: int) -> Seq<AttackV>
    decreases s.len() - i,
{
    if i < 0 || i >= s.len() {
        Seq::empty()
    } else {
        (if s[i].1.name.len() > 0 {
            seq![s[i].1]
        } else {
            Seq::empty()
        }) + spec_final_attacks(s, i + 1)
    }
}

/// The accumulated spell lists from position `i` on whose names are
/// non-empty, in order.
pub open spec fn spec_final_spell_lists(s: Seq<(Seq<char>, SpellListV)>, i: int) -> Seq<SpellListV>
    decreases s.len() - i,
{
    if i < 0 || i >= s.len() {
        Seq::empty()
    } else {
        (if s[i].1.name.len() > 0 {
            seq![s[i].1]
        } else {
            Seq::empty()
        }) + spec_final_spell_lists(s, i + 1)
    }
}

/// The summary a finished pass yields: the creature's own details, the
/// accumulated lists, the starting class marked by a case- and
/// quote-insensitive name match, and attacks and spell lists kept when
/// named.
pub open spec fn spec_finish(info: CreatureInfo, acc: AccV) -> CharacterV {
    let target = crate::text::lower(
        crate::text::replace_seq(
            crate::text::replace_seq(acc.starting_class, "\""@, ""@),
            "'"@,
            ""@,
        ),
    );
    CharacterV {
        name: info.name@,
        classes: spec_mark_start(acc.classes, 0, target),
        background: acc.background,
        damage_mults: acc.damage_mults,
        race: acc.race,
        alignment: info.alignment@,
        xp: spec_clamp_i64(info.denormalized_stats.xp as int),
        ability_scores: acc.ability_scores,
        prof_bonus: acc.prof_bonus,
        saving_throws: acc.saving_throws,
        skills: acc.skills,
        ac: acc.ac,
        passive_bonus: acc.passive_bns,
        initiative: acc.initiative,
        speed: acc.speed,
        hit_points: acc.hit_points,
        hit_dice: acc.hit_dice,
        attacks: spec_final_attacks(acc.attacks, 0),
        actions: acc.actions,
        resources: acc.resources,
        equipment: acc.equipment,
        traits: acc.traits,
        features: acc.features,
        other_profs: acc.other_profs,
        coins: acc.coins,
        spell_lists: spec_final_spell_lists(acc.spell_lists, 0),
        spell_slots: acc.spell_slots,
        char_img: match info.avatar_picture {
            Some(s) => Some(s@),
            None => match info.picture {
                Some(s) => Some(s@),
                None => None,
            },
        },
    }
}

/// The summary a flat character folds to, or the error that aborts the
/// pass: the records are sorted by order, stably, then folded once; a
/// character without a creature entry has no summary.
pub open spec fn spec_from_flat_char(ch: crate::flat_model::FlatCharacter) -> Result<
    CharacterV,
    Seq<char>,
> {
    if ch.creatures@.len() == 0 {
        Err("missing character info"@)
    } else {
        match spec_fold(
            acc_init(),
            crate::flat_model::sort_by_order(ch.creature_properties@),
            0,
        ) {
            Ok(acc) => Ok(spec_finish(ch.creatures@[0], acc)),
            Err(e) => Err(e),
        }
    }
}

/// The working state of a pass, one field per accumulated output.
struct Acc {
    ability_scores: Vec<AbilityScore>,
    skills: Vec<Skill>,
    saving_throws: Vec<Skill>,
    initiative: i64,
    prof_bonus: i64,
    damage_mults: Vec<DamageMult>,
    passive_bns: i64,
    speed: i64,
    hit_points: i64,
    ac: i64,
    traits: (String, String, String, String),
    attacks: Vec<(String, Attack)>,
    actions: Vec<Action>,
    classes: Vec<Class>,
    features: Vec<String>,
    starting_class: String,
    resources: Vec<Resource>,
    equipment: Vec<Item>,
    hit_dice: Vec<Die>,
    background: Background,
    race: String,
    coins: (i64, i64, i64, i64, i64),
    other_profs: (Vec<String>, Vec<String>, Vec<String>, Vec<String>),
    spell_lists: Vec<(String, SpellList)>,
    spell_slots: Vec<i64>,
}

impl View for Acc {
    type V = AccV;

    closed spec fn view(&self) -> AccV {
        AccV {
            ability_scores: self.ability_scores.deep_view(),
            skills: self.skills.deep_view(),
            saving_throws: self.saving_throws.deep_view(),
            initiative: self.initiative,
            prof_bonus: self.prof_bonus,
            damage_mults: self.damage_mults.deep_view(),
            passive_bns: self.passive_bns,
            speed: self.speed,
            hit_points: self.hit_points,
            ac: self.ac,
            traits: (self.traits.0@, self.traits.1@, self.traits.2@, self.traits.3@),
            attacks: self.attacks.deep_view(),
            actions: self.actions.deep_view(),
            classes: self.classes.deep_view(),
            features: self.features.deep_view(),
            starting_class: self.starting_class@,
            resources: self.resources.deep_view(),
            equipment: self.equipment.deep_view(),
            hit_dice: self.hit_dice.deep_view(),
            background: self.background@,
            race: self.race@,
            coins: self.coins,
            other_profs: (
                self.other_profs.0.deep_view(),
                self.other_profs.1.deep_view(),
                self.other_profs.2.deep_view(),
                self.other_profs.3.deep_view(),
            ),
            spell_lists: self.spell_lists.deep_view(),
            spell_slots: self.spell_slots@,
        }
    }
}

/// The empty working state.
fn acc_new() -> (r: Acc)
    ensures
        r@ == acc_init(),
{
    let mut spell_slots: Vec<i64> = Vec::new();
    let mut i: usize = 0;
    while i < 9
        invariant
            i <= 9,
            spell_slots@.len() == i,
            forall|k: int| 0 <= k < i ==> spell_slots@[k] == 0i64,
        decreases 9 - i,
    {
        spell_slots.push(0i64);
        i = i + 1;
    }
    let r = Acc {
        ability_scores: Vec::new(),
        skills: Vec::new(),
        saving_throws: Vec::new(),
        initiative: 0,
        prof_bonus: 0,
        damage_mults: Vec::new(),
        passive_bns: 0,
        speed: 0,
        hit_points: 0,
        ac: 0,
        traits: (String::new(), String::new(), String::new(), String::new()),
        attacks: Vec::new(),
        actions: Vec::new(),
        classes: Vec::new(),
        features: Vec::new(),
        starting_class: String::new(),
        resources: Vec::new(),
        equipment: Vec::new(),
        hit_dice: Vec::new(),
        background: Background {
            name: String::new(),
            background_feature: Feature { name: String::new(), description: String::new() },
        },
        race: String::new(),
        coins: (0, 0, 0, 0, 0),
        other_profs: (Vec::new(), Vec::new(), Vec::new(), Vec::new()),
        spell_lists: Vec::new(),
        spell_slots,
    };
    proof {
        assert(r@.spell_slots =~= acc_init().spell_slots);
        assert(r@.ability_scores =~= acc_init().ability_scores);
        assert(r@.skills =~= acc_init().skills);
        assert(r@.saving_throws =~= acc_init().saving_throws);
        assert(r@.damage_mults =~= acc_init().damage_mults);
        assert(r@.attacks =~= acc_init().attacks);
        assert(r@.actions =~= acc_init().actions);
        assert(r@.classes =~= acc_init().classes);
        assert(r@.features =~= acc_init().features);
        assert(r@.resources =~= acc_init().resources);
        assert(r@.equipment =~= acc_init().equipment);
        assert(r@.hit_dice =~= acc_init().hit_dice);
        assert(r@.spell_lists =~= acc_init().spell_lists);
        assert(r@.other_profs.0 =~= acc_init().other_profs.0);
        assert(r@.other_profs.1 =~= acc_init().other_profs.1);
        assert(r@.other_profs.2 =~= acc_init().other_profs.2);
        assert(r@.other_profs.3 =~= acc_init().other_profs.3);
    }
    r
}

impl Character {
    /// Fold a flat character into its display-ready summary.
    ///
    /// The property records are sorted by `order`, stably, and folded once,
    /// dispatching on their shapes; damage records attach to the attack of
    /// their parent id, spells to the nearest ancestor registered as a spell
    /// list, and the starting class is marked after the pass from a
    /// separately collected constant. A wrongly-shaped embedded value aborts
    /// the pass with a message naming the record; so does the absence of a
    /// creature entry.
    #[verifier::rlimit(100)]
    pub fn from_flat_char(flat_char: crate::flat_model::FlatCharacter) -> (r: Result<
        Character,
        String,
    >)
        ensures
            match r {
                Ok(c) => spec_from_flat_char(flat_char) == Ok::<CharacterV, Seq<char>>(c@),
                Err(e) => spec_from_flat_char(flat_char) == Err::<CharacterV, Seq<char>>(e@),
            },
    {
        let ghost chv = flat_char;
        let mut creatures = flat_char.creatures;
        if creatures.len() == 0 {
            let e = "missing character info".to_owned();
            proof {
                assert(chv.creatures@.len() == 0);
                assert(spec_from_flat_char(chv) == Err::<CharacterV, Seq<char>>(e@));
            }
            return Err(e);
        }
        let info = creatures.remove(0);
        proof {
            assert(info == chv.creatures@[0]);
        }
        let mut rest = crate::flat_model::sort_props(flat_char.creature_properties);
        let ghost s0 = rest@;
        let mut acc = acc_new();
        proof {
            assert(s0.subrange(0, s0.len() as int) =~= s0);
        }
        let ghost done: int = 0;
        while rest.len() > 0
            invariant
                0 <= done <= s0.len(),
                rest@ == s0.subrange(done, s0.len() as int),
                s0 == crate::flat_model::sort_by_order(chv.creature_properties@),
                chv == flat_char,
                chv.creatures@.len() > 0,
                acc@.spell_slots.len() == 9,
                spec_fold(acc@, s0, done) == spec_fold(acc_init(), s0, 0),
            decreases rest@.len(),
        {
            let p = rest.remove(0);
            let ghost pval = p;
            let ghost a0 = acc@;
            proof {
                assert(pval == s0[done]);
                assert(rest@ =~= s0.subrange(done + 1, s0.len() as int));
            }
            let crate::flat_model::FlatProp {
                id,
                prop_type,
                tags,
                parent,
                ancestors,
                inactive,
                deactivated_by_ancestor,
                removed,
                ..
            } = p;
            let deact: bool = match deactivated_by_ancestor {
                Some(true) => true,
                _ => false,
            };
            if removed {
            } else {
                match prop_type {
                    PropType::Attribute { name, attribute_type, total, value, overridden, .. } => {
                        match step_attribute(
                            &mut acc,
                            name,
                            attribute_type,
                            total,
                            value,
                            overridden,
                            inactive,
                            Ghost(pval),
                        ) {
                            Ok(_) => {},
                            Err(e) => {
                                proof {
                                    assert(spec_fold(a0, s0, done) == Err::<AccV, Seq<char>>(e@));
                                    assert(spec_from_flat_char(chv) == Err::<CharacterV, Seq<char>>(e@));
                                }
                                return Err(e);
                            },
                        }
                    },
                    PropType::Skill {
                        name,
                        skill_type,
                        value,
                        passive_bonus,
                        proficiency,
                        overridden,
                        ..
                    } => {
                        step_skill(
                            &mut acc,
                            name,
                            skill_type,
                            value,
                            passive_bonus,
                            proficiency,
                            overridden,
                            Ghost(pval),
                        );
                    },
                    PropType::Feature { name, description, .. } => {
                        step_feature(&mut acc, name, description, &tags, Ghost(pval));
                    },
                    PropType::SpellList { name, max_prepared, dc, attack_roll_bonus, .. } => {
                        match step_spell_list(
                            &mut acc,
                            name,
                            max_prepared,
                            dc,
                            attack_roll_bonus,
                            id,
                            Ghost(pval),
                        ) {
                            Ok(_) => {},
                            Err(e) => {
                                proof {
                                    assert(spec_fold(a0, s0, done) == Err::<AccV, Seq<char>>(e@));
                                    assert(spec_from_flat_char(chv) == Err::<CharacterV, Seq<char>>(e@));
                                }
                                return Err(e);
                            },
                        }
                    },
                    PropType::Spell {
                        name,
                        always_prepared,
                        prepared,
                        casting_time,
                        range,
                        duration,
                        verbal,
                        somatic,
                        concentration,
                        material,
                        ritual,
                        level,
                        school,
                        overridden,
                        ..
                    } => {
                        step_spell(
                            &mut acc,
                            name,
                            always_prepared,
                            prepared,
                            casting_time,
                            range,
                            duration,
                            verbal,
                            somatic,
                            concentration,
                            material,
                            ritual,
                            level,
                            school,
                            overridden,
                            deact,
                            &ancestors,
                            Ghost(pval),
                        );
                    },
                    PropType::DamageMultiplier { damage_types, value, .. } => {
                        step_damage_multiplier(&mut acc, damage_types, value, Ghost(pval));
                    },
                    PropType::Note { name, summary, .. } => {
                        step_note(&mut acc, name, summary, Ghost(pval));
                    },
                    PropType::Action { name, action_type, attack_roll, uses, overridden, .. } => {
                        match step_action(
                            &mut acc,
                            name,
                            action_type,
                            attack_roll,
                            uses,
                            overridden,
                            deact,
                            inactive,
                            id,
                            Ghost(pval),
                        ) {
                            Ok(_) => {},
                            Err(e) => {
                                proof {
                                    assert(spec_fold(a0, s0, done) == Err::<AccV, Seq<char>>(e@));
                                    assert(spec_from_flat_char(chv) == Err::<CharacterV, Seq<char>>(e@));
                                }
                                return Err(e);
                            },
                        }
                    },
                    PropType::Damage { amount, damage_type, .. } => {
                        step_damage(&mut acc, amount, damage_type, parent, Ghost(pval));
                    },
                    PropType::Class { name, level, .. } => {
                        step_class(&mut acc, name, level, Ghost(pval));
                    },
                    PropType::Item { name, plural, quantity, requires_attunement, .. } => {
                        step_item(&mut acc, name, plural, quantity, requires_attunement, Ghost(pval));
                    },
                    PropType::SlotFiller { name, .. } => {
                        step_slot_filler(&mut acc, name, &tags, Ghost(pval));
                    },
                    PropType::Constant { variable_name, calculation, .. } => {
                        step_constant(&mut acc, variable_name, calculation, Ghost(pval));
                    },
                    _ => {},
                }
            }
            proof {
                assert(spec_step(a0, pval) == Ok::<AccV, Seq<char>>(acc@));
            }
            proof {
                done = done + 1;
            }
        }
        proof {
            assert(spec_fold(acc@, s0, done) == Ok::<AccV, Seq<char>>(acc@));
            assert(spec_fold(acc_init(), s0, 0) == Ok::<AccV, Seq<char>>(acc@));
            assert(spec_from_flat_char(chv) == Ok::<CharacterV, Seq<char>>(
                spec_finish(chv.creatures@[0], acc@),
            ));
        }
        let acc_final = acc;
        let out = finish_character(info, acc_final);
        proof {
            assert(out@ == spec_finish(chv.creatures@[0], acc_final@));
        }
        Ok(out)
    }
}

/// One record's contribution to the pass, for its shape.
#[verifier::rlimit(100)]
fn step_attribute(acc: &mut Acc, name: String, attribute_type: AttributeType, total: PropVal, value: PropVal, overridden: bool, inactive: bool, Ghost(pval): Ghost<crate::flat_model::FlatProp>) -> (r: Result<(), String>)
    requires
        !pval.removed,
        (pval.prop_type matches PropType::Attribute { name: n2, attribute_type: at2, total: t2, value: v2, overridden: o2, .. }
            && n2 == name && at2 == attribute_type && t2 == total && v2 == value && o2 == overridden),
        inactive == pval.inactive,
        old(acc)@.spell_slots.len() == 9,
    ensures
        final(acc)@.spell_slots.len() == old(acc)@.spell_slots.len(),
        match r {
            Ok(_) => spec_step(old(acc)@, pval) == Ok::<AccV, Seq<char>>(final(acc)@),
            Err(e) => spec_step(old(acc)@, pval) == Err::<AccV, Seq<char>>(e@),
        },
{
    let ghost a0 = acc@;
    if !overridden {
        match attribute_type {
            AttributeType::Ability { .. } => {
                match value.as_i64() {
                    Some(score) => {
                        acc.ability_scores.push(
                            AbilityScore { score, name },
                        );
                        proof {
                            assert(acc@.ability_scores
                                =~= a0.ability_scores.push(
                                AbilityScoreV {
                                    score,
                                    name: pval.prop_type->Attribute_name@,
                                },
                            ));
                        }
                    },
                    None => {
                        let e = attribute_type_missmatch(
                            name.as_str(),
                            &value,
                        );
                        proof {
                            assert(spec_step(a0, pval) == Err::<
                                AccV,
                                Seq<char>,
                            >(e@));
                        }
                        return Err(e);
                    },
                }
            },
            AttributeType::HitDice { hit_dice_size, .. } => {
                match die_size_of(&hit_dice_size) {
                    None => {
                        let e = missing("hit dice size", name.as_str());
                        proof {
                            assert(spec_step(a0, pval) == Err::<AccV, Seq<char>>(e@));
                        }
                        return Err(e);
                    },
                    Some(Err(pe)) => {
                        let e = crate::text::parse_err_message(pe);
                        proof {
                            assert(spec_step(a0, pval) == Err::<AccV, Seq<char>>(e@));
                        }
                        return Err(e);
                    },
                    Some(Ok(size)) => {
                        match value.as_i64() {
                            Some(num) => {
                                acc.hit_dice.push(Die { size, num });
                                proof {
                                    assert(acc@.hit_dice
                                        =~= a0.hit_dice.push(
                                        Die { size, num },
                                    ));
                                }
                            },
                            None => {
                                let mut e = String::from_str(
                                    "Number of hitdice, ",
                                );
                                let rv = value.render();
                                e.append(rv.as_str());
                                e.append(", has incorrect type");
                                proof {
                                    assert(spec_step(a0, pval) == Err::<AccV, Seq<char>>(e@));
                                }
                                return Err(e);
                            },
                        }
                    },
                }
            },
            AttributeType::SpellSlot { spell_slot_level } => {
                if !inactive {
                    match spell_slot_level {
                        None => {
                            let e = missing(
                                "Spell Slot level",
                                name.as_str(),
                            );
                            proof {
                                assert(spec_step(a0, pval) == Err::<AccV, Seq<char>>(e@));
                            }
                            return Err(e);
                        },
                        Some(c) => {
                            match c.value.as_i64() {
                                None => {
                                    let e = type_missmatch(
                                        "Spell Slot level",
                                        name.as_str(),
                                        &c.value,
                                    );
                                    proof {
                                        assert(spec_step(a0, pval) == Err::<AccV, Seq<char>>(e@));
                                    }
                                    return Err(e);
                                },
                                Some(lvl) => {
                                    match value.as_i64() {
                                        None => {
                                            let e = attribute_type_missmatch(
                                                name.as_str(),
                                                &value,
                                            );
                                            proof {
                                                assert(spec_step(a0, pval) == Err::<AccV, Seq<char>>(e@));
                                            }
                                            return Err(e);
                                        },
                                        Some(num) => {
                                            if 1 <= lvl && lvl <= 9 {
                                                let idx: usize = (lvl
                                                    - 1) as usize;
                                                let cur: i64 =
                                                    acc.spell_slots[idx];
                                                let nv = sat_add(cur, num);
                                                acc.spell_slots[idx] = nv;
                                            }
                                        },
                                    }
                                },
                            }
                        },
                    }
                }
            },
            AttributeType::Resource {  } => {
                let tot: i64 = match total.as_i64() {
                    Some(k) => k,
                    None => 0,
                };
                acc.resources.push(Resource { name, total: tot });
                proof {
                    assert(acc@.resources =~= a0.resources.push(
                        ResourceV {
                            name: pval.prop_type->Attribute_name@,
                            total: tot,
                        },
                    ));
                }
            },
            AttributeType::HealthBar { .. } => {
                if crate::text::string_eq_str(&name, "Hit Points") {
                    match value.as_i64() {
                        Some(k) => {
                            acc.hit_points = k;
                        },
                        None => {
                            let e = type_missmatch(
                                "Hit Points",
                                "",
                                &value,
                            );
                            proof {
                                assert(spec_step(a0, pval) == Err::<AccV, Seq<char>>(e@));
                            }
                            return Err(e);
                        },
                    }
                }
            },
            _ => {
                if crate::text::string_eq_str(&name, "Proficiency Bonus") {
                    match value.as_i64() {
                        Some(k) => {
                            acc.prof_bonus = k;
                        },
                        None => {
                            let e = type_missmatch(
                                "Proficiency Bonus",
                                "",
                                &value,
                            );
                            proof {
                                assert(spec_step(a0, pval) == Err::<AccV, Seq<char>>(e@));
                            }
                            return Err(e);
                        },
                    }
                } else if crate::text::string_eq_str(&name, "Speed") {
                    match total.as_i64() {
                        Some(k) => {
                            acc.speed = k;
                        },
                        None => {
                            let e = type_missmatch("Speed", "", &value);
                            proof {
                                assert(spec_step(a0, pval) == Err::<AccV, Seq<char>>(e@));
                            }
                            return Err(e);
                        },
                    }
                } else if crate::text::string_eq_str(&name, "Armor Class") {
                    match total.as_i64() {
                        Some(k) => {
                            acc.ac = k;
                        },
                        None => {
                            let e = type_missmatch("AC", "", &value);
                            proof {
                                assert(spec_step(a0, pval) == Err::<AccV, Seq<char>>(e@));
                            }
                            return Err(e);
                        },
                    }
                }
            },
        }
    }
    proof {
        assert(spec_step(a0, pval) == Ok::<AccV, Seq<char>>(acc@));
    }
    Ok(())
}

/// One record's contribution to the pass, for its shape.
#[verifier::rlimit(100)]
fn step_skill(acc: &mut Acc, name: String, skill_type: String, value: i64, passive_bonus: i64, proficiency: Frac, overridden: bool, Ghost(pval): Ghost<crate::flat_model::FlatProp>)
    requires
        !pval.removed,
        (pval.prop_type matches PropType::Skill { name: n2, skill_type: st2, value: v2, passive_bonus: pb2, proficiency: pr2, overridden: o2, .. }
            && n2 == name && st2 == skill_type && v2 == value && pb2 == passive_bonus && pr2 == proficiency && o2 == overridden),
    ensures
        final(acc)@.spell_slots.len() == old(acc)@.spell_slots.len(),
        spec_step(old(acc)@, pval) == Ok::<AccV, Seq<char>>(final(acc)@),
{
    let ghost a0 = acc@;
    if !overridden {
        if crate::text::string_eq_str(&name, "Initiative") {
            acc.initiative = value;
        } else if crate::text::string_eq_str(&skill_type, "save") {
            let prof = proficiency_rank(proficiency);
            acc.saving_throws.push(
                Skill { bonus: value, name, prof_rank: prof },
            );
            proof {
                assert(acc@.saving_throws =~= a0.saving_throws.push(
                    SkillV {
                        bonus: value,
                        name: pval.prop_type->Skill_name@,
                        prof_rank: prof,
                    },
                ));
            }
        } else if crate::text::string_eq_str(&skill_type, "skill") {
            let prof = proficiency_rank(proficiency);
            if crate::text::string_eq_str(&name, "Perception") {
                acc.passive_bns = passive_bonus;
            }
            let ghost a1 = acc@;
            acc.skills.push(Skill { bonus: value, name, prof_rank: prof });
            proof {
                assert(acc@.skills =~= a1.skills.push(
                    SkillV {
                        bonus: value,
                        name: pval.prop_type->Skill_name@,
                        prof_rank: prof,
                    },
                ));
            }
        } else if crate::text::string_eq_str(&skill_type, "armor") {
            acc.other_profs.0.push(name);
            proof {
                assert(acc@.other_profs.0 =~= a0.other_profs.0.push(
                    pval.prop_type->Skill_name@,
                ));
            }
        } else if crate::text::string_eq_str(&skill_type, "weapon") {
            acc.other_profs.1.push(name);
            proof {
                assert(acc@.other_profs.1 =~= a0.other_profs.1.push(
                    pval.prop_type->Skill_name@,
                ));
            }
        } else if crate::text::string_eq_str(&skill_type, "language") {
            acc.other_profs.2.push(name);
            proof {
                assert(acc@.other_profs.2 =~= a0.other_profs.2.push(
                    pval.prop_type->Skill_name@,
                ));
            }
        } else if crate::text::string_eq_str(&skill_type, "tool") {
            acc.other_profs.3.push(name);
            proof {
                assert(acc@.other_profs.3 =~= a0.other_profs.3.push(
                    pval.prop_type->Skill_name@,
                ));
            }
        }
    }
    proof {
        assert(spec_step(a0, pval) == Ok::<AccV, Seq<char>>(acc@));
    }
}

/// One record's contribution to the pass, for its shape.
#[verifier::rlimit(100)]
fn step_feature(acc: &mut Acc, name: String, description: Option<CalculatedText>, tags: &Vec<String>, Ghost(pval): Ghost<crate::flat_model::FlatProp>)
    requires
        !pval.removed,
        (pval.prop_type matches PropType::Feature { name: n2, description: d2, .. }
            && n2 == name && d2 == description),
        *tags == pval.tags,
    ensures
        final(acc)@.spell_slots.len() == old(acc)@.spell_slots.len(),
        spec_step(old(acc)@, pval) == Ok::<AccV, Seq<char>>(final(acc)@),
{
    let ghost a0 = acc@;
    if tags_mention(tags, "background") {
        let desc: String = match description {
            Some(c) => c.text,
            None => String::new(),
        };
        acc.background.background_feature = Feature {
            name,
            description: desc,
        };
    } else {
        acc.features.push(name);
        proof {
            assert(acc@.features =~= a0.features.push(
                pval.prop_type->Feature_name@,
            ));
        }
    }
    proof {
        assert(spec_step(a0, pval) == Ok::<AccV, Seq<char>>(acc@));
    }
}

/// One record's contribution to the pass, for its shape.
#[verifier::rlimit(100)]
fn step_spell_list(acc: &mut Acc, name: String, max_prepared: Option<Calculation>, dc: Option<Calculation>, attack_roll_bonus: Option<Calculation>, id: String, Ghost(pval): Ghost<crate::flat_model::FlatProp>) -> (r: Result<(), String>)
    requires
        !pval.removed,
        (pval.prop_type matches PropType::SpellList { name: n2, max_prepared: mp2, dc: d2, attack_roll_bonus: ab2, .. }
            && n2 == name && mp2 == max_prepared && d2 == dc && ab2 == attack_roll_bonus),
        id == pval.id,
    ensures
        final(acc)@.spell_slots.len() == old(acc)@.spell_slots.len(),
        match r {
            Ok(_) => spec_step(old(acc)@, pval) == Ok::<AccV, Seq<char>>(final(acc)@),
            Err(e) => spec_step(old(acc)@, pval) == Err::<AccV, Seq<char>>(e@),
        },
{
    let ghost a0 = acc@;
    let mp: i64 = match max_prepared {
        Some(c) => match c.value.as_i64() {
            Some(k) => k,
            None => {
                let e = type_missmatch(
                    "SpellList max prepared",
                    name.as_str(),
                    &c.value,
                );
                proof {
                    assert(spec_step(a0, pval) == Err::<AccV, Seq<char>>(e@));
                }
                return Err(e);
            },
        },
        None => 0,
    };
    let dcv: i64 = match dc {
        Some(c) => match c.value.as_i64() {
            Some(k) => k,
            None => {
                let e = type_missmatch(
                    "SpellList dc",
                    name.as_str(),
                    &c.value,
                );
                proof {
                    assert(spec_step(a0, pval) == Err::<AccV, Seq<char>>(e@));
                }
                return Err(e);
            },
        },
        None => 0,
    };
    let ab: i64 = match attack_roll_bonus {
        Some(c) => match c.value.as_i64() {
            Some(k) => k,
            None => {
                let e = type_missmatch(
                    "SpellList attack bonus",
                    name.as_str(),
                    &c.value,
                );
                proof {
                    assert(spec_step(a0, pval) == Err::<AccV, Seq<char>>(e@));
                }
                return Err(e);
            },
        },
        None => 0,
    };
    let j: usize = assoc_position(&acc.spell_lists, id.as_str());
    if j >= acc.spell_lists.len() {
        let sl = SpellList {
            levels: Vec::new(),
            name,
            save_dc: dcv,
            atk_bonus: ab,
            max_prepared: mp,
        };
        let ghost slv = sl@;
        proof {
            assert(slv.levels =~= Seq::<SpellLevelV>::empty());
            assert(slv == (SpellListV {
                levels: Seq::<SpellLevelV>::empty(),
                name: pval.prop_type->SpellList_name@,
                save_dc: dcv,
                atk_bonus: ab,
                max_prepared: mp,
            }));
        }
        acc.spell_lists.push((id, sl));
        proof {
            assert(acc@.spell_lists =~= a0.spell_lists.push(
                (pval.id@, slv),
            ));
        }
    }
    proof {
        assert(spec_step(a0, pval) == Ok::<AccV, Seq<char>>(acc@));
    }
    Ok(())
}

/// One record's contribution to the pass, for its shape.
#[verifier::rlimit(100)]
fn step_spell(acc: &mut Acc, name: String, always_prepared: bool, prepared: bool, casting_time: Option<String>, range: Option<String>, duration: Option<String>, verbal: bool, somatic: bool, concentration: bool, material: Option<String>, ritual: bool, level: i64, school: String, overridden: bool, deact: bool, ancestors: &Vec<Identifier>, Ghost(pval): Ghost<crate::flat_model::FlatProp>)
    requires
        !pval.removed,
        (pval.prop_type matches PropType::Spell { name: n2, always_prepared: ap2, prepared: p2, casting_time: ct2, range: r2, duration: du2, verbal: v2, somatic: s2, concentration: c2, material: m2, ritual: ri2, level: l2, school: sc2, overridden: o2, .. }
            && n2 == name && ap2 == always_prepared && p2 == prepared && ct2 == casting_time && r2 == range && du2 == duration && v2 == verbal && s2 == somatic && c2 == concentration && m2 == material && ri2 == ritual && l2 == level && sc2 == school && o2 == overridden),
        deact == (pval.deactivated_by_ancestor == Some(true)),
        *ancestors == pval.ancestors,
    ensures
        final(acc)@.spell_slots.len() == old(acc)@.spell_slots.len(),
        spec_step(old(acc)@, pval) == Ok::<AccV, Seq<char>>(final(acc)@),
{
    let ghost a0 = acc@;
    if !overridden && !deact {
        let slid = find_spell_list_id(&acc.spell_lists, ancestors);
        let j: usize = assoc_position(&acc.spell_lists, slid.as_str());
        if j < acc.spell_lists.len() {
            let ct: String = match casting_time {
                Some(s) => s,
                None => String::from_str("long"),
            };
            let dur: String = match duration {
                Some(s) => s,
                None => String::new(),
            };
            let rng: String = match range {
                Some(s) => s,
                None => String::new(),
            };
            let mat: String = match material {
                Some(s) => s,
                None => String::new(),
            };
            let prepd = if always_prepared {
                SpellPrep::AlwaysPrepared
            } else if prepared {
                SpellPrep::Prepared
            } else {
                SpellPrep::NotPrepared
            };
            let spl = Spell {
                name,
                level,
                casting_time: casting_time_of(ct),
                duration: norm_duration(dur),
                school,
                range: norm_range(rng),
                vscr: (verbal, somatic, concentration, ritual),
                material: mat,
                prepd,
            };
            let ghost splv = spl@;
            let ghost sl_pre = acc.spell_lists@;
            let ghost sl_pred = acc.spell_lists.deep_view();
            let (k0, mut list) = acc.spell_lists.remove(j);
            let ghost listv = list@;
            proof {
                assert(sl_pred[j as int] == sl_pre[j as int].deep_view());
                assert(listv == a0.spell_lists[j as int].1);
                assert(k0@ == a0.spell_lists[j as int].0);
            }
            let n: usize = list.levels.len();
            let mut li: usize = 0;
            while li < n && list.levels[li].level != level
                invariant
                    n == list.levels@.len(),
                    li <= n,
                    list@ == listv,
                    forall|k: int|
                        0 <= k < li ==> (#[trigger] list.levels@[k]).level
                            != level,
                decreases n - li,
            {
                li = li + 1;
            }
            proof {
                assert(forall|k: int|
                    0 <= k < n ==> (#[trigger] list.levels.deep_view()[k]).level
                        == list.levels@[k].level);
                if li < n {
                    lemma_level_index_agrees(
                        list.levels.deep_view(),
                        level,
                        li as int,
                    );
                } else {
                    lemma_level_index_agrees(
                        list.levels.deep_view(),
                        level,
                        n as int,
                    );
                }
            }
            if li < n {
                let ghost lv_pre = list.levels@;
                let ghost lv_pred = list.levels.deep_view();
                let mut lv = list.levels.remove(li);
                let ghost lv0 = lv@;
                proof {
                    assert(lv_pred[li as int] == lv_pre[li as int].deep_view());
                    assert(lv0 == listv.levels[li as int]);
                }
                lv.spells.push(spl);
                proof {
                    assert(lv@.spells =~= lv0.spells.push(splv));
                    assert(lv@ == (SpellLevelV {
                        level: lv0.level,
                        spells: lv0.spells.push(splv),
                    }));
                }
                let ghost lvv = lv@;
                list.levels.insert(li, lv);
                proof {
                    assert forall|k: int|
                        0 <= k < list.levels@.len() implies #[trigger] list.levels.deep_view()[k]
                        == lv_pred.update(li as int, lvv)[k] by {
                        assert(list.levels.deep_view()[k] == list.levels@[k].deep_view());
                        if k != li {
                            assert(list.levels@[k] == lv_pre[k]);
                            assert(lv_pred[k] == lv_pre[k].deep_view());
                        }
                    }
                    assert(list.levels.deep_view() =~= listv.levels.update(
                        li as int,
                        SpellLevelV {
                            level: listv.levels[li as int].level,
                            spells: listv.levels[li as int].spells.push(
                                splv,
                            ),
                        },
                    ));
                }
            } else {
                let mut lv = SpellLevel { level, spells: Vec::new() };
                lv.spells.push(spl);
                proof {
                    assert(lv@.spells =~= seq![splv]);
                    assert(lv@ == (SpellLevelV { level, spells: seq![splv] }));
                }
                let ghost lv_pre = list.levels@;
                let ghost lv_pred = list.levels.deep_view();
                list.levels.push(lv);
                proof {
                    assert forall|k: int|
                        0 <= k < list.levels@.len() implies #[trigger] list.levels.deep_view()[k]
                        == lv_pred.push(
                        SpellLevelV { level, spells: seq![splv] },
                    )[k] by {
                        assert(list.levels.deep_view()[k] == list.levels@[k].deep_view());
                        if k < lv_pre.len() {
                            assert(list.levels@[k] == lv_pre[k]);
                            assert(lv_pred[k] == lv_pre[k].deep_view());
                        }
                    }
                    assert(list.levels.deep_view() =~= listv.levels.push(
                        SpellLevelV { level, spells: seq![splv] },
                    ));
                }
            }
            let ghost list1 = list@;
            acc.spell_lists.insert(j, (k0, list));
            proof {
                assert(acc@.spell_lists =~= a0.spell_lists.update(
                    j as int,
                    (a0.spell_lists[j as int].0, list1),
                ));
            }
        }
    }
    proof {
        assert(spec_step(a0, pval) == Ok::<AccV, Seq<char>>(acc@));
    }
}

/// One record's contribution to the pass, for its shape.
#[verifier::rlimit(100)]
fn step_damage_multiplier(acc: &mut Acc, damage_types: Vec<String>, value: Frac, Ghost(pval): Ghost<crate::flat_model::FlatProp>)
    requires
        !pval.removed,
        (pval.prop_type matches PropType::DamageMultiplier { damage_types: dt2, value: v2, .. }
            && dt2 == damage_types && v2 == value),
    ensures
        final(acc)@.spell_slots.len() == old(acc)@.spell_slots.len(),
        spec_step(old(acc)@, pval) == Ok::<AccV, Seq<char>>(final(acc)@),
{
    let ghost a0 = acc@;
    let h: i64 = value.hundredths();
    if h == 0 || h == 50 || h == 200 {
        let ghost dts = damage_types.deep_view();
        let mut rest_t = damage_types;
        let ghost tdone: int = 0;
        proof {
            assert(rest_t.deep_view() =~= dts.subrange(0, dts.len() as int));
            assert(a0.damage_mults + spec_mults_from(dts, 0, h)
                =~= acc@.damage_mults + spec_mults_from(dts, 0, h));
        }
        while rest_t.len() > 0
            invariant
                0 <= tdone <= dts.len(),
                rest_t.deep_view() == dts.subrange(tdone, dts.len() as int),
                h == 0 || h == 50 || h == 200,
                acc@ == (AccV { damage_mults: acc@.damage_mults, ..a0 }),
                acc@.damage_mults + spec_mults_from(dts, tdone, h)
                    == a0.damage_mults + spec_mults_from(dts, 0, h),
            decreases rest_t@.len(),
        {
            let ghost rpre = rest_t@;
            let ghost rpred = rest_t.deep_view();
            let t = rest_t.remove(0);
            let ghost pre = acc@.damage_mults;
            proof {
                assert(rpred.len() == rpre.len());
                assert(rpre.len() > 0);
                assert(rpred[0] == rpre[0].deep_view());
                assert(rpred[0] == dts[tdone]);
                assert(t == rpre[0]);
                assert(t@ == dts[tdone]);
                assert forall|k2: int|
                    0 <= k2 < rest_t@.len() implies #[trigger] rest_t.deep_view()[k2]
                    == dts[tdone + 1 + k2] by {
                    assert(rest_t.deep_view()[k2] == rest_t@[k2].deep_view());
                    assert(rest_t@[k2] == rpre[k2 + 1]);
                    assert(rpred[k2 + 1] == rpre[k2 + 1].deep_view());
                    assert(rpred[k2 + 1] == dts[tdone + 1 + k2]);
                }
                assert(rest_t.deep_view() =~= dts.subrange(
                    tdone + 1,
                    dts.len() as int,
                ));
            }
            let m = if h == 0 {
                DamageMult::Immune(t)
            } else if h == 50 {
                DamageMult::Resist(t)
            } else {
                DamageMult::Vuln(t)
            };
            let ghost mv = m@;
            acc.damage_mults.push(m);
            proof {
                assert(acc@.damage_mults =~= pre.push(mv));
                assert((pre + seq![mv]) + spec_mults_from(dts, tdone + 1, h)
                    =~= pre + (seq![mv] + spec_mults_from(
                    dts,
                    tdone + 1,
                    h,
                )));
                assert(pre.push(mv) =~= pre + seq![mv]);
            }
            proof {
                tdone = tdone + 1;
            }
        }
        proof {
            assert(spec_mults_from(dts, tdone, h)
                == Seq::<DamageMultV>::empty());
            assert(acc@.damage_mults + Seq::<DamageMultV>::empty()
                =~= acc@.damage_mults);
            lemma_mults_from_map(dts, h);
        }
    }
    proof {
        assert(spec_step(a0, pval) == Ok::<AccV, Seq<char>>(acc@));
    }
}

/// One record's contribution to the pass, for its shape.
#[verifier::rlimit(100)]
fn step_note(acc: &mut Acc, name: String, summary: Option<CalculatedText>, Ghost(pval): Ghost<crate::flat_model::FlatProp>)
    requires
        !pval.removed,
        (pval.prop_type matches PropType::Note { name: n2, summary: s2, .. }
            && n2 == name && s2 == summary),
    ensures
        final(acc)@.spell_slots.len() == old(acc)@.spell_slots.len(),
        spec_step(old(acc)@, pval) == Ok::<AccV, Seq<char>>(final(acc)@),
{
    let ghost a0 = acc@;
    let text: String = match summary {
        Some(t) => t.text,
        None => String::new(),
    };
    if crate::text::string_eq_str(&name, "Flaws") {
        acc.traits.3 = text;
    } else if crate::text::string_eq_str(&name, "Ideals") {
        acc.traits.1 = text;
    } else if crate::text::string_eq_str(&name, "Personality Traits") {
        acc.traits.0 = text;
    } else if crate::text::string_eq_str(&name, "Bonds") {
        acc.traits.2 = text;
    }
    proof {
        assert(spec_step(a0, pval) == Ok::<AccV, Seq<char>>(acc@));
    }
}

/// One record's contribution to the pass, for its shape.
#[verifier::rlimit(100)]
fn step_action(acc: &mut Acc, name: String, action_type: String, attack_roll: Option<Calculation>, uses: Option<Calculation>, overridden: bool, deact: bool, inactive: bool, id: String, Ghost(pval): Ghost<crate::flat_model::FlatProp>) -> (r: Result<(), String>)
    requires
        !pval.removed,
        (pval.prop_type matches PropType::Action { name: n2, action_type: at2, attack_roll: ar2, uses: u2, overridden: o2, .. }
            && n2 == name && at2 == action_type && ar2 == attack_roll && u2 == uses && o2 == overridden),
        deact == (pval.deactivated_by_ancestor == Some(true)),
        inactive == pval.inactive,
        id == pval.id,
    ensures
        final(acc)@.spell_slots.len() == old(acc)@.spell_slots.len(),
        match r {
            Ok(_) => spec_step(old(acc)@, pval) == Ok::<AccV, Seq<char>>(final(acc)@),
            Err(e) => spec_step(old(acc)@, pval) == Err::<AccV, Seq<char>>(e@),
        },
{
    let ghost a0 = acc@;
    if !overridden && !deact {
        if crate::text::string_eq_str(&action_type, "attack") && !inactive {
            let bonus: i64 = match attack_roll {
                Some(c) => match c.value.as_i64() {
                    Some(k) => k,
                    None => {
                        let e = type_missmatch(
                            "Attack roll",
                            name.as_str(),
                            &c.value,
                        );
                        proof {
                            assert(spec_step(a0, pval) == Err::<AccV, Seq<char>>(e@));
                        }
                        return Err(e);
                    },
                },
                None => 0,
            };
            let atk = Attack {
                name,
                bonus: AtkBonus::Bonus(bonus),
                damage: String::new(),
            };
            let ghost atkv = atk@;
            let j: usize = assoc_position(&acc.attacks, id.as_str());
            if j < acc.attacks.len() {
                let (k0, _old) = acc.attacks.remove(j);
                acc.attacks.insert(j, (k0, atk));
                proof {
                    assert(acc@.attacks =~= a0.attacks.update(
                        j as int,
                        (a0.attacks[j as int].0, atkv),
                    ));
                }
            } else {
                acc.attacks.push((id, atk));
                proof {
                    assert(acc@.attacks =~= a0.attacks.push(
                        (pval.id@, atkv),
                    ));
                }
            }
        } else {
            let uses_v: i64 = match uses {
                Some(c) => match c.value.as_i64() {
                    Some(k) => k,
                    None => {
                        let e = type_missmatch(
                            "Action uses",
                            name.as_str(),
                            &c.value,
                        );
                        proof {
                            assert(spec_step(a0, pval) == Err::<AccV, Seq<char>>(e@));
                        }
                        return Err(e);
                    },
                },
                None => -1,
            };
            if !crate::text::string_eq_str(&action_type, "event") {
                let typ = if crate::text::string_eq_str(
                    &action_type,
                    "free",
                ) {
                    ActionType::Free
                } else if crate::text::string_eq_str(&action_type, "bonus") {
                    ActionType::Bonus
                } else if crate::text::string_eq_str(
                    &action_type,
                    "reaction",
                ) {
                    ActionType::Reaction
                } else if crate::text::string_eq_str(&action_type, "action") {
                    ActionType::Action
                } else if crate::text::string_eq_str(&action_type, "long") {
                    ActionType::Long(String::from_str("lng"))
                } else {
                    ActionType::Action
                };
                let ghost typv = typ@;
                acc.actions.push(Action { name, typ, uses: uses_v });
                proof {
                    assert(acc@.actions =~= a0.actions.push(
                        ActionV {
                            name: pval.prop_type->Action_name@,
                            typ: typv,
                            uses: uses_v,
                        },
                    ));
                }
            }
        }
    }
    proof {
        assert(spec_step(a0, pval) == Ok::<AccV, Seq<char>>(acc@));
    }
    Ok(())
}

/// One record's contribution to the pass, for its shape.
#[verifier::rlimit(100)]
fn step_damage(acc: &mut Acc, amount: Option<Calculation>, damage_type: String, parent: Identifier, Ghost(pval): Ghost<crate::flat_model::FlatProp>)
    requires
        !pval.removed,
        (pval.prop_type matches PropType::Damage { amount: a2, damage_type: dt2, .. }
            && a2 == amount && dt2 == damage_type),
        parent == pval.parent,
    ensures
        final(acc)@.spell_slots.len() == old(acc)@.spell_slots.len(),
        spec_step(old(acc)@, pval) == Ok::<AccV, Seq<char>>(final(acc)@),
{
    let ghost a0 = acc@;
    let die_txt: String;
    let bonus: i64;
    match amount {
        Some(c) => {
            die_txt = c.value.render();
            bonus = effects_bonus(&c.effects);
        },
        None => {
            die_txt = String::from_str("0d0");
            bonus = 0;
        },
    }
    let mut dmg = die_txt;
    if bonus >= 0 {
        dmg.append("+");
    }
    let bs = i64_to_dec(bonus);
    dmg.append(bs.as_str());
    dmg.append("[");
    let ab = damage_type_abreviator(damage_type);
    dmg.append(ab.as_str());
    dmg.append("]");
    proof {
        let dtv = match pval.prop_type->Damage_amount {
            Some(c) => prop_val_text(c.value),
            None => "0d0"@,
        };
        assert(dmg@ =~= dtv + (if bonus >= 0 {
            "+"@
        } else {
            Seq::<char>::empty()
        }) + dec_int(bonus as int) + "["@ + spec_abbrev_damage_type(
            pval.prop_type->Damage_damage_type@,
        ) + "]"@);
    }
    let j: usize = assoc_position(&acc.attacks, parent.id.as_str());
    if j < acc.attacks.len() {
        let ghost at_pre = acc.attacks@;
        let ghost at_pred = acc.attacks.deep_view();
        let (k0, mut a) = acc.attacks.remove(j);
        proof {
            assert(at_pred[j as int] == at_pre[j as int].deep_view());
            assert(a@ == a0.attacks[j as int].1);
        }
        let ghost av = a@;
        a.add_dmg(dmg);
        let ghost av1 = a@;
        acc.attacks.insert(j, (k0, a));
        proof {
            assert(acc@.attacks =~= a0.attacks.update(
                j as int,
                (a0.attacks[j as int].0, av1),
            ));
        }
    }
    proof {
        assert(spec_step(a0, pval) == Ok::<AccV, Seq<char>>(acc@));
    }
}

/// One record's contribution to the pass, for its shape.
#[verifier::rlimit(100)]
fn step_class(acc: &mut Acc, name: String, level: i64, Ghost(pval): Ghost<crate::flat_model::FlatProp>)
    requires
        !pval.removed,
        (pval.prop_type matches PropType::Class { name: n2, level: l2, .. }
            && n2 == name && l2 == level),
    ensures
        final(acc)@.spell_slots.len() == old(acc)@.spell_slots.len(),
        spec_step(old(acc)@, pval) == Ok::<AccV, Seq<char>>(final(acc)@),
{
    let ghost a0 = acc@;
    acc.classes.push(Class { name, level, start_class: false });
    proof {
        assert(acc@.classes =~= a0.classes.push(
            ClassV {
                name: pval.prop_type->Class_name@,
                level,
                start_class: false,
            },
        ));
    }
    proof {
        assert(spec_step(a0, pval) == Ok::<AccV, Seq<char>>(acc@));
    }
}

/// One record's contribution to the pass, for its shape.
#[verifier::rlimit(100)]
fn step_item(acc: &mut Acc, name: String, plural: String, quantity: i64, requires_attunement: bool, Ghost(pval): Ghost<crate::flat_model::FlatProp>)
    requires
        !pval.removed,
        (pval.prop_type matches PropType::Item { name: n2, plural: p2, quantity: q2, requires_attunement: ra2, .. }
            && n2 == name && p2 == plural && q2 == quantity && ra2 == requires_attunement),
    ensures
        final(acc)@.spell_slots.len() == old(acc)@.spell_slots.len(),
        spec_step(old(acc)@, pval) == Ok::<AccV, Seq<char>>(final(acc)@),
{
    let ghost a0 = acc@;
    let low = crate::text::to_lowercase(name.as_str());
    if crate::text::contains_str(low.as_str(), "piece") {
        if crate::text::contains_str(low.as_str(), "platinum") {
            acc.coins.4 = quantity;
        } else if crate::text::contains_str(low.as_str(), "gold") {
            acc.coins.3 = quantity;
        } else if crate::text::contains_str(low.as_str(), "electrum") {
            acc.coins.2 = quantity;
        } else if crate::text::contains_str(low.as_str(), "silver") {
            acc.coins.1 = quantity;
        } else if crate::text::contains_str(low.as_str(), "copper") {
            acc.coins.0 = quantity;
        }
    } else {
        acc.equipment.push(
            Item {
                quantity,
                name,
                plural_name: plural,
                requires_attunement,
            },
        );
        proof {
            assert(acc@.equipment =~= a0.equipment.push(
                ItemV {
                    quantity,
                    name: pval.prop_type->Item_name@,
                    plural_name: pval.prop_type->Item_plural@,
                    requires_attunement,
                },
            ));
        }
    }
    proof {
        assert(spec_step(a0, pval) == Ok::<AccV, Seq<char>>(acc@));
    }
}

/// One record's contribution to the pass, for its shape.
#[verifier::rlimit(100)]
fn step_slot_filler(acc: &mut Acc, name: String, tags: &Vec<String>, Ghost(pval): Ghost<crate::flat_model::FlatProp>)
    requires
        !pval.removed,
        (pval.prop_type matches PropType::SlotFiller { name: n2, .. } && n2 == name),
        *tags == pval.tags,
    ensures
        final(acc)@.spell_slots.len() == old(acc)@.spell_slots.len(),
        spec_step(old(acc)@, pval) == Ok::<AccV, Seq<char>>(final(acc)@),
{
    let ghost a0 = acc@;
    if tags_have(tags, "background") {
        acc.background = Background {
            name,
            background_feature: Feature {
                name: String::new(),
                description: String::new(),
            },
        };
    }
    proof {
        assert(spec_step(a0, pval) == Ok::<AccV, Seq<char>>(acc@));
    }
}

/// One record's contribution to the pass, for its shape.
#[verifier::rlimit(100)]
fn step_constant(acc: &mut Acc, variable_name: Option<String>, calculation: Option<String>, Ghost(pval): Ghost<crate::flat_model::FlatProp>)
    requires
        !pval.removed,
        (pval.prop_type matches PropType::Constant { variable_name: vn2, calculation: c2, .. }
            && vn2 == variable_name && c2 == calculation),
    ensures
        final(acc)@.spell_slots.len() == old(acc)@.spell_slots.len(),
        spec_step(old(acc)@, pval) == Ok::<AccV, Seq<char>>(final(acc)@),
{
    let ghost a0 = acc@;
    let calc: String = match calculation {
        Some(c) => c,
        None => String::new(),
    };
    match variable_name {
        Some(vn) => {
            if crate::text::string_eq_str(&vn, "race") {
                if acc.race.as_str().is_empty() {
                    acc.race = crate::text::replace_str(
                        calc.as_str(),
                        "\"",
                        "",
                    );
                }
            } else if crate::text::string_eq_str(&vn, "subRace") {
                acc.race = crate::text::replace_str(calc.as_str(), "\"", "");
            } else if crate::text::string_eq_str(&vn, "startingClass") {
                acc.starting_class = crate::text::replace_str(
                    calc.as_str(),
                    "\"",
                    "",
                );
            }
        },
        None => {},
    }
    proof {
        assert(spec_step(a0, pval) == Ok::<AccV, Seq<char>>(acc@));
    }
}

/// The damage-multiplier entries the damage types from position `i` on add,
/// for multiplier value `h` in hundredths.
pub open spec fn spec_mults_from(dts: Seq<Seq<char>>, i: int, h: i64) -> Seq<DamageMultV>
    decreases dts.len() - i,
{
    if i < 0 || i >= dts.len() {
        Seq::empty()
    } else {
        seq![
            if h == 0 {
                DamageMultV::Immune(dts[i])
            } else if h == 50 {
                DamageMultV::Resist(dts[i])
            } else {
                DamageMultV::Vuln(dts[i])
            },
        ] + spec_mults_from(dts, i + 1, h)
    }
}

proof fn lemma_mults_from_map(dts: Seq<Seq<char>>, h: i64)
    ensures
        h == 0 ==> spec_mults_from(dts, 0, h) =~= dts.map_values(
            |t: Seq<char>| DamageMultV::Immune(t),
        ),
        h == 50 ==> spec_mults_from(dts, 0, h) =~= dts.map_values(
            |t: Seq<char>| DamageMultV::Resist(t),
        ),
        h == 200 ==> spec_mults_from(dts, 0, h) =~= dts.map_values(
            |t: Seq<char>| DamageMultV::Vuln(t),
        ),
{
    lemma_mults_from_index(dts, 0, h);
}

proof fn lemma_mults_from_index(dts: Seq<Seq<char>>, i: int, h: i64)
    requires
        0 <= i <= dts.len(),
    ensures
        spec_mults_from(dts, i, h).len() == dts.len() - i,
        forall|k: int|
            0 <= k < dts.len() - i ==> #[trigger] spec_mults_from(dts, i, h)[k] == (if h == 0 {
                DamageMultV::Immune(dts[i + k])
            } else if h == 50 {
                DamageMultV::Resist(dts[i + k])
            } else {
                DamageMultV::Vuln(dts[i + k])
            }),
    decreases dts.len() - i,
{
    if i < dts.len() {
        lemma_mults_from_index(dts, i + 1, h);
    }
}

/// Assemble the summary from a finished pass.
fn finish_character(info: CreatureInfo, acc: Acc) -> (r: Character)
    ensures
        r@ == spec_finish(info, acc@),
{
    let Acc {
        ability_scores,
        skills,
        saving_throws,
        initiative,
        prof_bonus,
        damage_mults,
        passive_bns,
        speed,
        hit_points,
        ac,
        traits,
        attacks,
        actions,
        mut classes,
        features,
        starting_class,
        resources,
        equipment,
        hit_dice,
        background,
        race,
        coins,
        other_profs,
        spell_lists,
        spell_slots,
    } = acc;
    let t1 = crate::text::replace_str(starting_class.as_str(), "\"", "");
    let t2 = crate::text::replace_str(t1.as_str(), "'", "");
    let target = crate::text::to_lowercase(t2.as_str());
    let ghost classes0 = classes.deep_view();
    let n: usize = classes.len();
    let mut i: usize = 0;
    let mut marked: bool = false;
    while i < n
        invariant
            n == classes@.len(),
            i <= n,
            marked ==> i == n,
            !marked ==> classes.deep_view() == classes0,
            !marked ==> forall|k: int|
                0 <= k < i ==> crate::text::lower((#[trigger] classes0[k]).name) != target@,
            marked ==> classes.deep_view() == spec_mark_start(classes0, 0, target@),
        decreases n - i,
    {
        proof {
            assert(classes.deep_view()[i as int] == classes@[i as int].deep_view());
        }
        let low = crate::text::to_lowercase((&classes[i]).name.as_str());
        if crate::text::string_eq_str(&low, target.as_str()) {
            let ghost cpre = classes@;
            let ghost cpred = classes.deep_view();
            let mut c = classes.remove(i);
            c.start_class = true;
            let ghost cv = c.deep_view();
            classes.insert(i, c);
            proof {
                assert(classes@ =~= cpre.update(i as int, c));
                assert(cpred[i as int] == cpre[i as int].deep_view());
                assert(classes0[i as int] == cpre[i as int].deep_view());
                assert(c.name == cpre[i as int].name && c.level == cpre[i as int].level);
                assert(cv == (ClassV { start_class: true, ..classes0[i as int] }));
                assert(crate::text::lower(classes0[i as int].name) == target@);
                assert forall|k: int|
                    0 <= k < classes@.len() implies #[trigger] classes.deep_view()[k]
                    == classes0.update(i as int, cv)[k] by {
                    assert(classes.deep_view()[k] == classes@[k].deep_view());
                    if k != i {
                        assert(classes@[k] == cpre[k]);
                        assert(cpred[k] == cpre[k].deep_view());
                        assert(classes0[k] == cpre[k].deep_view());
                    }
                }
                assert(classes.deep_view() =~= classes0.update(i as int, cv));
                lemma_mark_start_at(classes0, i as int, target@);
            }
            marked = true;
            i = n;
        } else {
            i = i + 1;
        }
    }
    proof {
        if !marked {
            lemma_mark_start_none(classes0, 0, target@);
        }
    }
    let ghost attacks0 = attacks.deep_view();
    let mut rest_a = attacks;
    let mut final_attacks: Vec<Attack> = Vec::new();
    let ghost adone: int = 0;
    proof {
        assert(rest_a.deep_view() =~= attacks0.subrange(0, attacks0.len() as int));
        assert(Seq::<AttackV>::empty() + spec_final_attacks(attacks0, 0) =~= spec_final_attacks(
            attacks0,
            0,
        ));
    }
    while rest_a.len() > 0
        invariant
            0 <= adone <= attacks0.len(),
            rest_a.deep_view() == attacks0.subrange(adone, attacks0.len() as int),
            final_attacks.deep_view() + spec_final_attacks(attacks0, adone)
                == spec_final_attacks(attacks0, 0),
        decreases rest_a@.len(),
    {
        let ghost rpre = rest_a@;
        let ghost rpred = rest_a.deep_view();
        let (_k, a) = rest_a.remove(0);
        let ghost av = a@;
        let ghost pre = final_attacks.deep_view();
        proof {
            assert(rpred.len() == rpre.len());
            assert(rpre.len() > 0);
            assert(rpred[0] == rpre[0].deep_view());
            assert(rpred[0] == attacks0[adone]);
            assert(rpre[0].deep_view().1 == rpre[0].1.deep_view());
            assert(a == rpre[0].1);
            assert(av == attacks0[adone].1);
            assert forall|k2: int|
                0 <= k2 < rest_a@.len() implies #[trigger] rest_a.deep_view()[k2] == attacks0[adone
                + 1 + k2] by {
                assert(rest_a.deep_view()[k2] == rest_a@[k2].deep_view());
                assert(rest_a@[k2] == rpre[k2 + 1]);
                assert(rpred[k2 + 1] == rpre[k2 + 1].deep_view());
                assert(rpred[k2 + 1] == attacks0[adone + 1 + k2]);
            }
            assert(rest_a.deep_view() =~= attacks0.subrange(adone + 1, attacks0.len() as int));
        }
        if !a.name.as_str().is_empty() {
            final_attacks.push(a);
            proof {
                assert(final_attacks.deep_view() =~= pre.push(av));
                assert((pre + seq![av]) + spec_final_attacks(attacks0, adone + 1) =~= pre + (
                seq![av] + spec_final_attacks(attacks0, adone + 1)));
                assert(pre.push(av) =~= pre + seq![av]);
            }
        } else {
            proof {
                assert(Seq::<AttackV>::empty() + spec_final_attacks(attacks0, adone + 1)
                    =~= spec_final_attacks(attacks0, adone + 1));
            }
        }
        proof {
            adone = adone + 1;
        }
    }
    proof {
        assert(spec_final_attacks(attacks0, adone) == Seq::<AttackV>::empty());
        assert(final_attacks.deep_view() + Seq::<AttackV>::empty() =~= final_attacks.deep_view());
    }
    let ghost lists0 = spell_lists.deep_view();
    let mut rest_l = spell_lists;
    let mut final_lists: Vec<SpellList> = Vec::new();
    let ghost ldone: int = 0;
    proof {
        assert(rest_l.deep_view() =~= lists0.subrange(0, lists0.len() as int));
        assert(Seq::<SpellListV>::empty() + spec_final_spell_lists(lists0, 0)
            =~= spec_final_spell_lists(lists0, 0));
    }
    while rest_l.len() > 0
        invariant
            0 <= ldone <= lists0.len(),
            rest_l.deep_view() == lists0.subrange(ldone, lists0.len() as int),
            final_lists.deep_view() + spec_final_spell_lists(lists0, ldone)
                == spec_final_spell_lists(lists0, 0),
        decreases rest_l@.len(),
    {
        let ghost rpre = rest_l@;
        let ghost rpred = rest_l.deep_view();
        let (_k, l) = rest_l.remove(0);
        let ghost lv = l@;
        let ghost pre = final_lists.deep_view();
        proof {
            assert(rpred.len() == rpre.len());
            assert(rpre.len() > 0);
            assert(rpred[0] == rpre[0].deep_view());
            assert(rpred[0] == lists0[ldone]);
            assert(rpre[0].deep_view().1 == rpre[0].1.deep_view());
            assert(l == rpre[0].1);
            assert(lv == lists0[ldone].1);
            assert forall|k2: int|
                0 <= k2 < rest_l@.len() implies #[trigger] rest_l.deep_view()[k2] == lists0[ldone
                + 1 + k2] by {
                assert(rest_l.deep_view()[k2] == rest_l@[k2].deep_view());
                assert(rest_l@[k2] == rpre[k2 + 1]);
                assert(rpred[k2 + 1] == rpre[k2 + 1].deep_view());
                assert(rpred[k2 + 1] == lists0[ldone + 1 + k2]);
            }
            assert(rest_l.deep_view() =~= lists0.subrange(ldone + 1, lists0.len() as int));
        }
        if !l.name.as_str().is_empty() {
            final_lists.push(l);
            proof {
                assert(final_lists.deep_view() =~= pre.push(lv));
                assert((pre + seq![lv]) + spec_final_spell_lists(lists0, ldone + 1) =~= pre + (
                seq![lv] + spec_final_spell_lists(lists0, ldone + 1)));
                assert(pre.push(lv) =~= pre + seq![lv]);
            }
        } else {
            proof {
                assert(Seq::<SpellListV>::empty() + spec_final_spell_lists(lists0, ldone + 1)
                    =~= spec_final_spell_lists(lists0, ldone + 1));
            }
        }
        proof {
            ldone = ldone + 1;
        }
    }
    proof {
        assert(spec_final_spell_lists(lists0, ldone) == Seq::<SpellListV>::empty());
        assert(final_lists.deep_view() + Seq::<SpellListV>::empty() =~= final_lists.deep_view());
    }
    let xp: i64 = clamp_usize_i64(info.denormalized_stats.xp);
    let char_img: Option<String> = match info.avatar_picture {
        Some(s) => Some(s),
        None => info.picture,
    };
    Character {
        name: info.name,
        classes,
        background,
        damage_mults,
        race,
        alignment: info.alignment,
        xp,
        ability_scores,
        prof_bonus,
        saving_throws,
        skills,
        ac,
        passive_bonus: passive_bns,
        initiative,
        speed,
        hit_points,
        hit_dice,
        attacks: final_attacks,
        actions,
        resources,
        equipment,
        traits,
        features,
        other_profs,
        coins,
        spell_lists: final_lists,
        spell_slots,
        char_img,
    }
}

/// Whether a record's payload carries the overridden flag, set.
pub open spec fn spec_overridden(p: PropType) -> bool {
    match p {
        PropType::Attribute { overridden, .. } => overridden,
        PropType::Skill { overridden, .. } => overridden,
        PropType::Action { overridden, .. } => overridden,
        PropType::Spell { overridden, .. } => overridden,
        _ => false,
    }
}

/// An overridden record contributes nothing to the pass: folding it in
/// leaves the accumulator — and so every output list — unchanged, whatever
/// the record's shape.
pub proof fn lemma_overridden_contributes_nothing(acc: AccV, p: crate::flat_model::FlatProp)
    requires
        spec_overridden(p.prop_type),
    ensures
        spec_step(acc, p) == Ok::<AccV, Seq<char>>(acc),
{
}

/// Aggregation is a function of its input alone: two successful passes over
/// the same flat character yield equal summary documents. Together with the
/// aggregator's own contract this makes aggregating twice idempotent.
pub proof fn lemma_aggregate_deterministic(
    ch: crate::flat_model::FlatCharacter,
    c1: Character,
    c2: Character,
)
    requires
        spec_from_flat_char(ch) == Ok::<CharacterV, Seq<char>>(c1@),
        spec_from_flat_char(ch) == Ok::<CharacterV, Seq<char>>(c2@),
    ensures
        c1@ == c2@,
{
}

/// Marking at a scan position that matches yields the update there.
proof fn lemma_mark_start_at(classes: Seq<ClassV>, i: int, target: Seq<char>)
    requires
        0 <= i < classes.len(),
        crate::text::lower(classes[i].name) == target,
        forall|k: int| 0 <= k < i ==> crate::text::lower((#[trigger] classes[k]).name) != target,
    ensures
        spec_mark_start(classes, 0, target) == classes.update(
            i,
            ClassV { start_class: true, ..classes[i] },
        ),
    decreases i,
{
    lemma_mark_start_from(classes, 0, i, target);
}

proof fn lemma_mark_start_from(classes: Seq<ClassV>, j: int, i: int, target: Seq<char>)
    requires
        0 <= j <= i < classes.len(),
        crate::text::lower(classes[i].name) == target,
        forall|k: int| j <= k < i ==> crate::text::lower((#[trigger] classes[k]).name) != target,
    ensures
        spec_mark_start(classes, j, target) == classes.update(
            i,
            ClassV { start_class: true, ..classes[i] },
        ),
    decreases i - j,
{
    if j < i {
        lemma_mark_start_from(classes, j + 1, i, target);
    }
}

/// A scan that matches nowhere leaves the classes unchanged.
proof fn lemma_mark_start_none(classes: Seq<ClassV>, j: int, target: Seq<char>)
    requires
        0 <= j <= classes.len(),
        forall|k: int|
            j <= k < classes.len() ==> crate::text::lower((#[trigger] classes[k]).name)
                != target,
    ensures
        spec_mark_start(classes, j, target) == classes,
    decreases classes.len() - j,
{
    if j < classes.len() {
        lemma_mark_start_none(classes, j + 1, target);
    }
}

} // verus!
