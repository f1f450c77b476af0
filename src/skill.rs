//! Skills as card data gives them, and as the simulation uses them. Every
//! percentage is kept in basis points (10_000 is 100%), as the data has it.
use vstd::prelude::*;
use crate::basic_data::{Attribute, Idol, Role, SkillTiming, school_of};
use crate::masks::{
    ALL_SLOTS, attribute_bit, attribute_mask, member_bit, member_mask, role_bit, role_mask,
    school_index, school_mask, school_mask_of, subunit_mask_m, subunit_of, year_mask,
    year_mask_m, year_of,
};

verus! {

/// The effect kinds that card data names.
#[derive(Debug, Copy, Clone, PartialEq, Eq, Structural, Hash)]
pub enum SkillEffectType {
    AddAppealBase,
    AddStaminaBase,
    AddTechniqueBase,
    AddRoleMeritBuffBase,
    AddCriticalRateBase,
    AddCriticalAppealBase,
    AddShield,
    HealLife,
    AddDamage,
    AddShieldByCardStamina,
    HealLifeByCardStamina,
    AddShieldByCardAppeal,
    HealLifeByCardAppeal,
    AddShieldByCardTechnique,
    HealLifeByCardTechnique,
    AddShieldByMaxLife,
    HealLifeByMaxLife,
    HealLifeByNumOfVo,
    HealLifeByNumOfSp,
    HealLifeByNumOfSk,
    HealLifeByNumOfGd,
    AddDamageByNumOfVo,
    AddDamageByNumOfSp,
    AddDamageByNumOfSk,
    AddDamageByNumOfGd,
    AddVoltage,
    AddVoltageByAppeal,
    AddVoltageByStamina,
    AddVoltageByTechnique,
    AddAppealBuff,
    AddVoltageBuff,
    RemoveShield,
    /// Any kind that the simulation does not model.
    Other,
}

/// When an effect ends, as card data names it.
#[derive(Debug, Copy, Clone, PartialEq, Eq, Structural, Hash)]
pub enum SkillEffectFinishTimingType {
    Permanent,
    Turn,
    WaveEnd,
    WaveSuccess,
    SpExecuteCount,
    ChangeSquadCount,
    Voltage,
    Non,
}

/// One level of a skill as card data gives it.
#[derive(Debug, Copy, Clone, PartialEq, Eq, Structural, Hash)]
pub struct JsonSkillData {
    pub target_parameter: u32,
    pub effect_type: SkillEffectType,
    pub effect_value: u32,
    pub scale_type: u8,
    pub calc_type: u8,
    pub timing: SkillTiming,
    pub finish_type: SkillEffectFinishTimingType,
    pub finish_value: u32,
}

/// Whom a skill targets, as card data gives it.
#[derive(Debug, Clone, PartialEq, Eq)]
pub struct JsonTarget {
    pub id: u32,
    pub self_only: u32,
    pub not_self: u32,
    pub apply_count: u32,
    pub owner_party: u32,
    pub owner_school: u32,
    pub owner_year: u32,
    pub owner_subunit: u32,
    pub owner_attribute: u32,
    pub owner_role: u32,
    pub fixed_attributes: Vec<Attribute>,
    pub fixed_members: Vec<Idol>,
    pub fixed_subunits: Vec<u32>,
    pub fixed_schools: Vec<u32>,
    pub fixed_years: Vec<u32>,
    pub fixed_roles: Vec<Role>,
}

/// A skill as card data gives it, with one record per skill level.
#[derive(Debug, Clone, PartialEq, Eq)]
pub struct JsonSkill {
    pub id: u32,
    pub name: String,
    pub description: String,
    pub skill_type: Option<u32>,
    pub sp_gauge_point: Option<u32>,
    pub rarity: u32,
    pub trigger_type: Option<u32>,
    pub trigger_probability: u32,
    pub target: JsonTarget,
    pub levels: Vec<JsonSkillData>,
}

/// Where the amount of a heal, shield, damage or voltage effect comes from.
#[derive(Debug, Copy, Clone, PartialEq, Eq, Structural, Hash)]
pub enum ValueType {
    Constant(u32),
    /// Basis points of the card's appeal.
    CardAppeal(u32),
    CardStamina(u32),
    CardTechnique(u32),
    /// Basis points of the team's maximum stamina.
    StamGauge(u32),
    /// So much per card on the team that matches the mask.
    Cardinal(u32, u64),
}

/// How long a timed effect lasts.
#[derive(Debug, Copy, Clone, PartialEq, Eq, Structural, Hash)]
pub enum Duration {
    Permanent,
    Turn(u32),
    Immediate,
    WaveEnd,
    WaveSuccess,
    SpExecuteCount(u32),
    ChangeSquadCount(u32),
}

/// The closed set of effects that the simulation knows.
#[derive(Debug, Copy, Clone, PartialEq, Eq, Structural, Hash)]
pub enum SkillEff {
    Unimplemented,
    AppealPlus(u32),
    StaminaPlus(u32),
    TechniquePlus(u32),
    TypePlus(u32),
    CritRatePlus(u32),
    CritPlus(u32),
    VoPlus(ValueType),
    Heal(ValueType),
    Shield(ValueType),
    Damage(ValueType),
    RemoveShield(ValueType),
    AppealUpAdd(u32, Duration),
    AppealUp(u32, Duration),
    AppealUpEx(u32, Duration),
    TapVoUp(u32, Duration),
}

/// The member, attribute and role of the card that owns a skill, for
/// targets relative to the owner.
#[derive(Debug, Copy, Clone, PartialEq, Eq, Structural, Hash)]
pub struct SkillOwner {
    pub member: Idol,
    pub attribute: Attribute,
    pub role: Role,
}

/// A skill bound to one skill level. `target_mask` holds the predicates a
/// slot must meet; the three flags add slots once the skill is bound to a
/// position: the owner's own slot, every other slot, the owner's group.
#[derive(Debug, Copy, Clone, PartialEq, Eq, Structural, Hash)]
pub struct Skill {
    /// Trigger probability in basis points.
    pub prob: u32,
    pub target_mask: u64,
    pub eff: SkillEff,
    pub jishin: bool,
    pub others: bool,
    pub strat: bool,
}

pub open spec fn duration_of(sd: JsonSkillData) -> Duration {
    match sd.finish_type {
        SkillEffectFinishTimingType::Permanent => Duration::Permanent,
        SkillEffectFinishTimingType::Turn => Duration::Turn(sd.finish_value),
        SkillEffectFinishTimingType::WaveEnd => Duration::WaveEnd,
        SkillEffectFinishTimingType::WaveSuccess => Duration::WaveSuccess,
        SkillEffectFinishTimingType::SpExecuteCount => Duration::SpExecuteCount(sd.finish_value),
        SkillEffectFinishTimingType::ChangeSquadCount => Duration::ChangeSquadCount(sd.finish_value),
        _ => Duration::Immediate,
    }
}

/// The effect of one skill-level record. Its value is always the record's
/// `effect_value`; the kind picks the variant, and for appeal buffs the calc
/// type picks one of three (1 additive, 2 percentage, 3 extra percentage).
pub open spec fn effect_of(sd: JsonSkillData) -> SkillEff {
    let v = sd.effect_value;
    match sd.effect_type {
        SkillEffectType::AddAppealBase => SkillEff::AppealPlus(v),
        SkillEffectType::AddStaminaBase => SkillEff::StaminaPlus(v),
        SkillEffectType::AddTechniqueBase => SkillEff::TechniquePlus(v),
        SkillEffectType::AddRoleMeritBuffBase => SkillEff::TypePlus(v),
        SkillEffectType::AddCriticalRateBase => SkillEff::CritRatePlus(v),
        SkillEffectType::AddCriticalAppealBase => SkillEff::CritPlus(v),
        SkillEffectType::AddShield => SkillEff::Shield(ValueType::Constant(v)),
        SkillEffectType::HealLife => SkillEff::Heal(ValueType::Constant(v)),
        SkillEffectType::AddDamage => SkillEff::Damage(ValueType::Constant(v)),
        SkillEffectType::AddShieldByCardStamina => SkillEff::Shield(ValueType::CardStamina(v)),
        SkillEffectType::HealLifeByCardStamina => SkillEff::Heal(ValueType::CardStamina(v)),
        SkillEffectType::AddShieldByCardAppeal => SkillEff::Shield(ValueType::CardAppeal(v)),
        SkillEffectType::HealLifeByCardAppeal => SkillEff::Heal(ValueType::CardAppeal(v)),
        SkillEffectType::AddShieldByCardTechnique => SkillEff::Shield(ValueType::CardTechnique(v)),
        SkillEffectType::HealLifeByCardTechnique => SkillEff::Heal(ValueType::CardTechnique(v)),
        SkillEffectType::AddShieldByMaxLife => SkillEff::Shield(ValueType::StamGauge(v)),
        SkillEffectType::HealLifeByMaxLife => SkillEff::Heal(ValueType::StamGauge(v)),
        SkillEffectType::HealLifeByNumOfVo => SkillEff::Heal(ValueType::Cardinal(v, 1u64 << 24u64)),
        SkillEffectType::HealLifeByNumOfSp => SkillEff::Heal(ValueType::Cardinal(v, 1u64 << 25u64)),
        SkillEffectType::HealLifeByNumOfGd => SkillEff::Heal(ValueType::Cardinal(v, 1u64 << 26u64)),
        SkillEffectType::HealLifeByNumOfSk => SkillEff::Heal(ValueType::Cardinal(v, 1u64 << 27u64)),
        SkillEffectType::AddDamageByNumOfVo => SkillEff::Damage(ValueType::Cardinal(v, 1u64 << 24u64)),
        SkillEffectType::AddDamageByNumOfSp => SkillEff::Damage(ValueType::Cardinal(v, 1u64 << 25u64)),
        SkillEffectType::AddDamageByNumOfGd => SkillEff::Damage(ValueType::Cardinal(v, 1u64 << 26u64)),
        SkillEffectType::AddDamageByNumOfSk => SkillEff::Damage(ValueType::Cardinal(v, 1u64 << 27u64)),
        SkillEffectType::AddVoltage => SkillEff::VoPlus(ValueType::Constant(v)),
        SkillEffectType::AddVoltageByAppeal => SkillEff::VoPlus(ValueType::CardAppeal(v)),
        SkillEffectType::AddVoltageByStamina => SkillEff::VoPlus(ValueType::CardStamina(v)),
        SkillEffectType::AddVoltageByTechnique => SkillEff::VoPlus(ValueType::CardTechnique(v)),
        SkillEffectType::AddAppealBuff => if sd.calc_type == 1 {
            SkillEff::AppealUpAdd(v, duration_of(sd))
        } else if sd.calc_type == 2 {
            SkillEff::AppealUp(v, duration_of(sd))
        } else if sd.calc_type == 3 {
            SkillEff::AppealUpEx(v, duration_of(sd))
        } else {
            SkillEff::Unimplemented
        },
        SkillEffectType::AddVoltageBuff => SkillEff::TapVoUp(v, duration_of(sd)),
        SkillEffectType::RemoveShield => SkillEff::RemoveShield(ValueType::Constant(v)),
        SkillEffectType::Other => SkillEff::Unimplemented,
    }
}

pub open spec fn or_members(s: Seq<Idol>) -> u64
    decreases s.len(),
{
    if s.len() == 0 {
        0
    } else {
        or_members(s.drop_last()) | (1u64 << member_bit(s.last()))
    }
}

pub open spec fn or_attributes(s: Seq<Attribute>) -> u64
    decreases s.len(),
{
    if s.len() == 0 {
        0
    } else {
        or_attributes(s.drop_last()) | (1u64 << attribute_bit(s.last()))
    }
}

pub open spec fn or_roles(s: Seq<Role>) -> u64
    decreases s.len(),
{
    if s.len() == 0 {
        0
    } else {
        or_roles(s.drop_last()) | (1u64 << role_bit(s.last()))
    }
}

pub open spec fn flag_mask(flag: u32, m: u64) -> u64 {
    if flag != 0 { m } else { 0 }
}

/// The predicates relative to the owner: same school, year, sub-unit,
/// attribute or role, as the target asks.
pub open spec fn owner_mask(t: JsonTarget, o: SkillOwner) -> u64 {
    flag_mask(t.owner_school, school_mask_of(school_of(o.member)))
        | flag_mask(t.owner_year, year_mask(year_of(o.member)))
        | flag_mask(t.owner_subunit, subunit_of(o.member))
        | flag_mask(t.owner_attribute, 1u64 << attribute_bit(o.attribute))
        | flag_mask(t.owner_role, 1u64 << role_bit(o.role))
}

/// The target mask before the skill is bound to a slot. A target with no
/// predicate and no slot flag that applies to nine cards hits every slot.
pub open spec fn target_mask_of(t: JsonTarget, owner: Option<SkillOwner>) -> u64 {
    let base = (match owner {
        Some(o) => owner_mask(t, o),
        None => 0u64,
    }) | or_members(t.fixed_members@) | or_attributes(t.fixed_attributes@) | or_roles(t.fixed_roles@);
    if t.self_only == 0 && t.not_self == 0 && t.owner_party == 0 && base == 0 && t.apply_count == 9 {
        ALL_SLOTS
    } else {
        base
    }
}

/// The index of the level record used for skill level `lv`: the last one
/// where the data has fewer levels.
pub open spec fn level_index(n_levels: nat, lv: nat) -> int {
    (if n_levels < lv { n_levels } else { lv }) - 1
}

/// The target mask once bound to slot `pos`.
pub open spec fn imbued_mask(s: Skill, pos: nat) -> u64 {
    s.target_mask
        | (if s.jishin { 1u64 << pos } else { 0u64 })
        | (if s.others { ALL_SLOTS ^ (1u64 << pos) } else { 0u64 })
        | (if s.strat { 7u64 << ((pos / 3) * 3) } else { 0u64 })
}

impl Duration {
    pub fn from_data(sd: &JsonSkillData) -> (r: Duration)
        ensures
            r == duration_of(*sd),
    {
        match sd.finish_type {
            SkillEffectFinishTimingType::Permanent => Duration::Permanent,
            SkillEffectFinishTimingType::Turn => Duration::Turn(sd.finish_value),
            SkillEffectFinishTimingType::WaveEnd => Duration::WaveEnd,
            SkillEffectFinishTimingType::WaveSuccess => Duration::WaveSuccess,
            SkillEffectFinishTimingType::SpExecuteCount => Duration::SpExecuteCount(sd.finish_value),
            SkillEffectFinishTimingType::ChangeSquadCount => Duration::ChangeSquadCount(sd.finish_value),
            _ => Duration::Immediate,
        }
    }
}

impl Default for Skill {
    /// A skill that never fires and does nothing.
    fn default() -> (r: Skill)
        ensures
            r.prob == 0,
            r.target_mask == 0,
            r.eff == SkillEff::Unimplemented,
            !r.jishin && !r.others && !r.strat,
    {
        Skill { prob: 0, target_mask: 0, eff: SkillEff::Unimplemented, jishin: false, others: false, strat: false }
    }
}

/// Maps one skill-level record onto the closed set of effects; a kind
/// outside the set becomes a no-op.
pub fn process_effect(sd: &JsonSkillData) -> (r: SkillEff)
    ensures
        r == effect_of(*sd),
{
    let v = sd.effect_value;
    match sd.effect_type {
        SkillEffectType::AddAppealBase => SkillEff::AppealPlus(v),
        SkillEffectType::AddStaminaBase => SkillEff::StaminaPlus(v),
        SkillEffectType::AddTechniqueBase => SkillEff::TechniquePlus(v),
        SkillEffectType::AddRoleMeritBuffBase => SkillEff::TypePlus(v),
        SkillEffectType::AddCriticalRateBase => SkillEff::CritRatePlus(v),
        SkillEffectType::AddCriticalAppealBase => SkillEff::CritPlus(v),
        SkillEffectType::AddShield => SkillEff::Shield(ValueType::Constant(v)),
        SkillEffectType::HealLife => SkillEff::Heal(ValueType::Constant(v)),
        SkillEffectType::AddDamage => SkillEff::Damage(ValueType::Constant(v)),
        SkillEffectType::AddShieldByCardStamina => SkillEff::Shield(ValueType::CardStamina(v)),
        SkillEffectType::HealLifeByCardStamina => SkillEff::Heal(ValueType::CardStamina(v)),
        SkillEffectType::AddShieldByCardAppeal => SkillEff::Shield(ValueType::CardAppeal(v)),
        SkillEffectType::HealLifeByCardAppeal => SkillEff::Heal(ValueType::CardAppeal(v)),
        SkillEffectType::AddShieldByCardTechnique => SkillEff::Shield(ValueType::CardTechnique(v)),
        SkillEffectType::HealLifeByCardTechnique => SkillEff::Heal(ValueType::CardTechnique(v)),
        SkillEffectType::AddShieldByMaxLife => SkillEff::Shield(ValueType::StamGauge(v)),
        SkillEffectType::HealLifeByMaxLife => SkillEff::Heal(ValueType::StamGauge(v)),
        SkillEffectType::HealLifeByNumOfVo => SkillEff::Heal(ValueType::Cardinal(v, role_mask(Role::Vo))),
        SkillEffectType::HealLifeByNumOfSp => SkillEff::Heal(ValueType::Cardinal(v, role_mask(Role::Sp))),
        SkillEffectType::HealLifeByNumOfGd => SkillEff::Heal(ValueType::Cardinal(v, role_mask(Role::Gd))),
        SkillEffectType::HealLifeByNumOfSk => SkillEff::Heal(ValueType::Cardinal(v, role_mask(Role::Sk))),
        SkillEffectType::AddDamageByNumOfVo => SkillEff::Damage(ValueType::Cardinal(v, role_mask(Role::Vo))),
        SkillEffectType::AddDamageByNumOfSp => SkillEff::Damage(ValueType::Cardinal(v, role_mask(Role::Sp))),
        SkillEffectType::AddDamageByNumOfGd => SkillEff::Damage(ValueType::Cardinal(v, role_mask(Role::Gd))),
        SkillEffectType::AddDamageByNumOfSk => SkillEff::Damage(ValueType::Cardinal(v, role_mask(Role::Sk))),
        SkillEffectType::AddVoltage => SkillEff::VoPlus(ValueType::Constant(v)),
        SkillEffectType::AddVoltageByAppeal => SkillEff::VoPlus(ValueType::CardAppeal(v)),
        SkillEffectType::AddVoltageByStamina => SkillEff::VoPlus(ValueType::CardStamina(v)),
        SkillEffectType::AddVoltageByTechnique => SkillEff::VoPlus(ValueType::CardTechnique(v)),
        SkillEffectType::AddAppealBuff => {
            if sd.calc_type == 1 {
                SkillEff::AppealUpAdd(v, Duration::from_data(sd))
            } else if sd.calc_type == 2 {
                SkillEff::AppealUp(v, Duration::from_data(sd))
            } else if sd.calc_type == 3 {
                SkillEff::AppealUpEx(v, Duration::from_data(sd))
            } else {
                SkillEff::Unimplemented
            }
        },
        SkillEffectType::AddVoltageBuff => SkillEff::TapVoUp(v, Duration::from_data(sd)),
        SkillEffectType::RemoveShield => SkillEff::RemoveShield(ValueType::Constant(v)),
        SkillEffectType::Other => SkillEff::Unimplemented,
    }
}

fn members_mask(ms: &Vec<Idol>) -> (r: u64)
    ensures
        r == or_members(ms@),
{
    let mut acc: u64 = 0;
    let mut i: usize = 0;
    while i < ms.len()
        invariant
            i <= ms.len(),
            acc == or_members(ms@.take(i as int)),
        decreases ms.len() - i,
    {
        assert(ms@.take(i as int + 1).drop_last() =~= ms@.take(i as int));
        acc = acc | member_mask(ms[i]);
        i += 1;
    }
    assert(ms@.take(ms.len() as int) =~= ms@);
    acc
}

fn attributes_mask(atts: &Vec<Attribute>) -> (r: u64)
    ensures
        r == or_attributes(atts@),
{
    let mut acc: u64 = 0;
    let mut i: usize = 0;
    while i < atts.len()
        invariant
            i <= atts.len(),
            acc == or_attributes(atts@.take(i as int)),
        decreases atts.len() - i,
    {
        assert(atts@.take(i as int + 1).drop_last() =~= atts@.take(i as int));
        acc = acc | attribute_mask(atts[i]);
        i += 1;
    }
    assert(atts@.take(atts.len() as int) =~= atts@);
    acc
}

fn roles_mask(roles: &Vec<Role>) -> (r: u64)
    ensures
        r == or_roles(roles@),
{
    let mut acc: u64 = 0;
    let mut i: usize = 0;
    while i < roles.len()
        invariant
            i <= roles.len(),
            acc == or_roles(roles@.take(i as int)),
        decreases roles.len() - i,
    {
        assert(roles@.take(i as int + 1).drop_last() =~= roles@.take(i as int));
        acc = acc | role_mask(roles[i]);
        i += 1;
    }
    assert(roles@.take(roles.len() as int) =~= roles@);
    acc
}

fn owner_relative_mask(t: &JsonTarget, o: &SkillOwner) -> (r: u64)
    ensures
        r == owner_mask(*t, *o),
{
    let school = if t.owner_school != 0 { school_mask(school_index(o.member)) } else { 0 };
    let year = if t.owner_year != 0 { year_mask_m(o.member) } else { 0 };
    let subunit = if t.owner_subunit != 0 { subunit_mask_m(o.member) } else { 0 };
    let attribute = if t.owner_attribute != 0 { attribute_mask(o.attribute) } else { 0 };
    let role = if t.owner_role != 0 { role_mask(o.role) } else { 0 };
    school | year | subunit | attribute | role
}

impl Skill {
    /// Binds a skill definition to skill level `lv` (from 1; past the last
    /// level of the data, the last one) and, for targets relative to the
    /// owner, to the card that owns it.
    pub fn from_json(js: &JsonSkill, lv: u8, owner: Option<&SkillOwner>) -> (r: Skill)
        requires
            js.levels.len() > 0,
            lv >= 1,
        ensures
            r.prob == js.trigger_probability,
            r.eff == effect_of(js.levels@[level_index(js.levels.len() as nat, lv as nat)]),
            r.jishin == (js.target.self_only != 0),
            r.others == (js.target.not_self != 0),
            r.strat == (js.target.owner_party != 0),
            r.target_mask == target_mask_of(
                js.target,
                match owner {
                    Some(o) => Some(*o),
                    None => None,
                },
            ),
    {
        let n = js.levels.len();
        let lv_i = (if n < lv as usize { n } else { lv as usize }) - 1;
        let eff = process_effect(&js.levels[lv_i]);
        let t = &js.target;
        let jishin = t.self_only != 0;
        let others = t.not_self != 0;
        let strat = t.owner_party != 0;
        let relative = match owner {
            Some(o) => owner_relative_mask(t, o),
            None => 0,
        };
        let mut target_mask = relative | members_mask(&t.fixed_members) | attributes_mask(&t.fixed_attributes)
            | roles_mask(&t.fixed_roles);
        if !(jishin || others || strat) && target_mask == 0 && t.apply_count == 9 {
            target_mask = ALL_SLOTS;
        }
        Skill { jishin, others, strat, target_mask, eff, prob: js.trigger_probability }
    }

    /// The skill bound to slot `pos`: its slot flags become slot bits.
    pub fn imbue_pos(&self, pos: usize) -> (r: Skill)
        requires
            pos < 9,
        ensures
            r.target_mask == imbued_mask(*self, pos as nat),
            r.prob == self.prob,
            r.eff == self.eff,
            r.jishin == self.jishin,
            r.others == self.others,
            r.strat == self.strat,
    {
        let p = pos as u64;
        let own: u64 = if self.jishin { 1u64 << p } else { 0 };
        let rest: u64 = if self.others { ALL_SLOTS ^ (1u64 << p) } else { 0 };
        let group: u64 = if self.strat { 7u64 << ((p / 3) * 3) } else { 0 };
        Skill { target_mask: self.target_mask | own | rest | group, ..*self }
    }
}

} // verus!
