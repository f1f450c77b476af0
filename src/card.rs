use vstd::prelude::*;
use crate::basic_data::{Attribute, Idol, Rarity, Role, RoleEffect};
use crate::masks::{attribute_bit, mask_for, member_bit, role_bit};
use crate::skill::{JsonSkill, Skill, SkillOwner, effect_of, level_index, target_mask_of};

verus! {

/// The card data that the simulation needs: stats at level 1 and at the
/// default maximum level and the five levels after it, with the offsets
/// that idolization and each limit break add. A stat row is
/// `[level, appeal, stamina, technique]`.
#[derive(Debug, Clone, PartialEq, Eq)]
pub struct TrimCard {
    pub ordinal: u32,
    pub rarity: Rarity,
    pub max_level: u32,
    pub attribute: Attribute,
    pub role: Role,
    pub member: Idol,
    pub role_effect: RoleEffect,
    pub active_skill: JsonSkill,
    pub passive_skills: Vec<JsonSkill>,
    pub idolized_offset: [u32; 4],
    pub tt_offset: Vec<[u32; 4]>,
    pub stats: Vec<[u32; 4]>,
}

/// A card as it stands in the album: stats for its level, idolization and
/// limit break, and its skills bound to their skill levels.
#[derive(Debug, Clone, PartialEq, Eq)]
pub struct Card {
    pub ordinal: u32,
    pub member: Idol,
    pub rarity: Rarity,
    pub attribute: Attribute,
    pub role: Role,
    pub role_effect: RoleEffect,
    pub level: u32,
    pub appeal: u32,
    pub technique: u32,
    pub stamina: u32,
    pub crit_rate_bonus: bool,
    pub skill_mask: u64,
    pub tap_skill: Skill,
    pub etc_skills: Vec<Skill>,
}

pub open spec fn default_level(r: Rarity) -> nat {
    match r {
        Rarity::R => 40,
        Rarity::Sr => 60,
        Rarity::Ur => 80,
    }
}

/// Skill levels (tap, passive) for a rarity and limit break; an unidolized
/// card has level 1 skills.
pub open spec fn skill_levels_of(rarity: Rarity, lb: nat, idolized: bool) -> (u8, u8) {
    if !idolized {
        (1, 1)
    } else if lb == 0 {
        (3, 3)
    } else if lb == 5 {
        (5, 5)
    } else {
        match rarity {
            Rarity::R => if lb <= 2 { (3, 3) } else if lb == 3 { (4, 3) } else { (4, 4) },
            Rarity::Sr => if lb <= 2 { (3, 3) } else { (4, 4) },
            Rarity::Ur => if lb <= 2 { (3, 4) } else { (4, 4) },
        }
    }
}

/// The row of the stat table for a requested level: row 0 is level 1, row 1
/// the default maximum level, then one row per level above it.
pub open spec fn stat_row(rarity: Rarity, level: Option<u8>) -> int {
    match level {
        Some(n) => if n >= default_level(rarity) - 1 { n - (default_level(rarity) - 1) } else { 0 },
        None => 1,
    }
}

/// Appeal, stamina and technique after idolization and limit break.
pub open spec fn stats_of(c: TrimCard, level: Option<u8>, idolized: bool, lb: nat) -> Seq<int> {
    let row = c.stats@[stat_row(c.rarity, level)];
    if idolized {
        seq![
            row[0] as int,
            row[1] + c.idolized_offset[1] + c.tt_offset@[lb as int][1],
            row[2] + c.idolized_offset[2] + c.tt_offset@[lb as int][2],
            row[3] + c.idolized_offset[3] + c.tt_offset@[lb as int][3],
        ]
    } else {
        seq![row[0] as int, row[1] as int, row[2] as int, row[3] as int]
    }
}

/// The owner-relative facts of a card.
pub open spec fn owner_of(c: TrimCard) -> SkillOwner {
    SkillOwner { member: c.member, attribute: c.attribute, role: c.role }
}

pub fn default_lv(rarity: Rarity) -> (r: u8)
    ensures
        r == default_level(rarity),
{
    match rarity {
        Rarity::R => 40,
        Rarity::Sr => 60,
        Rarity::Ur => 80,
    }
}

/// Skill levels (tap, passive) for a rarity, limit break and idolization.
pub fn skill_levels(rarity: Rarity, lb: u8, idolized: bool) -> (r: (u8, u8))
    requires
        lb <= 5,
    ensures
        r == skill_levels_of(rarity, lb as nat, idolized),
        1 <= r.0 && 1 <= r.1,
{
    if !idolized {
        (1, 1)
    } else if lb == 0 {
        (3, 3)
    } else if lb == 5 {
        (5, 5)
    } else {
        match rarity {
            Rarity::R => if lb <= 2 { (3, 3) } else if lb == 3 { (4, 3) } else { (4, 4) },
            Rarity::Sr => if lb <= 2 { (3, 3) } else { (4, 4) },
            Rarity::Ur => if lb <= 2 { (3, 4) } else { (4, 4) },
        }
    }
}

impl TrimCard {
    /// The stat table's row fits, limit break is below 6, and idolized stats fit in `u32`.
    pub open spec fn stats_ok(self, level: Option<u8>, idolized: bool, lb: nat) -> bool {
        &&& lb < 6
        &&& (match level { Some(n) => 0 < n < 100, None => true })
        &&& 0 <= stat_row(self.rarity, level) < self.stats.len()
        &&& idolized ==> lb < self.tt_offset.len()
        &&& forall|i: int| 1 <= i < 4 ==> #[trigger] stats_of(self, level, idolized, lb)[i] <= u32::MAX
    }

    /// `[level, appeal, stamina, technique]` at the given level (the default
    /// maximum level when none is given), with idolization and limit break.
    pub fn stats_with(&self, level: Option<u8>, idolized: bool, lb: u8) -> (r: [u32; 4])
        requires
            self.stats_ok(level, idolized, lb as nat),
        ensures
            forall|i: int| 0 <= i < 4 ==> r[i] == #[trigger] stats_of(*self, level, idolized, lb as nat)[i],
    {
        let level_i: usize = match level {
            Some(n) => {
                let d = default_lv(self.rarity) - 1;
                if n >= d { (n - d) as usize } else { 0 }
            },
            None => 1,
        };
        let mut stats = self.stats[level_i];
        if idolized {
            let io = self.idolized_offset;
            let lo = self.tt_offset[lb as usize];
            assert(stats_of(*self, level, idolized, lb as nat)[1] <= u32::MAX);
            assert(stats_of(*self, level, idolized, lb as nat)[2] <= u32::MAX);
            assert(stats_of(*self, level, idolized, lb as nat)[3] <= u32::MAX);
            stats[1] = stats[1] + io[1] + lo[1];
            stats[2] = stats[2] + io[2] + lo[2];
            stats[3] = stats[3] + io[3] + lo[3];
        }
        stats
    }
}

impl Card {
    /// Builds an album card at the default maximum level for its rarity.
    /// The crit-rate bonus goes to a card whose technique exceeds both its
    /// appeal and its stamina.
    pub fn instantiate_json(jc: &TrimCard, lb: u8, idolized: bool) -> (r: Card)
        requires
            lb <= 5,
            jc.stats_ok(None, idolized, lb as nat),
            jc.active_skill.levels.len() > 0,
            forall|i: int| 0 <= i < jc.passive_skills.len() ==> (#[trigger] jc.passive_skills[i]).levels.len() > 0,
        ensures
            r.ordinal == jc.ordinal,
            r.member == jc.member,
            r.rarity == jc.rarity,
            r.attribute == jc.attribute,
            r.role == jc.role,
            r.role_effect == jc.role_effect,
            r.level == stats_of(*jc, None, idolized, lb as nat)[0],
            r.appeal == stats_of(*jc, None, idolized, lb as nat)[1],
            r.stamina == stats_of(*jc, None, idolized, lb as nat)[2],
            r.technique == stats_of(*jc, None, idolized, lb as nat)[3],
            r.crit_rate_bonus == (r.technique > r.appeal && r.technique > r.stamina),
            r.skill_mask == (1u64 << member_bit(jc.member)) | (1u64 << role_bit(jc.role)) | (1u64
                << attribute_bit(jc.attribute)),
            r.tap_skill.prob == jc.active_skill.trigger_probability,
            r.tap_skill.eff == effect_of(
                jc.active_skill.levels@[level_index(
                    jc.active_skill.levels.len() as nat,
                    skill_levels_of(jc.rarity, lb as nat, idolized).0 as nat,
                )],
            ),
            r.tap_skill.target_mask == target_mask_of(jc.active_skill.target, Some(owner_of(*jc))),
            r.etc_skills.len() == jc.passive_skills.len(),
            forall|i: int| 0 <= i < r.etc_skills.len() ==> {
                let js = #[trigger] jc.passive_skills[i];
                &&& r.etc_skills[i].prob == js.trigger_probability
                &&& r.etc_skills[i].eff == effect_of(
                    js.levels@[level_index(
                        js.levels.len() as nat,
                        skill_levels_of(jc.rarity, lb as nat, idolized).1 as nat,
                    )],
                )
                &&& r.etc_skills[i].target_mask == target_mask_of(js.target, Some(owner_of(*jc)))
                &&& r.etc_skills[i].jishin == (js.target.self_only != 0)
                &&& r.etc_skills[i].others == (js.target.not_self != 0)
                &&& r.etc_skills[i].strat == (js.target.owner_party != 0)
            },
    {
        let stats = jc.stats_with(None, idolized, lb);
        let level = stats[0];
        let appeal = stats[1];
        let stamina = stats[2];
        let technique = stats[3];
        let (tap_lv, etc_lv) = skill_levels(jc.rarity, lb, idolized);
        let owner = SkillOwner { member: jc.member, attribute: jc.attribute, role: jc.role };
        let tap_skill = Skill::from_json(&jc.active_skill, tap_lv, Some(&owner));
        let mut etc_skills: Vec<Skill> = Vec::new();
        let mut i: usize = 0;
        while i < jc.passive_skills.len()
            invariant
                i <= jc.passive_skills.len(),
                etc_skills.len() == i,
                owner == owner_of(*jc),
                etc_lv == skill_levels_of(jc.rarity, lb as nat, idolized).1,
                etc_lv >= 1,
                forall|k: int| 0 <= k < jc.passive_skills.len() ==> (#[trigger] jc.passive_skills[k]).levels.len() > 0,
                forall|k: int| 0 <= k < i ==> {
                    let js = #[trigger] jc.passive_skills[k];
                    &&& etc_skills[k].prob == js.trigger_probability
                    &&& etc_skills[k].eff == effect_of(
                        js.levels@[level_index(js.levels.len() as nat, etc_lv as nat)],
                    )
                    &&& etc_skills[k].target_mask == target_mask_of(js.target, Some(owner))
                    &&& etc_skills[k].jishin == (js.target.self_only != 0)
                    &&& etc_skills[k].others == (js.target.not_self != 0)
                    &&& etc_skills[k].strat == (js.target.owner_party != 0)
                },
            decreases jc.passive_skills.len() - i,
        {
            let sk = Skill::from_json(&jc.passive_skills[i], etc_lv, Some(&owner));
            etc_skills.push(sk);
            i += 1;
        }
        Card {
            ordinal: jc.ordinal,
            member: jc.member,
            rarity: jc.rarity,
            attribute: jc.attribute,
            role: jc.role,
            role_effect: jc.role_effect,
            crit_rate_bonus: technique > appeal && technique > stamina,
            skill_mask: mask_for(jc.member, jc.role, jc.attribute),
            tap_skill,
            etc_skills,
            level,
            appeal,
            technique,
            stamina,
        }
    }
}

/// Cuts a full stat table (one row per level from 1) to the rows the
/// library reads: level 1, then the default maximum level and the five
/// after it. `None` when the table is shorter than that.
pub fn trim_stats(rarity: Rarity, stats: &Vec<[u32; 4]>) -> (r: Option<Vec<[u32; 4]>>)
    ensures
        r is Some <==> stats.len() >= default_level(rarity) + 5,
        r is Some ==> r->0@ == seq![stats@[0]] + stats@.subrange(
            default_level(rarity) - 1 as int,
            default_level(rarity) + 5 as int,
        ),
{
    let d = default_lv(rarity) as usize;
    if stats.len() < d + 5 {
        return None;
    }
    let mut out: Vec<[u32; 4]> = Vec::new();
    out.push(stats[0]);
    let mut i: usize = d - 1;
    while i < d + 5
        invariant
            d == default_level(rarity),
            d - 1 <= i <= d + 5,
            d >= 40,
            d + 5 <= stats.len(),
            out@ == seq![stats@[0]] + stats@.subrange(d - 1, i as int),
        decreases d + 5 - i,
    {
        out.push(stats[i]);
        proof {
            assert(stats@.subrange(d - 1, i as int + 1) =~= stats@.subrange(d - 1, i as int).push(stats@[i as int]));
        }
        i += 1;
    }
    assert(out@ =~= seq![stats@[0]] + stats@.subrange(d - 1, d + 5));
    Some(out)
}

} // verus!
