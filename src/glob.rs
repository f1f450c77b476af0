//! The fixed inputs of a search, and the integer part of the per-slot
//! statistics that each simulation starts from. Percentages are basis
//! points (10_000 is 100%); accessory bonuses are in tenths, since a bonus
//! to a card of another attribute counts 1.1 times.
use vstd::prelude::*;
use crate::acc_handle::AccHandle;
use crate::acct_info::AccKind;
use crate::basic_data::{Attribute, Rarity, Role, RoleEffect};
use crate::card::Card;
use crate::schedule::Schedule;
use crate::masks::ALL_SLOTS;
use crate::skill::{Skill, SkillEff, imbued_mask};
use crate::song::Song;

verus! {

/// An accessory with its flat stat bonuses.
#[derive(Debug, Copy, Clone, PartialEq, Eq, Structural, Hash)]
pub struct Acc {
    pub attribute: Attribute,
    pub kind: AccKind,
    pub rarity: Rarity,
    pub lb: u8,
    pub lv: u8,
    pub sl: u8,
    pub appeal: u32,
    pub stamina: u32,
    pub technique: u32,
}

/// The song, the album of cards, and the inventory of accessories that
/// every evaluation of a schedule reads.
#[derive(Debug, Clone, PartialEq, Eq)]
pub struct PlayGlob {
    pub song: Song,
    pub album: Vec<Card>,
    pub inventory: Vec<Acc>,
}

/// A stat that passive skills raise.
#[derive(Debug, Copy, Clone, PartialEq, Eq, Structural, Hash)]
pub enum Stat {
    Appeal,
    Stamina,
    Technique,
    CritRate,
    CritPower,
}

/// What a passive effect adds to `stat`, in basis points.
pub open spec fn passive_value(eff: SkillEff, stat: Stat) -> nat {
    match eff {
        SkillEff::AppealPlus(v) => if stat == Stat::Appeal { v as nat } else { 0 },
        SkillEff::StaminaPlus(v) => if stat == Stat::Stamina { v as nat } else { 0 },
        SkillEff::TechniquePlus(v) => if stat == Stat::Technique { v as nat } else { 0 },
        SkillEff::CritRatePlus(v) => if stat == Stat::CritRate { v as nat } else { 0 },
        SkillEff::CritPlus(v) => if stat == Stat::CritPower { v as nat } else { 0 },
        _ => 0,
    }
}

/// What the passive skills of a card in slot `src` add to `stat` of a slot
/// with mask `target`.
pub open spec fn skills_bonus(skills: Seq<Skill>, src: nat, target: u64, stat: Stat) -> nat
    decreases skills.len(),
{
    if skills.len() == 0 {
        0
    } else {
        skills_bonus(skills.drop_last(), src, target, stat) + (if imbued_mask(skills.last(), src) & target
            != 0 {
            passive_value(skills.last().eff, stat)
        } else {
            0
        })
    }
}

/// What the passive skills of the cards in the first `n` slots add.
pub open spec fn team_bonus(album: Seq<Card>, cards: Seq<usize>, n: int, target: u64, stat: Stat) -> nat
    decreases n,
{
    if n <= 0 {
        0
    } else {
        team_bonus(album, cards, n - 1, target, stat) + skills_bonus(
            album[cards[n - 1] as int].etc_skills@,
            (n - 1) as nat,
            target,
            stat,
        )
    }
}

/// The predicates that slot `pos` meets: its card's, and its own position.
pub open spec fn slot_mask(album: Seq<Card>, cards: Seq<usize>, pos: int) -> u64 {
    album[cards[pos] as int].skill_mask | (1u64 << pos)
}

/// The base of each stat's modifier: 100%, but 50% for crit power and the
/// 15% technique bonus for crit rate.
pub open spec fn stat_base(c: Card, stat: Stat) -> nat {
    match stat {
        Stat::CritRate => if c.crit_rate_bonus { 1500 } else { 0 },
        Stat::CritPower => 5000,
        _ => 10_000,
    }
}

/// The modifier of `stat` at slot `pos`, in basis points.
pub open spec fn stat_mod(album: Seq<Card>, cards: Seq<usize>, pos: int, stat: Stat) -> nat {
    stat_base(album[cards[pos] as int], stat) + team_bonus(album, cards, 9, slot_mask(album, cards, pos), stat)
}

/// How a card's role effect moves the multiplier of `role` in its group:
/// up for its positive role, down for its negative one, the other way
/// round for guard (a lower guard multiplier means less damage).
pub open spec fn role_delta(re: RoleEffect, role: Role) -> int {
    (if re.positive_type == role {
        if role == Role::Gd { -(re.positive_value as int) } else { re.positive_value as int }
    } else {
        0
    }) + (if re.negative_type == role {
        if role == Role::Gd { re.negative_value as int } else { -(re.negative_value as int) }
    } else {
        0
    })
}

/// Sum of the type-plus passive values of a card.
pub open spec fn type_plus_total(skills: Seq<Skill>) -> nat
    decreases skills.len(),
{
    if skills.len() == 0 {
        0
    } else {
        type_plus_total(skills.drop_last()) + match skills.last().eff {
            SkillEff::TypePlus(v) => v as nat,
            _ => 0,
        }
    }
}

/// What one card adds to its group's multiplier of `role`: its role effect,
/// and its type-plus passives on its positive role.
pub open spec fn card_role_delta(c: Card, role: Role) -> int {
    role_delta(c.role_effect, role) + (if c.role_effect.positive_type == role {
        if role == Role::Gd { -(type_plus_total(c.etc_skills@) as int) } else { type_plus_total(c.etc_skills@) as int }
    } else {
        0
    })
}

/// The multiplier of `role` in group `g`, in basis points.
pub open spec fn group_mod(album: Seq<Card>, cards: Seq<usize>, g: int, role: Role) -> int {
    10_000 + card_role_delta(album[cards[3 * g] as int], role) + card_role_delta(album[cards[3 * g + 1] as int], role)
        + card_role_delta(album[cards[3 * g + 2] as int], role)
}

pub open spec fn acc_stat(a: Acc, stat: Stat) -> nat {
    match stat {
        Stat::Appeal => a.appeal as nat,
        Stat::Stamina => a.stamina as nat,
        Stat::Technique => a.technique as nat,
        _ => 0,
    }
}

/// What the accessory in slot `a` adds to `stat` of a card of attribute
/// `att`, in tenths: ten times its bonus for the same attribute, eleven
/// times for another.
pub open spec fn acc_bonus_one(inv: Seq<Acc>, h: AccHandle, att: Attribute, stat: Stat) -> nat {
    match h.index() {
        Some(i) => if i < inv.len() {
            (if inv[i as int].attribute == att { 10nat } else { 11nat }) * acc_stat(inv[i as int], stat)
        } else {
            0
        },
        None => 0,
    }
}

/// What the three accessories of the group of slot `pos` add, in tenths.
pub open spec fn acc_bonus(album: Seq<Card>, inv: Seq<Acc>, s: Schedule, pos: int, stat: Stat) -> nat {
    let g = pos / 3;
    let att = album[s.cards[pos] as int].attribute;
    acc_bonus_one(inv, s.accs[3 * g], att, stat) + acc_bonus_one(inv, s.accs[3 * g + 1], att, stat)
        + acc_bonus_one(inv, s.accs[3 * g + 2], att, stat)
}

proof fn lemma_all_slots_hit(a: u64, b: u64, c: u64, m: u64, pos: u64)
    requires
        pos < 9,
    ensures
        (((0x1ffu64 | a) | b) | c) & (m | (1u64 << pos)) != 0,
{
    assert((((0x1ffu64 | a) | b) | c) & (m | (1u64 << pos)) != 0) by (bit_vector)
        requires pos < 9;
}

proof fn lemma_team_bonus_with_extra(
    album: Seq<Card>,
    album2: Seq<Card>,
    cards: Seq<usize>,
    c: int,
    q0: int,
    sk: Skill,
    v: u32,
    target: u64,
    n: int,
)
    requires
        0 <= n <= 9,
        cards.len() == 9,
        0 <= q0 < 9,
        cards[q0] == c,
        0 <= c < album.len(),
        album2 == album.update(c, album2[c]),
        album2.len() == album.len(),
        forall|i: int| 0 <= i < 9 ==> #[trigger] cards[i] < album.len(),
        forall|i: int, j: int| 0 <= i < 9 && 0 <= j < 9 && i != j ==> cards[i] != cards[j],
        album2[c].etc_skills@ == album[c].etc_skills@.push(sk),
        sk.eff == SkillEff::AppealPlus(v),
        sk.target_mask == ALL_SLOTS,
        forall|q: int| 0 <= q < 9 ==> #[trigger] imbued_mask(sk, q as nat) & target != 0,
    ensures
        team_bonus(album2, cards, n, target, Stat::Appeal) == team_bonus(album, cards, n, target, Stat::Appeal) + (
        if q0 < n { v as nat } else { 0nat }),
    decreases n,
{
    if n > 0 {
        lemma_team_bonus_with_extra(album, album2, cards, c, q0, sk, v, target, n - 1);
        let q = n - 1;
        if cards[q] as int == c {
            assert(q == q0);
            let sk_old = album[c].etc_skills@;
            let sk_new = album2[c].etc_skills@;
            assert(sk_new.drop_last() =~= sk_old);
            assert(imbued_mask(sk, q as nat) & target != 0);
        } else {
            assert(album2[cards[q] as int] == album[cards[q] as int]);
        }
    }
}

/// Adding one passive appeal skill of value `v` that targets every slot to
/// a card on the team raises the appeal modifier of every slot by exactly
/// `v` basis points; nothing else about the slot's appeal changes.
pub proof fn lemma_passive_appeal_all_slots(
    album: Seq<Card>,
    cards: Seq<usize>,
    c: int,
    card2: Card,
    sk: Skill,
    v: u32,
    pos: int,
)
    requires
        cards.len() == 9,
        forall|i: int| 0 <= i < 9 ==> #[trigger] cards[i] < album.len(),
        forall|i: int, j: int| 0 <= i < 9 && 0 <= j < 9 && i != j ==> cards[i] != cards[j],
        exists|q: int| 0 <= q < 9 && cards[q] == c,
        card2.skill_mask == album[c].skill_mask,
        card2.etc_skills@ == album[c].etc_skills@.push(sk),
        sk.eff == SkillEff::AppealPlus(v),
        sk.target_mask == ALL_SLOTS,
        0 <= pos < 9,
    ensures
        stat_mod(album.update(c, card2), cards, pos, Stat::Appeal) == stat_mod(album, cards, pos, Stat::Appeal) + v,
{
    let q0 = choose|q: int| 0 <= q < 9 && cards[q] == c;
    let album2 = album.update(c, card2);
    let target = slot_mask(album, cards, pos);
    assert(slot_mask(album2, cards, pos) == target);
    assert forall|q: int| 0 <= q < 9 implies #[trigger] imbued_mask(sk, q as nat) & target != 0 by {
        let a = if sk.jishin { 1u64 << (q as nat) } else { 0u64 };
        let b = if sk.others { ALL_SLOTS ^ (1u64 << (q as nat)) } else { 0u64 };
        let d = if sk.strat { 7u64 << (((q as nat) / 3) * 3) } else { 0u64 };
        lemma_all_slots_hit(a, b, d, album[cards[pos] as int].skill_mask, pos as u64);
        assert((1u64 << pos) == (1u64 << (pos as u64)));
    }
    assert(album2 == album.update(c, album2[c]));
    lemma_team_bonus_with_extra(album, album2, cards, c, q0, sk, v, target, 9);
}

/// The integer statistics of one slot, before the simulation turns them
/// into voltage.
#[derive(Debug, Copy, Clone, PartialEq, Eq, Structural)]
pub struct SlotStats {
    pub appeal: u32,
    pub stamina: u32,
    pub technique: u32,
    /// Multipliers of the three base stats, in basis points.
    pub mod_appeal: u64,
    pub mod_stamina: u64,
    pub mod_technique: u64,
    /// Crit rate on top of what technique gives, in basis points.
    pub crit_rate_bonus: u64,
    /// Crit power, in basis points.
    pub crit_power: u64,
    /// Accessory bonuses, in tenths.
    pub acc_appeal: u64,
    pub acc_stamina: u64,
    pub acc_technique: u64,
    pub skill_mask: u64,
    pub tap_skill: Skill,
    /// Whether the card's attribute is the song's.
    pub att_match: bool,
}

/// Role multipliers of one group, in basis points.
#[derive(Debug, Copy, Clone, PartialEq, Eq, Structural)]
pub struct GroupMods {
    pub vo: i64,
    pub sp: i64,
    pub gd: i64,
    pub sk: i64,
}

/// Everything a simulation run needs to know of a team.
#[derive(Debug, Clone, PartialEq, Eq)]
pub struct StatPlan {
    pub slots: Vec<SlotStats>,
    pub groups: Vec<GroupMods>,
}

pub open spec fn stat_of(st: SlotStats, stat: Stat) -> u64 {
    match stat {
        Stat::Appeal => st.mod_appeal,
        Stat::Stamina => st.mod_stamina,
        Stat::Technique => st.mod_technique,
        Stat::CritRate => st.crit_rate_bonus,
        Stat::CritPower => st.crit_power,
    }
}

pub open spec fn group_of(gm: GroupMods, role: Role) -> i64 {
    match role {
        Role::Vo => gm.vo,
        Role::Sp => gm.sp,
        Role::Gd => gm.gd,
        Role::Sk => gm.sk,
    }
}

pub open spec fn all_stats() -> Seq<Stat> {
    seq![Stat::Appeal, Stat::Stamina, Stat::Technique, Stat::CritRate, Stat::CritPower]
}

impl PlayGlob {
    /// The schedule fits this album and inventory.
    pub open spec fn fits(&self, s: Schedule) -> bool {
        s.wf(self.album.len() as int, self.inventory.len() as int)
    }

    /// The passive sums of the team fit the integer widths used: every
    /// stat modifier in `u64`, every card's type-plus total in `u32`.
    pub open spec fn sums_fit(&self, s: Schedule) -> bool {
        &&& forall|pos: int, stat: Stat| 0 <= pos < 9 ==> #[trigger] stat_mod(self.album@, s.cards@, pos, stat) <= u64::MAX
        &&& forall|pos: int| 0 <= pos < 9 ==> type_plus_total(#[trigger] self.album@[s.cards[pos] as int].etc_skills@) <= u32::MAX
    }
}

fn passive_of(eff: SkillEff, stat: Stat) -> (r: u32)
    ensures
        r == passive_value(eff, stat),
{
    match eff {
        SkillEff::AppealPlus(v) => if stat == Stat::Appeal { v } else { 0 },
        SkillEff::StaminaPlus(v) => if stat == Stat::Stamina { v } else { 0 },
        SkillEff::TechniquePlus(v) => if stat == Stat::Technique { v } else { 0 },
        SkillEff::CritRatePlus(v) => if stat == Stat::CritRate { v } else { 0 },
        SkillEff::CritPlus(v) => if stat == Stat::CritPower { v } else { 0 },
        _ => 0,
    }
}

proof fn lemma_skills_bonus_prefix(skills: Seq<Skill>, src: nat, target: u64, stat: Stat, i: int)
    requires
        0 <= i <= skills.len(),
    ensures
        skills_bonus(skills.take(i), src, target, stat) <= skills_bonus(skills, src, target, stat),
    decreases skills.len() - i,
{
    if i < skills.len() {
        lemma_skills_bonus_prefix(skills, src, target, stat, i + 1);
        assert(skills.take(i + 1).drop_last() =~= skills.take(i));
    } else {
        assert(skills.take(i) =~= skills);
    }
}

proof fn lemma_team_bonus_mono(album: Seq<Card>, cards: Seq<usize>, n: int, m: int, target: u64, stat: Stat)
    requires
        0 <= n <= m,
    ensures
        team_bonus(album, cards, n, target, stat) <= team_bonus(album, cards, m, target, stat),
    decreases m - n,
{
    if n < m {
        lemma_team_bonus_mono(album, cards, n, m - 1, target, stat);
    }
}

proof fn lemma_type_plus_prefix(skills: Seq<Skill>, i: int)
    requires
        0 <= i <= skills.len(),
    ensures
        type_plus_total(skills.take(i)) <= type_plus_total(skills),
    decreases skills.len() - i,
{
    if i < skills.len() {
        lemma_type_plus_prefix(skills, i + 1);
        assert(skills.take(i + 1).drop_last() =~= skills.take(i));
    } else {
        assert(skills.take(i) =~= skills);
    }
}

fn skills_bonus_of(skills: &Vec<Skill>, src: usize, target: u64, stat: Stat) -> (r: u64)
    requires
        src < 9,
        skills_bonus(skills@, src as nat, target, stat) <= u64::MAX,
    ensures
        r == skills_bonus(skills@, src as nat, target, stat),
{
    let mut acc: u64 = 0;
    let mut i: usize = 0;
    while i < skills.len()
        invariant
            i <= skills.len(),
            src < 9,
            skills_bonus(skills@, src as nat, target, stat) <= u64::MAX,
            acc == skills_bonus(skills@.take(i as int), src as nat, target, stat),
        decreases skills.len() - i,
    {
        proof {
            assert(skills@.take(i as int + 1).drop_last() =~= skills@.take(i as int));
            lemma_skills_bonus_prefix(skills@, src as nat, target, stat, i as int + 1);
        }
        let sk = skills[i].imbue_pos(src);
        if sk.target_mask & target != 0 {
            acc = acc + passive_of(sk.eff, stat) as u64;
        }
        i += 1;
    }
    assert(skills@.take(skills.len() as int) =~= skills@);
    acc
}

fn type_plus_of(skills: &Vec<Skill>) -> (r: u32)
    requires
        type_plus_total(skills@) <= u32::MAX,
    ensures
        r == type_plus_total(skills@),
{
    let mut acc: u32 = 0;
    let mut i: usize = 0;
    while i < skills.len()
        invariant
            i <= skills.len(),
            type_plus_total(skills@) <= u32::MAX,
            acc == type_plus_total(skills@.take(i as int)),
        decreases skills.len() - i,
    {
        proof {
            assert(skills@.take(i as int + 1).drop_last() =~= skills@.take(i as int));
            lemma_type_plus_prefix(skills@, i as int + 1);
        }
        match skills[i].eff {
            SkillEff::TypePlus(v) => {
                acc = acc + v;
            },
            _ => {},
        }
        i += 1;
    }
    assert(skills@.take(skills.len() as int) =~= skills@);
    acc
}

fn role_delta_of(c: &Card, role: Role) -> (r: i64)
    requires
        type_plus_total(c.etc_skills@) <= u32::MAX,
    ensures
        r == card_role_delta(*c, role),
        -0x3_0000_0000 <= r <= 0x3_0000_0000,
{
    let re = c.role_effect;
    let tp = type_plus_of(&c.etc_skills) as i64;
    let pv = re.positive_value as i64;
    let nv = re.negative_value as i64;
    let is_gd = role == Role::Gd;
    let mut d: i64 = 0;
    if re.positive_type == role {
        d = if is_gd { -pv - tp } else { pv + tp };
    }
    if re.negative_type == role {
        d = if is_gd { d + nv } else { d - nv };
    }
    d
}

impl PlayGlob {
    /// What the passive skills of the whole team add to `stat` of a slot
    /// with mask `target`.
    fn team_bonus_of(&self, s: &Schedule, target: u64, stat: Stat) -> (r: u64)
        requires
            self.fits(*s),
            team_bonus(self.album@, s.cards@, 9, target, stat) <= u64::MAX,
        ensures
            r == team_bonus(self.album@, s.cards@, 9, target, stat),
    {
        let mut acc: u64 = 0;
        let mut q: usize = 0;
        while q < 9
            invariant
                q <= 9,
                self.fits(*s),
                team_bonus(self.album@, s.cards@, 9, target, stat) <= u64::MAX,
                acc == team_bonus(self.album@, s.cards@, q as int, target, stat),
            decreases 9 - q,
        {
            proof {
                lemma_team_bonus_mono(self.album@, s.cards@, q as int + 1, 9, target, stat);
            }
            let card = &self.album[s.cards[q]];
            let b = skills_bonus_of(&card.etc_skills, q, target, stat);
            acc = acc + b;
            q += 1;
        }
        acc
    }

    fn acc_one(&self, h: AccHandle, att: Attribute, stat: Stat) -> (r: u64)
        ensures
            r == acc_bonus_one(self.inventory@, h, att, stat),
            r <= 11 * 0xffff_ffff,
    {
        match h.to_index() {
            Some(i) => {
                if i < self.inventory.len() {
                    let a = &self.inventory[i];
                    let v: u64 = match stat {
                        Stat::Appeal => a.appeal as u64,
                        Stat::Stamina => a.stamina as u64,
                        Stat::Technique => a.technique as u64,
                        _ => 0,
                    };
                    if a.attribute == att { 10 * v } else { 11 * v }
                } else {
                    0
                }
            },
            None => 0,
        }
    }

    /// The integer statistics of every slot and the role multipliers of
    /// every group, for schedule `s`.
    pub fn stat_plan(&self, s: &Schedule) -> (r: StatPlan)
        requires
            self.fits(*s),
            self.sums_fit(*s),
        ensures
            r.slots.len() == 9,
            r.groups.len() == 3,
            forall|pos: int| 0 <= pos < 9 ==> {
                let c = #[trigger] self.album@[s.cards[pos] as int];
                let st = r.slots[pos];
                &&& st.appeal == c.appeal
                &&& st.stamina == c.stamina
                &&& st.technique == c.technique
                &&& st.skill_mask == slot_mask(self.album@, s.cards@, pos)
                &&& st.tap_skill.target_mask == imbued_mask(c.tap_skill, pos as nat)
                &&& st.tap_skill.prob == c.tap_skill.prob
                &&& st.tap_skill.eff == c.tap_skill.eff
                &&& st.att_match == (c.attribute == self.song.default_attribute)
                &&& st.acc_appeal == acc_bonus(self.album@, self.inventory@, *s, pos, Stat::Appeal)
                &&& st.acc_stamina == acc_bonus(self.album@, self.inventory@, *s, pos, Stat::Stamina)
                &&& st.acc_technique == acc_bonus(self.album@, self.inventory@, *s, pos, Stat::Technique)
            },
            forall|pos: int, stat: Stat| 0 <= pos < 9 ==> stat_of(r.slots[pos], stat) == #[trigger] stat_mod(
                self.album@,
                s.cards@,
                pos,
                stat,
            ),
            forall|g: int, role: Role| 0 <= g < 3 ==> group_of(r.groups[g], role) == #[trigger] group_mod(
                self.album@,
                s.cards@,
                g,
                role,
            ),
    {
        let mut slots: Vec<SlotStats> = Vec::new();
        let mut pos: usize = 0;
        while pos < 9
            invariant
                pos <= 9,
                slots.len() == pos,
                self.fits(*s),
                self.sums_fit(*s),
                forall|p: int| 0 <= p < pos ==> {
                    let c = #[trigger] self.album@[s.cards[p] as int];
                    let st = slots[p];
                    &&& st.appeal == c.appeal
                    &&& st.stamina == c.stamina
                    &&& st.technique == c.technique
                    &&& st.skill_mask == slot_mask(self.album@, s.cards@, p)
                    &&& st.tap_skill.target_mask == imbued_mask(c.tap_skill, p as nat)
                    &&& st.tap_skill.prob == c.tap_skill.prob
                    &&& st.tap_skill.eff == c.tap_skill.eff
                    &&& st.att_match == (c.attribute == self.song.default_attribute)
                    &&& st.acc_appeal == acc_bonus(self.album@, self.inventory@, *s, p, Stat::Appeal)
                    &&& st.acc_stamina == acc_bonus(self.album@, self.inventory@, *s, p, Stat::Stamina)
                    &&& st.acc_technique == acc_bonus(self.album@, self.inventory@, *s, p, Stat::Technique)
                },
                forall|p: int, stat: Stat| 0 <= p < pos ==> stat_of(slots[p], stat) == #[trigger] stat_mod(
                    self.album@,
                    s.cards@,
                    p,
                    stat,
                ),
            decreases 9 - pos,
        {
            let card = &self.album[s.cards[pos]];
            let mask = card.skill_mask | (1u64 << pos as u64);
            proof {
                assert(stat_mod(self.album@, s.cards@, pos as int, Stat::Appeal) <= u64::MAX);
                assert(stat_mod(self.album@, s.cards@, pos as int, Stat::Stamina) <= u64::MAX);
                assert(stat_mod(self.album@, s.cards@, pos as int, Stat::Technique) <= u64::MAX);
                assert(stat_mod(self.album@, s.cards@, pos as int, Stat::CritRate) <= u64::MAX);
                assert(stat_mod(self.album@, s.cards@, pos as int, Stat::CritPower) <= u64::MAX);
            }
            let mod_appeal = 10_000 + self.team_bonus_of(s, mask, Stat::Appeal);
            let mod_stamina = 10_000 + self.team_bonus_of(s, mask, Stat::Stamina);
            let mod_technique = 10_000 + self.team_bonus_of(s, mask, Stat::Technique);
            let crit_base: u64 = if card.crit_rate_bonus { 1500 } else { 0 };
            let crit_rate_bonus = crit_base + self.team_bonus_of(s, mask, Stat::CritRate);
            let crit_power = 5000 + self.team_bonus_of(s, mask, Stat::CritPower);
            let g = pos / 3;
            let att = card.attribute;
            let acc_appeal = self.acc_one(s.accs[3 * g], att, Stat::Appeal) + self.acc_one(s.accs[3 * g + 1], att, Stat::Appeal)
                + self.acc_one(s.accs[3 * g + 2], att, Stat::Appeal);
            let acc_stamina = self.acc_one(s.accs[3 * g], att, Stat::Stamina) + self.acc_one(s.accs[3 * g + 1], att, Stat::Stamina)
                + self.acc_one(s.accs[3 * g + 2], att, Stat::Stamina);
            let acc_technique = self.acc_one(s.accs[3 * g], att, Stat::Technique) + self.acc_one(
                s.accs[3 * g + 1],
                att,
                Stat::Technique,
            ) + self.acc_one(s.accs[3 * g + 2], att, Stat::Technique);
            let st = SlotStats {
                appeal: card.appeal,
                stamina: card.stamina,
                technique: card.technique,
                mod_appeal,
                mod_stamina,
                mod_technique,
                crit_rate_bonus,
                crit_power,
                acc_appeal,
                acc_stamina,
                acc_technique,
                skill_mask: mask,
                tap_skill: card.tap_skill.imbue_pos(pos),
                att_match: card.attribute == self.song.default_attribute,
            };
            slots.push(st);
            proof {
                assert forall|p: int, stat: Stat| 0 <= p < pos + 1 implies stat_of(slots[p], stat) == #[trigger] stat_mod(
                    self.album@,
                    s.cards@,
                    p,
                    stat,
                ) by {
                    if p == pos {
                        match stat {
                            Stat::Appeal => {},
                            Stat::Stamina => {},
                            Stat::Technique => {},
                            Stat::CritRate => {},
                            Stat::CritPower => {},
                        }
                    }
                }
            }
            pos += 1;
        }
        let mut groups: Vec<GroupMods> = Vec::new();
        let mut g: usize = 0;
        while g < 3
            invariant
                g <= 3,
                groups.len() == g,
                self.fits(*s),
                self.sums_fit(*s),
                forall|h: int, role: Role| 0 <= h < g ==> group_of(groups[h], role) == #[trigger] group_mod(
                    self.album@,
                    s.cards@,
                    h,
                    role,
                ),
            decreases 3 - g,
        {
            let c0 = &self.album[s.cards[3 * g]];
            let c1 = &self.album[s.cards[3 * g + 1]];
            let c2 = &self.album[s.cards[3 * g + 2]];
            let gm = GroupMods {
                vo: 10_000 + role_delta_of(c0, Role::Vo) + role_delta_of(c1, Role::Vo) + role_delta_of(c2, Role::Vo),
                sp: 10_000 + role_delta_of(c0, Role::Sp) + role_delta_of(c1, Role::Sp) + role_delta_of(c2, Role::Sp),
                gd: 10_000 + role_delta_of(c0, Role::Gd) + role_delta_of(c1, Role::Gd) + role_delta_of(c2, Role::Gd),
                sk: 10_000 + role_delta_of(c0, Role::Sk) + role_delta_of(c1, Role::Sk) + role_delta_of(c2, Role::Sk),
            };
            groups.push(gm);
            proof {
                assert forall|h: int, role: Role| 0 <= h < g + 1 implies group_of(groups[h], role) == #[trigger] group_mod(
                    self.album@,
                    s.cards@,
                    h,
                    role,
                ) by {
                    if h == g {
                        match role {
                            Role::Vo => {},
                            Role::Sp => {},
                            Role::Gd => {},
                            Role::Sk => {},
                        }
                    }
                }
            }
            g += 1;
        }
        StatPlan { slots, groups }
    }
}

} // verus!
