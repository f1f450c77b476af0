use std::collections::BTreeMap;

use idolsched::acc_handle::AccHandle;
use idolsched::acct_info::{AccInfo, AccKind, AcctInfo, BondInfo, CardInfo};
use idolsched::basic_data::{Attribute, Idol, Rarity, Role, RoleEffect, SkillTiming};
use idolsched::card::{skill_levels, Card, TrimCard};
use idolsched::cards_api::{assign_names, ordinal_list_name};
use idolsched::glob::{Acc, PlayGlob};
use idolsched::masks::{
    attribute_mask, mask_for, member_mask, role_mask, school_mask, subunit_mask_m, year_mask_m, ALL_SLOTS,
};
use idolsched::schedule::Schedule;
use idolsched::sim::{active_slot, buff_window, combo_steps, targeted_slots};
use idolsched::skill::{
    process_effect, Duration, JsonSkill, JsonSkillData, JsonTarget, Skill, SkillEff, SkillEffectFinishTimingType,
    SkillEffectType, SkillOwner, ValueType,
};
use idolsched::song::{parse_song, Difficulty, Song, SongData};

fn target(apply_count: u32) -> JsonTarget {
    JsonTarget {
        id: 1,
        self_only: 0,
        not_self: 0,
        apply_count,
        owner_party: 0,
        owner_school: 0,
        owner_year: 0,
        owner_subunit: 0,
        owner_attribute: 0,
        owner_role: 0,
        fixed_attributes: vec![],
        fixed_members: vec![],
        fixed_subunits: vec![],
        fixed_schools: vec![],
        fixed_years: vec![],
        fixed_roles: vec![],
    }
}

fn level(effect_type: SkillEffectType, effect_value: u32) -> JsonSkillData {
    JsonSkillData {
        target_parameter: 0,
        effect_type,
        effect_value,
        scale_type: 0,
        calc_type: 0,
        timing: SkillTiming::Normal,
        finish_type: SkillEffectFinishTimingType::Non,
        finish_value: 0,
    }
}

fn skill(t: JsonTarget, levels: Vec<JsonSkillData>, prob: u32) -> JsonSkill {
    JsonSkill {
        id: 1,
        name: String::new(),
        description: String::new(),
        skill_type: None,
        sp_gauge_point: None,
        rarity: 1,
        trigger_type: None,
        trigger_probability: prob,
        target: t,
        levels,
    }
}

fn role_effect() -> RoleEffect {
    RoleEffect {
        change_effect_type: Role::Vo,
        change_effect_value: 0,
        positive_type: Role::Vo,
        positive_value: 0,
        negative_type: Role::Gd,
        negative_value: 0,
    }
}

fn filler_card(ordinal: u32, etc_skills: Vec<Skill>) -> Card {
    Card {
        ordinal,
        member: Idol::Honoka,
        rarity: Rarity::R,
        attribute: Attribute::Cool,
        role: Role::Vo,
        role_effect: role_effect(),
        level: 1,
        appeal: 1000,
        technique: 1000,
        stamina: 1000,
        crit_rate_bonus: false,
        skill_mask: mask_for(Idol::Honoka, Role::Vo, Attribute::Cool),
        tap_skill: Skill::default(),
        etc_skills,
    }
}

fn song(notes: usize) -> Song {
    parse_song(
        1_0_015_30_1,
        &SongData {
            song_attribute: Attribute::Cool,
            song_difficulty: Difficulty::Advanced,
            rank_s: 100,
            note_damage: 0,
            note_count: notes,
        },
    )
}

fn glob_with(album: Vec<Card>) -> PlayGlob {
    PlayGlob { song: song(10), album, inventory: vec![] }
}

fn bare_team() -> Schedule {
    Schedule { cards: [0, 1, 2, 3, 4, 5, 6, 7, 8], sp3: [1, 0, 2], accs: [AccHandle::empty(); 9] }
}

#[test]
fn mask_layout() {
    assert_eq!(attribute_mask(Attribute::Smile), 1 << 16);
    assert_eq!(attribute_mask(Attribute::Neutral), 1 << 22);
    assert_eq!(role_mask(Role::Vo), 1 << 24);
    assert_eq!(role_mask(Role::Sk), 1 << 27);
    assert_eq!(member_mask(Idol::Honoka), 1 << 32);
    assert_eq!(member_mask(Idol::Shioriko), 1 << 59);
    assert_eq!(mask_for(Idol::Eli, Role::Gd, Attribute::Pure), (1 << 33) | (1 << 26) | (1 << 17));
}

#[test]
fn group_masks_hold_their_members() {
    assert_ne!(year_mask_m(Idol::Rin) & member_mask(Idol::Maki), 0);
    assert_eq!(year_mask_m(Idol::Rin) & member_mask(Idol::Eli), 0);
    assert_ne!(year_mask_m(Idol::Eli) & member_mask(Idol::Karin), 0);
    assert_ne!(year_mask_m(Idol::Ayumu) & member_mask(Idol::Chika), 0);
    assert_ne!(subunit_mask_m(Idol::Honoka) & member_mask(Idol::Hanayo), 0);
    assert_ne!(subunit_mask_m(Idol::Riko) & member_mask(Idol::Yohane), 0);
    assert_ne!(subunit_mask_m(Idol::Kasumi) & member_mask(Idol::Rina), 0);
    assert_eq!(subunit_mask_m(Idol::Shioriko), 0);
    assert_ne!(school_mask(2) & member_mask(Idol::Shioriko), 0);
    assert_eq!(school_mask(0) & member_mask(Idol::Chika), 0);
    assert_eq!(school_mask(1).count_ones(), 9);
}

#[test]
fn idol_codes() {
    assert_eq!(Idol::from_code(1), Some(Idol::Honoka));
    assert_eq!(Idol::from_code(109), Some(Idol::Ruby));
    assert_eq!(Idol::from_code(210), Some(Idol::Shioriko));
    assert_eq!(Idol::from_code(10), None);
    assert_eq!(Idol::Setsuna.code(), 207);
    assert_eq!(Role::from_code(3), Some(Role::Gd));
    assert_eq!(Attribute::from_code(7), None);
    assert_eq!(Rarity::from_code(20), Some(Rarity::Sr));
}

#[test]
fn effects_map_onto_closed_set() {
    assert_eq!(process_effect(&level(SkillEffectType::AddAppealBase, 500)), SkillEff::AppealPlus(500));
    assert_eq!(
        process_effect(&level(SkillEffectType::HealLifeByCardStamina, 300)),
        SkillEff::Heal(ValueType::CardStamina(300))
    );
    assert_eq!(
        process_effect(&level(SkillEffectType::AddDamageByNumOfGd, 20)),
        SkillEff::Damage(ValueType::Cardinal(20, 1 << 26))
    );
    assert_eq!(process_effect(&level(SkillEffectType::Other, 1)), SkillEff::Unimplemented);
    let mut buff = level(SkillEffectType::AddAppealBuff, 800);
    buff.calc_type = 2;
    buff.finish_type = SkillEffectFinishTimingType::Turn;
    buff.finish_value = 5;
    assert_eq!(process_effect(&buff), SkillEff::AppealUp(800, Duration::Turn(5)));
    buff.calc_type = 7;
    assert_eq!(process_effect(&buff), SkillEff::Unimplemented);
    let mut tap = level(SkillEffectType::AddVoltageBuff, 100);
    tap.finish_type = SkillEffectFinishTimingType::Voltage;
    assert_eq!(process_effect(&tap), SkillEff::TapVoUp(100, Duration::Immediate));
}

#[test]
fn skill_targets() {
    let all = Skill::from_json(&skill(target(9), vec![level(SkillEffectType::AddAppealBase, 1000)], 10_000), 1, None);
    assert_eq!(all.target_mask, ALL_SLOTS);
    assert_eq!(all.prob, 10_000);
    let some = Skill::from_json(&skill(target(3), vec![level(SkillEffectType::AddAppealBase, 1000)], 3000), 1, None);
    assert_eq!(some.target_mask, 0);

    let mut t = target(9);
    t.fixed_roles = vec![Role::Sp, Role::Gd];
    t.fixed_members = vec![Idol::Umi];
    let fixed = Skill::from_json(&skill(t, vec![level(SkillEffectType::AddAppealBase, 1)], 1), 1, None);
    assert_eq!(fixed.target_mask, (1 << 25) | (1 << 26) | (1 << 35));

    let mut t = target(1);
    t.owner_attribute = 1;
    t.owner_school = 1;
    let owner = SkillOwner { member: Idol::Dia, attribute: Attribute::Elegant, role: Role::Sk };
    let rel = Skill::from_json(&skill(t, vec![level(SkillEffectType::AddAppealBase, 1)], 1), 1, Some(&owner));
    assert_eq!(rel.target_mask, school_mask(1) | (1 << 21));
}

#[test]
fn skill_level_choice_and_binding() {
    let levels = vec![
        level(SkillEffectType::AddAppealBase, 100),
        level(SkillEffectType::AddAppealBase, 200),
        level(SkillEffectType::AddAppealBase, 300),
    ];
    let mut t = target(1);
    t.self_only = 1;
    let s = Skill::from_json(&skill(t.clone(), levels.clone(), 1), 2, None);
    assert_eq!(s.eff, SkillEff::AppealPlus(200));
    let top = Skill::from_json(&skill(t, levels, 1), 5, None);
    assert_eq!(top.eff, SkillEff::AppealPlus(300));
    assert_eq!(s.imbue_pos(4).target_mask, 1 << 4);

    let mut t = target(1);
    t.not_self = 1;
    let others = Skill::from_json(&skill(t, vec![level(SkillEffectType::AddAppealBase, 1)], 1), 1, None);
    assert_eq!(others.imbue_pos(0).target_mask, 0x1fe);
    let mut t = target(3);
    t.owner_party = 1;
    let group = Skill::from_json(&skill(t, vec![level(SkillEffectType::AddAppealBase, 1)], 1), 1, None);
    assert_eq!(group.imbue_pos(7).target_mask, 0b111_000_000);
}

#[test]
fn skill_levels_table() {
    assert_eq!(skill_levels(Rarity::Ur, 3, false), (1, 1));
    assert_eq!(skill_levels(Rarity::R, 0, true), (3, 3));
    assert_eq!(skill_levels(Rarity::R, 3, true), (4, 3));
    assert_eq!(skill_levels(Rarity::Sr, 2, true), (3, 3));
    assert_eq!(skill_levels(Rarity::Ur, 1, true), (3, 4));
    assert_eq!(skill_levels(Rarity::Ur, 5, true), (5, 5));
}

fn trim_card() -> TrimCard {
    TrimCard {
        ordinal: 12,
        rarity: Rarity::Sr,
        max_level: 70,
        attribute: Attribute::Pure,
        role: Role::Sk,
        member: Idol::Kotori,
        role_effect: role_effect(),
        active_skill: skill(target(1), vec![level(SkillEffectType::HealLife, 50), level(SkillEffectType::HealLife, 60)], 3300),
        passive_skills: vec![skill(target(9), vec![level(SkillEffectType::AddTechniqueBase, 400)], 10_000)],
        idolized_offset: [0, 10, 20, 30],
        tt_offset: vec![[0, 0, 0, 0], [0, 1, 2, 3], [0, 2, 4, 6], [0, 3, 6, 9], [0, 4, 8, 12], [0, 5, 10, 15]],
        stats: vec![[1, 100, 200, 300], [60, 1000, 2000, 3000], [61, 1010, 2010, 3010]],
    }
}

#[test]
fn stats_with_levels_and_offsets() {
    let c = trim_card();
    assert_eq!(c.stats_with(None, false, 0), [60, 1000, 2000, 3000]);
    assert_eq!(c.stats_with(Some(61), false, 0), [61, 1010, 2010, 3010]);
    assert_eq!(c.stats_with(Some(1), false, 0), [1, 100, 200, 300]);
    assert_eq!(c.stats_with(None, true, 2), [60, 1012, 2024, 3036]);
}

#[test]
fn instantiate_card() {
    let c = Card::instantiate_json(&trim_card(), 1, true);
    assert_eq!((c.level, c.appeal, c.stamina, c.technique), (60, 1011, 2022, 3033));
    assert!(c.crit_rate_bonus);
    assert_eq!(c.skill_mask, mask_for(Idol::Kotori, Role::Sk, Attribute::Pure));
    assert_eq!(c.tap_skill.eff, SkillEff::Heal(ValueType::Constant(60)));
    assert_eq!(c.etc_skills.len(), 1);
    assert_eq!(c.etc_skills[0].eff, SkillEff::TechniquePlus(400));
    assert_eq!(c.etc_skills[0].target_mask, ALL_SLOTS);
    let plain = Card::instantiate_json(&trim_card(), 0, false);
    assert_eq!(plain.tap_skill.eff, SkillEff::Heal(ValueType::Constant(50)));
}

#[test]
fn song_parameters() {
    let s = song(157);
    assert!(s.lose_at_death);
    assert_eq!(s.sp_gauge_length, 6000);
    assert_eq!(s.note_voltage_upper_limit, 50_000);
    assert_eq!(s.kt_notes, 157);
    let plus = parse_song(
        4_0_015_31_1,
        &SongData {
            song_attribute: Attribute::Smile,
            song_difficulty: Difficulty::Advanced,
            rank_s: 1,
            note_damage: 300,
            note_count: 9,
        },
    );
    assert!(!plus.lose_at_death);
    assert_eq!(plus.sp_gauge_length, 7200);
    assert_eq!(plus.note_voltage_upper_limit, 150_000);
    assert_eq!(plus.collabo_voltage_upper_limit, 500_000);
    assert_eq!(Difficulty::from_code(20), Some(Difficulty::Intermediate));
}

#[test]
fn force_valid_pads_account() {
    let mut album = BTreeMap::new();
    album.insert(5, CardInfo { lb: 4, idolized: true });
    album.insert(1000, CardInfo { lb: 1, idolized: false });
    let acc = AccInfo { attribute: Attribute::Cool, kind: AccKind::Brooch, rarity: Rarity::Ur, lb: 1, lv: 10, sl: 2 };
    let mut a = AcctInfo { bond: BTreeMap::new(), album, accs: vec![acc] };
    a.force_valid();
    assert_eq!(a.album.len(), 28);
    assert_eq!(a.album[&5], CardInfo { lb: 4, idolized: true });
    assert_eq!(a.album[&97], CardInfo { lb: 0, idolized: false });
    assert_eq!(a.accs.len(), 9);
    assert_eq!(a.accs[0], acc);
    assert_eq!(a.accs[8].kind, AccKind::Empty);
    assert_eq!(BondInfo::default().bond_lv, 1);

    let mut full = BTreeMap::new();
    for k in 0..9u32 {
        full.insert(1000 + k, CardInfo { lb: 0, idolized: true });
    }
    let mut b = AcctInfo { bond: BTreeMap::new(), album: full, accs: vec![acc; 12] };
    b.force_valid();
    assert_eq!(b.album.len(), 9);
    assert_eq!(b.accs.len(), 12);
}

#[test]
fn request_names() {
    assert_eq!(ordinal_list_name(&vec![1, 5, 9]), "1,5,9.json");
    assert_eq!(ordinal_list_name(&vec![4_294_967_295]), "4294967295.json");
    assert_eq!(ordinal_list_name(&vec![]), "");
    assert_eq!(ordinal_list_name(&vec![0, 10, 100]), "0,10,100.json");
}

#[test]
fn note_helpers() {
    assert_eq!(active_slot(0, 0), 0);
    assert_eq!(active_slot(2, 4), 7);
    assert_eq!(buff_window(Duration::Permanent, 3, 10), (3, 10));
    assert_eq!(buff_window(Duration::Turn(4), 3, 10), (3, 7));
    assert_eq!(buff_window(Duration::Turn(40), 3, 10), (3, 10));
    assert_eq!(buff_window(Duration::WaveEnd, 3, 10), (3, 3));
    assert_eq!(combo_steps(10), 10);
    assert_eq!(combo_steps(400), 150);
}

#[test]
fn identical_fillers_have_plain_stats() {
    let album: Vec<Card> = (0..9).map(|i| filler_card(i, vec![])).collect();
    let glob = glob_with(album);
    let plan = glob.stat_plan(&bare_team());
    for st in plan.slots.iter() {
        assert_eq!((st.appeal, st.stamina, st.technique), (1000, 1000, 1000));
        assert_eq!((st.mod_appeal, st.mod_stamina, st.mod_technique), (10_000, 10_000, 10_000));
        assert_eq!((st.crit_rate_bonus, st.crit_power), (0, 5000));
        assert_eq!((st.acc_appeal, st.acc_stamina, st.acc_technique), (0, 0, 0));
        assert!(st.att_match);
    }
    for g in plan.groups.iter() {
        assert_eq!((g.vo, g.sp, g.gd, g.sk), (10_000, 10_000, 10_000, 10_000));
    }
}

#[test]
fn passive_appeal_plus_raises_every_slot() {
    let plus = Skill::from_json(&skill(target(9), vec![level(SkillEffectType::AddAppealBase, 1000)], 10_000), 1, None);
    let mut album: Vec<Card> = (0..9).map(|i| filler_card(i, vec![])).collect();
    let base = glob_with(album.clone()).stat_plan(&bare_team());
    album[0].etc_skills.push(plus);
    let with = glob_with(album).stat_plan(&bare_team());
    for pos in 0..9 {
        assert_eq!(base.slots[pos].mod_appeal, 10_000);
        assert_eq!(with.slots[pos].mod_appeal, 11_000);
        assert_eq!(with.slots[pos].mod_stamina, 10_000);
    }
}

#[test]
fn accessories_and_roles_in_plan() {
    let mut album: Vec<Card> = (0..9).map(|i| filler_card(i, vec![])).collect();
    album[4].role_effect = RoleEffect {
        change_effect_type: Role::Gd,
        change_effect_value: 0,
        positive_type: Role::Gd,
        positive_value: 500,
        negative_type: Role::Vo,
        negative_value: 300,
    };
    album[4].etc_skills.push(Skill { eff: SkillEff::TypePlus(200), ..Skill::default() });
    let same = Acc { attribute: Attribute::Cool, kind: AccKind::Brooch, rarity: Rarity::R, lb: 0, lv: 1, sl: 1, appeal: 100, stamina: 50, technique: 7 };
    let other = Acc { attribute: Attribute::Smile, ..same };
    let glob = PlayGlob { song: song(10), album, inventory: vec![same, other] };
    let mut s = bare_team();
    s.accs[0] = AccHandle::from_index(0);
    s.accs[1] = AccHandle::from_index(1);
    let plan = glob.stat_plan(&s);
    assert_eq!(plan.slots[0].acc_appeal, 1000 + 1100);
    assert_eq!(plan.slots[2].acc_stamina, 500 + 550);
    assert_eq!(plan.slots[3].acc_appeal, 0);
    assert_eq!(plan.groups[1].gd, 10_000 - 500 - 200);
    assert_eq!(plan.groups[1].vo, 10_000 - 300);
    assert_eq!(plan.groups[0].gd, 10_000);
    let hit = targeted_slots(&plan, 1 << 4);
    assert_eq!(hit.iter().filter(|&&b| b).count(), 1);
    assert!(hit[4]);
    assert!(targeted_slots(&plan, role_mask(Role::Vo)).iter().all(|&b| b));
}

#[test]
fn trim_keeps_level_one_and_top_rows() {
    let full: Vec<[u32; 4]> = (1..=90u32).map(|l| [l, 10 * l, 20 * l, 30 * l]).collect();
    let t = idolsched::card::trim_stats(Rarity::Sr, &full).unwrap();
    assert_eq!(t.len(), 7);
    assert_eq!(t[0], [1, 10, 20, 30]);
    assert_eq!(t[1][0], 60);
    assert_eq!(t[6][0], 65);
    assert!(idolsched::card::trim_stats(Rarity::Ur, &full[..84].to_vec()).is_none());
    assert!(idolsched::card::trim_stats(Rarity::Ur, &full[..85].to_vec()).is_some());
}

#[test]
fn monickers_count_per_member_and_rarity() {
    let cards = vec![
        (Idol::Honoka, Rarity::R),
        (Idol::Honoka, Rarity::Ur),
        (Idol::Eli, Rarity::R),
        (Idol::Honoka, Rarity::R),
        (Idol::Honoka, Rarity::R),
    ];
    let names = assign_names(&cards);
    let counts: Vec<u32> = names.iter().map(|m| m.count).collect();
    assert_eq!(counts, vec![1, 1, 1, 2, 3]);
    assert_eq!(names[2].idol, Idol::Eli);
    assert_eq!(names[1].rarity, Rarity::Ur);
    assert!(assign_names(&vec![]).is_empty());
}
