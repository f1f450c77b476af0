use vstd::prelude::*;
use crate::basic_data::Attribute;

verus! {

#[derive(Debug, Copy, Clone, PartialEq, Eq, Structural, PartialOrd, Ord, Hash)]
pub enum Difficulty {
    Beginner,
    Intermediate,
    Advanced,
}

pub open spec fn difficulty_code(d: Difficulty) -> nat {
    match d {
        Difficulty::Beginner => 10,
        Difficulty::Intermediate => 20,
        Difficulty::Advanced => 30,
    }
}

impl Difficulty {
    pub fn from_code(c: u8) -> (r: Option<Difficulty>)
        ensures
            r is Some ==> difficulty_code(r->0) == c,
            r is None ==> c != 10 && c != 20 && c != 30,
    {
        match c {
            10 => Some(Difficulty::Beginner),
            20 => Some(Difficulty::Intermediate),
            30 => Some(Difficulty::Advanced),
            _ => None,
        }
    }
}

/// What a beatmap file says that the simulation needs.
#[derive(Debug, Copy, Clone, PartialEq, Eq, Structural)]
pub struct SongData {
    pub song_attribute: Attribute,
    pub song_difficulty: Difficulty,
    pub rank_s: u32,
    pub note_damage: u32,
    pub note_count: usize,
}

/// A song as the simulation sees it.
#[derive(Debug, Copy, Clone, PartialEq, Eq, Structural)]
pub struct Song {
    pub default_attribute: Attribute,
    pub target_voltage: u32,
    pub lose_at_death: bool,
    pub sp_gauge_length: u32,
    pub note_stamina_reduce: u32,
    pub note_voltage_upper_limit: u32,
    pub collabo_voltage_upper_limit: u32,
    pub skill_voltage_upper_limit: u32,
    pub squad_change_voltage_upper_limit: u32,
    pub kt_notes: usize,
}

/// The live type is the eighth decimal digit of a song id (from the right).
pub open spec fn live_type(id: u32) -> int {
    ((id / 10_000_000) % 10) as int
}

/// The two decimal digits before the last say whether an advanced map is a
/// harder "advanced plus" one.
pub open spec fn is_adv_plus(id: u32) -> bool {
    (id / 10) % 100 > 30
}

/// Songs of a live type below 4 end when stamina runs out.
pub fn parse_song(id: u32, data: &SongData) -> (r: Song)
    ensures
        r.default_attribute == data.song_attribute,
        r.target_voltage == data.rank_s,
        r.lose_at_death == (live_type(id) < 4),
        r.sp_gauge_length == (match data.song_difficulty {
            Difficulty::Beginner => 3600u32,
            Difficulty::Intermediate => 4800u32,
            Difficulty::Advanced => if is_adv_plus(id) { 7200u32 } else { 6000u32 },
        }),
        r.note_stamina_reduce == data.note_damage,
        r.note_voltage_upper_limit == (if is_adv_plus(id) { 150_000u32 } else { 50_000u32 }),
        r.collabo_voltage_upper_limit == (if is_adv_plus(id) { 500_000u32 } else { 250_000u32 }),
        r.skill_voltage_upper_limit == 50_000,
        r.squad_change_voltage_upper_limit == 30_000,
        r.kt_notes == data.note_count,
{
    let live = (id / 10_000_000) % 10;
    let adv_plus = (id / 10) % 100 > 30;
    let sp_gauge_length: u32 = match data.song_difficulty {
        Difficulty::Beginner => 3600,
        Difficulty::Intermediate => 4800,
        Difficulty::Advanced => if adv_plus { 7200 } else { 6000 },
    };
    let (note_cap, collabo_cap): (u32, u32) = if !adv_plus { (50_000, 250_000) } else { (150_000, 500_000) };
    Song {
        default_attribute: data.song_attribute,
        target_voltage: data.rank_s,
        lose_at_death: live < 4,
        sp_gauge_length,
        note_stamina_reduce: data.note_damage,
        note_voltage_upper_limit: note_cap,
        collabo_voltage_upper_limit: collabo_cap,
        skill_voltage_upper_limit: 50_000,
        squad_change_voltage_upper_limit: 30_000,
        kt_notes: data.note_count,
    }
}

} // verus!
