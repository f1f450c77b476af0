//! The 64-bit target mask. Bits 0..9 are the nine slots, bits 16..23 the
//! seven attributes (Smile .. Elegant, then Neutral), bits 24..28 the four
//! roles (Vo, Sp, Gd, Sk), and bits 32..60 the 28 members in their fixed
//! order, school by school.
use vstd::prelude::*;
use crate::basic_data::{Attribute, Idol, Role, member_index, member_ofs, school_of};

verus! {

/// Every slot bit.
pub const ALL_SLOTS: u64 = 0x1ff;

pub const FIRST_YEARS: u64 = 0x041a_c0b0 << 32;
pub const SECOND_YEARS: u64 = 0x0144_260d << 32;
pub const THIRD_YEARS: u64 = 0x02a1_1942 << 32;

pub const PRINTEMPS: u64 = 0b010_000_101 << 32;
pub const BIBI: u64 = 0b100_010_010 << 32;
pub const LILY_WHITE: u64 = 0b001_101_000 << 32;
pub const CYARON: u64 = 0b100_010_001 << 41;
pub const GUILTY_KISS: u64 = 0b010_100_010 << 41;
pub const AZALEA: u64 = 0b001_001_100 << 41;
pub const AZUNA: u64 = 0b001_000_101 << 50;
pub const QU4RTZ: u64 = 0b110_100_010 << 50;
pub const DIVER_DIVA: u64 = 0b000_011_000 << 50;

/// The members of each school: nine, nine, and ten.
pub const SCHOOL_0: u64 = 0x1ff << 32;
pub const SCHOOL_1: u64 = 0x1ff << 41;
pub const SCHOOL_2: u64 = 0x3ff << 50;

pub open spec fn attribute_bit(a: Attribute) -> nat {
    match a {
        Attribute::Smile => 16,
        Attribute::Pure => 17,
        Attribute::Cool => 18,
        Attribute::Active => 19,
        Attribute::Natural => 20,
        Attribute::Elegant => 21,
        Attribute::Neutral => 22,
    }
}

pub open spec fn role_bit(r: Role) -> nat {
    match r {
        Role::Vo => 24,
        Role::Sp => 25,
        Role::Gd => 26,
        Role::Sk => 27,
    }
}

pub open spec fn member_bit(m: Idol) -> nat {
    32 + member_index(m)
}

/// School year of each member: 1, 2 or 3.
pub open spec fn year_of(m: Idol) -> nat {
    match m {
        Idol::Rin | Idol::Maki | Idol::Hanayo | Idol::Yohane | Idol::Hanamaru | Idol::Ruby
        | Idol::Kasumi | Idol::Shizuku | Idol::Rina | Idol::Shioriko => 1,
        Idol::Honoka | Idol::Kotori | Idol::Umi | Idol::Chika | Idol::Riko | Idol::You
        | Idol::Ayumu | Idol::Ai | Idol::Setsuna => 2,
        _ => 3,
    }
}

pub open spec fn year_mask(y: nat) -> u64 {
    if y == 1 {
        FIRST_YEARS
    } else if y == 2 {
        SECOND_YEARS
    } else {
        THIRD_YEARS
    }
}

/// The sub-unit of each member, as the mask of its members; zero for a
/// member in none.
pub open spec fn subunit_of(m: Idol) -> u64 {
    match m {
        Idol::Honoka | Idol::Kotori | Idol::Hanayo => PRINTEMPS,
        Idol::Eli | Idol::Maki | Idol::Nico => BIBI,
        Idol::Umi | Idol::Rin | Idol::Nozomi => LILY_WHITE,
        Idol::Chika | Idol::You | Idol::Ruby => CYARON,
        Idol::Riko | Idol::Yohane | Idol::Mari => GUILTY_KISS,
        Idol::Kanan | Idol::Dia | Idol::Hanamaru => AZALEA,
        Idol::Ayumu | Idol::Shizuku | Idol::Setsuna => AZUNA,
        Idol::Kasumi | Idol::Kanata | Idol::Emma | Idol::Rina => QU4RTZ,
        Idol::Karin | Idol::Ai => DIVER_DIVA,
        Idol::Shioriko => 0,
    }
}

pub open spec fn school_mask_of(s: nat) -> u64 {
    if s == 0 {
        SCHOOL_0
    } else if s == 1 {
        SCHOOL_1
    } else {
        SCHOOL_2
    }
}

pub fn attribute_mask(a: Attribute) -> (r: u64)
    ensures
        r == 1u64 << attribute_bit(a),
{
    let s: u64 = match a {
        Attribute::Smile => 16,
        Attribute::Pure => 17,
        Attribute::Cool => 18,
        Attribute::Active => 19,
        Attribute::Natural => 20,
        Attribute::Elegant => 21,
        Attribute::Neutral => 22,
    };
    1u64 << s
}

pub fn role_mask(ro: Role) -> (r: u64)
    ensures
        r == 1u64 << role_bit(ro),
{
    let s: u64 = match ro {
        Role::Vo => 24,
        Role::Sp => 25,
        Role::Gd => 26,
        Role::Sk => 27,
    };
    1u64 << s
}

pub fn member_mask(m: Idol) -> (r: u64)
    ensures
        r == 1u64 << member_bit(m),
{
    1u64 << (32 + member_ofs(m) as u64)
}

/// All members of school `sch` (0, 1 or 2).
pub fn school_mask(sch: u8) -> (r: u64)
    requires
        sch < 3,
    ensures
        r == school_mask_of(sch as nat),
{
    if sch == 0 {
        SCHOOL_0
    } else if sch == 1 {
        SCHOOL_1
    } else {
        SCHOOL_2
    }
}

/// The school of a member.
pub fn school_index(m: Idol) -> (r: u8)
    ensures
        r == school_of(m),
{
    let i = member_ofs(m);
    if i < 9 {
        0
    } else if i < 18 {
        1
    } else {
        2
    }
}

/// All members of the same year as `m`.
pub fn year_mask_m(m: Idol) -> (r: u64)
    ensures
        r == year_mask(year_of(m)),
{
    match m {
        Idol::Rin | Idol::Maki | Idol::Hanayo | Idol::Yohane | Idol::Hanamaru | Idol::Ruby
        | Idol::Kasumi | Idol::Shizuku | Idol::Rina | Idol::Shioriko => FIRST_YEARS,
        Idol::Honoka | Idol::Kotori | Idol::Umi | Idol::Chika | Idol::Riko | Idol::You
        | Idol::Ayumu | Idol::Ai | Idol::Setsuna => SECOND_YEARS,
        _ => THIRD_YEARS,
    }
}

/// All members of the same sub-unit as `m`.
pub fn subunit_mask_m(m: Idol) -> (r: u64)
    ensures
        r == subunit_of(m),
{
    match m {
        Idol::Honoka | Idol::Kotori | Idol::Hanayo => PRINTEMPS,
        Idol::Eli | Idol::Maki | Idol::Nico => BIBI,
        Idol::Umi | Idol::Rin | Idol::Nozomi => LILY_WHITE,
        Idol::Chika | Idol::You | Idol::Ruby => CYARON,
        Idol::Riko | Idol::Yohane | Idol::Mari => GUILTY_KISS,
        Idol::Kanan | Idol::Dia | Idol::Hanamaru => AZALEA,
        Idol::Ayumu | Idol::Shizuku | Idol::Setsuna => AZUNA,
        Idol::Kasumi | Idol::Kanata | Idol::Emma | Idol::Rina => QU4RTZ,
        Idol::Karin | Idol::Ai => DIVER_DIVA,
        Idol::Shioriko => 0,
    }
}

/// The predicates that a card satisfies: its member, role and attribute.
pub fn mask_for(member: Idol, role: Role, attribute: Attribute) -> (r: u64)
    ensures
        r == (1u64 << member_bit(member)) | (1u64 << role_bit(role)) | (1u64 << attribute_bit(attribute)),
{
    member_mask(member) | role_mask(role) | attribute_mask(attribute)
}

} // verus!
