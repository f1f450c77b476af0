use vstd::prelude::*;

verus! {

/// A card's role: vocal, special, guard, skill.
#[derive(Debug, Copy, Clone, PartialEq, Eq, Structural, Hash)]
pub enum Role {
    Vo,
    Sp,
    Gd,
    Sk,
}

/// The 28 members, school by school, in their fixed order.
#[derive(Debug, Copy, Clone, PartialEq, Eq, Structural, PartialOrd, Ord, Hash)]
pub enum Idol {
    Honoka,
    Eli,
    Kotori,
    Umi,
    Rin,
    Maki,
    Nozomi,
    Hanayo,
    Nico,
    Chika,
    Riko,
    Kanan,
    Dia,
    You,
    Yohane,
    Hanamaru,
    Mari,
    Ruby,
    Ayumu,
    Kasumi,
    Shizuku,
    Karin,
    Ai,
    Kanata,
    Setsuna,
    Emma,
    Rina,
    Shioriko,
}

#[derive(Debug, Copy, Clone, PartialEq, Eq, Structural, PartialOrd, Ord, Hash)]
pub enum Attribute {
    Neutral,
    Smile,
    Pure,
    Cool,
    Active,
    Natural,
    Elegant,
}

#[derive(Debug, Copy, Clone, PartialEq, Eq, Structural, PartialOrd, Ord, Hash)]
pub enum Rarity {
    R,
    Sr,
    Ur,
}

#[derive(Debug, Copy, Clone, PartialEq, Eq, Structural, Hash)]
pub enum SkillTiming {
    Normal,
    Attacking,
}

/// How a card's role changes its group's multipliers: one role up, one down,
/// each by a value in basis points.
#[derive(Debug, Copy, Clone, PartialEq, Eq, Structural, Hash)]
pub struct RoleEffect {
    pub change_effect_type: Role,
    pub change_effect_value: u32,
    pub positive_type: Role,
    pub positive_value: u32,
    pub negative_type: Role,
    pub negative_value: u32,
}

/// Position of a member in the fixed order, `0 .. 28`.
pub open spec fn member_index(m: Idol) -> nat {
    match m {
        Idol::Honoka => 0,
        Idol::Eli => 1,
        Idol::Kotori => 2,
        Idol::Umi => 3,
        Idol::Rin => 4,
        Idol::Maki => 5,
        Idol::Nozomi => 6,
        Idol::Hanayo => 7,
        Idol::Nico => 8,
        Idol::Chika => 9,
        Idol::Riko => 10,
        Idol::Kanan => 11,
        Idol::Dia => 12,
        Idol::You => 13,
        Idol::Yohane => 14,
        Idol::Hanamaru => 15,
        Idol::Mari => 16,
        Idol::Ruby => 17,
        Idol::Ayumu => 18,
        Idol::Kasumi => 19,
        Idol::Shizuku => 20,
        Idol::Karin => 21,
        Idol::Ai => 22,
        Idol::Kanata => 23,
        Idol::Setsuna => 24,
        Idol::Emma => 25,
        Idol::Rina => 26,
        Idol::Shioriko => 27,
    }
}

/// The school of a member: nine, nine and ten members.
pub open spec fn school_of(m: Idol) -> nat {
    if member_index(m) < 9 {
        0
    } else if member_index(m) < 18 {
        1
    } else {
        2
    }
}

/// The member's code in card data: `1 ..= 9`, `101 ..= 109`, `201 ..= 210`,
/// school by school.
pub open spec fn idol_code(m: Idol) -> nat {
    (100 * school_of(m) + (member_index(m) - 9 * school_of(m)) + 1) as nat
}

pub open spec fn role_code(r: Role) -> nat {
    match r {
        Role::Vo => 1,
        Role::Sp => 2,
        Role::Gd => 3,
        Role::Sk => 4,
    }
}

pub open spec fn attribute_code(a: Attribute) -> nat {
    match a {
        Attribute::Neutral => 0,
        Attribute::Smile => 1,
        Attribute::Pure => 2,
        Attribute::Cool => 3,
        Attribute::Active => 4,
        Attribute::Natural => 5,
        Attribute::Elegant => 6,
    }
}

pub open spec fn rarity_code(r: Rarity) -> nat {
    match r {
        Rarity::R => 10,
        Rarity::Sr => 20,
        Rarity::Ur => 30,
    }
}

pub open spec fn timing_code(t: SkillTiming) -> nat {
    match t {
        SkillTiming::Normal => 1,
        SkillTiming::Attacking => 2,
    }
}

/// The member at position `i` of the fixed order.
pub fn idol_at(i: u32) -> (r: Option<Idol>)
    ensures
        r is Some <==> i < 28,
        r is Some ==> member_index(r->0) == i,
{
    match i {
        0 => Some(Idol::Honoka),
        1 => Some(Idol::Eli),
        2 => Some(Idol::Kotori),
        3 => Some(Idol::Umi),
        4 => Some(Idol::Rin),
        5 => Some(Idol::Maki),
        6 => Some(Idol::Nozomi),
        7 => Some(Idol::Hanayo),
        8 => Some(Idol::Nico),
        9 => Some(Idol::Chika),
        10 => Some(Idol::Riko),
        11 => Some(Idol::Kanan),
        12 => Some(Idol::Dia),
        13 => Some(Idol::You),
        14 => Some(Idol::Yohane),
        15 => Some(Idol::Hanamaru),
        16 => Some(Idol::Mari),
        17 => Some(Idol::Ruby),
        18 => Some(Idol::Ayumu),
        19 => Some(Idol::Kasumi),
        20 => Some(Idol::Shizuku),
        21 => Some(Idol::Karin),
        22 => Some(Idol::Ai),
        23 => Some(Idol::Kanata),
        24 => Some(Idol::Setsuna),
        25 => Some(Idol::Emma),
        26 => Some(Idol::Rina),
        27 => Some(Idol::Shioriko),
        _ => None,
    }
}

/// Position of a member in the fixed order.
pub fn member_ofs(m: Idol) -> (r: u8)
    ensures
        r == member_index(m),
        r < 28,
{
    match m {
        Idol::Honoka => 0,
        Idol::Eli => 1,
        Idol::Kotori => 2,
        Idol::Umi => 3,
        Idol::Rin => 4,
        Idol::Maki => 5,
        Idol::Nozomi => 6,
        Idol::Hanayo => 7,
        Idol::Nico => 8,
        Idol::Chika => 9,
        Idol::Riko => 10,
        Idol::Kanan => 11,
        Idol::Dia => 12,
        Idol::You => 13,
        Idol::Yohane => 14,
        Idol::Hanamaru => 15,
        Idol::Mari => 16,
        Idol::Ruby => 17,
        Idol::Ayumu => 18,
        Idol::Kasumi => 19,
        Idol::Shizuku => 20,
        Idol::Karin => 21,
        Idol::Ai => 22,
        Idol::Kanata => 23,
        Idol::Setsuna => 24,
        Idol::Emma => 25,
        Idol::Rina => 26,
        Idol::Shioriko => 27,
    }
}

impl Idol {
    /// The member with the given card-data code.
    pub fn from_code(c: u32) -> (r: Option<Idol>)
        ensures
            r is Some ==> idol_code(r->0) == c,
            (exists|m: Idol| idol_code(m) == c) ==> r is Some,
    {
        let (school, first): (u32, u32) = if 1 <= c && c <= 9 {
            (0, 1)
        } else if 101 <= c && c <= 109 {
            (1, 101)
        } else if 201 <= c && c <= 210 {
            (2, 201)
        } else {
            return None;
        };
        idol_at(9 * school + (c - first))
    }

    /// The member's code in card data.
    pub fn code(self) -> (r: u32)
        ensures
            r == idol_code(self),
    {
        let i = member_ofs(self) as u32;
        if i < 9 {
            i + 1
        } else if i < 18 {
            101 + (i - 9)
        } else {
            201 + (i - 18)
        }
    }
}

impl Role {
    pub fn from_code(c: u8) -> (r: Option<Role>)
        ensures
            r is Some ==> role_code(r->0) == c,
            r is None ==> !(1 <= c <= 4),
    {
        match c {
            1 => Some(Role::Vo),
            2 => Some(Role::Sp),
            3 => Some(Role::Gd),
            4 => Some(Role::Sk),
            _ => None,
        }
    }
}

impl Attribute {
    pub fn from_code(c: u8) -> (r: Option<Attribute>)
        ensures
            r is Some ==> attribute_code(r->0) == c,
            r is None ==> c > 6,
    {
        match c {
            0 => Some(Attribute::Neutral),
            1 => Some(Attribute::Smile),
            2 => Some(Attribute::Pure),
            3 => Some(Attribute::Cool),
            4 => Some(Attribute::Active),
            5 => Some(Attribute::Natural),
            6 => Some(Attribute::Elegant),
            _ => None,
        }
    }
}

impl Rarity {
    pub fn from_code(c: u8) -> (r: Option<Rarity>)
        ensures
            r is Some ==> rarity_code(r->0) == c,
            r is None ==> c != 10 && c != 20 && c != 30,
    {
        match c {
            10 => Some(Rarity::R),
            20 => Some(Rarity::Sr),
            30 => Some(Rarity::Ur),
            _ => None,
        }
    }
}

impl SkillTiming {
    pub fn from_code(c: u8) -> (r: Option<SkillTiming>)
        ensures
            r is Some ==> timing_code(r->0) == c,
            r is None ==> c != 1 && c != 2,
    {
        match c {
            1 => Some(SkillTiming::Normal),
            2 => Some(SkillTiming::Attacking),
            _ => None,
        }
    }
}

} // verus!
