//! Request and response shapes of the card-data service, and the name of a
//! batched request.
use vstd::prelude::*;
use vstd::string::StringExecFns;
use crate::basic_data::{Idol, Rarity};

verus! {

#[derive(Debug, Copy, Clone, PartialEq, Eq, Structural, PartialOrd, Ord, Hash)]
pub struct JsonOrdId {
    pub ordinal: u32,
    pub id: u32,
}

#[derive(Debug, Clone, PartialEq, Eq)]
pub struct JsonIdRq {
    pub result: Vec<JsonOrdId>,
}

#[derive(Debug, Clone, PartialEq, Eq)]
pub struct JsonAppearance {
    pub name: String,
    pub image_asset_path: String,
    pub thumbnail_asset_path: String,
}

#[derive(Debug, Copy, Clone, PartialEq, Eq, Structural)]
pub struct JsonIdk {}

/// Where card data comes from and where it is cached.
#[derive(Debug, Clone, PartialEq, Eq)]
pub struct Cfg {
    pub cache_path: Option<String>,
    pub provider: String,
    pub language: Option<String>,
    pub timeout: Option<u32>,
}

pub open spec fn digit_char(d: nat) -> char {
    if d == 0 {
        '0'
    } else if d == 1 {
        '1'
    } else if d == 2 {
        '2'
    } else if d == 3 {
        '3'
    } else if d == 4 {
        '4'
    } else if d == 5 {
        '5'
    } else if d == 6 {
        '6'
    } else if d == 7 {
        '7'
    } else if d == 8 {
        '8'
    } else {
        '9'
    }
}

/// The decimal digits of `n`, without leading zeros.
pub open spec fn decimal(n: nat) -> Seq<char>
    decreases n,
{
    if n < 10 {
        seq![digit_char(n)]
    } else {
        decimal(n / 10) + seq![digit_char(n % 10)]
    }
}

/// The ordinals in decimal, separated by commas.
pub open spec fn joined(s: Seq<u32>) -> Seq<char>
    decreases s.len(),
{
    if s.len() == 0 {
        seq![]
    } else if s.len() == 1 {
        decimal(s[0] as nat)
    } else {
        joined(s.drop_last()) + seq![','] + decimal(s.last() as nat)
    }
}

/// The resource name of a batch request: the joined ordinals and `.json`,
/// or nothing for no ordinals.
pub open spec fn list_name(s: Seq<u32>) -> Seq<char> {
    if s.len() == 0 {
        seq![]
    } else {
        joined(s) + seq!['.', 'j', 's', 'o', 'n']
    }
}

fn digit_str(d: u32) -> (r: &'static str)
    requires
        d < 10,
    ensures
        r@ == seq![digit_char(d as nat)],
{
    proof {
        reveal_strlit("0");
        reveal_strlit("1");
        reveal_strlit("2");
        reveal_strlit("3");
        reveal_strlit("4");
        reveal_strlit("5");
        reveal_strlit("6");
        reveal_strlit("7");
        reveal_strlit("8");
        reveal_strlit("9");
    }
    if d == 0 {
        "0"
    } else if d == 1 {
        "1"
    } else if d == 2 {
        "2"
    } else if d == 3 {
        "3"
    } else if d == 4 {
        "4"
    } else if d == 5 {
        "5"
    } else if d == 6 {
        "6"
    } else if d == 7 {
        "7"
    } else if d == 8 {
        "8"
    } else {
        "9"
    }
}

/// Appends `n` in decimal.
pub fn push_decimal(s: &mut String, n: u32)
    ensures
        final(s)@ == old(s)@ + decimal(n as nat),
    decreases n,
{
    if n >= 10 {
        push_decimal(s, n / 10);
    }
    s.append(digit_str(n % 10));
    assert(final(s)@ =~= old(s)@ + decimal(n as nat));
}

/// The resource name under which a batch of cards is requested, such as
/// `1,5,9.json`.
pub fn ordinal_list_name(ordinal_list: &Vec<u32>) -> (r: String)
    ensures
        r@ == list_name(ordinal_list@),
{
    let mut s = String::new();
    let n = ordinal_list.len();
    let mut i: usize = 0;
    proof {
        reveal_strlit(",");
        reveal_strlit(".json");
    }
    while i < n
        invariant
            i <= n,
            n == ordinal_list.len(),
            s@ == joined(ordinal_list@.take(i as int)),
        decreases n - i,
    {
        proof {
            reveal_strlit(",");
        }
        if i > 0 {
            s.append(",");
        }
        push_decimal(&mut s, ordinal_list[i]);
        proof {
            let t = ordinal_list@.take(i as int + 1);
            assert(t.drop_last() =~= ordinal_list@.take(i as int));
            assert(t.last() == ordinal_list@[i as int]);
            if i == 0 {
                assert(s@ =~= joined(t));
            } else {
                assert(s@ =~= joined(t));
            }
        }
        i += 1;
    }
    assert(ordinal_list@.take(n as int) =~= ordinal_list@);
    proof {
        reveal_strlit(".json");
    }
    if n > 0 {
        s.append(".json");
    }
    assert(s@ =~= list_name(ordinal_list@));
    s
}

/// A short name for a card: its member, its rarity, and how many cards of
/// that member and rarity came before it, counting from 1.
#[derive(Debug, Copy, Clone, PartialEq, Eq, Structural, PartialOrd, Ord, Hash)]
pub struct Monicker {
    pub idol: Idol,
    pub rarity: Rarity,
    pub count: u32,
}

/// How many of the first `n` cards have member `m` and rarity `r`.
pub open spec fn count_kind(cards: Seq<(Idol, Rarity)>, n: int, m: Idol, r: Rarity) -> nat
    decreases n,
{
    if n <= 0 {
        0
    } else {
        count_kind(cards, n - 1, m, r) + (if cards[n - 1] == (m, r) { 1nat } else { 0nat })
    }
}

proof fn lemma_count_kind_bound(cards: Seq<(Idol, Rarity)>, n: int, m: Idol, r: Rarity)
    requires
        0 <= n,
    ensures
        count_kind(cards, n, m, r) <= n,
    decreases n,
{
    if n > 0 {
        lemma_count_kind_bound(cards, n - 1, m, r);
    }
}

/// Names cards given in ordinal order: the `k`-th card of a member and
/// rarity gets count `k`.
pub fn assign_names(cards: &Vec<(Idol, Rarity)>) -> (r: Vec<Monicker>)
    requires
        cards.len() < u32::MAX,
    ensures
        r.len() == cards.len(),
        forall|i: int| 0 <= i < r.len() ==> {
            &&& (#[trigger] r[i]).idol == cards[i].0
            &&& r[i].rarity == cards[i].1
            &&& r[i].count == count_kind(cards@, i + 1, cards[i].0, cards[i].1)
        },
{
    let mut out: Vec<Monicker> = Vec::new();
    let mut i: usize = 0;
    while i < cards.len()
        invariant
            i <= cards.len() < u32::MAX,
            out.len() == i,
            forall|k: int| 0 <= k < i ==> {
                &&& (#[trigger] out[k]).idol == cards[k].0
                &&& out[k].rarity == cards[k].1
                &&& out[k].count == count_kind(cards@, k + 1, cards[k].0, cards[k].1)
            },
        decreases cards.len() - i,
    {
        let (m, r) = cards[i];
        let mut n: u32 = 0;
        let mut j: usize = 0;
        while j <= i
            invariant
                j <= i + 1,
                i < cards.len() < u32::MAX,
                (m, r) == cards@[i as int],
                n == count_kind(cards@, j as int, m, r),
            decreases i + 1 - j,
        {
            proof {
                lemma_count_kind_bound(cards@, j as int, m, r);
            }
            let (m2, r2) = cards[j];
            if m2 == m && r2 == r {
                n = n + 1;
            }
            j += 1;
        }
        out.push(Monicker { idol: m, rarity: r, count: n });
        i += 1;
    }
    out
}

} // verus!
