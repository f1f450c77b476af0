use vstd::prelude::*;
use crate::acc_handle::{AccHandle, HANDLE_LIMIT};
use crate::random::gen_index;
use rand::rngs::SmallRng;
use vstd::arithmetic::div_mod::lemma_fundamental_div_mod_converse;

verus! {

/// Number of group-swap moves: each of the three slots of the first group
/// against each of the six slots of the other two groups.
pub const GROUP_SWAPS: usize = 18;

/// One candidate team: nine album indices in slot order (three groups of
/// three), the special trio as indices into `cards` (center, left, right),
/// and nine accessory handles aligned with the card slots.
#[derive(Debug, Copy, Clone, PartialEq, Eq, Hash)]
pub struct Schedule {
    pub cards: [usize; 9],
    pub sp3: [usize; 3],
    pub accs: [AccHandle; 9],
}

/// The card indices of a schedule as integers.
pub open spec fn card_vals(cards: [usize; 9]) -> Seq<int> {
    cards@.map_values(|c: usize| c as int)
}

/// The raw accessory handle values of a schedule as integers.
pub open spec fn acc_vals(accs: [AccHandle; 9]) -> Seq<int> {
    accs@.map_values(|h: AccHandle| h.value() as int)
}

/// How many values in `[lo, hi)` do not occur in `used`.
pub open spec fn free_from(used: Seq<int>, lo: int, hi: int) -> nat
    decreases hi - lo,
{
    if hi <= lo {
        0
    } else {
        (if used.contains(lo) { 0nat } else { 1nat }) + free_from(used, lo + 1, hi)
    }
}

/// The `k`-th (from zero) value in `[lo, hi)` that does not occur in `used`,
/// or `hi` when there are not that many.
pub open spec fn kth_free(used: Seq<int>, lo: int, hi: int, k: nat) -> int
    decreases hi - lo,
{
    if hi <= lo {
        hi
    } else if used.contains(lo) {
        kth_free(used, lo + 1, hi, k)
    } else if k == 0 {
        lo
    } else {
        kth_free(used, lo + 1, hi, (k - 1) as nat)
    }
}

/// How many entries of `s` lie in `[lo, hi)`.
pub open spec fn count_in(s: Seq<int>, lo: int, hi: int) -> nat
    decreases s.len(),
{
    if s.len() == 0 {
        0
    } else {
        count_in(s.drop_last(), lo, hi) + (if lo <= s.last() < hi { 1nat } else { 0nat })
    }
}

/// Number of accessory slots holding an index below `inv_size`.
pub open spec fn acc_used(s: Schedule, inv_size: int) -> nat {
    count_in(acc_vals(s.accs), 0, inv_size)
}

/// Number of card-replacement moves: every slot against every album index
/// outside the team.
pub open spec fn card_moves(album_size: int) -> int {
    9 * (album_size - 9)
}

/// Free inventory indices, as the closed form counts them.
pub open spec fn acc_choices(s: Schedule, inv_size: int) -> int {
    if inv_size > acc_used(s, inv_size) {
        inv_size - acc_used(s, inv_size)
    } else {
        0
    }
}

/// Number of accessory-replacement moves.
pub open spec fn acc_moves(s: Schedule, inv_size: int) -> int {
    9 * acc_choices(s, inv_size)
}

/// The number of neighbors of `s`, in closed form.
pub open spec fn neighbor_count(s: Schedule, album_size: int, inv_size: int) -> int {
    GROUP_SWAPS + card_moves(album_size) + acc_moves(s, inv_size)
}

/// `r` is the `k`-th neighbor of `s`: group swaps first, then card
/// replacements slot by slot, then accessory replacements slot by slot;
/// within a slot the candidates come in increasing index order.
pub open spec fn is_nth_neighbor(s: Schedule, album_size: int, inv_size: int, k: int, r: Schedule) -> bool {
    &&& r.sp3 == s.sp3
    &&& if k < GROUP_SWAPS {
        let g = k / 6;
        let o = 3 + k % 6;
        &&& r.cards@ == s.cards@.update(g, s.cards[o]).update(o, s.cards[g])
        &&& r.accs == s.accs
    } else if k < GROUP_SWAPS + card_moves(album_size) {
        let sub = k - GROUP_SWAPS;
        let slot = sub / (album_size - 9);
        let j = sub % (album_size - 9);
        &&& r.cards@ == s.cards@.update(slot, kth_free(card_vals(s.cards), 0, album_size, j as nat) as usize)
        &&& r.accs == s.accs
    } else {
        let sub = k - GROUP_SWAPS - card_moves(album_size);
        let slot = sub / acc_choices(s, inv_size);
        let j = sub % acc_choices(s, inv_size);
        &&& r.accs@ == s.accs@.update(
            slot,
            AccHandle::spec_raw(kth_free(acc_vals(s.accs), 0, inv_size, j as nat) as u16),
        )
        &&& r.cards == s.cards
    }
}

impl Schedule {
    /// The invariant of a schedule over an album of `album_size` cards and an
    /// inventory of `inv_size` accessories: card indices are distinct and in
    /// range, accessory indices are distinct and in range (empty handles may
    /// repeat), and the special trio points at slots.
    pub open spec fn wf(self, album_size: int, inv_size: int) -> bool {
        &&& 9 <= album_size
        &&& 0 <= inv_size < HANDLE_LIMIT
        &&& forall|i: int| 0 <= i < 9 ==> #[trigger] self.cards[i] < album_size
        &&& forall|i: int, j: int| 0 <= i < 9 && 0 <= j < 9 && i != j ==> self.cards[i] != self.cards[j]
        &&& forall|i: int| 0 <= i < 3 ==> #[trigger] self.sp3[i] < 9
        &&& forall|i: int| 0 <= i < 9 ==> (#[trigger] self.accs[i]).wf()
        &&& forall|i: int| 0 <= i < 9 && (#[trigger] self.accs[i]).index() is Some ==> self.accs[i].value() < inv_size
        &&& forall|i: int, j: int|
            0 <= i < 9 && 0 <= j < 9 && i != j && self.accs[i].index() is Some
                ==> self.accs[i].value() != self.accs[j].value()
    }
}


/// The `k`-th free value never lies past `hi`.
pub proof fn lemma_kth_free_bound(used: Seq<int>, lo: int, hi: int, k: nat)
    ensures
        kth_free(used, lo, hi, k) <= hi,
    decreases hi - lo,
{
    if hi > lo {
        if used.contains(lo) {
            lemma_kth_free_bound(used, lo + 1, hi, k);
        } else if k != 0 {
            lemma_kth_free_bound(used, lo + 1, hi, (k - 1) as nat);
        }
    }
}

/// With nothing used, every value of the range is free.
proof fn lemma_free_none(used: Seq<int>, lo: int, hi: int)
    requires
        used.len() == 0,
        lo <= hi,
    ensures
        free_from(used, lo, hi) == hi - lo,
    decreases hi - lo,
{
    if hi > lo {
        lemma_free_none(used, lo + 1, hi);
    }
}

/// Adding one used value removes at most that value from the free ones.
proof fn lemma_free_push(t: Seq<int>, x: int, lo: int, hi: int)
    ensures
        free_from(t, lo, hi) <= free_from(t.push(x), lo, hi) + (if lo <= x < hi { 1nat } else { 0nat }),
    decreases hi - lo,
{
    if hi > lo {
        let u = t.push(x);
        if t.contains(lo) {
            let i = choose|i: int| 0 <= i < t.len() && t[i] == lo;
            assert(u[i] == lo);
        }
        if x == lo {
            assert(u[t.len() as int] == lo);
        } else if u.contains(lo) {
            let i = choose|i: int| 0 <= i < u.len() && u[i] == lo;
            assert(t[i] == lo);
        }
        lemma_free_push(t, x, lo + 1, hi);
    }
}

/// At least `hi - lo` values of the range are free, less those that `used`
/// holds.
pub proof fn lemma_free_lower(used: Seq<int>, lo: int, hi: int)
    requires
        lo <= hi,
    ensures
        free_from(used, lo, hi) + count_in(used, lo, hi) >= hi - lo,
    decreases used.len(),
{
    if used.len() == 0 {
        lemma_free_none(used, lo, hi);
    } else {
        let t = used.drop_last();
        lemma_free_lower(t, lo, hi);
        assert(t.push(used.last()) =~= used);
        lemma_free_push(t, used.last(), lo, hi);
    }
}

/// When every entry lies in the range, all of them are counted.
pub proof fn lemma_count_all(s: Seq<int>, lo: int, hi: int)
    requires
        forall|i: int| 0 <= i < s.len() ==> lo <= #[trigger] s[i] < hi,
    ensures
        count_in(s, lo, hi) == s.len(),
    decreases s.len(),
{
    if s.len() > 0 {
        let t = s.drop_last();
        assert forall|i: int| 0 <= i < t.len() implies lo <= #[trigger] t[i] < hi by {
            assert(t[i] == s[i]);
        }
        lemma_count_all(t, lo, hi);
    }
}

/// The `k`-th free value, when there are more than `k`, is a free value of
/// the range.
pub proof fn lemma_kth_free(used: Seq<int>, lo: int, hi: int, k: nat)
    requires
        k < free_from(used, lo, hi),
    ensures
        lo <= kth_free(used, lo, hi, k) < hi,
        !used.contains(kth_free(used, lo, hi, k)),
    decreases hi - lo,
{
    if used.contains(lo) {
        lemma_kth_free(used, lo + 1, hi, k);
    } else if k != 0 {
        lemma_kth_free(used, lo + 1, hi, (k - 1) as nat);
    }
}

/// Every neighbor of a valid schedule is valid: no card index and no
/// accessory index occurs twice, and all stay in range.
pub proof fn lemma_neighbor_wf(s: Schedule, album_size: int, inv_size: int, k: int, r: Schedule)
    requires
        s.wf(album_size, inv_size),
        album_size <= usize::MAX,
        0 <= k < neighbor_count(s, album_size, inv_size),
        is_nth_neighbor(s, album_size, inv_size, k, r),
    ensures
        r.wf(album_size, inv_size),
{
    if k < GROUP_SWAPS {
        let g = k / 6;
        let o = 3 + k % 6;
        assert(0 <= g < 3 && 3 <= o < 9);
        assert forall|i: int| 0 <= i < 9 implies #[trigger] r.cards[i] < album_size by {
            assert(r.cards[i] == r.cards@[i]);
        }
        assert forall|i: int, j: int| 0 <= i < 9 && 0 <= j < 9 && i != j implies r.cards[i] != r.cards[j] by {
            assert(r.cards[i] == r.cards@[i]);
            assert(r.cards[j] == r.cards@[j]);
        }
    } else if k < GROUP_SWAPS + card_moves(album_size) {
        let nonteam = album_size - 9;
        let sub = k - GROUP_SWAPS;
        let slot = sub / nonteam;
        let j = sub % nonteam;
        assert(0 <= slot < 9 && 0 <= j < nonteam) by (nonlinear_arith)
            requires 0 <= sub < 9 * nonteam, slot == sub / nonteam, j == sub % nonteam, nonteam > 0;
        let used = card_vals(s.cards);
        assert forall|i: int| 0 <= i < used.len() implies 0 <= #[trigger] used[i] < album_size by {
            assert(used[i] == s.cards[i] as int);
        }
        lemma_count_all(used, 0, album_size);
        lemma_free_lower(used, 0, album_size);
        lemma_kth_free(used, 0, album_size, j as nat);
        let c = kth_free(used, 0, album_size, j as nat);
        assert forall|i: int| 0 <= i < 9 implies s.cards[i] != c by {
            assert(used[i] == s.cards[i] as int);
        }
        assert forall|i: int| 0 <= i < 9 implies #[trigger] r.cards[i] < album_size by {
            assert(r.cards[i] == r.cards@[i]);
        }
        assert forall|i: int, j: int| 0 <= i < 9 && 0 <= j < 9 && i != j implies r.cards[i] != r.cards[j] by {
            assert(r.cards[i] == r.cards@[i]);
            assert(r.cards[j] == r.cards@[j]);
            if i == slot {
                assert(s.cards[j] != c);
            } else if j == slot {
                assert(s.cards[i] != c);
            } else {
                assert(s.cards[i] != s.cards[j]);
            }
        }
    } else {
        let choices = acc_choices(s, inv_size);
        let sub = k - GROUP_SWAPS - card_moves(album_size);
        assert(choices > 0);
        let slot = sub / choices;
        let j = sub % choices;
        assert(0 <= slot < 9 && 0 <= j < choices) by (nonlinear_arith)
            requires 0 <= sub < 9 * choices, slot == sub / choices, j == sub % choices, choices > 0;
        let used = acc_vals(s.accs);
        lemma_free_lower(used, 0, inv_size);
        lemma_kth_free(used, 0, inv_size, j as nat);
        let c = kth_free(used, 0, inv_size, j as nat);
        let h = AccHandle::spec_raw(c as u16);
        AccHandle::lemma_spec_raw(c as u16);
        assert forall|i: int| 0 <= i < 9 implies s.accs[i].value() != c by {
            assert(used[i] == s.accs[i].value() as int);
        }
        assert forall|i: int| 0 <= i < 9 implies (#[trigger] r.accs[i]).wf() by {
            assert(r.accs[i] == r.accs@[i]);
        }
        assert forall|i: int| 0 <= i < 9 && (#[trigger] r.accs[i]).index() is Some implies r.accs[i].value() < inv_size by {
            assert(r.accs[i] == r.accs@[i]);
        }
        assert forall|i: int, j: int|
            0 <= i < 9 && 0 <= j < 9 && i != j && r.accs[i].index() is Some
                implies r.accs[i].value() != r.accs[j].value() by {
            assert(r.accs[i] == r.accs@[i]);
            assert(r.accs[j] == r.accs@[j]);
        }
    }
}

/// For a valid schedule whose nine accessory slots all hold an item, the
/// neighbor count depends on the two sizes alone:
/// `18 + 9 * (album_size - 9) + 9 * (inv_size - 9)`.
pub proof fn lemma_neighbor_count_closed_form(s: Schedule, album_size: int, inv_size: int)
    requires
        s.wf(album_size, inv_size),
        inv_size >= 9,
        forall|i: int| 0 <= i < 9 ==> (#[trigger] s.accs[i]).index() is Some,
    ensures
        neighbor_count(s, album_size, inv_size) == 18 + 9 * (album_size - 9) + 9 * (inv_size - 9),
{
    let used = acc_vals(s.accs);
    assert forall|i: int| 0 <= i < used.len() implies 0 <= #[trigger] used[i] < inv_size by {
        assert(used[i] == s.accs[i].value() as int);
    }
    lemma_count_all(used, 0, inv_size);
}

/// The values of `s` inside `[lo, hi)` occur once each.
pub open spec fn distinct_in(s: Seq<int>, lo: int, hi: int) -> bool {
    forall|i: int, j: int| 0 <= i < s.len() && 0 <= j < s.len() && i != j && lo <= s[i] < hi ==> s[i] != s[j]
}

/// Adding a value that is new, or outside the range, removes exactly what
/// it covers from the free ones.
proof fn lemma_free_push_exact(t: Seq<int>, x: int, lo: int, hi: int)
    requires
        !(lo <= x < hi) || !t.contains(x),
    ensures
        free_from(t, lo, hi) == free_from(t.push(x), lo, hi) + (if lo <= x < hi { 1nat } else { 0nat }),
    decreases hi - lo,
{
    if hi > lo {
        let u = t.push(x);
        if t.contains(lo) {
            let i = choose|i: int| 0 <= i < t.len() && t[i] == lo;
            assert(u[i] == lo);
        }
        if x == lo {
            assert(u[t.len() as int] == lo);
        } else if u.contains(lo) {
            let i = choose|i: int| 0 <= i < u.len() && u[i] == lo;
            assert(t[i] == lo);
        }
        lemma_free_push_exact(t, x, lo + 1, hi);
    }
}

/// With no repeats inside the range, the free values and the used ones
/// split the range exactly.
pub proof fn lemma_free_exact(used: Seq<int>, lo: int, hi: int)
    requires
        lo <= hi,
        distinct_in(used, lo, hi),
    ensures
        free_from(used, lo, hi) + count_in(used, lo, hi) == hi - lo,
    decreases used.len(),
{
    if used.len() == 0 {
        lemma_free_none(used, lo, hi);
    } else {
        let t = used.drop_last();
        let x = used.last();
        assert forall|i: int, j: int| 0 <= i < t.len() && 0 <= j < t.len() && i != j && lo <= t[i] < hi implies t[i] != t[j] by {
            assert(t[i] == used[i] && t[j] == used[j]);
        }
        lemma_free_exact(t, lo, hi);
        assert(t.push(x) =~= used);
        if lo <= x < hi && t.contains(x) {
            let i = choose|i: int| 0 <= i < t.len() && t[i] == x;
            assert(used[i] == used[used.len() - 1]);
        }
        lemma_free_push_exact(t, x, lo, hi);
    }
}

/// Free values counted on `[lo, mid)` and `[mid, hi)` add up.
proof fn lemma_free_split(used: Seq<int>, lo: int, mid: int, hi: int)
    requires
        lo <= mid <= hi,
    ensures
        free_from(used, lo, hi) == free_from(used, lo, mid) + free_from(used, mid, hi),
    decreases mid - lo,
{
    if lo < mid {
        lemma_free_split(used, lo + 1, mid, hi);
    }
}

/// A free value `c` is the `k`-th free value, for `k` the number of free
/// values below it.
proof fn lemma_kth_free_of(used: Seq<int>, lo: int, hi: int, c: int)
    requires
        lo <= c < hi,
        !used.contains(c),
    ensures
        kth_free(used, lo, hi, free_from(used, lo, c)) == c,
        free_from(used, lo, c) < free_from(used, lo, hi),
    decreases c - lo,
{
    lemma_free_split(used, lo, c, hi);
    assert(free_from(used, c, hi) >= 1);
    if lo < c {
        lemma_kth_free_of(used, lo + 1, hi, c);
        lemma_free_split(used, lo + 1, c, hi);
    }
}

/// Every group swap of a valid schedule is enumerated: the swap of slot `g`
/// of the first group with slot `o` of the others is neighbor
/// `6 * g + (o - 3)`.
pub proof fn lemma_every_swap_enumerated(s: Schedule, album_size: int, inv_size: int, g: int, o: int) -> (k: int)
    requires
        0 <= g < 3,
        3 <= o < 9,
        album_size >= 9,
    ensures
        0 <= k < neighbor_count(s, album_size, inv_size),
        forall|r: Schedule|
            r.sp3 == s.sp3 && r.accs == s.accs && r.cards@ == s.cards@.update(g, s.cards[o]).update(o, s.cards[g])
                ==> #[trigger] is_nth_neighbor(s, album_size, inv_size, k, r),
{
    let k = 6 * g + (o - 3);
    lemma_fundamental_div_mod_converse(k, 6, g, o - 3);
    assert(card_moves(album_size) >= 0) by (nonlinear_arith)
        requires album_size >= 9;
    k
}

/// Every card replacement of a valid schedule is enumerated: putting album
/// index `c`, which is not on the team, into slot `slot` is neighbor
/// `18 + slot * (album_size - 9) + j`, for `j` the number of such indices
/// below `c`.
pub proof fn lemma_every_card_replacement_enumerated(
    s: Schedule,
    album_size: int,
    inv_size: int,
    slot: int,
    c: int,
) -> (k: int)
    requires
        s.wf(album_size, inv_size),
        album_size <= usize::MAX,
        0 <= slot < 9,
        0 <= c < album_size,
        forall|i: int| 0 <= i < 9 ==> s.cards[i] != c,
    ensures
        0 <= k < neighbor_count(s, album_size, inv_size),
        forall|r: Schedule|
            r.sp3 == s.sp3 && r.accs == s.accs && r.cards@ == s.cards@.update(slot, c as usize)
                ==> #[trigger] is_nth_neighbor(s, album_size, inv_size, k, r),
{
    let used = card_vals(s.cards);
    let n = album_size - 9;
    assert forall|i: int| 0 <= i < used.len() implies 0 <= #[trigger] used[i] < album_size by {
        assert(used[i] == s.cards[i] as int);
    }
    assert(!used.contains(c)) by {
        if used.contains(c) {
            let i = choose|i: int| 0 <= i < used.len() && used[i] == c;
            assert(used[i] == s.cards[i] as int);
        }
    }
    assert forall|i: int, j: int| 0 <= i < used.len() && 0 <= j < used.len() && i != j && 0 <= used[i] < album_size implies used[i] != used[j] by {
        assert(used[i] == s.cards[i] as int && used[j] == s.cards[j] as int);
    }
    lemma_count_all(used, 0, album_size);
    lemma_free_exact(used, 0, album_size);
    lemma_kth_free_of(used, 0, album_size, c);
    let j = free_from(used, 0, c);
    let sub = slot * n + j;
    lemma_fundamental_div_mod_converse(sub, n, slot, j as int);
    assert(sub < 9 * n) by (nonlinear_arith)
        requires sub == slot * n + j, 0 <= slot < 9, 0 <= j < n;
    assert(sub >= 0) by (nonlinear_arith)
        requires sub == slot * n + j, 0 <= slot, 0 <= j, n > 0;
    assert(acc_moves(s, inv_size) >= 0) by (nonlinear_arith)
        requires acc_choices(s, inv_size) >= 0;
    GROUP_SWAPS + sub
}

/// Every accessory replacement of a valid schedule is enumerated: putting
/// inventory index `c`, which no slot holds, into accessory slot `slot` is
/// a neighbor.
pub proof fn lemma_every_acc_replacement_enumerated(
    s: Schedule,
    album_size: int,
    inv_size: int,
    slot: int,
    c: int,
) -> (k: int)
    requires
        s.wf(album_size, inv_size),
        0 <= slot < 9,
        0 <= c < inv_size,
        forall|i: int| 0 <= i < 9 ==> s.accs[i].value() != c,
    ensures
        0 <= k < neighbor_count(s, album_size, inv_size),
        forall|r: Schedule|
            r.sp3 == s.sp3 && r.cards == s.cards && r.accs@ == s.accs@.update(slot, AccHandle::spec_raw(c as u16))
                ==> #[trigger] is_nth_neighbor(s, album_size, inv_size, k, r),
{
    let used = acc_vals(s.accs);
    assert(!used.contains(c)) by {
        if used.contains(c) {
            let i = choose|i: int| 0 <= i < used.len() && used[i] == c;
            assert(used[i] == s.accs[i].value() as int);
        }
    }
    assert forall|i: int, j: int| 0 <= i < used.len() && 0 <= j < used.len() && i != j && 0 <= used[i] < inv_size implies used[i] != used[j] by {
        assert(used[i] == s.accs[i].value() as int && used[j] == s.accs[j].value() as int);
        assert(s.accs[i].index() is Some);
    }
    lemma_free_exact(used, 0, inv_size);
    lemma_kth_free_of(used, 0, inv_size, c);
    let n = acc_choices(s, inv_size);
    let j = free_from(used, 0, c);
    assert(n == free_from(used, 0, inv_size));
    let sub = slot * n + j;
    lemma_fundamental_div_mod_converse(sub, n, slot, j as int);
    assert(sub < 9 * n) by (nonlinear_arith)
        requires sub == slot * n + j, 0 <= slot < 9, 0 <= j < n;
    assert(sub >= 0) by (nonlinear_arith)
        requires sub == slot * n + j, 0 <= slot, 0 <= j, n > 0;
    assert(card_moves(album_size) >= 0) by (nonlinear_arith)
        requires album_size >= 9;
    GROUP_SWAPS + card_moves(album_size) + sub
}

/// Two sequences whose entries fall in the range at the same places have
/// the same count in it.
proof fn lemma_count_in_agree(a: Seq<int>, b: Seq<int>, lo: int, hi: int)
    requires
        a.len() == b.len(),
        forall|i: int| 0 <= i < a.len() ==> (lo <= #[trigger] a[i] < hi) == (lo <= b[i] < hi),
    ensures
        count_in(a, lo, hi) == count_in(b, lo, hi),
    decreases a.len(),
{
    if a.len() > 0 {
        let (ta, tb) = (a.drop_last(), b.drop_last());
        assert forall|i: int| 0 <= i < ta.len() implies (lo <= #[trigger] ta[i] < hi) == (lo <= tb[i] < hi) by {
            assert(ta[i] == a[i] && tb[i] == b[i]);
        }
        lemma_count_in_agree(ta, tb, lo, hi);
    }
}

proof fn lemma_count_in_le(s: Seq<int>, lo: int, hi: int)
    ensures
        count_in(s, lo, hi) <= s.len(),
    decreases s.len(),
{
    if s.len() > 0 {
        lemma_count_in_le(s.drop_last(), lo, hi);
    }
}

/// When every entry is counted, every entry lies in the range.
proof fn lemma_count_in_full(s: Seq<int>, lo: int, hi: int)
    requires
        count_in(s, lo, hi) == s.len(),
    ensures
        forall|i: int| 0 <= i < s.len() ==> lo <= #[trigger] s[i] < hi,
    decreases s.len(),
{
    if s.len() > 0 {
        let t = s.drop_last();
        lemma_count_in_le(t, lo, hi);
        lemma_count_in_full(t, lo, hi);
        assert forall|i: int| 0 <= i < s.len() implies lo <= #[trigger] s[i] < hi by {
            if i < t.len() {
                assert(s[i] == t[i]);
            }
        }
    }
}

/// The number of accessory slots in use that `new_random` establishes,
/// `min(9, inv_size)`, holds for every neighbor too, so every schedule that
/// the search reaches has the closed-form neighbor count
/// `18 + 9 * (album_size - 9) + 9 * (inv_size - min(9, inv_size))`.
pub proof fn lemma_neighbor_keeps_closed_form(s: Schedule, album_size: int, inv_size: int, k: int, r: Schedule)
    requires
        s.wf(album_size, inv_size),
        album_size <= usize::MAX,
        acc_used(s, inv_size) == (if inv_size < 9 { inv_size } else { 9 }),
        0 <= k < neighbor_count(s, album_size, inv_size),
        is_nth_neighbor(s, album_size, inv_size, k, r),
    ensures
        acc_used(r, inv_size) == (if inv_size < 9 { inv_size } else { 9 }),
        neighbor_count(r, album_size, inv_size) == 18 + 9 * (album_size - 9) + 9 * (inv_size - (if inv_size
            < 9 { inv_size } else { 9 })),
{
    lemma_neighbor_wf(s, album_size, inv_size, k, r);
    if k >= GROUP_SWAPS + card_moves(album_size) {
        let used = acc_vals(s.accs);
        let choices = acc_choices(s, inv_size);
        assert(choices > 0);
        assert(inv_size >= 9);
        lemma_count_in_full(used, 0, inv_size);
        let ru = acc_vals(r.accs);
        let sub = k - GROUP_SWAPS - card_moves(album_size);
        let slot = sub / choices;
        let j = sub % choices;
        assert(0 <= slot < 9 && 0 <= j < choices) by (nonlinear_arith)
            requires 0 <= sub < 9 * choices, slot == sub / choices, j == sub % choices, choices > 0;
        lemma_free_lower(used, 0, inv_size);
        lemma_kth_free(used, 0, inv_size, j as nat);
        let c = kth_free(used, 0, inv_size, j as nat);
        AccHandle::lemma_spec_raw(c as u16);
        assert forall|i: int| 0 <= i < ru.len() implies 0 <= #[trigger] ru[i] < inv_size by {
            assert(ru[i] == r.accs[i].value() as int);
            assert(used[i] == s.accs[i].value() as int);
            assert(r.accs[i] == r.accs@[i]);
            assert(s.accs[i] == s.accs@[i]);
        }
        lemma_count_all(ru, 0, inv_size);
    } else {
        assert(r.accs == s.accs);
    }
}

/// Whether album index `c` occurs among the first `filled` cards.
fn holds_card(cards: &[usize; 9], filled: usize, c: usize) -> (r: bool)
    requires
        filled <= 9,
    ensures
        r == card_vals(*cards).take(filled as int).contains(c as int),
{
    let ghost used = card_vals(*cards).take(filled as int);
    let mut i: usize = 0;
    while i < filled
        invariant
            i <= filled <= 9,
            used == card_vals(*cards).take(filled as int),
            forall|j: int| 0 <= j < i ==> cards[j] != c,
        decreases filled - i,
    {
        if cards[i] == c {
            assert(used[i as int] == c as int);
            return true;
        }
        i += 1;
    }
    assert forall|j: int| 0 <= j < filled implies used[j] != c as int by {}
    false
}

/// Whether inventory index `c` occurs among the accessory handles.
fn holds_acc(accs: &[AccHandle; 9], c: usize) -> (r: bool)
    requires
        c < HANDLE_LIMIT,
    ensures
        r == acc_vals(*accs).contains(c as int),
{
    let mut i: usize = 0;
    while i < 9
        invariant
            i <= 9,
            c < HANDLE_LIMIT,
            forall|j: int| 0 <= j < i ==> accs[j].value() != c,
        decreases 9 - i,
    {
        match accs[i].to_index() {
            Some(x) => {
                if x == c {
                    assert(acc_vals(*accs)[i as int] == c as int);
                    return true;
                }
            },
            None => {},
        }
        i += 1;
    }
    assert forall|j: int| 0 <= j < 9 implies acc_vals(*accs)[j] != c as int by {}
    false
}

/// The `k`-th value below `hi` that is not among the first `filled` cards.
fn kth_free_card(cards: &[usize; 9], filled: usize, hi: usize, k: usize) -> (r: usize)
    requires
        filled <= 9,
    ensures
        r == kth_free(card_vals(*cards).take(filled as int), 0, hi as int, k as nat),
{
    let ghost used = card_vals(*cards).take(filled as int);
    let mut c: usize = 0;
    let mut left: usize = k;
    while c < hi
        invariant
            c <= hi,
            filled <= 9,
            used == card_vals(*cards).take(filled as int),
            kth_free(used, 0, hi as int, k as nat) == kth_free(used, c as int, hi as int, left as nat),
        decreases hi - c,
    {
        if holds_card(cards, filled, c) {
            c += 1;
        } else if left == 0 {
            return c;
        } else {
            left -= 1;
            c += 1;
        }
    }
    c
}

/// The `k`-th inventory index below `hi` that no accessory slot holds.
fn kth_free_acc(accs: &[AccHandle; 9], hi: usize, k: usize) -> (r: usize)
    requires
        hi <= HANDLE_LIMIT,
    ensures
        r == kth_free(acc_vals(*accs), 0, hi as int, k as nat),
{
    let mut c: usize = 0;
    let mut left: usize = k;
    while c < hi
        invariant
            c <= hi,
            hi <= HANDLE_LIMIT,
            kth_free(acc_vals(*accs), 0, hi as int, k as nat)
                == kth_free(acc_vals(*accs), c as int, hi as int, left as nat),
        decreases hi - c,
    {
        if holds_acc(accs, c) {
            c += 1;
        } else if left == 0 {
            return c;
        } else {
            left -= 1;
            c += 1;
        }
    }
    c
}

/// Number of accessory slots holding an index below `inv_size`.
fn count_used_accs(accs: &[AccHandle; 9], inv_size: usize) -> (r: usize)
    requires
        inv_size <= HANDLE_LIMIT,
    ensures
        r == count_in(acc_vals(*accs), 0, inv_size as int),
        r <= 9,
{
    let ghost vals = acc_vals(*accs);
    let mut n: usize = 0;
    let mut i: usize = 0;
    while i < 9
        invariant
            i <= 9,
            vals == acc_vals(*accs),
            n == count_in(vals.take(i as int), 0, inv_size as int),
            n <= i,
            inv_size <= HANDLE_LIMIT,
        decreases 9 - i,
    {
        assert(vals.take(i as int + 1).drop_last() =~= vals.take(i as int));
        assert(vals.take(i as int + 1).last() == accs[i as int].value());
        match accs[i].to_index() {
            Some(x) => {
                if x < inv_size {
                    n += 1;
                }
            },
            None => {},
        }
        i += 1;
    }
    assert(vals.take(9) =~= vals);
    n
}

impl Schedule {
    /// The number of neighbors, from the closed form.
    pub fn neighbor_count(&self, album_size: usize, inv_size: usize) -> (r: usize)
        requires
            album_size >= 9,
            inv_size < HANDLE_LIMIT,
            neighbor_count(*self, album_size as int, inv_size as int) <= usize::MAX,
        ensures
            r == neighbor_count(*self, album_size as int, inv_size as int),
    {
        let used = count_used_accs(&self.accs, inv_size);
        let choices = if inv_size > used { inv_size - used } else { 0 };
        GROUP_SWAPS + 9 * (album_size - 9) + 9 * choices
    }

    /// The `k`-th neighbor of this schedule, or `None` past the last one.
    pub fn nth_neighbor(&self, album_size: usize, inv_size: usize, k: usize) -> (r: Option<Schedule>)
        requires
            album_size >= 9,
            inv_size < HANDLE_LIMIT,
            neighbor_count(*self, album_size as int, inv_size as int) <= usize::MAX,
        ensures
            r is Some <==> k < neighbor_count(*self, album_size as int, inv_size as int),
            r is Some ==> is_nth_neighbor(*self, album_size as int, inv_size as int, k as int, r->0),
    {
        let used = count_used_accs(&self.accs, inv_size);
        let choices = if inv_size > used { inv_size - used } else { 0 };
        let nonteam = album_size - 9;
        let last_swap = GROUP_SWAPS;
        let last_card = last_swap + 9 * nonteam;
        let last_acc = last_card + 9 * choices;
        let mut out = *self;
        if k < last_swap {
            let g = k / 6;
            let o = 3 + k % 6;
            let a = out.cards[g];
            out.cards.set(g, out.cards[o]);
            out.cards.set(o, a);
            assert(out.cards@ == self.cards@.update(g as int, self.cards[o as int]).update(o as int, self.cards[g as int]));
            Some(out)
        } else if k < last_card {
            let sub = k - last_swap;
            let slot = sub / nonteam;
            let j = sub % nonteam;
            assert(slot < 9) by (nonlinear_arith)
                requires sub < 9 * nonteam, slot == sub / nonteam, nonteam > 0;
            let c = kth_free_card(&self.cards, 9, album_size, j);
            assert(card_vals(self.cards).take(9) =~= card_vals(self.cards));
            out.cards.set(slot, c);
            assert(out.cards@ == self.cards@.update(slot as int, c));
            Some(out)
        } else if k < last_acc {
            let sub = k - last_card;
            let slot = sub / choices;
            let j = sub % choices;
            assert(slot < 9) by (nonlinear_arith)
                requires sub < 9 * choices, slot == sub / choices, choices > 0;
            let c = kth_free_acc(&self.accs, inv_size, j);
            proof {
                lemma_kth_free_bound(acc_vals(self.accs), 0, inv_size as int, j as nat);
            }
            out.accs.set(slot, AccHandle::from_index(c));
            Some(out)
        } else {
            None
        }
    }
}

impl Default for Schedule {
    /// The first nine cards and accessories in order, the first group special.
    fn default() -> (r: Schedule)
        ensures
            forall|i: int| 0 <= i < 9 ==> r.cards[i] == i,
            forall|i: int| 0 <= i < 3 ==> r.sp3[i] == i,
            forall|i: int| 0 <= i < 9 ==> (#[trigger] r.accs[i]).value() == i,
    {
        Schedule {
            cards: [0, 1, 2, 3, 4, 5, 6, 7, 8],
            sp3: [0, 1, 2],
            accs: [
                AccHandle::from_index(0),
                AccHandle::from_index(1),
                AccHandle::from_index(2),
                AccHandle::from_index(3),
                AccHandle::from_index(4),
                AccHandle::from_index(5),
                AccHandle::from_index(6),
                AccHandle::from_index(7),
                AccHandle::from_index(8),
            ],
        }
    }
}

/// Walks the neighbors of one schedule in order, one per call of `next`.
#[derive(Debug, Copy, Clone, PartialEq, Eq)]
pub struct ScheduleIterator {
    album_size: usize,
    inv_size: usize,
    origin: Schedule,
    step: usize,
}

impl ScheduleIterator {
    pub closed spec fn origin(self) -> Schedule {
        self.origin
    }

    pub closed spec fn album_size(self) -> int {
        self.album_size as int
    }

    pub closed spec fn inv_size(self) -> int {
        self.inv_size as int
    }

    /// How many neighbors have been handed out or skipped.
    pub closed spec fn step(self) -> int {
        self.step as int
    }

    /// The sizes are ones that the enumeration is defined for.
    pub open spec fn wf(self) -> bool {
        &&& self.album_size() >= 9
        &&& self.inv_size() < HANDLE_LIMIT
        &&& neighbor_count(self.origin(), self.album_size(), self.inv_size()) <= usize::MAX
    }

    pub open spec fn count(self) -> int {
        neighbor_count(self.origin(), self.album_size(), self.inv_size())
    }

    pub fn from_schedule(sched: &Schedule, album_size: usize, inv_size: usize) -> (r: ScheduleIterator)
        ensures
            r.origin() == *sched,
            r.album_size() == album_size,
            r.inv_size() == inv_size,
            r.step() == 0,
    {
        ScheduleIterator { album_size, inv_size, origin: *sched, step: 0 }
    }

    /// The next neighbor, or `None` once all have been handed out.
    pub fn next(&mut self) -> (r: Option<Schedule>)
        requires
            old(self).wf(),
        ensures
            r is Some <==> old(self).step() < old(self).count(),
            r is Some ==> is_nth_neighbor(
                old(self).origin(),
                old(self).album_size(),
                old(self).inv_size(),
                old(self).step(),
                r->0,
            ),
            final(self).origin() == old(self).origin(),
            final(self).album_size() == old(self).album_size(),
            final(self).inv_size() == old(self).inv_size(),
            final(self).step() == (if r is Some { old(self).step() + 1 } else { old(self).step() }),
    {
        let r = self.origin.nth_neighbor(self.album_size, self.inv_size, self.step);
        if r.is_some() {
            self.step = self.step + 1;
        }
        r
    }

    /// Skips `n` neighbors, then hands out the next one.
    pub fn nth(&mut self, n: usize) -> (r: Option<Schedule>)
        requires
            old(self).wf(),
            old(self).step() + n <= usize::MAX,
        ensures
            r is Some <==> old(self).step() + n < old(self).count(),
            r is Some ==> is_nth_neighbor(
                old(self).origin(),
                old(self).album_size(),
                old(self).inv_size(),
                old(self).step() + n,
                r->0,
            ),
            final(self).origin() == old(self).origin(),
            final(self).album_size() == old(self).album_size(),
            final(self).inv_size() == old(self).inv_size(),
            final(self).step() == old(self).step() + n + (if r is Some { 1int } else { 0int }),
    {
        self.step = self.step + n;
        self.next()
    }

    /// How many neighbors are still to come.
    pub fn remaining(&self) -> (r: usize)
        requires
            self.wf(),
        ensures
            r == (if self.step() < self.count() { self.count() - self.step() } else { 0 }),
    {
        let total = self.origin.neighbor_count(self.album_size, self.inv_size);
        if self.step < total {
            total - self.step
        } else {
            0
        }
    }
}

/// Nine distinct values below `pool`, drawn uniformly without replacement:
/// each draw picks the `j`-th value not drawn yet.
fn draw_distinct(rng: &mut SmallRng, pool: usize) -> (r: [usize; 9])
    requires
        9 <= pool,
    ensures
        forall|i: int| 0 <= i < 9 ==> #[trigger] r[i] < pool,
        forall|i: int, j: int| 0 <= i < 9 && 0 <= j < 9 && i != j ==> r[i] != r[j],
{
    let mut vals: [usize; 9] = [0; 9];
    let mut i: usize = 0;
    while i < 9
        invariant
            i <= 9,
            9 <= pool,
            forall|a: int| 0 <= a < i ==> #[trigger] vals[a] < pool,
            forall|a: int, b: int| 0 <= a < i && 0 <= b < i && a != b ==> vals[a] != vals[b],
        decreases 9 - i,
    {
        let j = gen_index(rng, pool - i);
        let c = kth_free_card(&vals, i, pool, j);
        proof {
            let used = card_vals(vals).take(i as int);
            assert forall|a: int| 0 <= a < used.len() implies 0 <= #[trigger] used[a] < pool by {
                assert(used[a] == vals[a] as int);
            }
            lemma_count_all(used, 0, pool as int);
            lemma_free_lower(used, 0, pool as int);
            lemma_kth_free(used, 0, pool as int, j as nat);
            assert forall|a: int| 0 <= a < i implies vals[a] != c by {
                assert(used[a] == vals[a] as int);
            }
        }
        vals.set(i, c);
        i += 1;
    }
    vals
}

impl Schedule {
    /// A uniformly random valid schedule: nine distinct album indices, and
    /// nine distinct inventory indices where the inventory has that many,
    /// the remaining slots empty and placed at random. The first group is
    /// special, its middle card the center.
    pub fn new_random(rng: &mut SmallRng, album_size: usize, inv_size: usize) -> (r: Schedule)
        requires
            album_size >= 9,
            inv_size < HANDLE_LIMIT,
        ensures
            r.wf(album_size as int, inv_size as int),
            r.sp3@ == seq![1usize, 0, 2],
            inv_size >= 9 ==> forall|i: int| 0 <= i < 9 ==> (#[trigger] r.accs[i]).index() is Some,
            acc_used(r, inv_size as int) == (if inv_size < 9 { inv_size as nat } else { 9 }),
            neighbor_count(r, album_size as int, inv_size as int) == 18 + 9 * (album_size - 9) + 9 * (
            inv_size - (if inv_size < 9 { inv_size as int } else { 9 })),
    {
        let cards = draw_distinct(rng, album_size);
        let pool = if inv_size > 9 { inv_size } else { 9 };
        let picks = draw_distinct(rng, pool);
        let e = AccHandle::empty();
        let mut accs: [AccHandle; 9] = [e; 9];
        let mut i: usize = 0;
        while i < 9
            invariant
                i <= 9,
                inv_size < HANDLE_LIMIT,
                forall|a: int| 0 <= a < 9 ==> #[trigger] picks[a] < pool,
                forall|a: int, b: int| 0 <= a < 9 && 0 <= b < 9 && a != b ==> picks[a] != picks[b],
                forall|a: int| 0 <= a < i ==> (#[trigger] accs[a]).wf(),
                forall|a: int| 0 <= a < i ==> (#[trigger] accs[a]).value() == (if picks[a] < inv_size { picks[a] as u16 } else { 0xffff }),
            decreases 9 - i,
        {
            if picks[i] < inv_size {
                accs.set(i, AccHandle::from_index(picks[i]));
            } else {
                accs.set(i, AccHandle::empty());
            }
            i += 1;
        }
        let r = Schedule { cards, sp3: [1, 0, 2], accs };
        assert(r.sp3@ =~= seq![1usize, 0, 2]);
        proof {
            let pv = card_vals(picks);
            let av = acc_vals(accs);
            let lim = inv_size as int;
            assert forall|i: int| 0 <= i < 9 implies (0 <= #[trigger] av[i] < lim) == (0 <= pv[i] < lim) by {
                assert(av[i] == accs[i].value() as int && pv[i] == picks[i] as int);
            }
            lemma_count_in_agree(av, pv, 0, lim);
            assert forall|i: int| 0 <= i < pv.len() implies 0 <= #[trigger] pv[i] < pool by {
                assert(pv[i] == picks[i] as int);
            }
            if inv_size < 9 {
                assert forall|i: int, j: int| 0 <= i < pv.len() && 0 <= j < pv.len() && i != j && 0 <= pv[i] < 9 implies pv[i] != pv[j] by {
                    assert(pv[i] == picks[i] as int && pv[j] == picks[j] as int);
                }
                lemma_count_all(pv, 0, 9);
                lemma_free_exact(pv, 0, 9);
                lemma_free_split(pv, 0, lim, 9);
                assert forall|i: int, j: int| 0 <= i < pv.len() && 0 <= j < pv.len() && i != j && 0 <= pv[i] < lim implies pv[i] != pv[j] by {
                    assert(pv[i] == picks[i] as int && pv[j] == picks[j] as int);
                }
                lemma_free_exact(pv, 0, lim);
            } else {
                lemma_count_all(pv, 0, lim);
            }
        }
        r
    }

    /// A neighbor drawn uniformly: a random position in the enumeration.
    pub fn random_neighbor(&self, rng: &mut SmallRng, album_size: usize, inv_size: usize) -> (r: Schedule)
        requires
            album_size >= 9,
            inv_size < HANDLE_LIMIT,
            neighbor_count(*self, album_size as int, inv_size as int) <= usize::MAX,
        ensures
            exists|k: int|
                0 <= k < neighbor_count(*self, album_size as int, inv_size as int)
                    && is_nth_neighbor(*self, album_size as int, inv_size as int, k, r),
    {
        let n = self.neighbor_count(album_size, inv_size);
        let k = gen_index(rng, n);
        match self.nth_neighbor(album_size, inv_size, k) {
            Some(t) => t,
            None => {
                assert(false);
                *self
            },
        }
    }
}

impl Default for ScheduleIterator {
    /// The neighbors of the first nine cards and accessories, over an album
    /// of 50 and an inventory of 20.
    fn default() -> (r: ScheduleIterator)
        ensures
            r.album_size() == 50,
            r.inv_size() == 20,
            r.step() == 0,
            forall|i: int| 0 <= i < 9 ==> r.origin().cards[i] == i,
            forall|i: int| 0 <= i < 9 ==> (#[trigger] r.origin().accs[i]).value() == i,
    {
        ScheduleIterator { album_size: 50, inv_size: 20, origin: Schedule::default(), step: 0 }
    }
}

} // verus!
