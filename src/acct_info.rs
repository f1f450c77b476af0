use vstd::prelude::*;
use std::collections::BTreeMap;
use crate::basic_data::{Attribute, Idol, Rarity};

verus! {

#[derive(Debug, Copy, Clone, PartialEq, Eq, Structural, Hash)]
pub struct BondInfo {
    pub bond_lv: u32,
    pub board_appeal: u32,
    pub board_stamina: u32,
    pub board_technique: u32,
}

impl Default for BondInfo {
    fn default() -> (r: BondInfo)
        ensures
            r == (BondInfo { bond_lv: 1, board_appeal: 0, board_stamina: 0, board_technique: 0 }),
    {
        BondInfo { bond_lv: 1, board_appeal: 0, board_stamina: 0, board_technique: 0 }
    }
}

/// A card the account owns: its limit break and whether it is idolized.
#[derive(Debug, Copy, Clone, PartialEq, Eq, Structural, Hash)]
pub struct CardInfo {
    pub lb: u8,
    pub idolized: bool,
}

#[derive(Debug, Copy, Clone, PartialEq, Eq, Structural, Hash)]
pub enum AccKind {
    Empty,
    Brooch,
    Keychain,
    Bracelet,
    Hairpin,
    Necklace,
    Earring,
    Pouch,
    Ribbon,
    Wristband,
    Towel,
    Bangle,
    Choker,
    Belt,
}

#[derive(Debug, Copy, Clone, PartialEq, Eq, Structural, Hash)]
pub struct AccInfo {
    pub attribute: Attribute,
    pub kind: AccKind,
    pub rarity: Rarity,
    pub lb: u8,
    pub lv: u8,
    pub sl: u8,
}

/// What an account holds: bonds per member, cards by ordinal, accessories.
#[derive(Debug, Clone)]
pub struct AcctInfo {
    pub bond: BTreeMap<Idol, BondInfo>,
    pub album: BTreeMap<u32, CardInfo>,
    pub accs: Vec<AccInfo>,
}

/// The stand-in accessory that pads a short inventory.
pub open spec fn filler_acc() -> AccInfo {
    AccInfo { attribute: Attribute::Neutral, kind: AccKind::Empty, rarity: Rarity::R, lb: 0, lv: 1, sl: 1 }
}

/// The ordinals of the first R card of each of 27 members, which every
/// account can be assumed to hold.
pub open spec fn r1_ordinals() -> Seq<u32> {
    seq![
        1u32, 5, 9, 13, 17, 21, 25, 29, 33,
        37, 41, 45, 49, 53, 57, 61, 65, 69,
        73, 76, 79, 82, 85, 88, 91, 94, 97,
    ]
}

fn r1_ordinal(i: usize) -> (r: u32)
    requires
        i < 27,
    ensures
        r == r1_ordinals()[i as int],
{
    let table: [u32; 27] = [
        1, 5, 9, 13, 17, 21, 25, 29, 33,
        37, 41, 45, 49, 53, 57, 61, 65, 69,
        73, 76, 79, 82, 85, 88, 91, 94, 97,
    ];
    proof {
        assert(table@ =~= r1_ordinals());
    }
    table[i]
}

impl AcctInfo {
    /// Makes the account usable by the search: an album under nine cards
    /// gets the basic R cards it lacks, unidolized and not limit broken;
    /// an inventory under nine accessories is padded with filler.
    pub fn force_valid(&mut self)
        ensures
            final(self).bond@ == old(self).bond@,
            old(self).album@.len() >= 9 ==> final(self).album@ == old(self).album@,
            old(self).album@.len() < 9 ==> forall|k: u32|
                #[trigger] final(self).album@.contains_key(k) <==> (old(self).album@.contains_key(k)
                    || r1_ordinals().contains(k)),
            old(self).album@.len() < 9 ==> forall|k: u32|
                #[trigger] final(self).album@.contains_key(k) ==> final(self).album@[k] == (
                if old(self).album@.contains_key(k) {
                    old(self).album@[k]
                } else {
                    CardInfo { lb: 0, idolized: false }
                }),
            final(self).accs@ == old(self).accs@ + Seq::new(
                (if old(self).accs.len() < 9 { 9 - old(self).accs.len() } else { 0 }) as nat,
                |i: int| filler_acc(),
            ),
    {
        if self.album.len() < 9 {
            self.add_r1s();
        }
        self.pad_accs();
    }

    fn add_r1s(&mut self)
        ensures
            final(self).bond@ == old(self).bond@,
            final(self).accs@ == old(self).accs@,
            forall|k: u32|
                #[trigger] final(self).album@.contains_key(k) <==> (old(self).album@.contains_key(k)
                    || r1_ordinals().contains(k)),
            forall|k: u32|
                #[trigger] final(self).album@.contains_key(k) ==> final(self).album@[k] == (
                if old(self).album@.contains_key(k) {
                    old(self).album@[k]
                } else {
                    CardInfo { lb: 0, idolized: false }
                }),
    {
        let ghost orig = self.album@;
        let mut i: usize = 0;
        while i < 27
            invariant
                i <= 27,
                self.bond@ == old(self).bond@,
                self.accs@ == old(self).accs@,
                orig == old(self).album@,
                forall|k: u32|
                    #[trigger] self.album@.contains_key(k) <==> (orig.contains_key(k)
                        || r1_ordinals().take(i as int).contains(k)),
                forall|k: u32|
                    #[trigger] self.album@.contains_key(k) ==> self.album@[k] == (
                    if orig.contains_key(k) {
                        orig[k]
                    } else {
                        CardInfo { lb: 0, idolized: false }
                    }),
            decreases 27 - i,
        {
            let ordinal = r1_ordinal(i);
            if !self.album.contains_key(&ordinal) {
                self.album.insert(ordinal, CardInfo { lb: 0, idolized: false });
            }
            proof {
                let prev = r1_ordinals().take(i as int);
                let next = r1_ordinals().take(i as int + 1);
                assert(next =~= prev.push(ordinal));
                assert forall|k: u32| next.contains(k) <==> (prev.contains(k) || k == ordinal) by {
                    if next.contains(k) {
                        let j = choose|j: int| 0 <= j < next.len() && next[j] == k;
                        if j < prev.len() {
                            assert(prev[j] == k);
                        }
                    }
                    if prev.contains(k) {
                        let j = choose|j: int| 0 <= j < prev.len() && prev[j] == k;
                        assert(next[j] == k);
                    }
                    if k == ordinal {
                        assert(next[i as int] == k);
                    }
                }
            }
            i += 1;
        }
        assert(r1_ordinals().take(27) =~= r1_ordinals());
    }

    fn pad_accs(&mut self)
        ensures
            final(self).bond@ == old(self).bond@,
            final(self).album@ == old(self).album@,
            final(self).accs@ == old(self).accs@ + Seq::new(
                (if old(self).accs.len() < 9 { 9 - old(self).accs.len() } else { 0 }) as nat,
                |i: int| filler_acc(),
            ),
    {
        let needed: usize = if self.accs.len() < 9 { 9 - self.accs.len() } else { 0 };
        let mut i: usize = 0;
        while i < needed
            invariant
                i <= needed,
                needed == (if old(self).accs.len() < 9 { 9 - old(self).accs.len() } else { 0 }),
                self.bond@ == old(self).bond@,
                self.album@ == old(self).album@,
                self.accs@ == old(self).accs@ + Seq::new(i as nat, |j: int| filler_acc()),
            decreases needed - i,
        {
            let filler = AccInfo {
                attribute: Attribute::Neutral,
                kind: AccKind::Empty,
                rarity: Rarity::R,
                lb: 0,
                lv: 1,
                sl: 1,
            };
            self.accs.push(filler);
            assert(old(self).accs@ + Seq::new((i + 1) as nat, |j: int| filler_acc()) =~= (old(self).accs@
                + Seq::new(i as nat, |j: int| filler_acc())).push(filler));
            i += 1;
        }
    }
}

} // verus!
