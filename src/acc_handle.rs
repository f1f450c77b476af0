use vstd::prelude::*;
use vstd::string::StringExecFns;
use crate::cards_api::{decimal, push_decimal};

verus! {

/// The largest value that still names an accessory; everything at or above
/// `0x8000` is the "no accessory" range.
pub const HANDLE_LIMIT: u16 = 0x8000;

/// An accessory slot's content: either empty, or a 15-bit index into the
/// inventory. Every handle in the empty range compares equal to `empty()`,
/// because constructors only ever store `0xffff` there.
#[derive(Debug, Copy, Clone, PartialEq, Eq, Structural, PartialOrd, Ord, Hash)]
pub struct AccHandle {
    v: u16,
}

impl AccHandle {
    /// The raw 16-bit value.
    pub closed spec fn value(self) -> u16 {
        self.v
    }

    /// The inventory index that the handle names, if any.
    pub open spec fn index(self) -> Option<nat> {
        if self.value() < HANDLE_LIMIT {
            Some(self.value() as nat)
        } else {
            None
        }
    }

    /// A handle is well formed when it is an index or exactly the sentinel.
    pub open spec fn wf(self) -> bool {
        self.value() < HANDLE_LIMIT || self.value() == 0xffff
    }

    /// The handle that stands for "no accessory in this slot".
    pub fn empty() -> (r: AccHandle)
        ensures
            r.value() == 0xffff,
            r.index() is None,
            r.wf(),
    {
        AccHandle { v: 0xffff }
    }

    /// The handle of inventory index `i`.
    pub fn from_index(i: usize) -> (r: AccHandle)
        requires
            i < HANDLE_LIMIT,
        ensures
            r.value() == i,
            r == AccHandle::spec_raw(i as u16),
            r.index() == Some(i as nat),
            r.wf(),
    {
        AccHandle { v: i as u16 }
    }

    pub fn is_empty(self) -> (r: bool)
        ensures
            r == (self.index() is None),
    {
        self.v >= HANDLE_LIMIT
    }

    pub fn to_index(self) -> (r: Option<usize>)
        ensures
            r is Some <==> self.index() is Some,
            r is Some ==> r->0 as nat == self.index()->0,
    {
        if self.v < HANDLE_LIMIT {
            Some(self.v as usize)
        } else {
            None
        }
    }

    /// The handle after this one, when it is still an index below `max`.
    /// The sentinel wraps round to index 0.
    pub fn next_max(self, max: u16) -> (r: Option<AccHandle>)
        ensures
            ({
                let n = if self.value() == 0xffff { 0 } else { self.value() + 1 };
                if n < HANDLE_LIMIT && n < max {
                    r == Some(AccHandle::spec_raw(n as u16))
                } else {
                    r is None
                }
            }),
    {
        let v = self.v.wrapping_add(1);
        if v < HANDLE_LIMIT && v < max {
            Some(AccHandle { v })
        } else {
            None
        }
    }

    pub closed spec fn spec_raw(v: u16) -> AccHandle {
        AccHandle { v }
    }

    pub proof fn lemma_spec_raw(v: u16)
        ensures
            AccHandle::spec_raw(v).value() == v,
    {
    }

    /// Converts a raw value: below `0x8000` it is an index, else the sentinel.
    pub fn from_u16(v: u16) -> (r: AccHandle)
        ensures
            r.value() == (if v < HANDLE_LIMIT { v } else { 0xffff }),
            r.wf(),
    {
        if v < HANDLE_LIMIT {
            AccHandle { v }
        } else {
            AccHandle { v: 0xffff }
        }
    }

    /// Converts a signed value: a non-negative one is an index, a negative
    /// one the sentinel.
    pub fn from_i16(v: i16) -> (r: AccHandle)
        ensures
            r.value() == (if v >= 0 { v as u16 } else { 0xffff }),
            r.wf(),
    {
        if v >= 0 {
            AccHandle { v: v as u16 }
        } else {
            AccHandle { v: 0xffff }
        }
    }

    /// The handle as text: its index in decimal, or `--` when empty.
    pub fn to_text(self) -> (r: String)
        ensures
            r@ == (match self.index() {
                Some(i) => decimal(i),
                None => seq!['-', '-'],
            }),
    {
        let mut s = String::new();
        proof {
            reveal_strlit("--");
        }
        if self.v < HANDLE_LIMIT {
            push_decimal(&mut s, self.v as u32);
        } else {
            s.append("--");
        }
        s
    }
}

} // verus!
