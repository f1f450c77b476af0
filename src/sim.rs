//! The decisions of a simulation run that need no arithmetic on voltage:
//! which slot plays a note, which notes a timed buff covers, which slots a
//! skill reaches.
use vstd::prelude::*;
use crate::glob::{PlayGlob, StatPlan};
use crate::schedule::{Schedule, ScheduleIterator};
use crate::skill::Duration;

verus! {

/// The note after which the combo multiplier stops growing.
pub const COMBO_RAMP_NOTES: usize = 150;

/// Scratch state that an evaluation may reuse; `refresh` makes it as good
/// as new.
pub trait ReusableBuffer: Sized {
    fn create() -> Self;

    fn refresh(&mut self);
}

/// The slot that plays note `note_pos` while group `strat` is on stage: the
/// group's three members take turns.
pub fn active_slot(strat: usize, note_pos: usize) -> (r: usize)
    requires
        strat < 3,
    ensures
        r == strat * 3 + note_pos % 3,
        r / 3 == strat,
        r < 9,
{
    strat * 3 + note_pos % 3
}

/// The notes `[start, end)` that a buff cast at `note_pos` covers: to the
/// song's end when permanent, the next `n` notes (within the song) for
/// `Turn(n)`, and none for the kinds that take effect once or are not
/// modelled.
pub fn buff_window(dur: Duration, note_pos: usize, note_cnt: usize) -> (r: (usize, usize))
    requires
        note_pos <= note_cnt,
    ensures
        r.0 == note_pos,
        r.1 == (match dur {
            Duration::Permanent => note_cnt as int,
            Duration::Turn(n) => if note_pos + n < note_cnt { note_pos + n } else { note_cnt as int },
            _ => note_pos as int,
        }),
{
    match dur {
        Duration::Permanent => (note_pos, note_cnt),
        Duration::Turn(n) => {
            if (n as usize) < note_cnt - note_pos {
                (note_pos, note_pos + n as usize)
            } else {
                (note_pos, note_cnt)
            }
        },
        _ => (note_pos, note_pos),
    }
}

/// How many notes of the combo ramp have passed at `note_pos`.
pub fn combo_steps(note_pos: usize) -> (r: usize)
    ensures
        r == (if note_pos < COMBO_RAMP_NOTES { note_pos } else { COMBO_RAMP_NOTES }),
{
    if note_pos < COMBO_RAMP_NOTES {
        note_pos
    } else {
        COMBO_RAMP_NOTES
    }
}

/// The slots whose predicates meet the skill's target mask.
pub fn targeted_slots(plan: &StatPlan, target_mask: u64) -> (r: [bool; 9])
    requires
        plan.slots.len() == 9,
    ensures
        forall|i: int| 0 <= i < 9 ==> r[i] == (#[trigger] plan.slots[i].skill_mask & target_mask != 0),
{
    let mut r = [false; 9];
    let mut i: usize = 0;
    while i < 9
        invariant
            i <= 9,
            plan.slots.len() == 9,
            forall|j: int| 0 <= j < i ==> r[j] == (#[trigger] plan.slots[j].skill_mask & target_mask != 0),
        decreases 9 - i,
    {
        r.set(i, plan.slots[i].skill_mask & target_mask != 0);
        i += 1;
    }
    r
}

impl Schedule {
    /// The neighbors of this schedule over the glob's album and inventory.
    pub fn successors(&self, glob: &PlayGlob) -> (r: ScheduleIterator)
        ensures
            r.origin() == *self,
            r.album_size() == glob.album.len(),
            r.inv_size() == glob.inventory.len(),
            r.step() == 0,
    {
        ScheduleIterator::from_schedule(self, glob.album.len(), glob.inventory.len())
    }
}

} // verus!
