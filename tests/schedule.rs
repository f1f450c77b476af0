use idolsched::acc_handle::AccHandle;
use idolsched::schedule::{Schedule, ScheduleIterator};
use rand::rngs::SmallRng;
use rand::SeedableRng;

fn team(inv_size: usize) -> Schedule {
    let mut accs = [AccHandle::empty(); 9];
    for i in 0..9 {
        if i < inv_size {
            accs[i] = AccHandle::from_index(i);
        }
    }
    Schedule { cards: [0, 1, 2, 3, 4, 5, 6, 7, 8], sp3: [1, 0, 2], accs }
}

fn is_valid(s: &Schedule, album_size: usize, inv_size: usize) -> bool {
    for i in 0..9 {
        if s.cards[i] >= album_size {
            return false;
        }
        for j in 0..9 {
            if i != j && s.cards[i] == s.cards[j] {
                return false;
            }
            if i != j {
                if let (Some(a), Some(b)) = (s.accs[i].to_index(), s.accs[j].to_index()) {
                    if a == b {
                        return false;
                    }
                }
            }
        }
        if let Some(a) = s.accs[i].to_index() {
            if a >= inv_size {
                return false;
            }
        }
    }
    true
}

fn walk(s: &Schedule, album_size: usize, inv_size: usize) -> Vec<Schedule> {
    let mut it = ScheduleIterator::from_schedule(s, album_size, inv_size);
    let mut out = Vec::new();
    while let Some(t) = it.next() {
        out.push(t);
    }
    out
}

#[test]
fn neighbor_count_matches_iteration() {
    for &album_size in &[9usize, 10, 50] {
        for &inv_size in &[0usize, 9, 20] {
            let s = team(inv_size);
            let used = if inv_size < 9 { inv_size } else { 9 };
            let closed = 18 + 9 * (album_size - 9) + 9 * (inv_size - used);
            assert_eq!(s.neighbor_count(album_size, inv_size), closed);
            assert_eq!(walk(&s, album_size, inv_size).len(), closed);
        }
    }
}

#[test]
fn successors_keep_indices_unique() {
    for &album_size in &[9usize, 10, 50] {
        for &inv_size in &[0usize, 9, 20] {
            let s = team(inv_size);
            for t in walk(&s, album_size, inv_size) {
                assert!(is_valid(&t, album_size, inv_size));
                assert_eq!(t.sp3, s.sp3);
            }
        }
    }
}

#[test]
fn successors_are_distinct_single_moves() {
    let s = team(20);
    let all = walk(&s, 12, 11);
    for (i, a) in all.iter().enumerate() {
        for b in all.iter().skip(i + 1) {
            assert_ne!(a, b);
        }
        let card_changes = (0..9).filter(|&k| a.cards[k] != s.cards[k]).count();
        let acc_changes = (0..9).filter(|&k| a.accs[k] != s.accs[k]).count();
        assert!((card_changes == 2 && acc_changes == 0) || (card_changes + acc_changes == 1));
    }
}

#[test]
fn first_neighbors_are_group_swaps() {
    let s = team(9);
    let all = walk(&s, 9, 9);
    assert_eq!(all.len(), 18);
    assert_eq!(all[0].cards, [3, 1, 2, 0, 4, 5, 6, 7, 8]);
    assert_eq!(all[5].cards, [8, 1, 2, 3, 4, 5, 6, 7, 0]);
    assert_eq!(all[17].cards, [0, 1, 8, 3, 4, 5, 6, 7, 2]);
}

#[test]
fn card_replacements_in_index_order() {
    let s = Schedule { cards: [0, 2, 4, 6, 8, 10, 12, 14, 16], ..team(9) };
    let all = walk(&s, 20, 9);
    assert_eq!(all.len(), 18 + 9 * 11);
    assert_eq!(all[18].cards[0], 1);
    assert_eq!(all[19].cards[0], 3);
    assert_eq!(all[18 + 10].cards[0], 19);
    assert_eq!(all[18 + 11].cards[1], 1);
}

#[test]
fn accessory_replacements_fill_empty_slots() {
    let s = team(3);
    let all = walk(&s, 9, 5);
    assert_eq!(all.len(), 18 + 9 * 2);
    assert_eq!(all[18].accs[0].to_index(), Some(3));
    assert_eq!(all[19].accs[0].to_index(), Some(4));
    assert_eq!(all[18 + 2 * 8].accs[8].to_index(), Some(3));
}

#[test]
fn nth_skips_ahead() {
    let s = team(9);
    let mut it = ScheduleIterator::from_schedule(&s, 10, 9);
    let total = it.remaining();
    assert_eq!(total, 18 + 9);
    let t = it.nth(18).unwrap();
    assert_eq!(t.cards[0], 9);
    assert_eq!(it.remaining(), 8);
    assert!(it.nth(8).is_none());
}

#[test]
fn new_random_reproducible() {
    let mut a = SmallRng::seed_from_u64(0x5eed);
    let mut b = SmallRng::seed_from_u64(0x5eed);
    for _ in 0..20 {
        let x = Schedule::new_random(&mut a, 30, 15);
        let y = Schedule::new_random(&mut b, 30, 15);
        assert_eq!(x, y);
    }
}

#[test]
fn new_random_is_valid() {
    let mut rng = SmallRng::seed_from_u64(7);
    for &(album_size, inv_size) in &[(9usize, 0usize), (9, 9), (10, 3), (50, 20)] {
        for _ in 0..50 {
            let s = Schedule::new_random(&mut rng, album_size, inv_size);
            assert!(is_valid(&s, album_size, inv_size));
            assert_eq!(s.sp3, [1, 0, 2]);
            let filled = s.accs.iter().filter(|h| !h.is_empty()).count();
            assert_eq!(filled, if inv_size < 9 { inv_size } else { 9 });
        }
    }
}

#[test]
fn new_random_uses_the_whole_album() {
    let mut rng = SmallRng::seed_from_u64(11);
    let mut seen = [false; 12];
    for _ in 0..200 {
        let s = Schedule::new_random(&mut rng, 12, 9);
        for &c in s.cards.iter() {
            seen[c] = true;
        }
    }
    assert!(seen.iter().all(|&b| b));
}

#[test]
fn random_neighbor_is_a_neighbor() {
    let mut rng = SmallRng::seed_from_u64(3);
    let s = team(9);
    let all = walk(&s, 15, 12);
    for _ in 0..100 {
        let t = s.random_neighbor(&mut rng, 15, 12);
        assert!(all.contains(&t));
    }
}

#[test]
fn default_schedule() {
    let s = Schedule::default();
    assert_eq!(s.cards, [0, 1, 2, 3, 4, 5, 6, 7, 8]);
    assert_eq!(s.sp3, [0, 1, 2]);
    assert_eq!(s.accs[4].to_index(), Some(4));
}

#[test]
fn acc_handles() {
    let e = AccHandle::empty();
    assert!(e.is_empty());
    assert_eq!(e.to_index(), None);
    let h = AccHandle::from_index(5);
    assert!(!h.is_empty());
    assert_eq!(h.to_index(), Some(5));
    assert_eq!(AccHandle::from_u16(0x8000), e);
    assert_eq!(AccHandle::from_u16(0x7fff).to_index(), Some(0x7fff));
    assert_eq!(AccHandle::from_i16(-1), e);
    assert_eq!(AccHandle::from_i16(12).to_index(), Some(12));
    assert_eq!(h.next_max(10).unwrap().to_index(), Some(6));
    assert!(AccHandle::from_index(9).next_max(10).is_none());
    assert_eq!(e.next_max(3).unwrap().to_index(), Some(0));
    assert!(AccHandle::from_index(0x7fff).next_max(0xffff).is_none());
}

#[test]
fn handle_text() {
    assert_eq!(AccHandle::from_index(42).to_text(), "42");
    assert_eq!(AccHandle::from_index(0).to_text(), "0");
    assert_eq!(AccHandle::empty().to_text(), "--");
}

#[test]
fn default_iterator() {
    let mut it = ScheduleIterator::default();
    assert_eq!(it.remaining(), 18 + 9 * 41 + 9 * 11);
    assert_eq!(it.next().unwrap().cards, [3, 1, 2, 0, 4, 5, 6, 7, 8]);
}
