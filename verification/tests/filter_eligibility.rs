use nimbus_consensus::filter::{eligible_subset, is_eligible, num_eligible, RandomnessSource};

/// Reference randomness stub: the first byte of the sample for draw `i` is
/// `i` itself (the subject's seventh byte carries the low byte of the draw
/// index).
struct IndexEcho;

impl RandomnessSource for IndexEcho {
    // Ghost member; erased and never called at run time.
    fn spec_random(&self, _subject: vstd::seq::Seq<u8>) -> vstd::seq::Seq<u8> {
        panic!()
    }

    fn random(&self, subject: &Vec<u8>) -> Vec<u8> {
        let mut out = vec![0u8; 32];
        out[0] = subject[6];
        out
    }
}

/// Randomness stub whose samples all start with the same byte.
struct ConstByte(u8);

impl RandomnessSource for ConstByte {
    // Ghost member; erased and never called at run time.
    fn spec_random(&self, _subject: vstd::seq::Seq<u8>) -> vstd::seq::Seq<u8> {
        panic!()
    }

    fn random(&self, _subject: &Vec<u8>) -> Vec<u8> {
        let mut out = vec![0u8; 32];
        out[0] = self.0;
        out
    }
}

#[test]
fn reference_scenario_half_ratio() {
    // candidates A, B, C, D with ratio 50% and rotation key 10; the stub
    // returns first byte 0x00 for draw 0 and 0x01 for draw 1:
    // draw 0 removes index 0 % 4 = 0 (A); draw 1 removes index 1 % 3 = 1
    // from the remaining B, C, D, which is C.
    let candidates = vec![0xA, 0xB, 0xC, 0xD];
    let eligible = eligible_subset(&candidates, 50, 10, &IndexEcho);
    assert_eq!(eligible, vec![0xA, 0xC]);

    assert!(is_eligible(0xA, &candidates, 50, 10, &IndexEcho));
    assert!(!is_eligible(0xB, &candidates, 50, 10, &IndexEcho));
    assert!(is_eligible(0xC, &candidates, 50, 10, &IndexEcho));
    assert!(!is_eligible(0xD, &candidates, 50, 10, &IndexEcho));
}

#[test]
fn subset_size_is_ceiling_of_ratio() {
    assert_eq!(num_eligible(33, 7), 3); // ceil(2.31)
    assert_eq!(num_eligible(1, 1), 1); // ceil(0.01)
    assert_eq!(num_eligible(50, 5), 3); // ceil(2.5)
    assert_eq!(num_eligible(100, 5), 5);
    assert_eq!(num_eligible(0, 9), 0);
    assert_eq!(num_eligible(99, 100), 99);
    assert_eq!(num_eligible(7, 0), 0);

    let candidates: Vec<u64> = (0..7).collect();
    assert_eq!(eligible_subset(&candidates, 33, 3, &IndexEcho).len(), 3);
}

#[test]
fn zero_ratio_selects_nobody() {
    let candidates = vec![1, 2, 3, 4, 5];
    assert_eq!(eligible_subset(&candidates, 0, 0, &IndexEcho), Vec::<u64>::new());
    assert_eq!(eligible_subset(&candidates, 0, 77, &ConstByte(0xFF)), Vec::<u64>::new());
    assert!(!is_eligible(3, &candidates, 0, 77, &IndexEcho));
}

#[test]
fn full_ratio_selects_everyone() {
    let candidates = vec![20, 10, 40, 30];
    let mut eligible = eligible_subset(&candidates, 100, 5, &ConstByte(0xFF));
    eligible.sort();
    assert_eq!(eligible, vec![10, 20, 30, 40]);
    for account in [10, 20, 30, 40] {
        assert!(is_eligible(account, &candidates, 100, 5, &ConstByte(0xFF)));
    }
}

#[test]
fn constant_draws_walk_the_set_by_modulo() {
    // First byte always 255: draw 0 takes index 255 % 4 = 3; draw 1 takes
    // 255 % 3 = 0 of the remainder; draw 2 takes 255 % 2 = 1; draw 3 takes
    // the last one.
    let candidates = vec![1, 2, 3, 4];
    let eligible = eligible_subset(&candidates, 100, 0, &ConstByte(255));
    assert_eq!(eligible, vec![4, 1, 3, 2]);
}

#[test]
fn selection_is_deterministic() {
    let candidates = vec![9, 8, 7, 6, 5, 4, 3];
    let once = eligible_subset(&candidates, 60, 123, &IndexEcho);
    let twice = eligible_subset(&candidates, 60, 123, &IndexEcho);
    assert_eq!(once, twice);
}

#[test]
fn duplicate_candidates_are_positional_slots() {
    let candidates = vec![5, 5, 5];
    let eligible = eligible_subset(&candidates, 100, 1, &IndexEcho);
    assert_eq!(eligible, vec![5, 5, 5]);
    assert!(is_eligible(5, &candidates, 34, 1, &IndexEcho));
}

#[test]
fn empty_candidate_set_yields_empty_subset() {
    let candidates: Vec<u64> = vec![];
    assert_eq!(eligible_subset(&candidates, 100, 0, &IndexEcho), Vec::<u64>::new());
    assert!(!is_eligible(1, &candidates, 100, 0, &IndexEcho));
}

#[test]
fn rotation_key_low_byte_reaches_the_subject() {
    // A source keyed on the subject's final byte (the rotation key's low
    // byte) must see it change across rotations.
    struct KeyEcho;

    impl RandomnessSource for KeyEcho {
        // Ghost member; erased and never called at run time.
        fn spec_random(&self, _subject: vstd::seq::Seq<u8>) -> vstd::seq::Seq<u8> {
            panic!()
        }

        fn random(&self, subject: &Vec<u8>) -> Vec<u8> {
            let mut out = vec![0u8; 32];
            out[0] = subject[7];
            out
        }
    }

    let candidates = vec![1, 2, 3];
    // Key 0: every draw addresses index 0: 1, then 2, then 3.
    assert_eq!(eligible_subset(&candidates, 100, 0, &KeyEcho), vec![1, 2, 3]);
    // Key 1: draws address 1 % 3, 1 % 2, 0: 2, then 3, then 1.
    assert_eq!(eligible_subset(&candidates, 100, 1, &KeyEcho), vec![2, 3, 1]);
    // Keys 256 and 0 share a low byte, so they rotate identically.
    assert_eq!(
        eligible_subset(&candidates, 100, 256, &KeyEcho),
        eligible_subset(&candidates, 100, 0, &KeyEcho)
    );
}
