use atomic_swap::text::str_eq;
use atomic_swap::timing::{_is_started, is_timed_out};
use atomic_swap::uint::{U512ToU256, U256, U512};

#[test]
fn zero_is_zero() {
    assert!(U512::zero().is_zero());
    assert_eq!(U512::zero(), U512 { limbs: [0; 8] });
    assert_eq!(U256::zero(), U256 { limbs: [0; 4] });
    assert_eq!(U512::from_u64(0), U512::zero());
}

#[test]
fn a_number_with_any_limb_set_is_not_zero() {
    assert!(!U512::from_u64(1).is_zero());
    for i in 0..8 {
        let mut limbs = [0u64; 8];
        limbs[i] = 1;
        assert!(!U512 { limbs }.is_zero());
    }
}

#[test]
fn from_u64_fills_the_lowest_limb() {
    assert_eq!(U512::from_u64(7).limbs, [7, 0, 0, 0, 0, 0, 0, 0]);
    assert_eq!(U512::from_u64(u64::MAX).limbs, [u64::MAX, 0, 0, 0, 0, 0, 0, 0]);
    assert_eq!(U256::from_u64(7).limbs, [7, 0, 0, 0]);
}

#[test]
fn narrowing_keeps_the_low_four_limbs() {
    let wide = U512 { limbs: [1, 2, 3, 4, 5, 6, 7, 8] };
    assert_eq!(wide.to_u256(), U256 { limbs: [1, 2, 3, 4] });
    let small = U512 { limbs: [9, 8, 7, 6, 0, 0, 0, 0] };
    assert_eq!(small.to_u256().to_u512(), small);
}

#[test]
fn widening_keeps_the_number() {
    let narrow = U256 { limbs: [u64::MAX, 1, 0, 5] };
    assert_eq!(narrow.to_u512(), U512 { limbs: [u64::MAX, 1, 0, 5, 0, 0, 0, 0] });
    assert_eq!(narrow.to_u512().to_u256(), narrow);
}

#[test]
fn timed_out_only_after_the_end_time() {
    assert!(!is_timed_out(99, 100));
    assert!(!is_timed_out(100, 100));
    assert!(is_timed_out(101, 100));
    assert!(!is_timed_out(0, 0));
    assert!(is_timed_out(u64::MAX, u64::MAX - 1));
    assert!(!is_timed_out(u64::MAX, u64::MAX));
}

#[test]
fn started_only_after_the_start_time() {
    assert!(!_is_started(4, 5));
    assert!(!_is_started(5, 5));
    assert!(_is_started(6, 5));
}

#[test]
fn strings_compare_by_their_characters() {
    assert!(str_eq("", ""));
    assert!(str_eq("abc", "abc"));
    assert!(!str_eq("abc", "abd"));
    assert!(!str_eq("abc", "ab"));
    assert!(!str_eq("ab", "abc"));
    assert!(str_eq("grüße", "grüße"));
    assert!(!str_eq("grüße", "grusse"));
}
