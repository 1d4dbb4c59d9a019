use rand::rngs::StdRng;
use rand::SeedableRng;
use surprise_me::{CharSurprise, NumberSurprise, RangeSurprise, StringSurprise, UnitSurprise};

fn alphanumeric(c: char) -> bool {
    c.is_ascii_alphanumeric()
}

#[test]
fn number_defaults_span_the_type() {
    assert_eq!(NumberSurprise::<u8>::default(), NumberSurprise { min: 0, max: 255 });
    assert_eq!(NumberSurprise::<i8>::default(), NumberSurprise { min: -128, max: 127 });
    assert_eq!(NumberSurprise::<i32>::default(), NumberSurprise { min: i32::MIN, max: i32::MAX });
    assert_eq!(NumberSurprise::<u128>::default(), NumberSurprise { min: 0, max: u128::MAX });
    assert_eq!(NumberSurprise::<isize>::default(), NumberSurprise { min: isize::MIN, max: isize::MAX });
}

#[test]
fn numbers_stay_within_bounds() {
    let mut rng = StdRng::seed_from_u64(1);
    let f = NumberSurprise::<i64> { min: -3, max: 4 };
    for _ in 0..200 {
        let x = f.sample(&mut rng);
        assert!((-3..=4).contains(&x));
    }
    let single = NumberSurprise::<u16> { min: 9, max: 9 };
    assert_eq!(single.sample(&mut rng), 9);
}

#[test]
fn char_default_is_ascii() {
    assert_eq!(CharSurprise::default(), CharSurprise::Ascii);
    let mut rng = StdRng::seed_from_u64(2);
    for _ in 0..200 {
        assert!(alphanumeric(CharSurprise::Ascii.sample(&mut rng)));
    }
    let _ = CharSurprise::Unicode.sample(&mut rng);
}

#[test]
fn string_default_and_sampling() {
    let f = StringSurprise::default();
    assert_eq!(f, StringSurprise { min_len: 0, max_len: 100, chars: CharSurprise::Ascii });
    let mut rng = StdRng::seed_from_u64(3);
    for _ in 0..50 {
        let s = f.sample(&mut rng);
        assert!(s.chars().count() <= 100);
        assert!(s.chars().all(alphanumeric));
    }
}

#[test]
fn string_length_override_keeps_siblings() {
    let mut f = StringSurprise::default();
    f.max_len = 10;
    assert_eq!(f, StringSurprise { min_len: 0, max_len: 10, chars: CharSurprise::Ascii });
    let mut rng = StdRng::seed_from_u64(4);
    for _ in 0..100 {
        let n = f.len(&mut rng);
        assert!(n <= 10);
        assert!(f.sample(&mut rng).chars().count() <= 10);
    }
}

#[test]
fn string_of_fixed_length() {
    let f = StringSurprise { min_len: 7, max_len: 7, chars: CharSurprise::Unicode };
    let mut rng = StdRng::seed_from_u64(5);
    assert_eq!(f.sample(&mut rng).chars().count(), 7);
}

#[test]
fn range_bounds_come_from_their_factors() {
    let f = RangeSurprise::<u32> {
        start: NumberSurprise { min: 0, max: 5 },
        end: NumberSurprise { min: 10, max: 12 },
    };
    let mut rng = StdRng::seed_from_u64(6);
    for _ in 0..100 {
        let r = f.sample(&mut rng);
        assert!(r.start <= 5);
        assert!((10..=12).contains(&r.end));
    }
}

#[test]
fn unit_factor_default() {
    assert_eq!(UnitSurprise::default(), UnitSurprise);
}

#[test]
fn same_seed_same_values() {
    let f = StringSurprise { min_len: 3, max_len: 40, chars: CharSurprise::Unicode };
    let n = NumberSurprise::<i32>::default();
    let mut a = StdRng::seed_from_u64(42);
    let mut b = StdRng::seed_from_u64(42);
    for _ in 0..20 {
        assert_eq!(f.sample(&mut a), f.sample(&mut b));
        assert_eq!(n.sample(&mut a), n.sample(&mut b));
    }
}

/// A self-referential value whose factor is written by hand.
struct Direct {
    other: u8,
    inner: Option<Box<Direct>>,
}

/// Bottoms out once `depth` reaches `limit`.
struct RecursedDirectSurprise {
    other: NumberSurprise<u8>,
    depth: usize,
    limit: usize,
}

impl RecursedDirectSurprise {
    fn sample(&self, rng: &mut StdRng) -> Direct {
        let coin = NumberSurprise::<u8> { min: 0, max: 1 };
        let inner = if self.depth < self.limit && coin.sample(rng) == 1 {
            let deeper = RecursedDirectSurprise {
                other: self.other.clone(),
                depth: self.depth + 1,
                limit: self.limit,
            };
            Some(Box::new(deeper.sample(rng)))
        } else {
            None
        };
        Direct { other: self.other.sample(rng), inner }
    }
}

fn depth_of(d: &Direct) -> usize {
    match &d.inner {
        Some(inner) => 1 + depth_of(inner),
        None => 0,
    }
}

#[test]
fn test_recursive() {
    let mut rng = StdRng::seed_from_u64(7);
    for limit in 0..6 {
        for start in 0..=limit + 2 {
            let f = RecursedDirectSurprise {
                other: NumberSurprise { min: 1, max: 3 },
                depth: start,
                limit,
            };
            let d = f.sample(&mut rng);
            assert!(depth_of(&d) <= limit.saturating_sub(start));
            assert!((1..=3).contains(&d.other));
        }
    }
}

#[test]
fn draws_cover_more_than_the_lower_bound() {
    let mut rng = StdRng::seed_from_u64(8);
    let f = NumberSurprise::<i64> { min: -3, max: 4 };
    let draws: Vec<i64> = (0..100).map(|_| f.sample(&mut rng)).collect();
    assert!(draws.iter().any(|&x| x != -3));
    let s = StringSurprise { min_len: 0, max_len: 50, chars: CharSurprise::Ascii };
    let lens: Vec<usize> = (0..50).map(|_| s.len(&mut rng)).collect();
    assert!(lens.iter().any(|&n| n != 0));
}

#[test]
fn nonzero_unsigned_never_draws_zero() {
    let mut rng = StdRng::seed_from_u64(9);
    let f = NumberSurprise::<u8> { min: 0, max: 2 };
    for _ in 0..200 {
        let x = f.sample_nonzero(&mut rng);
        assert!(x == 1 || x == 2);
    }
    let only_one = NumberSurprise::<u64> { min: 0, max: 1 };
    assert_eq!(only_one.sample_nonzero(&mut rng), 1);
}
