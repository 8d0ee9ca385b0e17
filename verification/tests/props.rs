use fastrand::{Bound, Error, Rng};

#[test]
fn seed_roundtrip() {
    assert_eq!(Rng::with_seed(7).get_seed(), 7);
    let mut r = Rng::with_seed(3);
    r.seed(0x1234_5678_9ABC_DEF0);
    assert_eq!(r.get_seed(), 0x1234_5678_9ABC_DEF0);
}

#[test]
fn exact_first_u64() {
    let mut r = Rng::with_seed(7);
    assert_eq!(
        r.u64(Bound::Unbounded, Bound::Unbounded).unwrap(),
        0xE21B_87E1_E24A_18C1
    );
}

#[test]
fn exact_first_u128() {
    let mut r = Rng::with_seed(7);
    assert_eq!(
        r.u128(Bound::Unbounded, Bound::Unbounded).unwrap(),
        0xE21B_87E1_E24A_18C1_DAF7_CCA9_FC31_C738
    );
}

#[test]
fn exact_bounded_u32() {
    let mut r = Rng::with_seed(7);
    assert_eq!(r.u32(Bound::Unbounded, Bound::Excluded(10)).unwrap(), 8);
}

#[test]
fn exact_first_bool() {
    let mut r = Rng::with_seed(7);
    assert_eq!(r.bool(), false);
}

#[test]
fn exact_digit() {
    let mut r = Rng::with_seed(7);
    assert_eq!(r.digit(16), Ok('e'));
}

#[test]
fn exact_float_bits() {
    let mut r = Rng::with_seed(7);
    assert_eq!(r.f32_bits(), 0x3FF1_250C);
    let mut r = Rng::with_seed(7);
    assert_eq!(r.f64_bits(), 0x3FFE_21B8_7E1E_24A1);
    let x = f32::from_bits(0x3FF1_250C) - 1.0;
    assert!(x >= 0.0 && x < 1.0);
    let y = f64::from_bits(0x3FFE_21B8_7E1E_24A1) - 1.0;
    assert!(y >= 0.0 && y < 1.0);
}

#[test]
fn exact_shuffle() {
    let mut r = Rng::with_seed(7);
    let mut v = vec![1, 2, 3, 4, 5];
    r.shuffle(&mut v);
    assert_eq!(v, vec![1, 5, 3, 2, 4]);
}

#[test]
fn exact_fill() {
    let mut r = Rng::with_seed(7);
    let mut v = vec![0u8; 9];
    r.fill(&mut v);
    assert_eq!(v, vec![193, 24, 74, 226, 225, 135, 27, 226, 56]);
}

#[test]
fn exact_choice() {
    let mut r = Rng::with_seed(7);
    let items = vec![10, 20, 30];
    assert_eq!(r.choice(&items), Some(30));
}

#[test]
fn fill_overwrites_every_byte() {
    let mut a = Rng::with_seed(55);
    let mut b = Rng::with_seed(55);
    let mut va = vec![0u8; 9];
    let mut vb = vec![0xFFu8; 9];
    a.fill(&mut va);
    b.fill(&mut vb);
    assert_eq!(va, vb);

    let mut va = vec![0u8; 64];
    let mut vb = vec![0xFFu8; 64];
    a.fill(&mut va);
    b.fill(&mut vb);
    assert_eq!(va, vb);
}

#[test]
fn determinism_sequence() {
    let mut a = Rng::with_seed(7);
    let mut b = Rng::with_seed(7);
    for _ in 0..100 {
        assert_eq!(
            a.u64(Bound::Unbounded, Bound::Unbounded).unwrap(),
            b.u64(Bound::Unbounded, Bound::Unbounded).unwrap()
        );
        assert_eq!(a.bool(), b.bool());
        assert_eq!(a.digit(36), b.digit(36));
        assert_eq!(
            a.u32(Bound::Included(5), Bound::Excluded(500)).unwrap(),
            b.u32(Bound::Included(5), Bound::Excluded(500)).unwrap()
        );
        assert_eq!(a.f64_bits(), b.f64_bits());
        assert_eq!(
            a.char(Bound::Included('a'), Bound::Included('~')).unwrap(),
            b.char(Bound::Included('a'), Bound::Included('~')).unwrap()
        );
    }

    // Reseeding in the middle of a run resets the trajectory completely.
    a.seed(42);
    let mut fresh = Rng::with_seed(42);
    for _ in 0..100 {
        assert_eq!(
            a.u64(Bound::Unbounded, Bound::Unbounded).unwrap(),
            fresh.u64(Bound::Unbounded, Bound::Unbounded).unwrap()
        );
    }
}

#[test]
fn clone_matches_original() {
    let mut a = Rng::new();
    let mut b = a.clone();
    assert_eq!(a.get_seed(), b.get_seed());
    assert_eq!(
        a.u64(Bound::Unbounded, Bound::Unbounded).unwrap(),
        b.u64(Bound::Unbounded, Bound::Unbounded).unwrap()
    );
}

#[test]
fn fork_streams_differ() {
    let mut parent = Rng::with_seed(1);
    let mut c1 = parent.fork();
    let mut c2 = parent.fork();
    let a: Vec<u64> = (0..64)
        .map(|_| c1.u64(Bound::Unbounded, Bound::Unbounded).unwrap())
        .collect();
    let b: Vec<u64> = (0..64)
        .map(|_| c2.u64(Bound::Unbounded, Bound::Unbounded).unwrap())
        .collect();
    let c: Vec<u64> = (0..64)
        .map(|_| parent.u64(Bound::Unbounded, Bound::Unbounded).unwrap())
        .collect();
    assert_ne!(a, b);
    assert_ne!(a, c);
    assert_ne!(b, c);
}

#[test]
fn shuffle_short_is_noop() {
    let mut r = Rng::new();
    let mut empty: Vec<u32> = Vec::new();
    r.shuffle(&mut empty);
    assert!(empty.is_empty());

    let mut one = vec![9];
    r.shuffle(&mut one);
    assert_eq!(one, vec![9]);
}

#[test]
fn shuffle_reaches_every_permutation() {
    let mut r = Rng::new();
    let mut seen = vec![false; 6];
    while seen.iter().any(|s| !s) {
        let mut v = vec![0, 1, 2];
        r.shuffle(&mut v);
        let idx = match (v[0], v[1], v[2]) {
            (0, 1, 2) => 0,
            (0, 2, 1) => 1,
            (1, 0, 2) => 2,
            (1, 2, 0) => 3,
            (2, 0, 1) => 4,
            _ => 5,
        };
        seen[idx] = true;
    }
}

#[test]
fn shuffle_keeps_elements() {
    let mut r = Rng::new();
    let mut v = vec![3, 1, 4, 1, 5, 9, 2, 6];
    r.shuffle(&mut v);
    let mut sorted = v.clone();
    sorted.sort();
    assert_eq!(sorted, vec![1, 1, 2, 3, 4, 5, 6, 9]);
}

#[test]
fn digit_invalid_base() {
    let mut r = Rng::new();
    let before = r.get_seed();
    assert_eq!(r.digit(0), Err(Error::InvalidBase));
    assert_eq!(r.digit(37), Err(Error::InvalidBase));
    assert_eq!(r.get_seed(), before);
    assert!(r.digit(36).is_ok());
}

#[test]
fn digit_base_one_is_zero() {
    let mut r = Rng::new();
    for _ in 0..100 {
        assert_eq!(r.digit(1), Ok('0'));
    }
}

#[test]
fn char_skips_surrogates() {
    let mut r = Rng::new();
    for _ in 0..2000 {
        let c = r
            .char(Bound::Included('\u{D000}'), Bound::Included('\u{E800}'))
            .unwrap();
        let v = c as u32;
        assert!(0xD000 <= v && v <= 0xE800);
        assert!(v < 0xD800 || v >= 0xE000);
    }
}

#[test]
fn char_singleton_range() {
    let mut r = Rng::new();
    assert_eq!(r.char(Bound::Included('a'), Bound::Included('a')), Ok('a'));
}

#[test]
fn char_excluded_gap_edges() {
    let mut r = Rng::new();
    // Excluding the scalar just below the gap steps the low end across it.
    assert_eq!(
        r.char(Bound::Excluded('\u{D7FF}'), Bound::Included('\u{E000}')),
        Ok('\u{E000}')
    );
    // Excluding the scalar just above the gap steps the high end across it.
    assert_eq!(
        r.char(Bound::Included('\u{D7FF}'), Bound::Excluded('\u{E000}')),
        Ok('\u{D7FF}')
    );
}

#[test]
fn empty_ranges_error() {
    let mut r = Rng::with_seed(11);
    let before = r.get_seed();
    assert_eq!(
        r.u8(Bound::Included(5), Bound::Included(3)),
        Err(Error::EmptyRange)
    );
    assert_eq!(
        r.u8(Bound::Excluded(u8::MAX), Bound::Unbounded),
        Err(Error::EmptyRange)
    );
    assert_eq!(
        r.u8(Bound::Unbounded, Bound::Excluded(0)),
        Err(Error::EmptyRange)
    );
    assert_eq!(
        r.u16(Bound::Included(9), Bound::Excluded(9)),
        Err(Error::EmptyRange)
    );
    assert_eq!(
        r.i8(Bound::Included(3), Bound::Included(-3)),
        Err(Error::EmptyRange)
    );
    assert_eq!(
        r.i16(Bound::Excluded(i16::MAX), Bound::Unbounded),
        Err(Error::EmptyRange)
    );
    assert_eq!(
        r.i32(Bound::Unbounded, Bound::Excluded(i32::MIN)),
        Err(Error::EmptyRange)
    );
    assert_eq!(
        r.u32(Bound::Included(1), Bound::Included(0)),
        Err(Error::EmptyRange)
    );
    assert_eq!(
        r.u64(Bound::Included(1), Bound::Included(0)),
        Err(Error::EmptyRange)
    );
    assert_eq!(
        r.i64(Bound::Included(1), Bound::Included(0)),
        Err(Error::EmptyRange)
    );
    assert_eq!(
        r.u128(Bound::Included(1), Bound::Included(0)),
        Err(Error::EmptyRange)
    );
    assert_eq!(
        r.i128(Bound::Included(1), Bound::Included(0)),
        Err(Error::EmptyRange)
    );
    assert_eq!(
        r.usize(Bound::Included(1), Bound::Included(0)),
        Err(Error::EmptyRange)
    );
    assert_eq!(
        r.isize(Bound::Included(1), Bound::Included(0)),
        Err(Error::EmptyRange)
    );
    assert_eq!(
        r.char(Bound::Excluded(char::MAX), Bound::Unbounded),
        Err(Error::EmptyRange)
    );
    assert_eq!(
        r.char(Bound::Unbounded, Bound::Excluded('\0')),
        Err(Error::EmptyRange)
    );
    // A refused draw never advances the generator.
    assert_eq!(r.get_seed(), before);
}

#[test]
fn equal_bounds_are_deterministic() {
    let mut r = Rng::new();
    assert_eq!(r.u8(Bound::Included(9), Bound::Included(9)), Ok(9));
    assert_eq!(r.i64(Bound::Included(-4), Bound::Included(-4)), Ok(-4));
    assert_eq!(
        r.u128(Bound::Included(77), Bound::Excluded(78)),
        Ok(77)
    );
}

#[test]
fn boundary_moduli_stay_in_range() {
    let mut r = Rng::new();
    for _ in 0..1000 {
        let n32 = u32::MAX;
        assert!(r.u32(Bound::Unbounded, Bound::Excluded(n32)).unwrap() < n32);
        let n64 = u64::MAX;
        assert!(r.u64(Bound::Unbounded, Bound::Excluded(n64)).unwrap() < n64);
        let near32: u64 = (1u64 << 32) + 1;
        assert!(r.u64(Bound::Unbounded, Bound::Excluded(near32)).unwrap() < near32);
        let n128 = u128::MAX;
        assert!(r.u128(Bound::Unbounded, Bound::Excluded(n128)).unwrap() < n128);
        let near64: u128 = (1u128 << 64) + 1;
        assert!(
            r.u128(Bound::Unbounded, Bound::Excluded(near64)).unwrap() < near64
        );
    }
}

#[test]
fn signed_ranges_stay_in_range() {
    let mut r = Rng::new();
    for _ in 0..1000 {
        let v = r.i8(Bound::Included(-100), Bound::Included(100)).unwrap();
        assert!(-100 <= v && v <= 100);
        let v = r.i128(Bound::Included(-5), Bound::Excluded(5)).unwrap();
        assert!(-5 <= v && v < 5);
        let v = r.isize(Bound::Included(-3), Bound::Included(3)).unwrap();
        assert!(-3 <= v && v <= 3);
        let v = r.usize(Bound::Unbounded, Bound::Excluded(10)).unwrap();
        assert!(v < 10);
        let v = r.u16(Bound::Included(1000), Bound::Included(2000)).unwrap();
        assert!(1000 <= v && v <= 2000);
    }
}

#[test]
fn u32_coverage() {
    let mut r = Rng::new();
    let mut seen = vec![false; 10];
    while seen.iter().any(|s| !s) {
        let v = r.u32(Bound::Unbounded, Bound::Excluded(10)).unwrap();
        seen[v as usize] = true;
    }
}

#[test]
fn choose_multiple_without_replacement() {
    let mut r = Rng::new();
    let source = (0..20).collect::<Vec<i32>>();
    let chosen = r.choose_multiple(&source, 5);
    assert_eq!(chosen.len(), 5);
    for (i, a) in chosen.iter().enumerate() {
        assert!(source.contains(a));
        for b in chosen.iter().skip(i + 1) {
            assert_ne!(a, b);
        }
    }

    let all = r.choose_multiple(&vec![1, 2, 3], 10);
    assert_eq!(all, vec![1, 2, 3]);
}
