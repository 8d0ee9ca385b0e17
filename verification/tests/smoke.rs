use fastrand::{Bound, Rng};

#[test]
fn bool() {
    let mut r = Rng::new();
    for x in &[false, true] {
        while r.bool() != *x {}
    }
}

#[test]
fn u8() {
    let mut r = Rng::new();
    for x in 0..10 {
        while r.u8(Bound::Unbounded, Bound::Excluded(10)).unwrap() != x {}
    }

    for x in 200..=u8::MAX {
        while r.u8(Bound::Included(200), Bound::Unbounded).unwrap() != x {}
    }
}

#[test]
fn i8() {
    let mut r = Rng::new();
    for x in -128..-120 {
        while r.i8(Bound::Unbounded, Bound::Excluded(-120)).unwrap() != x {}
    }

    for x in 120..=127 {
        while r.i8(Bound::Included(120), Bound::Unbounded).unwrap() != x {}
    }
}

#[test]
fn u32() {
    let mut r = Rng::new();
    for n in 1u32..10_000 {
        let n = n.wrapping_mul(n);
        let n = n.wrapping_mul(n);
        if n != 0 {
            for _ in 0..1000 {
                assert!(r.u32(Bound::Unbounded, Bound::Excluded(n)).unwrap() < n);
            }
        }
    }
}

#[test]
fn u64() {
    let mut r = Rng::new();
    for n in 1u64..10_000 {
        let n = n.wrapping_mul(n);
        let n = n.wrapping_mul(n);
        let n = n.wrapping_mul(n);
        if n != 0 {
            for _ in 0..1000 {
                assert!(r.u64(Bound::Unbounded, Bound::Excluded(n)).unwrap() < n);
            }
        }
    }
}

#[test]
fn u128() {
    let mut r = Rng::new();
    for n in 1u128..10_000 {
        let n = n.wrapping_mul(n);
        let n = n.wrapping_mul(n);
        let n = n.wrapping_mul(n);
        let n = n.wrapping_mul(n);
        if n != 0 {
            for _ in 0..1000 {
                assert!(r.u128(Bound::Unbounded, Bound::Excluded(n)).unwrap() < n);
            }
        }
    }
}

#[test]
fn f32() {
    let mut r = Rng::new();
    for _ in 0..1000 {
        let result = f32::from_bits(r.f32_bits()) - 1.0;
        assert!(result >= 0.0 && result < 1.0);
    }
}

#[test]
fn f64() {
    let mut r = Rng::new();
    for _ in 0..1000 {
        let result = f64::from_bits(r.f64_bits()) - 1.0;
        assert!(result >= 0.0 && result < 1.0);
    }
}

#[test]
fn digit() {
    let mut r = Rng::new();
    for base in 1..36 {
        let result = r.digit(base).unwrap();
        assert!((result >= '0' && result <= '9') || (result >= 'a' && result <= 'z'));
    }
}

#[test]
fn global_rng_choice() {
    let mut r = Rng::new();
    let items = vec![1, 4, 9, 5, 2, 3, 6, 7, 8, 0];

    for item in &items {
        while r.choice(&items).unwrap() != *item {}
    }
}

#[test]
fn global_rng_alphabetic() {
    let mut r = Rng::new();
    for _ in 0..1000 {
        let result = r.alphabetic();
        assert!(result.is_ascii_alphabetic())
    }
}

#[test]
fn global_rng_lowercase() {
    let mut r = Rng::new();
    for _ in 0..1000 {
        let result = r.lowercase();
        assert!(result.is_ascii_lowercase())
    }
}

#[test]
fn global_rng_uppercase() {
    let mut r = Rng::new();
    for _ in 0..1000 {
        let result = r.uppercase();
        assert!(result.is_ascii_uppercase())
    }
}

#[test]
fn fill() {
    let mut r = Rng::new();
    let mut a = vec![0u8; 64];
    let mut b = vec![0u8; 64];

    r.fill(&mut a);
    r.fill(&mut b);

    assert_ne!(a, b);

    let mut a = vec![0u8; 9];
    let mut b = vec![0u8; 9];
    r.fill(&mut a);
    r.fill(&mut b);
    assert_ne!(a, b);
}

#[test]
fn global_rng_fill() {
    let mut r = Rng::new();
    let mut a = vec![0u8; 64];
    let mut b = vec![0u8; 64];

    r.fill(&mut a);
    r.fill(&mut b);
}

#[test]
fn rng() {
    let mut r = Rng::new();

    assert_ne!(
        r.u64(Bound::Unbounded, Bound::Unbounded).unwrap(),
        r.u64(Bound::Unbounded, Bound::Unbounded).unwrap()
    );

    r.seed(7);
    let a = r.u64(Bound::Unbounded, Bound::Unbounded).unwrap();
    r.seed(7);
    let b = r.u64(Bound::Unbounded, Bound::Unbounded).unwrap();
    assert_eq!(a, b);
}

#[test]
fn rng_init() {
    let mut a = Rng::new();
    let mut b = Rng::new();
    assert_ne!(
        a.u64(Bound::Unbounded, Bound::Unbounded).unwrap(),
        b.u64(Bound::Unbounded, Bound::Unbounded).unwrap()
    );

    a.seed(7);
    b.seed(7);
    assert_eq!(
        a.u64(Bound::Unbounded, Bound::Unbounded).unwrap(),
        b.u64(Bound::Unbounded, Bound::Unbounded).unwrap()
    );
}

#[test]
fn rng_digit() {
    let mut rng = Rng::new();
    for base in 1..36 {
        let result = rng.digit(base).unwrap();
        assert!((result >= '0' && result <= '9') || (result >= 'a' && result <= 'z'));
    }
}

#[test]
#[should_panic]
fn rng_digit_panic_1() {
    let mut rng = Rng::new();
    let _result = rng.digit(0).unwrap();
}

#[test]
#[should_panic]
fn rng_digit_panic_2() {
    let mut rng = Rng::new();
    let base = rng.u32(Bound::Included(37), Bound::Unbounded).unwrap();
    let _result = rng.digit(base).unwrap();
}

#[test]
fn with_seed() {
    let mut a = Rng::with_seed(7);
    let mut b = Rng::new();
    b.seed(7);
    assert_eq!(
        a.u64(Bound::Unbounded, Bound::Unbounded).unwrap(),
        b.u64(Bound::Unbounded, Bound::Unbounded).unwrap()
    );
}

#[test]
fn choose_multiple() {
    let mut a = Rng::new();
    let source = (0..20).collect::<Vec<_>>();
    let mut elements = (0..20).collect::<Vec<_>>();

    while !elements.is_empty() {
        let chosen = a.choose_multiple(&source, 5);
        for &x in &chosen {
            elements.retain(|&y| y != x);
        }
    }

    let empty_elements: Vec<i32> = Vec::new();
    let empty_result = a.choose_multiple(&empty_elements, 5);
    assert!(empty_result.is_empty());
}

#[test]
fn choice() {
    let items = vec![1, 4, 9, 5, 2, 3, 6, 7, 8, 0];
    let mut r = Rng::new();

    for item in &items {
        while r.choice(&items).unwrap() != *item {}
    }
}

#[test]
fn choice_empty() {
    let mut rng = Rng::new();
    let data: Vec<i32> = Vec::new();
    let result = rng.choice(&data);
    assert!(result.is_none());
}

#[test]
fn lowercase() {
    let mut rng = Rng::new();
    for _ in 0..1000 {
        let result = rng.lowercase();
        assert!(result.is_ascii_lowercase())
    }
}

#[test]
fn alphabetic() {
    let mut rng = Rng::new();
    for _ in 0..1000 {
        let result = rng.alphabetic();
        assert!(result.is_ascii_alphabetic())
    }
}

#[test]
fn uppercase() {
    let mut rng = Rng::new();
    for _ in 0..1000 {
        let result = rng.uppercase();
        assert!(result.is_ascii_uppercase())
    }
}

#[test]
#[should_panic]
fn char_panic() {
    let mut rng = Rng::new();
    let _result = rng
        .char(Bound::Included('z'), Bound::Included('a'))
        .unwrap();
}

#[test]
fn char() {
    let mut rng = Rng::new();

    let result = rng.char(Bound::Unbounded, Bound::Unbounded).unwrap();
    assert!(result >= '\0' && result <= char::MAX);

    let result = rng
        .char(Bound::Excluded('0'), Bound::Excluded('9'))
        .unwrap();
    for _ in 0..1000 {
        assert!(result > '0' && result < '9');
    }
}
