use hyperspace_core::height::Height;

#[test]
fn height_order_is_lexicographic() {
    let a = Height::new(1, 9);
    let b = Height::new(2, 0);
    let c = Height::new(2, 1);
    assert!(a.lt(&b));
    assert!(b.lt(&c));
    assert!(a.lt(&c));
    assert!(!b.lt(&a));
    assert!(!a.lt(&a));
    assert!(a.le(&a));
    assert!(a.le(&b));
    assert!(!c.le(&b));
    assert!(c.gt(&a));
    assert!(!a.gt(&a));
    assert!(c.ge(&c));
    assert!(!a.ge(&c));
}

#[test]
fn height_operators_follow_the_same_order() {
    let hs = [
        Height::new(0, 0),
        Height::new(0, 1),
        Height::new(0, u64::MAX),
        Height::new(1, 0),
        Height::new(1, 5),
        Height::new(u64::MAX, 0),
        Height::new(u64::MAX, u64::MAX),
    ];
    for (i, x) in hs.iter().enumerate() {
        for (j, y) in hs.iter().enumerate() {
            assert_eq!(x < y, i < j);
            assert_eq!(x <= y, i <= j);
            assert_eq!(x > y, i > j);
            assert_eq!(x >= y, i >= j);
            assert_eq!(x == y, i == j);
            assert_eq!(x.lt(y), i < j);
            assert_eq!(
                x.lt(y),
                (x.revision_number, x.revision_height) < (y.revision_number, y.revision_height)
            );
            let holds = [x.lt(y), x == y, y.lt(x)];
            assert_eq!(holds.iter().filter(|b| **b).count(), 1);
        }
    }
}

#[test]
fn zero_and_increment() {
    assert!(Height::zero().is_zero());
    assert_eq!(Height::zero(), Height::new(0, 0));
    assert!(!Height::new(0, 1).is_zero());
    assert!(!Height::new(1, 0).is_zero());
    assert_eq!(Height::new(3, 4).increment(), Some(Height::new(3, 5)));
    assert_eq!(Height::new(3, u64::MAX - 1).increment(), Some(Height::new(3, u64::MAX)));
    assert_eq!(Height::new(3, u64::MAX).increment(), None);
}
