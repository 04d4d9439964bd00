use chocodye::{Rgb, Snack, SnackList};

#[test]
fn neg() {
    for snack in Snack::values() {
        let a = snack.effect();
        let b = snack.neg().effect();

        assert_eq!(a.0 + b.0, 0);
        assert_eq!(a.1 + b.1, 0);
        assert_eq!(a.2 + b.2, 0);
    }
}

#[test]
fn snack_effects_and_alter() {
    assert_eq!(Snack::Plum.effect(), (-5, 5, 5));
    assert_eq!(Snack::Pear.effect(), (-5, 5, -5));
    assert_eq!((Snack::Pear.neg()).effect(), (5, -5, 5));
    assert_eq!(Snack::Plum.alter(Rgb::new(40, 20, 70)), Some(Rgb::new(35, 25, 75)));
    assert_eq!(Snack::Plum.alter(Rgb::new(40, 20, 255)), None);
    assert_eq!(Snack::Apple.short_name(), "apple");
    for (i, snack) in Snack::values().into_iter().enumerate() {
        assert_eq!(snack.index(), i);
        assert_eq!(Snack::from_index(i), snack);
        assert_eq!(snack.neg().neg(), snack);
    }
}

#[test]
fn snacklist_get_set() {
    let mut list = SnackList::new();
    assert_eq!(list.packed(), 1 << 63);
    assert!(list.is_empty());
    assert_eq!(list.sum(), 0);
    assert_eq!(list.kinds(), 0);

    list.set(Snack::Pear, 210);
    list.add(Snack::Pear, 12);
    assert_ne!(list.packed(), 1 << 63);
    assert_eq!(list.get(Snack::Pear), 222);
    assert!(!list.is_empty());
    assert_eq!(list.sum(), 222);
    assert_eq!(list.kinds(), 1);

    list.set(Snack::Pear, 0);
    assert_eq!(list.packed(), 1 << 63);
    assert!(list.is_empty());
    assert_eq!(list.sum(), 0);
    assert_eq!(list.kinds(), 0);
}

#[test]
fn snacklist_into_array() {
    let mut list = SnackList::new();
    list.set(Snack::Pear, 1);
    list.set(Snack::Pineapple, 2);
    list.set(Snack::Fruit, 3);
    list.set(Snack::Plum, 4);
    list.set(Snack::Berries, 5);
    list.set(Snack::Apple, 6);

    assert_eq!(list.to_array(), [
        (Snack::Apple, 6),
        (Snack::Pear, 1),
        (Snack::Berries, 5),
        (Snack::Plum, 4),
        (Snack::Fruit, 3),
        (Snack::Pineapple, 2)
    ]);

    assert!(!list.is_empty());
    assert_eq!(list.sum(), 21);
    assert_eq!(list.kinds(), 6);

    for snack in Snack::values() {
        assert!(snack.index() < 8);
    }
}

#[test]
fn snacklist_set_then_get_keeps_other_counts() {
    let mut list = SnackList::new();
    list.set(Snack::Berries, 255);
    list.set(Snack::Apple, 1);
    assert_eq!(list.get(Snack::Berries), 255);
    assert_eq!(list.get(Snack::Apple), 1);
    assert_eq!(list.get(Snack::Plum), 0);
    assert_eq!(list.sum(), 256);
    assert_eq!(list.kinds(), 2);
    assert_eq!(list.packed(), (1 << 63) + 1 + (255 << 16));
}

#[test]
fn snacklist_from_slice() {
    let list = SnackList::from_slice(&[Snack::Apple, Snack::Pear, Snack::Apple]).unwrap();
    assert_eq!(list.get(Snack::Apple), 2);
    assert_eq!(list.get(Snack::Pear), 1);
    assert_eq!(list.get(Snack::Fruit), 0);
    assert_eq!(list.sum(), 3);
    assert!(SnackList::from_slice(&[]).unwrap().is_empty());

    let full = vec![Snack::Fruit; 255];
    assert_eq!(SnackList::from_slice(&full).unwrap().get(Snack::Fruit), 255);
    let over = vec![Snack::Fruit; 256];
    assert_eq!(SnackList::from_slice(&over), None);
}
