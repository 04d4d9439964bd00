use chocodye::{make_meal, make_menu, Dye, Snack, SnackList};
use chocodye::Snack::{Apple, Pear};

fn batches_of(meal: &[Snack]) -> usize {
    let mut n = 0;
    for (i, s) in meal.iter().enumerate() {
        if i == 0 || meal[i - 1] != *s {
            n += 1;
        }
    }
    n
}

#[test]
fn all_is_ok() {
    for src in Dye::values() {
        for dst in Dye::values() {
            let meal = make_meal(src, dst).unwrap();
            let snacks = SnackList::from_slice(meal.as_slice()).unwrap();

            let mut rgb = src.color();
            for snack in meal.iter() {
                rgb = snack.alter(rgb).unwrap();
            }

            let dye = Dye::try_from(rgb).unwrap_or_else(|d| d);
            assert_eq!(dye, dst, "make_meal({src:?}, {dst:?}) returned {dye:?} (d = {})", dye.distance(dst));

            let menu = make_menu(src, snacks).unwrap();

            let mut menu_rgb = src.color();
            for (snack, count) in menu.clone() {
                for i in 0..count {
                    menu_rgb = match snack.alter(menu_rgb) {
                        Some(rgb) => rgb,
                        None => panic!("integer overflow on ({:?} {:?}).alter({:?}) (i = {}/{})", snack, snack.effect(), menu_rgb, i, count - 1)
                    }
                }
            }

            assert_eq!(menu_rgb, rgb);
            let dye = Dye::try_from(menu_rgb).unwrap_or_else(|d| d);
            assert_eq!(dye, dst, "make_menu({src:?}, {dst:?}) returned {dye:?} (d = {}, sl = {snacks:#?}, menu = {menu:#?})", dye.distance(dst));
        }
    }
}

#[test]
fn menu_never_has_more_batches_than_the_meal() {
    for src in Dye::values() {
        for dst in Dye::values() {
            let meal = make_meal(src, dst).unwrap();
            let snacks = SnackList::from_slice(meal.as_slice()).unwrap();
            let menu = make_menu(src, snacks).unwrap();
            assert!(menu.len() <= batches_of(&meal));
            for snack in Snack::values() {
                let eaten: u32 = menu.iter().filter(|(s, _)| *s == snack).map(|(_, n)| *n as u32).sum();
                assert_eq!(eaten, snacks.get(snack) as u32);
            }
        }
    }
}

#[test]
fn meal_examples() {
    assert_eq!(make_meal(Dye::SalmonPink, Dye::RosePink), Some(vec![Snack::Fruit, Snack::Berries]));
    assert_eq!(make_meal(Dye::RosePink, Dye::SalmonPink), Some(vec![Snack::Fruit.neg(), Snack::Berries.neg()]));
    assert_eq!(make_meal(Dye::SootBlack, Dye::KoboldBrown), Some(vec![Snack::Apple]));
    assert_eq!(make_meal(Dye::KoboldBrown, Dye::SootBlack), Some(vec![Snack::Plum]));
}

#[test]
fn meal_to_itself_is_empty() {
    for dye in Dye::values() {
        assert_eq!(make_meal(dye, dye), Some(vec![]));
    }
}

#[test]
fn menu_example() {
    let meal = make_meal(Dye::BarkBrown, Dye::MesaRed).unwrap();
    let menu = make_menu(Dye::BarkBrown, SnackList::from_slice(meal.as_slice()).unwrap());

    assert_eq!(meal, [Apple, Apple, Apple, Apple, Pear, Apple, Pear, Apple, Pear, Apple]);
    assert_eq!(menu, Some(vec![(Apple, 7), (Pear, 3)]));
}

#[test]
fn menu_of_nothing_is_empty() {
    assert_eq!(make_menu(Dye::SnowWhite, SnackList::new()), Some(vec![]));
}

#[test]
fn menu_with_no_usable_snack_fails() {
    // From Soot Black (43, 41, 35), at most seven Apples fit before blue reaches zero.
    let mut list = SnackList::new();
    list.set(Snack::Apple, 9);
    assert_eq!(make_menu(Dye::SootBlack, list), None);
    list.set(Snack::Apple, 7);
    assert_eq!(make_menu(Dye::SootBlack, list), Some(vec![(Snack::Apple, 7)]));
}
