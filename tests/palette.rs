use chocodye::{Category, Dye, ParseHexError, Rgb};

#[test]
fn dyes_in_self_category() {
    let total: usize = Category::values().iter().map(|category| category.dyes().len()).sum();
    assert_eq!(Dye::values().len(), total);

    for category in Category::values() {
        assert!(category.dyes().iter().all(|dye| dye.category() == category));
    }
}

#[test]
fn dye_epsilon() {
    let mut epsilon = u32::MAX;

    for a in Dye::values() {
        for b in Dye::values() {
            if a != b {
                let d = a.distance(b);

                if d < epsilon {
                    epsilon = d;
                }
            }
        }
    }

    assert_eq!(epsilon, Dye::EPSILON);
}

#[test]
fn min_pairwise_distance_matches_epsilon() {
    assert_eq!(Dye::min_pairwise_distance(), Dye::EPSILON);
}

#[test]
fn dye_distances() {
    assert_eq!(Dye::SnowWhite.distance(Dye::SootBlack), 97278);
    assert_eq!(Dye::ShadowBlue.distance(Dye::CurrantPurple), 290);
    assert_eq!(Dye::SnowWhite.distance(Dye::SnowWhite), 0);
}

#[test]
fn dye_colors_and_categories() {
    assert_eq!(Dye::DesertYellow.color(), Rgb::new(219, 180, 87));
    assert_eq!(Dye::AppleGreen.color(), Rgb::new(155, 179, 99));
    assert_eq!(Dye::CeruleumBlue.category(), Category::Blue);
    assert_eq!(Dye::values().len(), 85);
    assert_eq!(Category::values().len(), 7);
    for (i, dye) in Dye::values().into_iter().enumerate() {
        assert_eq!(dye.index(), i);
        assert_eq!(Dye::from_index(i), dye);
    }
}

#[test]
fn classify_exact_and_nearest() {
    assert_eq!(Dye::try_from(Rgb::new(155, 179, 99)), Ok(Dye::AppleGreen));
    assert_eq!(Dye::try_from(Rgb::new(155, 179, 98)), Err(Dye::AppleGreen));
    assert_eq!(Dye::try_from(Rgb::new(255, 255, 255)), Err(Dye::LotusPink));
    assert_eq!(Dye::try_from(Rgb::new(0, 0, 0)), Err(Dye::InkBlue));
    for dye in Dye::values() {
        assert_eq!(Dye::try_from(dye.color()), Ok(dye));
    }
}

#[test]
fn classify_within_epsilon_of_two_dyes_takes_the_nearest() {
    // Currant Purple is scanned first and lies within epsilon, but Grape Purple is nearer.
    let c = Rgb::new(58, 43, 58);
    assert!(Dye::CurrantPurple.color().distance(c) < Dye::EPSILON);
    assert_eq!(Dye::try_from(c), Err(Dye::GrapePurple));
}

#[test]
fn rgb_constructors() {
    assert_eq!(Rgb::new(5, 7, 11), Rgb { r: 5, g: 7, b: 11 });
    assert_eq!(Rgb::gray(127), Rgb::new(127, 127, 127));
}

#[test]
fn rgb_from_hex() {
    assert_eq!(Rgb::from_hex("#ffffff"), Ok(Rgb::new(255, 255, 255)));
    assert_eq!(Rgb::from_hex("#5bCEfa"), Ok(Rgb::new(91, 206, 250)));
    assert_eq!(Rgb::from_hex("#010203"), Ok(Rgb::new(1, 2, 3)));
    assert_eq!(Rgb::from_hex("#+fffff"), Ok(Rgb::new(15, 255, 255)));
    assert_eq!(Rgb::from_hex("#fff"), Err(ParseHexError::BadLen));
    assert_eq!(Rgb::from_hex("ffffff"), Err(ParseHexError::BadLen));
    assert_eq!(Rgb::from_hex("0ffffff"), Err(ParseHexError::MissingHash));
    assert_eq!(Rgb::from_hex("#ffgfff"), Err(ParseHexError::BadInt));
    assert_eq!(Rgb::from_hex("#-fffff"), Err(ParseHexError::BadInt));
}

#[test]
fn rgb_checked_add_signed() {
    assert_eq!(Rgb::new(20, 30, 40).checked_add_signed(2, -2, 0), Some(Rgb::new(22, 28, 40)));
    assert_eq!(Rgb::new(10, 2, 250).checked_add_signed(4, -5, 1), None);
    assert_eq!(Rgb::new(0, 255, 0).checked_add_signed(0, 0, 0), Some(Rgb::new(0, 255, 0)));
    assert_eq!(Rgb::new(0, 255, 0).checked_add_signed(0, 1, 0), None);
}

#[test]
fn rgb_distance() {
    let white = Rgb::gray(255);
    assert_eq!(white.distance(white), 0);
    assert_eq!(Rgb::gray(8).distance(Rgb::gray(16)), Rgb::gray(24).distance(Rgb::gray(16)));
    assert_eq!(Rgb::new(0, 0, 0).distance(Rgb::new(255, 255, 255)), 195075);
    assert_eq!(Rgb::new(1, 2, 3).distance(Rgb::new(4, 6, 3)), 25);
}

#[test]
fn rgb_u32_conversions() {
    assert_eq!(Rgb::from(0x01020300), Rgb::new(1, 2, 3));
    assert_eq!(u32::from(Rgb::new(1, 2, 3)), 0x010203FF);
    assert_ne!(u32::from(Rgb::from(0x0ABCDEF0)), 0x0ABCDEF0);
    assert_eq!(u32::from(Rgb::from(0x0ABCDEF0)), 0x0ABCDEFF);
}

#[test]
fn rgb_default() {
    assert_eq!(Rgb::default(), Rgb::new(91, 206, 250));
    assert_eq!(Dye::DEFAULT_CHOCOBO_COLOR, Dye::DesertYellow);
}

#[test]
fn contrasting_text_color() {
    assert_eq!(Rgb::new(255, 0, 0).contrasting_text_color(), Rgb::gray(255));
    assert_eq!(Rgb::gray(255).contrasting_text_color(), Rgb::gray(0));
    assert_eq!(Rgb::gray(127).contrasting_text_color(), Rgb::gray(255));
    assert_eq!(Rgb::gray(128).contrasting_text_color(), Rgb::gray(0));
}
