use vstd::prelude::*;

use crate::rgb::{sq_distance, Rgb};

verus! {

/// A category of dyes with similar hues.
#[derive(Clone, Copy, PartialEq, Eq, Structural, Debug, Hash)]
pub enum Category {
    White,
    Red,
    Brown,
    Yellow,
    Green,
    Blue,
    Purple,
}

/// The position of a category in the enumeration order.
pub open spec fn category_index(c: Category) -> int {
    match c {
        Category::White => 0,
        Category::Red => 1,
        Category::Brown => 2,
        Category::Yellow => 3,
        Category::Green => 4,
        Category::Blue => 5,
        Category::Purple => 6,
    }
}

/// A color that can be found as the plumage of a chocobo.
#[derive(Clone, Copy, PartialEq, Eq, Structural, Debug, Hash)]
pub enum Dye {
    SnowWhite,
    AshGrey,
    GoobbueGrey,
    SlateGrey,
    CharcoalGrey,
    SootBlack,
    RosePink,
    LilacPurple,
    RolanberryRed,
    DalamudRed,
    RustRed,
    WineRed,
    CoralPink,
    BloodRed,
    SalmonPink,
    SunsetOrange,
    MesaRed,
    BarkBrown,
    ChocolateBrown,
    RussetBrown,
    KoboldBrown,
    CorkBrown,
    QiqirnBrown,
    OpoOpoBrown,
    AldgoatBrown,
    PumpkinOrange,
    AcornBrown,
    OrchardBrown,
    ChestnutBrown,
    GobbiebagBrown,
    ShaleBrown,
    MoleBrown,
    LoamBrown,
    BoneWhite,
    UlBrown,
    DesertYellow,
    HoneyYellow,
    MillioncornYellow,
    CoeurlYellow,
    CreamYellow,
    HalataliYellow,
    RaisinBrown,
    MudGreen,
    SylphGreen,
    LimeGreen,
    MossGreen,
    MeadowGreen,
    OliveGreen,
    MarshGreen,
    AppleGreen,
    CactuarGreen,
    HunterGreen,
    OchuGreen,
    AdamantoiseGreen,
    NophicaGreen,
    DeepwoodGreen,
    CelesteGreen,
    TurquoiseGreen,
    MorbolGreen,
    IceBlue,
    SkyBlue,
    SeafogBlue,
    PeacockBlue,
    RhotanoBlue,
    CorpseBlue,
    CeruleumBlue,
    WoadBlue,
    InkBlue,
    RaptorBlue,
    OthardBlue,
    StormBlue,
    VoidBlue,
    RoyalBlue,
    MidnightBlue,
    ShadowBlue,
    AbyssalBlue,
    LavenderPurple,
    GloomPurple,
    CurrantPurple,
    IrisPurple,
    GrapePurple,
    LotusPink,
    ColibriPink,
    PlumPurple,
    RegalPurple,
}

/// The number of dyes.
pub const DYE_COUNT: usize = 85;

/// The position of a dye in the enumeration order.
pub open spec fn dye_index(d: Dye) -> int {
    match d {
        Dye::SnowWhite => 0,
        Dye::AshGrey => 1,
        Dye::GoobbueGrey => 2,
        Dye::SlateGrey => 3,
        Dye::CharcoalGrey => 4,
        Dye::SootBlack => 5,
        Dye::RosePink => 6,
        Dye::LilacPurple => 7,
        Dye::RolanberryRed => 8,
        Dye::DalamudRed => 9,
        Dye::RustRed => 10,
        Dye::WineRed => 11,
        Dye::CoralPink => 12,
        Dye::BloodRed => 13,
        Dye::SalmonPink => 14,
        Dye::SunsetOrange => 15,
        Dye::MesaRed => 16,
        Dye::BarkBrown => 17,
        Dye::ChocolateBrown => 18,
        Dye::RussetBrown => 19,
        Dye::KoboldBrown => 20,
        Dye::CorkBrown => 21,
        Dye::QiqirnBrown => 22,
        Dye::OpoOpoBrown => 23,
        Dye::AldgoatBrown => 24,
        Dye::PumpkinOrange => 25,
        Dye::AcornBrown => 26,
        Dye::OrchardBrown => 27,
        Dye::ChestnutBrown => 28,
        Dye::GobbiebagBrown => 29,
        Dye::ShaleBrown => 30,
        Dye::MoleBrown => 31,
        Dye::LoamBrown => 32,
        Dye::BoneWhite => 33,
        Dye::UlBrown => 34,
        Dye::DesertYellow => 35,
        Dye::HoneyYellow => 36,
        Dye::MillioncornYellow => 37,
        Dye::CoeurlYellow => 38,
        Dye::CreamYellow => 39,
        Dye::HalataliYellow => 40,
        Dye::RaisinBrown => 41,
        Dye::MudGreen => 42,
        Dye::SylphGreen => 43,
        Dye::LimeGreen => 44,
        Dye::MossGreen => 45,
        Dye::MeadowGreen => 46,
        Dye::OliveGreen => 47,
        Dye::MarshGreen => 48,
        Dye::AppleGreen => 49,
        Dye::CactuarGreen => 50,
        Dye::HunterGreen => 51,
        Dye::OchuGreen => 52,
        Dye::AdamantoiseGreen => 53,
        Dye::NophicaGreen => 54,
        Dye::DeepwoodGreen => 55,
        Dye::CelesteGreen => 56,
        Dye::TurquoiseGreen => 57,
        Dye::MorbolGreen => 58,
        Dye::IceBlue => 59,
        Dye::SkyBlue => 60,
        Dye::SeafogBlue => 61,
        Dye::PeacockBlue => 62,
        Dye::RhotanoBlue => 63,
        Dye::CorpseBlue => 64,
        Dye::CeruleumBlue => 65,
        Dye::WoadBlue => 66,
        Dye::InkBlue => 67,
        Dye::RaptorBlue => 68,
        Dye::OthardBlue => 69,
        Dye::StormBlue => 70,
        Dye::VoidBlue => 71,
        Dye::RoyalBlue => 72,
        Dye::MidnightBlue => 73,
        Dye::ShadowBlue => 74,
        Dye::AbyssalBlue => 75,
        Dye::LavenderPurple => 76,
        Dye::GloomPurple => 77,
        Dye::CurrantPurple => 78,
        Dye::IrisPurple => 79,
        Dye::GrapePurple => 80,
        Dye::LotusPink => 81,
        Dye::ColibriPink => 82,
        Dye::PlumPurple => 83,
        Dye::RegalPurple => 84,
    }
}

/// The dye at a position of the enumeration order.
pub open spec fn dye_at(i: int) -> Dye {
    if i == 0 {
        Dye::SnowWhite
    } else 
if i == 1 {
        Dye::AshGrey
    } else 
if i == 2 {
        Dye::GoobbueGrey
    } else 
if i == 3 {
        Dye::SlateGrey
    } else 
if i == 4 {
        Dye::CharcoalGrey
    } else 
if i == 5 {
        Dye::SootBlack
    } else 
if i == 6 {
        Dye::RosePink
    } else 
if i == 7 {
        Dye::LilacPurple
    } else 
if i == 8 {
        Dye::RolanberryRed
    } else 
if i == 9 {
        Dye::DalamudRed
    } else 
if i == 10 {
        Dye::RustRed
    } else 
if i == 11 {
        Dye::WineRed
    } else 
if i == 12 {
        Dye::CoralPink
    } else 
if i == 13 {
        Dye::BloodRed
    } else 
if i == 14 {
        Dye::SalmonPink
    } else 
if i == 15 {
        Dye::SunsetOrange
    } else 
if i == 16 {
        Dye::MesaRed
    } else 
if i == 17 {
        Dye::BarkBrown
    } else 
if i == 18 {
        Dye::ChocolateBrown
    } else 
if i == 19 {
        Dye::RussetBrown
    } else 
if i == 20 {
        Dye::KoboldBrown
    } else 
if i == 21 {
        Dye::CorkBrown
    } else 
if i == 22 {
        Dye::QiqirnBrown
    } else 
if i == 23 {
        Dye::OpoOpoBrown
    } else 
if i == 24 {
        Dye::AldgoatBrown
    } else 
if i == 25 {
        Dye::PumpkinOrange
    } else 
if i == 26 {
        Dye::AcornBrown
    } else 
if i == 27 {
        Dye::OrchardBrown
    } else 
if i == 28 {
        Dye::ChestnutBrown
    } else 
if i == 29 {
        Dye::GobbiebagBrown
    } else 
if i == 30 {
        Dye::ShaleBrown
    } else 
if i == 31 {
        Dye::MoleBrown
    } else 
if i == 32 {
        Dye::LoamBrown
    } else 
if i == 33 {
        Dye::BoneWhite
    } else 
if i == 34 {
        Dye::UlBrown
    } else 
if i == 35 {
        Dye::DesertYellow
    } else 
if i == 36 {
        Dye::HoneyYellow
    } else 
if i == 37 {
        Dye::MillioncornYellow
    } else 
if i == 38 {
        Dye::CoeurlYellow
    } else 
if i == 39 {
        Dye::CreamYellow
    } else 
if i == 40 {
        Dye::HalataliYellow
    } else 
if i == 41 {
        Dye::RaisinBrown
    } else 
if i == 42 {
        Dye::MudGreen
    } else 
if i == 43 {
        Dye::SylphGreen
    } else 
if i == 44 {
        Dye::LimeGreen
    } else 
if i == 45 {
        Dye::MossGreen
    } else 
if i == 46 {
        Dye::MeadowGreen
    } else 
if i == 47 {
        Dye::OliveGreen
    } else 
if i == 48 {
        Dye::MarshGreen
    } else 
if i == 49 {
        Dye::AppleGreen
    } else 
if i == 50 {
        Dye::CactuarGreen
    } else 
if i == 51 {
        Dye::HunterGreen
    } else 
if i == 52 {
        Dye::OchuGreen
    } else 
if i == 53 {
        Dye::AdamantoiseGreen
    } else 
if i == 54 {
        Dye::NophicaGreen
    } else 
if i == 55 {
        Dye::DeepwoodGreen
    } else 
if i == 56 {
        Dye::CelesteGreen
    } else 
if i == 57 {
        Dye::TurquoiseGreen
    } else 
if i == 58 {
        Dye::MorbolGreen
    } else 
if i == 59 {
        Dye::IceBlue
    } else 
if i == 60 {
        Dye::SkyBlue
    } else 
if i == 61 {
        Dye::SeafogBlue
    } else 
if i == 62 {
        Dye::PeacockBlue
    } else 
if i == 63 {
        Dye::RhotanoBlue
    } else 
if i == 64 {
        Dye::CorpseBlue
    } else 
if i == 65 {
        Dye::CeruleumBlue
    } else 
if i == 66 {
        Dye::WoadBlue
    } else 
if i == 67 {
        Dye::InkBlue
    } else 
if i == 68 {
        Dye::RaptorBlue
    } else 
if i == 69 {
        Dye::OthardBlue
    } else 
if i == 70 {
        Dye::StormBlue
    } else 
if i == 71 {
        Dye::VoidBlue
    } else 
if i == 72 {
        Dye::RoyalBlue
    } else 
if i == 73 {
        Dye::MidnightBlue
    } else 
if i == 74 {
        Dye::ShadowBlue
    } else 
if i == 75 {
        Dye::AbyssalBlue
    } else 
if i == 76 {
        Dye::LavenderPurple
    } else 
if i == 77 {
        Dye::GloomPurple
    } else 
if i == 78 {
        Dye::CurrantPurple
    } else 
if i == 79 {
        Dye::IrisPurple
    } else 
if i == 80 {
        Dye::GrapePurple
    } else 
if i == 81 {
        Dye::LotusPink
    } else 
if i == 82 {
        Dye::ColibriPink
    } else 
if i == 83 {
        Dye::PlumPurple
    } else 
{
        Dye::RegalPurple
    }
}

/// The color of a dye.
pub open spec fn dye_color(d: Dye) -> Rgb {
    match d {
        Dye::SnowWhite => Rgb { r: 228, g: 223, b: 208 },
        Dye::AshGrey => Rgb { r: 172, g: 168, b: 162 },
        Dye::GoobbueGrey => Rgb { r: 137, g: 135, b: 132 },
        Dye::SlateGrey => Rgb { r: 101, g: 101, b: 101 },
        Dye::CharcoalGrey => Rgb { r: 72, g: 71, b: 66 },
        Dye::SootBlack => Rgb { r: 43, g: 41, b: 35 },
        Dye::RosePink => Rgb { r: 230, g: 159, b: 150 },
        Dye::LilacPurple => Rgb { r: 131, g: 105, b: 105 },
        Dye::RolanberryRed => Rgb { r: 91, g: 23, b: 41 },
        Dye::DalamudRed => Rgb { r: 120, g: 26, b: 26 },
        Dye::RustRed => Rgb { r: 98, g: 34, b: 7 },
        Dye::WineRed => Rgb { r: 69, g: 21, b: 17 },
        Dye::CoralPink => Rgb { r: 204, g: 108, b: 94 },
        Dye::BloodRed => Rgb { r: 145, g: 59, b: 39 },
        Dye::SalmonPink => Rgb { r: 228, g: 170, b: 138 },
        Dye::SunsetOrange => Rgb { r: 183, g: 92, b: 45 },
        Dye::MesaRed => Rgb { r: 125, g: 57, b: 6 },
        Dye::BarkBrown => Rgb { r: 106, g: 75, b: 55 },
        Dye::ChocolateBrown => Rgb { r: 110, g: 61, b: 36 },
        Dye::RussetBrown => Rgb { r: 79, g: 45, b: 31 },
        Dye::KoboldBrown => Rgb { r: 48, g: 33, b: 27 },
        Dye::CorkBrown => Rgb { r: 201, g: 145, b: 86 },
        Dye::QiqirnBrown => Rgb { r: 153, g: 110, b: 63 },
        Dye::OpoOpoBrown => Rgb { r: 123, g: 92, b: 45 },
        Dye::AldgoatBrown => Rgb { r: 162, g: 135, b: 92 },
        Dye::PumpkinOrange => Rgb { r: 197, g: 116, b: 36 },
        Dye::AcornBrown => Rgb { r: 142, g: 88, b: 27 },
        Dye::OrchardBrown => Rgb { r: 100, g: 66, b: 22 },
        Dye::ChestnutBrown => Rgb { r: 61, g: 41, b: 13 },
        Dye::GobbiebagBrown => Rgb { r: 185, g: 164, b: 137 },
        Dye::ShaleBrown => Rgb { r: 146, g: 129, b: 108 },
        Dye::MoleBrown => Rgb { r: 97, g: 82, b: 69 },
        Dye::LoamBrown => Rgb { r: 63, g: 51, b: 41 },
        Dye::BoneWhite => Rgb { r: 235, g: 211, b: 160 },
        Dye::UlBrown => Rgb { r: 183, g: 163, b: 112 },
        Dye::DesertYellow => Rgb { r: 219, g: 180, b: 87 },
        Dye::HoneyYellow => Rgb { r: 250, g: 198, b: 43 },
        Dye::MillioncornYellow => Rgb { r: 228, g: 158, b: 52 },
        Dye::CoeurlYellow => Rgb { r: 188, g: 136, b: 4 },
        Dye::CreamYellow => Rgb { r: 242, g: 215, b: 112 },
        Dye::HalataliYellow => Rgb { r: 165, g: 132, b: 48 },
        Dye::RaisinBrown => Rgb { r: 64, g: 51, b: 17 },
        Dye::MudGreen => Rgb { r: 88, g: 82, b: 48 },
        Dye::SylphGreen => Rgb { r: 187, g: 187, b: 138 },
        Dye::LimeGreen => Rgb { r: 171, g: 176, b: 84 },
        Dye::MossGreen => Rgb { r: 112, g: 115, b: 38 },
        Dye::MeadowGreen => Rgb { r: 139, g: 156, b: 99 },
        Dye::OliveGreen => Rgb { r: 75, g: 82, b: 50 },
        Dye::MarshGreen => Rgb { r: 50, g: 54, b: 33 },
        Dye::AppleGreen => Rgb { r: 155, g: 179, b: 99 },
        Dye::CactuarGreen => Rgb { r: 101, g: 130, b: 65 },
        Dye::HunterGreen => Rgb { r: 40, g: 75, b: 44 },
        Dye::OchuGreen => Rgb { r: 64, g: 99, b: 57 },
        Dye::AdamantoiseGreen => Rgb { r: 95, g: 117, b: 88 },
        Dye::NophicaGreen => Rgb { r: 59, g: 77, b: 60 },
        Dye::DeepwoodGreen => Rgb { r: 30, g: 42, b: 33 },
        Dye::CelesteGreen => Rgb { r: 150, g: 189, b: 185 },
        Dye::TurquoiseGreen => Rgb { r: 67, g: 114, b: 114 },
        Dye::MorbolGreen => Rgb { r: 31, g: 70, b: 70 },
        Dye::IceBlue => Rgb { r: 178, g: 196, b: 206 },
        Dye::SkyBlue => Rgb { r: 131, g: 176, b: 210 },
        Dye::SeafogBlue => Rgb { r: 100, g: 129, b: 160 },
        Dye::PeacockBlue => Rgb { r: 59, g: 104, b: 134 },
        Dye::RhotanoBlue => Rgb { r: 28, g: 61, b: 84 },
        Dye::CorpseBlue => Rgb { r: 142, g: 155, b: 172 },
        Dye::CeruleumBlue => Rgb { r: 79, g: 87, b: 102 },
        Dye::WoadBlue => Rgb { r: 47, g: 56, b: 81 },
        Dye::InkBlue => Rgb { r: 26, g: 31, b: 39 },
        Dye::RaptorBlue => Rgb { r: 91, g: 127, b: 192 },
        Dye::OthardBlue => Rgb { r: 47, g: 88, b: 137 },
        Dye::StormBlue => Rgb { r: 35, g: 65, b: 114 },
        Dye::VoidBlue => Rgb { r: 17, g: 41, b: 68 },
        Dye::RoyalBlue => Rgb { r: 39, g: 48, b: 103 },
        Dye::MidnightBlue => Rgb { r: 24, g: 25, b: 55 },
        Dye::ShadowBlue => Rgb { r: 55, g: 55, b: 71 },
        Dye::AbyssalBlue => Rgb { r: 49, g: 45, b: 87 },
        Dye::LavenderPurple => Rgb { r: 135, g: 127, b: 174 },
        Dye::GloomPurple => Rgb { r: 81, g: 69, b: 96 },
        Dye::CurrantPurple => Rgb { r: 50, g: 44, b: 59 },
        Dye::IrisPurple => Rgb { r: 183, g: 158, b: 188 },
        Dye::GrapePurple => Rgb { r: 59, g: 42, b: 61 },
        Dye::LotusPink => Rgb { r: 254, g: 206, b: 245 },
        Dye::ColibriPink => Rgb { r: 220, g: 155, b: 202 },
        Dye::PlumPurple => Rgb { r: 79, g: 60, b: 67 },
        Dye::RegalPurple => Rgb { r: 102, g: 48, b: 78 },
    }
}

/// The category a dye belongs to.
pub open spec fn dye_category(d: Dye) -> Category {
    match d {
        Dye::SnowWhite => Category::White,
        Dye::AshGrey => Category::White,
        Dye::GoobbueGrey => Category::White,
        Dye::SlateGrey => Category::White,
        Dye::CharcoalGrey => Category::White,
        Dye::SootBlack => Category::White,
        Dye::RosePink => Category::Red,
        Dye::LilacPurple => Category::Red,
        Dye::RolanberryRed => Category::Red,
        Dye::DalamudRed => Category::Red,
        Dye::RustRed => Category::Red,
        Dye::WineRed => Category::Red,
        Dye::CoralPink => Category::Red,
        Dye::BloodRed => Category::Red,
        Dye::SalmonPink => Category::Red,
        Dye::SunsetOrange => Category::Brown,
        Dye::MesaRed => Category::Brown,
        Dye::BarkBrown => Category::Brown,
        Dye::ChocolateBrown => Category::Brown,
        Dye::RussetBrown => Category::Brown,
        Dye::KoboldBrown => Category::Brown,
        Dye::CorkBrown => Category::Brown,
        Dye::QiqirnBrown => Category::Brown,
        Dye::OpoOpoBrown => Category::Brown,
        Dye::AldgoatBrown => Category::Brown,
        Dye::PumpkinOrange => Category::Brown,
        Dye::AcornBrown => Category::Brown,
        Dye::OrchardBrown => Category::Brown,
        Dye::ChestnutBrown => Category::Brown,
        Dye::GobbiebagBrown => Category::Brown,
        Dye::ShaleBrown => Category::Brown,
        Dye::MoleBrown => Category::Brown,
        Dye::LoamBrown => Category::Brown,
        Dye::BoneWhite => Category::Yellow,
        Dye::UlBrown => Category::Yellow,
        Dye::DesertYellow => Category::Yellow,
        Dye::HoneyYellow => Category::Yellow,
        Dye::MillioncornYellow => Category::Yellow,
        Dye::CoeurlYellow => Category::Yellow,
        Dye::CreamYellow => Category::Yellow,
        Dye::HalataliYellow => Category::Yellow,
        Dye::RaisinBrown => Category::Yellow,
        Dye::MudGreen => Category::Green,
        Dye::SylphGreen => Category::Green,
        Dye::LimeGreen => Category::Green,
        Dye::MossGreen => Category::Green,
        Dye::MeadowGreen => Category::Green,
        Dye::OliveGreen => Category::Green,
        Dye::MarshGreen => Category::Green,
        Dye::AppleGreen => Category::Green,
        Dye::CactuarGreen => Category::Green,
        Dye::HunterGreen => Category::Green,
        Dye::OchuGreen => Category::Green,
        Dye::AdamantoiseGreen => Category::Green,
        Dye::NophicaGreen => Category::Green,
        Dye::DeepwoodGreen => Category::Green,
        Dye::CelesteGreen => Category::Green,
        Dye::TurquoiseGreen => Category::Green,
        Dye::MorbolGreen => Category::Green,
        Dye::IceBlue => Category::Blue,
        Dye::SkyBlue => Category::Blue,
        Dye::SeafogBlue => Category::Blue,
        Dye::PeacockBlue => Category::Blue,
        Dye::RhotanoBlue => Category::Blue,
        Dye::CorpseBlue => Category::Blue,
        Dye::CeruleumBlue => Category::Blue,
        Dye::WoadBlue => Category::Blue,
        Dye::InkBlue => Category::Blue,
        Dye::RaptorBlue => Category::Blue,
        Dye::OthardBlue => Category::Blue,
        Dye::StormBlue => Category::Blue,
        Dye::VoidBlue => Category::Blue,
        Dye::RoyalBlue => Category::Blue,
        Dye::MidnightBlue => Category::Blue,
        Dye::ShadowBlue => Category::Blue,
        Dye::AbyssalBlue => Category::Blue,
        Dye::LavenderPurple => Category::Purple,
        Dye::GloomPurple => Category::Purple,
        Dye::CurrantPurple => Category::Purple,
        Dye::IrisPurple => Category::Purple,
        Dye::GrapePurple => Category::Purple,
        Dye::LotusPink => Category::Purple,
        Dye::ColibriPink => Category::Purple,
        Dye::PlumPurple => Category::Purple,
        Dye::RegalPurple => Category::Purple,
    }
}

impl Dye {
    /// Returns the position of `self` in the enumeration order.
    pub fn index(self) -> (i: usize)
        ensures
            i as int == dye_index(self),
            i < DYE_COUNT,
    {
        match self {
            Dye::SnowWhite => 0,
            Dye::AshGrey => 1,
            Dye::GoobbueGrey => 2,
            Dye::SlateGrey => 3,
            Dye::CharcoalGrey => 4,
            Dye::SootBlack => 5,
            Dye::RosePink => 6,
            Dye::LilacPurple => 7,
            Dye::RolanberryRed => 8,
            Dye::DalamudRed => 9,
            Dye::RustRed => 10,
            Dye::WineRed => 11,
            Dye::CoralPink => 12,
            Dye::BloodRed => 13,
            Dye::SalmonPink => 14,
            Dye::SunsetOrange => 15,
            Dye::MesaRed => 16,
            Dye::BarkBrown => 17,
            Dye::ChocolateBrown => 18,
            Dye::RussetBrown => 19,
            Dye::KoboldBrown => 20,
            Dye::CorkBrown => 21,
            Dye::QiqirnBrown => 22,
            Dye::OpoOpoBrown => 23,
            Dye::AldgoatBrown => 24,
            Dye::PumpkinOrange => 25,
            Dye::AcornBrown => 26,
            Dye::OrchardBrown => 27,
            Dye::ChestnutBrown => 28,
            Dye::GobbiebagBrown => 29,
            Dye::ShaleBrown => 30,
            Dye::MoleBrown => 31,
            Dye::LoamBrown => 32,
            Dye::BoneWhite => 33,
            Dye::UlBrown => 34,
            Dye::DesertYellow => 35,
            Dye::HoneyYellow => 36,
            Dye::MillioncornYellow => 37,
            Dye::CoeurlYellow => 38,
            Dye::CreamYellow => 39,
            Dye::HalataliYellow => 40,
            Dye::RaisinBrown => 41,
            Dye::MudGreen => 42,
            Dye::SylphGreen => 43,
            Dye::LimeGreen => 44,
            Dye::MossGreen => 45,
            Dye::MeadowGreen => 46,
            Dye::OliveGreen => 47,
            Dye::MarshGreen => 48,
            Dye::AppleGreen => 49,
            Dye::CactuarGreen => 50,
            Dye::HunterGreen => 51,
            Dye::OchuGreen => 52,
            Dye::AdamantoiseGreen => 53,
            Dye::NophicaGreen => 54,
            Dye::DeepwoodGreen => 55,
            Dye::CelesteGreen => 56,
            Dye::TurquoiseGreen => 57,
            Dye::MorbolGreen => 58,
            Dye::IceBlue => 59,
            Dye::SkyBlue => 60,
            Dye::SeafogBlue => 61,
            Dye::PeacockBlue => 62,
            Dye::RhotanoBlue => 63,
            Dye::CorpseBlue => 64,
            Dye::CeruleumBlue => 65,
            Dye::WoadBlue => 66,
            Dye::InkBlue => 67,
            Dye::RaptorBlue => 68,
            Dye::OthardBlue => 69,
            Dye::StormBlue => 70,
            Dye::VoidBlue => 71,
            Dye::RoyalBlue => 72,
            Dye::MidnightBlue => 73,
            Dye::ShadowBlue => 74,
            Dye::AbyssalBlue => 75,
            Dye::LavenderPurple => 76,
            Dye::GloomPurple => 77,
            Dye::CurrantPurple => 78,
            Dye::IrisPurple => 79,
            Dye::GrapePurple => 80,
            Dye::LotusPink => 81,
            Dye::ColibriPink => 82,
            Dye::PlumPurple => 83,
            Dye::RegalPurple => 84,
        }
    }

    /// Returns the dye at position `i` of the enumeration order.
    pub fn from_index(i: usize) -> (d: Dye)
        requires
            i < DYE_COUNT,
        ensures
            d == dye_at(i as int),
            dye_index(d) == i,
    {
        match i {
            0 => Dye::SnowWhite,
            1 => Dye::AshGrey,
            2 => Dye::GoobbueGrey,
            3 => Dye::SlateGrey,
            4 => Dye::CharcoalGrey,
            5 => Dye::SootBlack,
            6 => Dye::RosePink,
            7 => Dye::LilacPurple,
            8 => Dye::RolanberryRed,
            9 => Dye::DalamudRed,
            10 => Dye::RustRed,
            11 => Dye::WineRed,
            12 => Dye::CoralPink,
            13 => Dye::BloodRed,
            14 => Dye::SalmonPink,
            15 => Dye::SunsetOrange,
            16 => Dye::MesaRed,
            17 => Dye::BarkBrown,
            18 => Dye::ChocolateBrown,
            19 => Dye::RussetBrown,
            20 => Dye::KoboldBrown,
            21 => Dye::CorkBrown,
            22 => Dye::QiqirnBrown,
            23 => Dye::OpoOpoBrown,
            24 => Dye::AldgoatBrown,
            25 => Dye::PumpkinOrange,
            26 => Dye::AcornBrown,
            27 => Dye::OrchardBrown,
            28 => Dye::ChestnutBrown,
            29 => Dye::GobbiebagBrown,
            30 => Dye::ShaleBrown,
            31 => Dye::MoleBrown,
            32 => Dye::LoamBrown,
            33 => Dye::BoneWhite,
            34 => Dye::UlBrown,
            35 => Dye::DesertYellow,
            36 => Dye::HoneyYellow,
            37 => Dye::MillioncornYellow,
            38 => Dye::CoeurlYellow,
            39 => Dye::CreamYellow,
            40 => Dye::HalataliYellow,
            41 => Dye::RaisinBrown,
            42 => Dye::MudGreen,
            43 => Dye::SylphGreen,
            44 => Dye::LimeGreen,
            45 => Dye::MossGreen,
            46 => Dye::MeadowGreen,
            47 => Dye::OliveGreen,
            48 => Dye::MarshGreen,
            49 => Dye::AppleGreen,
            50 => Dye::CactuarGreen,
            51 => Dye::HunterGreen,
            52 => Dye::OchuGreen,
            53 => Dye::AdamantoiseGreen,
            54 => Dye::NophicaGreen,
            55 => Dye::DeepwoodGreen,
            56 => Dye::CelesteGreen,
            57 => Dye::TurquoiseGreen,
            58 => Dye::MorbolGreen,
            59 => Dye::IceBlue,
            60 => Dye::SkyBlue,
            61 => Dye::SeafogBlue,
            62 => Dye::PeacockBlue,
            63 => Dye::RhotanoBlue,
            64 => Dye::CorpseBlue,
            65 => Dye::CeruleumBlue,
            66 => Dye::WoadBlue,
            67 => Dye::InkBlue,
            68 => Dye::RaptorBlue,
            69 => Dye::OthardBlue,
            70 => Dye::StormBlue,
            71 => Dye::VoidBlue,
            72 => Dye::RoyalBlue,
            73 => Dye::MidnightBlue,
            74 => Dye::ShadowBlue,
            75 => Dye::AbyssalBlue,
            76 => Dye::LavenderPurple,
            77 => Dye::GloomPurple,
            78 => Dye::CurrantPurple,
            79 => Dye::IrisPurple,
            80 => Dye::GrapePurple,
            81 => Dye::LotusPink,
            82 => Dye::ColibriPink,
            83 => Dye::PlumPurple,
            _ => Dye::RegalPurple,
        }
    }

    /// Returns the color of `self`.
    pub fn color(self) -> (c: Rgb)
        ensures
            c == dye_color(self),
    {
        match self {
            Dye::SnowWhite => Rgb { r: 228, g: 223, b: 208 },
            Dye::AshGrey => Rgb { r: 172, g: 168, b: 162 },
            Dye::GoobbueGrey => Rgb { r: 137, g: 135, b: 132 },
            Dye::SlateGrey => Rgb { r: 101, g: 101, b: 101 },
            Dye::CharcoalGrey => Rgb { r: 72, g: 71, b: 66 },
            Dye::SootBlack => Rgb { r: 43, g: 41, b: 35 },
            Dye::RosePink => Rgb { r: 230, g: 159, b: 150 },
            Dye::LilacPurple => Rgb { r: 131, g: 105, b: 105 },
            Dye::RolanberryRed => Rgb { r: 91, g: 23, b: 41 },
            Dye::DalamudRed => Rgb { r: 120, g: 26, b: 26 },
            Dye::RustRed => Rgb { r: 98, g: 34, b: 7 },
            Dye::WineRed => Rgb { r: 69, g: 21, b: 17 },
            Dye::CoralPink => Rgb { r: 204, g: 108, b: 94 },
            Dye::BloodRed => Rgb { r: 145, g: 59, b: 39 },
            Dye::SalmonPink => Rgb { r: 228, g: 170, b: 138 },
            Dye::SunsetOrange => Rgb { r: 183, g: 92, b: 45 },
            Dye::MesaRed => Rgb { r: 125, g: 57, b: 6 },
            Dye::BarkBrown => Rgb { r: 106, g: 75, b: 55 },
            Dye::ChocolateBrown => Rgb { r: 110, g: 61, b: 36 },
            Dye::RussetBrown => Rgb { r: 79, g: 45, b: 31 },
            Dye::KoboldBrown => Rgb { r: 48, g: 33, b: 27 },
            Dye::CorkBrown => Rgb { r: 201, g: 145, b: 86 },
            Dye::QiqirnBrown => Rgb { r: 153, g: 110, b: 63 },
            Dye::OpoOpoBrown => Rgb { r: 123, g: 92, b: 45 },
            Dye::AldgoatBrown => Rgb { r: 162, g: 135, b: 92 },
            Dye::PumpkinOrange => Rgb { r: 197, g: 116, b: 36 },
            Dye::AcornBrown => Rgb { r: 142, g: 88, b: 27 },
            Dye::OrchardBrown => Rgb { r: 100, g: 66, b: 22 },
            Dye::ChestnutBrown => Rgb { r: 61, g: 41, b: 13 },
            Dye::GobbiebagBrown => Rgb { r: 185, g: 164, b: 137 },
            Dye::ShaleBrown => Rgb { r: 146, g: 129, b: 108 },
            Dye::MoleBrown => Rgb { r: 97, g: 82, b: 69 },
            Dye::LoamBrown => Rgb { r: 63, g: 51, b: 41 },
            Dye::BoneWhite => Rgb { r: 235, g: 211, b: 160 },
            Dye::UlBrown => Rgb { r: 183, g: 163, b: 112 },
            Dye::DesertYellow => Rgb { r: 219, g: 180, b: 87 },
            Dye::HoneyYellow => Rgb { r: 250, g: 198, b: 43 },
            Dye::MillioncornYellow => Rgb { r: 228, g: 158, b: 52 },
            Dye::CoeurlYellow => Rgb { r: 188, g: 136, b: 4 },
            Dye::CreamYellow => Rgb { r: 242, g: 215, b: 112 },
            Dye::HalataliYellow => Rgb { r: 165, g: 132, b: 48 },
            Dye::RaisinBrown => Rgb { r: 64, g: 51, b: 17 },
            Dye::MudGreen => Rgb { r: 88, g: 82, b: 48 },
            Dye::SylphGreen => Rgb { r: 187, g: 187, b: 138 },
            Dye::LimeGreen => Rgb { r: 171, g: 176, b: 84 },
            Dye::MossGreen => Rgb { r: 112, g: 115, b: 38 },
            Dye::MeadowGreen => Rgb { r: 139, g: 156, b: 99 },
            Dye::OliveGreen => Rgb { r: 75, g: 82, b: 50 },
            Dye::MarshGreen => Rgb { r: 50, g: 54, b: 33 },
            Dye::AppleGreen => Rgb { r: 155, g: 179, b: 99 },
            Dye::CactuarGreen => Rgb { r: 101, g: 130, b: 65 },
            Dye::HunterGreen => Rgb { r: 40, g: 75, b: 44 },
            Dye::OchuGreen => Rgb { r: 64, g: 99, b: 57 },
            Dye::AdamantoiseGreen => Rgb { r: 95, g: 117, b: 88 },
            Dye::NophicaGreen => Rgb { r: 59, g: 77, b: 60 },
            Dye::DeepwoodGreen => Rgb { r: 30, g: 42, b: 33 },
            Dye::CelesteGreen => Rgb { r: 150, g: 189, b: 185 },
            Dye::TurquoiseGreen => Rgb { r: 67, g: 114, b: 114 },
            Dye::MorbolGreen => Rgb { r: 31, g: 70, b: 70 },
            Dye::IceBlue => Rgb { r: 178, g: 196, b: 206 },
            Dye::SkyBlue => Rgb { r: 131, g: 176, b: 210 },
            Dye::SeafogBlue => Rgb { r: 100, g: 129, b: 160 },
            Dye::PeacockBlue => Rgb { r: 59, g: 104, b: 134 },
            Dye::RhotanoBlue => Rgb { r: 28, g: 61, b: 84 },
            Dye::CorpseBlue => Rgb { r: 142, g: 155, b: 172 },
            Dye::CeruleumBlue => Rgb { r: 79, g: 87, b: 102 },
            Dye::WoadBlue => Rgb { r: 47, g: 56, b: 81 },
            Dye::InkBlue => Rgb { r: 26, g: 31, b: 39 },
            Dye::RaptorBlue => Rgb { r: 91, g: 127, b: 192 },
            Dye::OthardBlue => Rgb { r: 47, g: 88, b: 137 },
            Dye::StormBlue => Rgb { r: 35, g: 65, b: 114 },
            Dye::VoidBlue => Rgb { r: 17, g: 41, b: 68 },
            Dye::RoyalBlue => Rgb { r: 39, g: 48, b: 103 },
            Dye::MidnightBlue => Rgb { r: 24, g: 25, b: 55 },
            Dye::ShadowBlue => Rgb { r: 55, g: 55, b: 71 },
            Dye::AbyssalBlue => Rgb { r: 49, g: 45, b: 87 },
            Dye::LavenderPurple => Rgb { r: 135, g: 127, b: 174 },
            Dye::GloomPurple => Rgb { r: 81, g: 69, b: 96 },
            Dye::CurrantPurple => Rgb { r: 50, g: 44, b: 59 },
            Dye::IrisPurple => Rgb { r: 183, g: 158, b: 188 },
            Dye::GrapePurple => Rgb { r: 59, g: 42, b: 61 },
            Dye::LotusPink => Rgb { r: 254, g: 206, b: 245 },
            Dye::ColibriPink => Rgb { r: 220, g: 155, b: 202 },
            Dye::PlumPurple => Rgb { r: 79, g: 60, b: 67 },
            Dye::RegalPurple => Rgb { r: 102, g: 48, b: 78 },
        }
    }

    /// Returns the dye category of `self`.
    pub fn category(self) -> (c: Category)
        ensures
            c == dye_category(self),
    {
        match self {
            Dye::SnowWhite => Category::White,
            Dye::AshGrey => Category::White,
            Dye::GoobbueGrey => Category::White,
            Dye::SlateGrey => Category::White,
            Dye::CharcoalGrey => Category::White,
            Dye::SootBlack => Category::White,
            Dye::RosePink => Category::Red,
            Dye::LilacPurple => Category::Red,
            Dye::RolanberryRed => Category::Red,
            Dye::DalamudRed => Category::Red,
            Dye::RustRed => Category::Red,
            Dye::WineRed => Category::Red,
            Dye::CoralPink => Category::Red,
            Dye::BloodRed => Category::Red,
            Dye::SalmonPink => Category::Red,
            Dye::SunsetOrange => Category::Brown,
            Dye::MesaRed => Category::Brown,
            Dye::BarkBrown => Category::Brown,
            Dye::ChocolateBrown => Category::Brown,
            Dye::RussetBrown => Category::Brown,
            Dye::KoboldBrown => Category::Brown,
            Dye::CorkBrown => Category::Brown,
            Dye::QiqirnBrown => Category::Brown,
            Dye::OpoOpoBrown => Category::Brown,
            Dye::AldgoatBrown => Category::Brown,
            Dye::PumpkinOrange => Category::Brown,
            Dye::AcornBrown => Category::Brown,
            Dye::OrchardBrown => Category::Brown,
            Dye::ChestnutBrown => Category::Brown,
            Dye::GobbiebagBrown => Category::Brown,
            Dye::ShaleBrown => Category::Brown,
            Dye::MoleBrown => Category::Brown,
            Dye::LoamBrown => Category::Brown,
            Dye::BoneWhite => Category::Yellow,
            Dye::UlBrown => Category::Yellow,
            Dye::DesertYellow => Category::Yellow,
            Dye::HoneyYellow => Category::Yellow,
            Dye::MillioncornYellow => Category::Yellow,
            Dye::CoeurlYellow => Category::Yellow,
            Dye::CreamYellow => Category::Yellow,
            Dye::HalataliYellow => Category::Yellow,
            Dye::RaisinBrown => Category::Yellow,
            Dye::MudGreen => Category::Green,
            Dye::SylphGreen => Category::Green,
            Dye::LimeGreen => Category::Green,
            Dye::MossGreen => Category::Green,
            Dye::MeadowGreen => Category::Green,
            Dye::OliveGreen => Category::Green,
            Dye::MarshGreen => Category::Green,
            Dye::AppleGreen => Category::Green,
            Dye::CactuarGreen => Category::Green,
            Dye::HunterGreen => Category::Green,
            Dye::OchuGreen => Category::Green,
            Dye::AdamantoiseGreen => Category::Green,
            Dye::NophicaGreen => Category::Green,
            Dye::DeepwoodGreen => Category::Green,
            Dye::CelesteGreen => Category::Green,
            Dye::TurquoiseGreen => Category::Green,
            Dye::MorbolGreen => Category::Green,
            Dye::IceBlue => Category::Blue,
            Dye::SkyBlue => Category::Blue,
            Dye::SeafogBlue => Category::Blue,
            Dye::PeacockBlue => Category::Blue,
            Dye::RhotanoBlue => Category::Blue,
            Dye::CorpseBlue => Category::Blue,
            Dye::CeruleumBlue => Category::Blue,
            Dye::WoadBlue => Category::Blue,
            Dye::InkBlue => Category::Blue,
            Dye::RaptorBlue => Category::Blue,
            Dye::OthardBlue => Category::Blue,
            Dye::StormBlue => Category::Blue,
            Dye::VoidBlue => Category::Blue,
            Dye::RoyalBlue => Category::Blue,
            Dye::MidnightBlue => Category::Blue,
            Dye::ShadowBlue => Category::Blue,
            Dye::AbyssalBlue => Category::Blue,
            Dye::LavenderPurple => Category::Purple,
            Dye::GloomPurple => Category::Purple,
            Dye::CurrantPurple => Category::Purple,
            Dye::IrisPurple => Category::Purple,
            Dye::GrapePurple => Category::Purple,
            Dye::LotusPink => Category::Purple,
            Dye::ColibriPink => Category::Purple,
            Dye::PlumPurple => Category::Purple,
            Dye::RegalPurple => Category::Purple,
        }
    }
}

impl Category {
    /// Returns the position of `self` in the enumeration order.
    pub fn index(self) -> (i: usize)
        ensures
            i as int == category_index(self),
    {
        match self {
            Category::White => 0,
            Category::Red => 1,
            Category::Brown => 2,
            Category::Yellow => 3,
            Category::Green => 4,
            Category::Blue => 5,
            Category::Purple => 6,
        }
    }

    /// All seven categories, in enumeration order.
    pub fn values() -> (v: [Category; 7])
        ensures
            forall|i: int| 0 <= i < 7 ==> category_index(#[trigger] v@[i]) == i,
    {
        [Category::White, Category::Red, Category::Brown, Category::Yellow, Category::Green, Category::Blue, Category::Purple]
    }
}

/// The squared distance between the colors of the dyes at positions `i` and `j`.
pub open spec fn pair_distance(i: int, j: int) -> int {
    sq_distance(dye_color(dye_at(i)), dye_color(dye_at(j)))
}

/// The dye nearest to `c` among the first `n` dyes; on equal distances the
/// earlier dye wins.
pub open spec fn nearest_among(c: Rgb, n: int) -> Dye
    decreases n,
{
    if n <= 1 {
        dye_at(0)
    } else {
        let best = nearest_among(c, n - 1);
        if sq_distance(dye_color(dye_at(n - 1)), c) < sq_distance(dye_color(best), c) {
            dye_at(n - 1)
        } else {
            best
        }
    }
}

/// The dye nearest to `c`; on equal distances the earlier dye wins.
pub open spec fn nearest_dye(c: Rgb) -> Dye {
    nearest_among(c, DYE_COUNT as int)
}

/// `Ok` with the dye of color `c` if there is one, else `Err` with the nearest dye.
pub open spec fn classify(c: Rgb) -> Result<Dye, Dye> {
    let d = nearest_dye(c);
    if dye_color(d) == c {
        Ok(d)
    } else {
        Err(d)
    }
}

/// No dye among the first `n` is nearer to `c` than the one chosen.
pub proof fn lemma_nearest_among_is_minimal(c: Rgb, n: int)
    requires
        1 <= n,
    ensures
        forall|i: int|
            0 <= i < n ==> sq_distance(dye_color(nearest_among(c, n)), c) <= sq_distance(
                dye_color(#[trigger] dye_at(i)),
                c,
            ),
    decreases n,
{
    if n > 1 {
        lemma_nearest_among_is_minimal(c, n - 1);
    }
}

/// The classification picks a dye at minimal distance, and reports an exact
/// match exactly when that distance is zero.
pub proof fn lemma_classify_nearest(c: Rgb)
    ensures
        forall|i: int|
            0 <= i < DYE_COUNT ==> sq_distance(dye_color(nearest_dye(c)), c) <= sq_distance(
                dye_color(#[trigger] dye_at(i)),
                c,
            ),
        classify(c) is Ok <==> sq_distance(dye_color(nearest_dye(c)), c) == 0,
{
    lemma_nearest_among_is_minimal(c, DYE_COUNT as int);
    let d = dye_color(nearest_dye(c));
    let x = d.r as int - c.r as int;
    let y = d.g as int - c.g as int;
    let z = d.b as int - c.b as int;
    assert(sq_distance(d, c) == x * x + y * y + z * z);
    if d == c {
        assert(x == 0 && y == 0 && z == 0);
        assert(x * x + y * y + z * z == 0) by (nonlinear_arith)
            requires
                x == 0 && y == 0 && z == 0,
        ;
    }
    if sq_distance(d, c) == 0 {
        assert(x == 0 && y == 0 && z == 0) by (nonlinear_arith)
            requires
                x * x + y * y + z * z == 0,
        ;
        assert(d == c);
    }
}

/// The dyes of category `c` among the first `n`, in enumeration order.
pub open spec fn dyes_of(c: Category, n: int) -> Seq<Dye>
    decreases n,
{
    if n <= 0 {
        Seq::empty()
    } else if dye_category(dye_at(n - 1)) == c {
        dyes_of(c, n - 1).push(dye_at(n - 1))
    } else {
        dyes_of(c, n - 1)
    }
}

impl Dye {
    /// The smallest distance between two distinct dyes.
    pub const EPSILON: u32 = 89;

    /// The chocobos' default color.
    pub const DEFAULT_CHOCOBO_COLOR: Dye = Dye::DesertYellow;

    /// All the dyes, in enumeration order.
    pub fn values() -> (v: Vec<Dye>)
        ensures
            v@.len() == DYE_COUNT,
            forall|i: int| 0 <= i < DYE_COUNT ==> #[trigger] v@[i] == dye_at(i),
    {
        let mut v: Vec<Dye> = Vec::new();
        let mut i: usize = 0;
        while i < DYE_COUNT
            invariant
                i <= DYE_COUNT,
                v@.len() == i,
                forall|k: int| 0 <= k < i ==> #[trigger] v@[k] == dye_at(k),
            decreases DYE_COUNT - i,
        {
            v.push(Dye::from_index(i));
            i = i + 1;
        }
        v
    }

    /// The squared Euclidean distance between the colors of `self` and `other`.
    pub fn distance(self, other: Dye) -> (d: u32)
        ensures
            d as int == sq_distance(dye_color(self), dye_color(other)),
    {
        self.color().distance(other.color())
    }

    /// Converts a color to a dye: `Ok` for an exact match, `Err` with the
    /// closest dye otherwise.
    pub fn try_from(value: Rgb) -> (res: Result<Dye, Dye>)
        ensures
            res == classify(value),
    {
        let mut best = Dye::from_index(0);
        let mut best_d = best.color().distance(value);
        let mut i: usize = 1;
        while i < DYE_COUNT
            invariant
                1 <= i <= DYE_COUNT,
                best == nearest_among(value, i as int),
                best_d as int == sq_distance(dye_color(best), value),
            decreases DYE_COUNT - i,
        {
            let d = Dye::from_index(i);
            let dd = d.color().distance(value);
            if dd < best_d {
                best = d;
                best_d = dd;
            }
            i = i + 1;
        }
        if best.color() == value {
            Ok(best)
        } else {
            Err(best)
        }
    }

    /// The smallest distance between the colors of two distinct dyes.
    pub fn min_pairwise_distance() -> (e: u32)
        ensures
            forall|i: int, j: int|
                0 <= i < DYE_COUNT && 0 <= j < DYE_COUNT && i != j ==> e <= #[trigger] pair_distance(
                    i,
                    j,
                ),
            exists|i: int, j: int|
                0 <= i < DYE_COUNT && 0 <= j < DYE_COUNT && i != j && e == #[trigger] pair_distance(
                    i,
                    j,
                ),
    {
        let mut e = Dye::from_index(0).distance(Dye::from_index(1));
        let ghost mut wi: int = 0;
        let ghost mut wj: int = 1;
        let mut i: usize = 0;
        while i < DYE_COUNT
            invariant
                i <= DYE_COUNT,
                0 <= wi < DYE_COUNT && 0 <= wj < DYE_COUNT && wi != wj,
                e == pair_distance(wi, wj),
                forall|a: int, b: int|
                    0 <= a < i && 0 <= b < DYE_COUNT && a != b ==> e <= #[trigger] pair_distance(
                        a,
                        b,
                    ),
            decreases DYE_COUNT - i,
        {
            let a = Dye::from_index(i);
            let mut j: usize = 0;
            while j < DYE_COUNT
                invariant
                    i < DYE_COUNT,
                    j <= DYE_COUNT,
                    a == dye_at(i as int),
                    0 <= wi < DYE_COUNT && 0 <= wj < DYE_COUNT && wi != wj,
                    e == pair_distance(wi, wj),
                    forall|x: int, y: int|
                        0 <= x < i && 0 <= y < DYE_COUNT && x != y ==> e <= #[trigger] pair_distance(
                            x,
                            y,
                        ),
                    forall|y: int|
                        0 <= y < j && y != i ==> e <= #[trigger] pair_distance(i as int, y),
                decreases DYE_COUNT - j,
            {
                if i != j {
                    let d = a.distance(Dye::from_index(j));
                    if d < e {
                        e = d;
                        proof {
                            wi = i as int;
                            wj = j as int;
                        }
                    }
                }
                j = j + 1;
            }
            i = i + 1;
        }
        e
    }
}

impl Category {
    /// Returns all the dyes belonging to `self`, in enumeration order.
    pub fn dyes(self) -> (v: Vec<Dye>)
        ensures
            v@ == dyes_of(self, DYE_COUNT as int),
    {
        let mut v: Vec<Dye> = Vec::new();
        let mut i: usize = 0;
        while i < DYE_COUNT
            invariant
                i <= DYE_COUNT,
                v@ == dyes_of(self, i as int),
            decreases DYE_COUNT - i,
        {
            let d = Dye::from_index(i);
            if d.category() == self {
                v.push(d);
            }
            i = i + 1;
        }
        v
    }
}

} // verus!
