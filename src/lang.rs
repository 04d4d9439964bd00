use vstd::prelude::*;
use vstd::string::StringSliceAdditionalSpecFns;

verus! {

/// A language officially supported by the game.
#[derive(Clone, Copy, PartialEq, Eq, Structural, Debug, Hash)]
pub enum Lang {
    English,
    French,
    German,
    Japanese,
}

/// An error returned when a string is not the short code of a [`Lang`].
#[derive(Clone, Copy, PartialEq, Eq, Structural, Debug, Hash)]
pub struct ParseLangError;

/// The two-letter code of a language, as bytes.
pub open spec fn code_of(l: Lang) -> Seq<u8> {
    match l {
        Lang::English => seq![101u8, 110u8],
        Lang::French => seq![102u8, 114u8],
        Lang::German => seq![100u8, 101u8],
        Lang::Japanese => seq![106u8, 112u8],
    }
}

/// The two-letter code of a language.
pub open spec fn code_text(l: Lang) -> Seq<char> {
    match l {
        Lang::English => "en"@,
        Lang::French => "fr"@,
        Lang::German => "de"@,
        Lang::Japanese => "jp"@,
    }
}

/// The language whose code has the bytes `s`, if any.
pub open spec fn lang_of_code(s: Seq<u8>) -> Result<Lang, ParseLangError> {
    if s == code_of(Lang::English) {
        Ok(Lang::English)
    } else if s == code_of(Lang::French) {
        Ok(Lang::French)
    } else if s == code_of(Lang::German) {
        Ok(Lang::German)
    } else if s == code_of(Lang::Japanese) {
        Ok(Lang::Japanese)
    } else {
        Err(ParseLangError)
    }
}

impl Lang {
    /// All four languages.
    pub fn values() -> (v: [Lang; 4])
        ensures
            v@ == seq![Lang::English, Lang::French, Lang::German, Lang::Japanese],
    {
        let v = [Lang::English, Lang::French, Lang::German, Lang::Japanese];
        assert(v@ =~= seq![Lang::English, Lang::French, Lang::German, Lang::Japanese]);
        v
    }

    /// Returns the two-letter language identifier of `self`.
    pub fn short_code(self) -> (s: &'static str)
        ensures
            s@ == code_text(self),
    {
        match self {
            Lang::English => "en",
            Lang::French => "fr",
            Lang::German => "de",
            Lang::Japanese => "jp",
        }
    }

    /// Parses the two-letter language identifier of a `Lang`.
    pub fn from_str(s: &str) -> (res: Result<Lang, ParseLangError>)
        ensures
            res == lang_of_code(s.spec_bytes()),
    {
        let b = s.as_bytes();
        if b.len() != 2 {
            return Err(ParseLangError);
        }
        let (x, y) = (b[0], b[1]);
        assert(b@ =~= seq![x, y]);
        if x == 101u8 && y == 110u8 {
            Ok(Lang::English)
        } else if x == 102u8 && y == 114u8 {
            Ok(Lang::French)
        } else if x == 100u8 && y == 101u8 {
            Ok(Lang::German)
        } else if x == 106u8 && y == 112u8 {
            Ok(Lang::Japanese)
        } else {
            assert(b@ != code_of(Lang::English) && b@ != code_of(Lang::French));
            assert(b@ != code_of(Lang::German) && b@ != code_of(Lang::Japanese));
            Err(ParseLangError)
        }
    }
}

} // verus!
