use chocodye::{Lang, ParseLangError};

#[test]
fn lang_short_codes() {
    assert_eq!(Lang::German.short_code(), "de");
    for lang in Lang::values() {
        assert_eq!(Lang::from_str(lang.short_code()), Ok(lang));
    }
}

#[test]
fn lang_from_str() {
    assert_eq!(Lang::from_str("jp"), Ok(Lang::Japanese));
    assert_eq!(Lang::from_str("en"), Ok(Lang::English));
    assert_eq!(Lang::from_str("ja"), Err(ParseLangError));
    assert_eq!(Lang::from_str(""), Err(ParseLangError));
    assert_eq!(Lang::from_str("EN"), Err(ParseLangError));
    assert_eq!(Lang::from_str("eng"), Err(ParseLangError));
}
