use penguin::i18n::{get_current_language, APP_TITLE, ABOUT_TITLE, SETTINGS_TITLE};
use penguin::i18n::is_language;

#[test]
fn test_language_detection() {
    let current = get_current_language();
    assert!(["chinese", "english"].contains(&current));
}

#[test]
fn test_constants_exist() {
    assert!(!APP_TITLE.is_empty());
    assert!(!ABOUT_TITLE.is_empty());
    assert!(!SETTINGS_TITLE.is_empty());
}

#[test]
fn language_matches_itself() {
    assert!(is_language(get_current_language()));
    assert!(!is_language("klingon"));
}
