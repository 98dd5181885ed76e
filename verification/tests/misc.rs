use vime_engine::renderer::DefaultRenderer;
use vime_engine::result::Result as InputResult;
use vime_engine::util::ascii::{is_ascii, to_ascii_lowercase};

#[test]
fn ascii_lowercase_folds_letters_only() {
    assert_eq!(to_ascii_lowercase('A'), 'a');
    assert_eq!(to_ascii_lowercase('Z'), 'z');
    assert_eq!(to_ascii_lowercase('a'), 'a');
    assert_eq!(to_ascii_lowercase('^'), '^');
    assert_eq!(to_ascii_lowercase('@'), '@');
    assert_eq!(to_ascii_lowercase('['), '[');
    assert_eq!(to_ascii_lowercase('Đ'), 'Đ');
    assert!(is_ascii('\x7F'));
    assert!(!is_ascii('\u{80}'));
}

#[test]
fn renderer_constructors_agree() {
    assert_eq!(DefaultRenderer::new(), DefaultRenderer::default());
}

#[test]
fn results_compare_by_value() {
    assert_eq!(InputResult::Commit("việt".to_string()), InputResult::Commit("việt".to_string()));
    assert_ne!(InputResult::Changed, InputResult::Noop);
    assert_ne!(InputResult::Forward, InputResult::Commit(String::new()));
}
