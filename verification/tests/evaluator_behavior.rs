use cw_trainer::evaluator::evaluate;
use cw_trainer::text::{chars_eq, lower_chars, normal_chars, trim_chars};

fn chars(s: &str) -> Vec<char> {
    s.chars().collect()
}

#[test]
fn comparison_ignores_case() {
    let outcome = evaluate(&chars("K"), &chars("k"));
    assert!(outcome.is_correct);
    assert_eq!(outcome.normalized_user, chars("k"));
    assert_eq!(outcome.normalized_expected, chars("k"));
}

#[test]
fn comparison_ignores_surrounding_whitespace() {
    let outcome = evaluate(&chars("  k \t"), &chars("K"));
    assert!(outcome.is_correct);
    assert_eq!(outcome.normalized_user, chars("k"));
}

#[test]
fn inner_whitespace_is_kept() {
    let outcome = evaluate(&chars("a b"), &chars("ab"));
    assert!(!outcome.is_correct);
    assert_eq!(outcome.normalized_user, chars("a b"));
}

#[test]
fn wrong_answer_is_detected() {
    let outcome = evaluate(&chars("m"), &chars("k"));
    assert!(!outcome.is_correct);
    assert_eq!(outcome.normalized_user, chars("m"));
    assert_eq!(outcome.normalized_expected, chars("k"));
}

#[test]
fn umlauts_fold_like_letters() {
    assert!(evaluate(&chars("Ö"), &chars("ö")).is_correct);
    assert!(evaluate(&chars("ä"), &chars("Ä")).is_correct);
    assert!(evaluate(&chars("Ü"), &chars("ü")).is_correct);
    assert!(!evaluate(&chars("ö"), &chars("ü")).is_correct);
}

#[test]
fn digits_and_punctuation_pass_through() {
    assert!(evaluate(&chars(" 7 "), &chars("7")).is_correct);
    assert!(evaluate(&chars("-"), &chars("-")).is_correct);
    assert!(!evaluate(&chars("7"), &chars("1")).is_correct);
}

#[test]
fn whitespace_only_input_normalizes_to_empty() {
    let outcome = evaluate(&chars("   "), &chars(""));
    assert!(outcome.is_correct);
    assert_eq!(outcome.normalized_user, chars(""));
}

#[test]
fn trim_then_lower_equals_lower_then_trim() {
    let samples = ["  Abc ", "K", "\tÖ\n", "", "  ", "a B c"];
    for s in samples {
        let v = chars(s);
        let a = lower_chars(&trim_chars(&v));
        let b = trim_chars(&lower_chars(&v));
        assert!(chars_eq(&a, &b));
        assert_eq!(a, normal_chars(&v));
    }
}

#[test]
fn trim_removes_only_outer_whitespace() {
    assert_eq!(trim_chars(&chars(" a b ")), chars("a b"));
    assert_eq!(trim_chars(&chars("\r\nk\t")), chars("k"));
    assert_eq!(trim_chars(&chars("   ")), chars(""));
    assert_eq!(trim_chars(&chars("k")), chars("k"));
}
