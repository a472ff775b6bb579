//! Answer evaluation: a submitted answer and the expected answer are both
//! normalized (trimmed, then folded to lower case) and compared exactly.

use crate::text::{
    chars_eq, lemma_normal_order, lower_seq, normal_chars, normal_seq, trim_seq,
};
use vstd::prelude::*;

verus! {

/// Result of scoring one submitted answer.
pub struct Outcome {
    pub is_correct: bool,
    pub normalized_user: Vec<char>,
    pub normalized_expected: Vec<char>,
}

/// Whether `user` counts as a correct answer for `expected`: the two agree
/// after normalization.
pub open spec fn answer_correct(user: Seq<char>, expected: Seq<char>) -> bool {
    normal_seq(user) == normal_seq(expected)
}

/// Normalizes both answers and compares them.
pub fn evaluate(user: &Vec<char>, expected: &Vec<char>) -> (r: Outcome)
    ensures
        r.normalized_user@ == normal_seq(user@),
        r.normalized_expected@ == normal_seq(expected@),
        r.is_correct == answer_correct(user@, expected@),
{
    let normalized_user = normal_chars(user);
    let normalized_expected = normal_chars(expected);
    let is_correct = chars_eq(&normalized_user, &normalized_expected);
    Outcome { is_correct, normalized_user, normalized_expected }
}

/// An answer is correct exactly when the two sides agree after lower-casing
/// and trimming; the order of those two steps does not matter.
pub proof fn lemma_evaluation_rule(user: Seq<char>, expected: Seq<char>)
    ensures
        answer_correct(user, expected) == (trim_seq(lower_seq(user)) == trim_seq(
            lower_seq(expected),
        )),
{
    lemma_normal_order(user);
    lemma_normal_order(expected);
}

} // verus!
