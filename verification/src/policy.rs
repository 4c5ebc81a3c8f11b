//! How the conversation learns that the user wants to leave: by a list of
//! words, or by asking the model.

use crate::text::{eq_ignore_ascii_case, same_ignoring_ascii_case};
use vstd::prelude::*;
use vstd::string::*;

verus! {

/// The way the loop decides that the user wants to leave.
#[derive(Debug, PartialEq, Eq)]
pub enum ExitPolicy {
    /// The user leaves by typing one of these words, in any ASCII letter
    /// case. The completion service is not asked.
    KeywordMatch(Vec<String>),
    /// The completion service is asked, for every message, whether the user
    /// wants to leave.
    ModelClassified,
}

/// An `ExitPolicy` as a mathematical value.
pub enum ExitPolicyView {
    KeywordMatch(Seq<Seq<char>>),
    ModelClassified,
}

impl View for ExitPolicy {
    type V = ExitPolicyView;

    open spec fn view(&self) -> ExitPolicyView {
        match self {
            ExitPolicy::KeywordMatch(words) => ExitPolicyView::KeywordMatch(words.deep_view()),
            ExitPolicy::ModelClassified => ExitPolicyView::ModelClassified,
        }
    }
}

/// Whether `message` is one of `words`, the case of ASCII letters ignored.
pub open spec fn matches_keyword(words: Seq<Seq<char>>, message: Seq<char>) -> bool {
    exists|i: int| 0 <= i < words.len() && same_ignoring_ascii_case(#[trigger] words[i], message)
}

/// The words that end a conversation when no others are chosen.
pub open spec fn standard_keywords() -> Seq<Seq<char>> {
    seq!["exit"@, "quit"@, "bye"@, "goodbye"@]
}

/// Whether none of `words` is empty.
pub open spec fn no_empty_word(words: Seq<Seq<char>>) -> bool {
    forall|i: int| 0 <= i < words.len() ==> (#[trigger] words[i]).len() > 0
}

impl ExitPolicyView {
    /// A policy is well formed when none of its words is empty: a message is
    /// never empty, so an empty word could end no conversation.
    pub open spec fn wf(self) -> bool {
        match self {
            ExitPolicyView::KeywordMatch(words) => no_empty_word(words),
            ExitPolicyView::ModelClassified => true,
        }
    }
}

impl ExitPolicy {
    /// The policy that ends the conversation on `exit`, `quit`, `bye` or
    /// `goodbye`.
    pub fn standard_keywords() -> (r: ExitPolicy)
        ensures
            r@ == ExitPolicyView::KeywordMatch(standard_keywords()),
            r@.wf(),
    {
        let mut words: Vec<String> = Vec::new();
        words.push(String::from_str("exit"));
        words.push(String::from_str("quit"));
        words.push(String::from_str("bye"));
        words.push(String::from_str("goodbye"));
        proof {
            reveal_strlit("exit");
            reveal_strlit("quit");
            reveal_strlit("bye");
            reveal_strlit("goodbye");
            assert(words.deep_view() =~= standard_keywords());
        }
        ExitPolicy::KeywordMatch(words)
    }

    /// Tells whether the policy is well formed.
    pub fn is_well_formed(&self) -> (r: bool)
        ensures
            r == self@.wf(),
    {
        match self {
            ExitPolicy::KeywordMatch(words) => has_no_empty_word(words),
            ExitPolicy::ModelClassified => true,
        }
    }
}

/// Tells whether none of `words` is empty.
pub fn has_no_empty_word(words: &Vec<String>) -> (r: bool)
    ensures
        r == no_empty_word(words.deep_view()),
{
    let mut i: usize = 0;
    while i < words.len()
        invariant
            i <= words.len(),
            forall|j: int| 0 <= j < i ==> (#[trigger] words.deep_view()[j]).len() > 0,
        decreases words.len() - i,
    {
        if words[i].as_str().is_empty() {
            assert(words.deep_view()[i as int].len() == 0);
            return false;
        }
        i = i + 1;
    }
    true
}

/// Tells whether `message` is one of `words`, the case of ASCII letters
/// ignored.
pub fn is_exit_keyword(words: &Vec<String>, message: &str) -> (r: bool)
    ensures
        r == matches_keyword(words.deep_view(), message@),
{
    let mut i: usize = 0;
    while i < words.len()
        invariant
            i <= words.len(),
            forall|j: int|
                0 <= j < i ==> !same_ignoring_ascii_case(#[trigger] words.deep_view()[j], message@),
        decreases words.len() - i,
    {
        if eq_ignore_ascii_case(words[i].as_str(), message) {
            assert(same_ignoring_ascii_case(words.deep_view()[i as int], message@));
            return true;
        }
        i = i + 1;
    }
    false
}

} // verus!
