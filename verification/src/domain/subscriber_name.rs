//! The name a subscriber gives.

use vstd::prelude::*;
use vstd::string::*;
use unicode_segmentation::UnicodeSegmentation;
use crate::text::{all_whitespace, is_blank};

verus! {

/// Longest accepted name, in grapheme clusters.
pub const NAME_MAX_LENGTH: usize = 256;

/// The number of extended grapheme clusters of a text, as the Unicode
/// segmentation rules count them.
pub uninterp spec fn grapheme_count(s: Seq<char>) -> nat;

/// `UnicodeSegmentation::graphemes(true)` walks the extended grapheme
/// clusters of the text; the wrapper counts them. The count depends on the
/// text alone.
#[verifier::external_body]
pub(crate) fn count_graphemes(s: &str) -> (r: usize)
    ensures
        r == grapheme_count(s@),
{
    s.graphemes(true).count()
}

/// The characters that no name may hold.
pub open spec fn is_forbidden_in_name(c: char) -> bool {
    c == '/' || c == '(' || c == ')' || c == '"' || c == '<' || c == '>' || c == '\\'
        || c == '{' || c == '}'
}

/// Some character of `s` is forbidden in a name.
pub open spec fn has_forbidden_character(s: Seq<char>) -> bool {
    exists|i: int| 0 <= i < s.len() && is_forbidden_in_name(#[trigger] s[i])
}

/// What an acceptable name looks like: not blank, at most 256 grapheme
/// clusters, none of the forbidden characters.
pub open spec fn is_subscriber_name(s: Seq<char>) -> bool {
    &&& !all_whitespace(s)
    &&& grapheme_count(s) <= NAME_MAX_LENGTH
    &&& !has_forbidden_character(s)
}

/// The message that goes with a rejected name.
pub open spec fn name_rejection(s: Seq<char>) -> Seq<char> {
    s + " is not a valid subscriber name."@
}

/// Tells whether a character is forbidden in a name.
pub fn forbidden_in_name(c: char) -> (r: bool)
    ensures
        r == is_forbidden_in_name(c),
{
    c == '/' || c == '(' || c == ')' || c == '"' || c == '<' || c == '>' || c == '\\'
        || c == '{' || c == '}'
}

/// Tells whether a text holds a character that is forbidden in a name.
pub fn contains_forbidden_character(s: &str) -> (r: bool)
    ensures
        r == has_forbidden_character(s@),
{
    let mut found = false;
    for c in it: s.chars()
        invariant
            it.seq() == s@,
            found == (exists|k: int| 0 <= k < it.index() && is_forbidden_in_name(#[trigger] s@[k])),
    {
        if forbidden_in_name(c) {
            found = true;
        }
    }
    found
}

/// Decides on a name given the number of its grapheme clusters: it must not
/// be blank, must have at most 256 clusters and must hold no forbidden
/// character.
pub fn is_acceptable_name(s: &str, graphemes: usize) -> (r: bool)
    ensures
        r == (!all_whitespace(s@) && graphemes <= NAME_MAX_LENGTH && !has_forbidden_character(s@)),
{
    let is_empty_or_whitespace = is_blank(s);
    let is_too_long = graphemes > NAME_MAX_LENGTH;
    let contains_forbidden_characters = contains_forbidden_character(s);
    !(is_empty_or_whitespace || is_too_long || contains_forbidden_characters)
}

/// A subscriber name that passed validation.
#[derive(Debug)]
pub struct SubscriberName(String);

impl View for SubscriberName {
    type V = Seq<char>;

    closed spec fn view(&self) -> Seq<char> {
        self.0@
    }
}

impl SubscriberName {
    #[verifier::type_invariant]
    spec fn well_formed(&self) -> bool {
        is_subscriber_name(self.0@)
    }

    /// Accepts `s` exactly when it is not blank, has at most 256 grapheme
    /// clusters and holds no forbidden character; otherwise the error names
    /// the rejected input.
    pub fn parse(s: String) -> (r: Result<Self, String>)
        ensures
            r is Ok <==> is_subscriber_name(s@),
            r matches Ok(name) ==> name@ == s@,
            r matches Err(message) ==> message@ == name_rejection(s@),
    {
        let graphemes = count_graphemes(s.as_str());
        if is_acceptable_name(s.as_str(), graphemes) {
            Ok(SubscriberName(s))
        } else {
            let mut message = s;
            message.append(" is not a valid subscriber name.");
            Err(message)
        }
    }

    /// The name's text.
    pub fn as_ref(&self) -> (r: &str)
        ensures
            r@ == self@,
            is_subscriber_name(r@),
    {
        proof {
            use_type_invariant(self);
        }
        self.0.as_str()
    }
}

} // verus!
