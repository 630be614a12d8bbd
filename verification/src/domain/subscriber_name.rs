use crate::domain::error::NameRule;
use crate::domain::error::ValidationError;
use unicode_segmentation::UnicodeSegmentation;
use vstd::prelude::*;

verus! {

/// The largest number of grapheme clusters a name may have.
pub const MAX_NAME_GRAPHEMES: usize = 256;

/// Whether `c` has the Unicode `White_Space` property.
pub open spec fn is_white_space(c: char) -> bool {
    ||| '\u{9}' <= c <= '\u{D}'
    ||| c == ' '
    ||| c == '\u{85}'
    ||| c == '\u{A0}'
    ||| c == '\u{1680}'
    ||| '\u{2000}' <= c <= '\u{200A}'
    ||| c == '\u{2028}'
    ||| c == '\u{2029}'
    ||| c == '\u{202F}'
    ||| c == '\u{205F}'
    ||| c == '\u{3000}'
}

/// Whether `c` may not occur in a name.
pub open spec fn is_forbidden(c: char) -> bool {
    ||| c == '/'
    ||| c == '('
    ||| c == ')'
    ||| c == '"'
    ||| c == '<'
    ||| c == '>'
    ||| c == '\\'
    ||| c == '{'
    ||| c == '}'
}

/// A string is blank when it is empty or holds white space only.
pub open spec fn is_blank(s: Seq<char>) -> bool {
    forall|i: int| 0 <= i < s.len() ==> is_white_space(#[trigger] s[i])
}

/// Whether some character of `s` is forbidden.
pub open spec fn has_forbidden(s: Seq<char>) -> bool {
    exists|i: int| 0 <= i < s.len() && is_forbidden(#[trigger] s[i])
}

/// The number of extended grapheme clusters of `s`: how many items
/// `unicode_segmentation`'s `graphemes(s, true)` yields.
pub uninterp spec fn grapheme_clusters(s: Seq<char>) -> nat;

/// The first rule that a name of the characters `s` and of `graphemes`
/// grapheme clusters breaks, if it breaks any.
pub open spec fn rule_broken(s: Seq<char>, graphemes: nat) -> Option<NameRule> {
    if is_blank(s) {
        Some(NameRule::NotBlank)
    } else if graphemes > MAX_NAME_GRAPHEMES {
        Some(NameRule::MaxLength)
    } else if has_forbidden(s) {
        Some(NameRule::NoForbiddenCharacter)
    } else {
        None
    }
}

/// The first rule that `s` breaks, if it breaks any.
pub open spec fn name_violation(s: Seq<char>) -> Option<NameRule> {
    rule_broken(s, grapheme_clusters(s))
}

/// A name is valid when it breaks no rule.
pub open spec fn is_valid_name(s: Seq<char>) -> bool {
    name_violation(s) is None
}

/// A name is valid exactly when it is not blank, has at most
/// [`MAX_NAME_GRAPHEMES`] grapheme clusters and holds no forbidden
/// character.
pub proof fn valid_name_meets_every_rule(s: Seq<char>)
    ensures
        is_valid_name(s) <==> !is_blank(s) && grapheme_clusters(s) <= MAX_NAME_GRAPHEMES
            && !has_forbidden(s),
{
}

/// The empty name and names of white space only are not valid.
pub proof fn blank_name_is_invalid(s: Seq<char>)
    requires
        forall|i: int| 0 <= i < s.len() ==> is_white_space(#[trigger] s[i]),
    ensures
        name_violation(s) == Some(NameRule::NotBlank),
        !is_valid_name(s),
{
}

/// A name with more than [`MAX_NAME_GRAPHEMES`] grapheme clusters is not
/// valid, however many characters or bytes it has.
pub proof fn long_name_is_invalid(s: Seq<char>)
    requires
        grapheme_clusters(s) > MAX_NAME_GRAPHEMES,
    ensures
        !is_valid_name(s),
{
}

/// A name that holds a forbidden character, wherever it stands, is not
/// valid.
pub proof fn name_with_forbidden_character_is_invalid(s: Seq<char>, i: int)
    requires
        0 <= i < s.len(),
        is_forbidden(s[i]),
    ensures
        !is_valid_name(s),
{
}

/// Trusted: `UnicodeSegmentation::graphemes` with `is_extended` set walks
/// the extended grapheme clusters of `s`; the result is how many it yields.
/// The count depends on the characters of `s` alone.
#[verifier::external_body]
fn count_graphemes(s: &str) -> (n: usize)
    ensures
        n == grapheme_clusters(s@),
{
    UnicodeSegmentation::graphemes(s, true).count()
}

/// Whether `c` is white space.
pub fn white_space(c: char) -> (b: bool)
    ensures
        b == is_white_space(c),
{
    ('\u{9}' <= c && c <= '\u{D}') || c == ' ' || c == '\u{85}' || c == '\u{A0}' || c == '\u{1680}'
        || ('\u{2000}' <= c && c <= '\u{200A}') || c == '\u{2028}' || c == '\u{2029}' || c
        == '\u{202F}' || c == '\u{205F}' || c == '\u{3000}'
}

/// Whether `c` may not occur in a name.
pub fn forbidden(c: char) -> (b: bool)
    ensures
        b == is_forbidden(c),
{
    c == '/' || c == '(' || c == ')' || c == '"' || c == '<' || c == '>' || c == '\\' || c == '{'
        || c == '}'
}

/// Whether `s` is empty or holds white space only.
pub fn blank(s: &str) -> (b: bool)
    ensures
        b == is_blank(s@),
{
    let mut all: bool = true;
    for c in it: s.chars()
        invariant
            it.seq() == s@,
            all == (forall|i: int| 0 <= i < it.index() ==> is_white_space(#[trigger] s@[i])),
    {
        if !white_space(c) {
            all = false;
        }
    }
    all
}

/// Whether `s` holds a forbidden character.
pub fn contains_forbidden(s: &str) -> (b: bool)
    ensures
        b == has_forbidden(s@),
{
    let mut found: bool = false;
    for c in it: s.chars()
        invariant
            it.seq() == s@,
            found == (exists|i: int| 0 <= i < it.index() && is_forbidden(#[trigger] s@[i])),
    {
        if forbidden(c) {
            found = true;
        }
    }
    found
}

/// The first rule that `s` breaks, if it breaks any, where `graphemes` is
/// taken as the number of its grapheme clusters.
pub fn broken_rule(s: &str, graphemes: usize) -> (rule: Option<NameRule>)
    ensures
        rule == rule_broken(s@, graphemes as nat),
{
    let is_empty_or_whitespace = blank(s);
    let is_too_long = graphemes > MAX_NAME_GRAPHEMES;
    let contains_forbidden_characters = contains_forbidden(s);
    if is_empty_or_whitespace {
        Some(NameRule::NotBlank)
    } else if is_too_long {
        Some(NameRule::MaxLength)
    } else if contains_forbidden_characters {
        Some(NameRule::NoForbiddenCharacter)
    } else {
        None
    }
}

/// The display name of a subscriber: not blank, at most
/// [`MAX_NAME_GRAPHEMES`] grapheme clusters, no forbidden character.
#[derive(Debug)]
pub struct SubscriberName(String);

impl View for SubscriberName {
    type V = Seq<char>;

    closed spec fn view(&self) -> Seq<char> {
        self.0@
    }
}

impl SubscriberName {
    #[verifier::type_invariant]
    spec fn valid(&self) -> bool {
        is_valid_name(self.0@)
    }

    /// Accepts `s` as a name if it breaks no rule, and otherwise reports the
    /// first rule it breaks together with `s`.
    pub fn parse(s: &str) -> (r: Result<SubscriberName, ValidationError>)
        ensures
            r is Ok <==> is_valid_name(s@),
            match r {
                Ok(name) => name@ == s@,
                Err(ValidationError::InvalidName { input, rule }) => input@ == s@
                    && name_violation(s@) == Some(rule),
                Err(ValidationError::InvalidEmail) => false,
            },
    {
        match broken_rule(s, count_graphemes(s)) {
            Some(rule) => Err(ValidationError::InvalidName { input: s.to_owned(), rule }),
            None => Ok(SubscriberName(s.to_owned())),
        }
    }

    /// The name as text. It is the string that was parsed, and it is valid.
    pub fn as_ref(&self) -> (s: &str)
        ensures
            s@ == self@,
            is_valid_name(s@),
    {
        proof {
            use_type_invariant(self);
        }
        self.0.as_str()
    }
}

} // verus!
