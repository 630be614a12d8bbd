use crate::domain::error::ValidationError;
use validator::ValidateEmail;
use vstd::prelude::*;

verus! {

/// Whether `s` passes the email check of the `validator` crate
/// (`ValidateEmail::validate_email`, the address grammar of the HTML
/// standard).
pub uninterp spec fn email_syntax(s: Seq<char>) -> bool;

/// Whether `s` has an `@` that is not its first character, so that the part
/// before the last `@` is not empty.
pub open spec fn has_local_part(s: Seq<char>) -> bool {
    exists|i: int| 0 < i < s.len() && (#[trigger] s[i]) == '@'
}

/// Whether `s` has a `.` with no `@` after it: a dot in the part that
/// follows the last `@`.
pub open spec fn has_dotted_domain(s: Seq<char>) -> bool {
    exists|d: int|
        0 <= d < s.len() && (#[trigger] s[d]) == '.' && forall|j: int|
            d < j < s.len() ==> (#[trigger] s[j]) != '@'
}

/// A local part, an `@`, and a domain with at least one dot.
pub open spec fn has_address_shape(s: Seq<char>) -> bool {
    has_local_part(s) && has_dotted_domain(s)
}

/// Whether `s` is admitted as an address, where `syntax` says whether it
/// passes the email check. The check alone is not enough: its grammar lets
/// a domain do without a dot, as in `ursula@localhost`, and such an address
/// is not admitted.
pub open spec fn admits(s: Seq<char>, syntax: bool) -> bool {
    syntax && has_address_shape(s)
}

/// The addresses that [`SubscriberEmail`] admits.
pub open spec fn is_valid_email(s: Seq<char>) -> bool {
    admits(s, email_syntax(s))
}

/// An address has an `@`: a string without one is not valid. The empty
/// string is such a string.
pub proof fn address_needs_an_at(s: Seq<char>)
    requires
        forall|i: int| 0 <= i < s.len() ==> (#[trigger] s[i]) != '@',
    ensures
        !is_valid_email(s),
{
}

/// An address has a local part: a string whose only `@` is its first
/// character is not valid.
pub proof fn address_needs_a_local_part(s: Seq<char>)
    requires
        forall|i: int| 0 < i < s.len() ==> (#[trigger] s[i]) != '@',
    ensures
        !is_valid_email(s),
{
}

/// An address has a dot in its domain: a string with no `.` after its last
/// `@` is not valid.
pub proof fn address_needs_a_dotted_domain(s: Seq<char>, at: int)
    requires
        0 <= at < s.len(),
        s[at] == '@',
        forall|i: int| at < i < s.len() ==> (#[trigger] s[i]) != '.',
    ensures
        !is_valid_email(s),
{
}

/// How one more character changes [`has_local_part`].
proof fn local_part_step(p: Seq<char>, c: char)
    ensures
        has_local_part(p.push(c)) == (has_local_part(p) || (p.len() > 0 && c == '@')),
{
    let q = p.push(c);
    if has_local_part(p) {
        let i = choose|i: int| 0 < i < p.len() && (#[trigger] p[i]) == '@';
        assert(q[i] == '@');
    }
    if p.len() > 0 && c == '@' {
        assert(q[p.len() as int] == '@');
    }
}

/// How one more character changes [`has_dotted_domain`].
proof fn dotted_domain_step(p: Seq<char>, c: char)
    ensures
        has_dotted_domain(p.push(c)) == if c == '@' {
            false
        } else if c == '.' {
            true
        } else {
            has_dotted_domain(p)
        },
{
    let q = p.push(c);
    let n = p.len() as int;
    if has_dotted_domain(q) {
        let d = choose|d: int|
            0 <= d < q.len() && (#[trigger] q[d]) == '.' && forall|j: int|
                d < j < q.len() ==> (#[trigger] q[j]) != '@';
        if d < n {
            assert(q[n] != '@');
            assert forall|j: int| d < j < p.len() implies (#[trigger] p[j]) != '@' by {
                assert(q[j] != '@');
            }
        }
    }
    if c == '.' {
        assert(q[n] == '.');
    }
    if c != '@' && has_dotted_domain(p) {
        let d = choose|d: int|
            0 <= d < p.len() && (#[trigger] p[d]) == '.' && forall|j: int|
                d < j < p.len() ==> (#[trigger] p[j]) != '@';
        assert(q[d] == '.');
        assert forall|j: int| d < j < q.len() implies (#[trigger] q[j]) != '@' by {}
    }
}

/// Trusted: `validator::ValidateEmail::validate_email` on a string slice
/// says whether the string is an email address by the crate's grammar. The
/// answer depends on the characters of `s` alone.
#[verifier::external_body]
fn check_email_syntax(s: &str) -> (ok: bool)
    ensures
        ok == email_syntax(s@),
{
    ValidateEmail::validate_email(&s)
}

/// Whether `s` has a local part, an `@` and a dotted domain.
pub fn address_shape(s: &str) -> (b: bool)
    ensures
        b == has_address_shape(s@),
{
    let mut local: bool = false;
    let mut dotted: bool = false;
    let mut first: bool = true;
    for c in it: s.chars()
        invariant
            it.seq() == s@,
            first == (it.index() == 0),
            local == has_local_part(s@.take(it.index() as int)),
            dotted == has_dotted_domain(s@.take(it.index() as int)),
    {
        proof {
            let k = it.index() as int;
            assert(s@.take(k + 1) =~= s@.take(k).push(c));
            local_part_step(s@.take(k), c);
            dotted_domain_step(s@.take(k), c);
        }
        if c == '@' {
            if !first {
                local = true;
            }
            dotted = false;
        } else if c == '.' {
            dotted = true;
        }
        first = false;
    }
    proof {
        assert(s@.take(s@.len() as int) =~= s@);
    }
    local && dotted
}

/// Whether `s` is admitted as an address, where `syntax` is taken as the
/// answer of the email check.
pub fn admitted(s: &str, syntax: bool) -> (b: bool)
    ensures
        b == admits(s@, syntax),
{
    let shape = address_shape(s);
    syntax && shape
}

/// The email address of a subscriber or of the sender: always a valid
/// address.
#[derive(Debug)]
pub struct SubscriberEmail(String);

impl View for SubscriberEmail {
    type V = Seq<char>;

    closed spec fn view(&self) -> Seq<char> {
        self.0@
    }
}

impl Clone for SubscriberEmail {
    fn clone(&self) -> (copy: SubscriberEmail)
        ensures
            copy@ == self@,
    {
        proof {
            use_type_invariant(self);
        }
        SubscriberEmail(self.0.clone())
    }
}

impl SubscriberEmail {
    #[verifier::type_invariant]
    spec fn valid(&self) -> bool {
        is_valid_email(self.0@)
    }

    /// Accepts `s` if it is a valid email address.
    pub fn parse(s: String) -> (r: Result<SubscriberEmail, ValidationError>)
        ensures
            r is Ok <==> is_valid_email(s@),
            match r {
                Ok(email) => email@ == s@,
                Err(e) => e is InvalidEmail,
            },
    {
        let syntax = check_email_syntax(s.as_str());
        if admitted(s.as_str(), syntax) {
            Ok(SubscriberEmail(s))
        } else {
            Err(ValidationError::InvalidEmail)
        }
    }

    /// The address as text. It is the string that was parsed, and it is
    /// valid.
    pub fn as_ref(&self) -> (s: &str)
        ensures
            s@ == self@,
            is_valid_email(s@),
    {
        proof {
            use_type_invariant(self);
        }
        self.0.as_str()
    }
}

} // verus!
