use vstd::prelude::*;
use vstd::string::StringExecFns;

verus! {

/// The rules a subscriber name has to meet, in the order in which a
/// violation is reported.
#[derive(Clone, Copy, Debug, PartialEq, Eq, Structural)]
pub enum NameRule {
    /// The name is empty or holds white space only.
    NotBlank,
    /// The name has more grapheme clusters than allowed.
    MaxLength,
    /// The name holds one of the forbidden characters.
    NoForbiddenCharacter,
}

/// Why a submitted value was turned down.
#[derive(Debug)]
pub enum ValidationError {
    /// The address is not a syntactically valid email address.
    InvalidEmail,
    /// The name breaks `rule`; `input` is the name as it was submitted.
    InvalidName { input: String, rule: NameRule },
}

/// [`ValidationError`] as mathematical values.
pub enum ValidationErrorView {
    InvalidEmail,
    InvalidName { input: Seq<char>, rule: NameRule },
}

impl View for ValidationError {
    type V = ValidationErrorView;

    open spec fn view(&self) -> ValidationErrorView {
        match self {
            ValidationError::InvalidEmail => ValidationErrorView::InvalidEmail,
            ValidationError::InvalidName { input, rule } => ValidationErrorView::InvalidName {
                input: input@,
                rule: *rule,
            },
        }
    }
}

/// The text of [`ValidationError::message`].
pub open spec fn error_message(e: ValidationErrorView) -> Seq<char> {
    match e {
        ValidationErrorView::InvalidEmail => "invalid email"@,
        ValidationErrorView::InvalidName { input, rule } => "Subscriber name "@ + input
            + " is invalid"@,
    }
}

impl ValidationError {
    /// A one-line description for logs and replies.
    pub fn message(&self) -> (m: String)
        ensures
            m@ == error_message(self@),
    {
        match self {
            ValidationError::InvalidEmail => String::from_str("invalid email"),
            ValidationError::InvalidName { input, rule } => {
                let mut m = String::from_str("Subscriber name ");
                m.append(input.as_str());
                m.append(" is invalid");
                m
            },
        }
    }
}

} // verus!
