use vstd::prelude::*;

use crate::utils::errors::ValidationErrors;

verus! {

/// What `validator::validate_email` answers for a string: whether it is an
/// email address.
pub uninterp spec fn email_is_valid(email: Seq<char>) -> bool;

/// The findings on a form whose only rule is that its email is an address.
pub open spec fn email_findings(email: Seq<char>) -> Seq<(Seq<char>, Option<Seq<Seq<char>>>)> {
    if email_is_valid(email) {
        Seq::empty()
    } else {
        seq![("email"@, Some(seq!["INVALID_EMAIL"@]))]
    }
}

/// Calls `validator::validate_email`, which holds the part before the last
/// `@` against the address pattern of HTML5 and the part after it against
/// the rules for a domain name or an address literal. Not proved: that the
/// answer is the named result.
#[verifier::external_body]
fn validate_email(email: &str) -> (r: bool)
    ensures
        r == email_is_valid(email@),
{
    validator::validate_email(email)
}

/// Reports whether an email passed: no findings, or the one finding on the
/// field `email`.
pub fn email_checked(passed: bool) -> (r: Result<(), ValidationErrors>)
    ensures
        match r {
            Ok(_) => passed,
            Err(errors) => !passed && errors@ == seq![("email"@, Some(seq!["INVALID_EMAIL"@]))],
        },
{
    if passed {
        Ok(())
    } else {
        let mut errors = ValidationErrors::new();
        errors.add("email", "INVALID_EMAIL");
        Err(errors)
    }
}

/// Validates a form whose only rule is that its email is an address.
pub fn check_email(email: &str) -> (r: Result<(), ValidationErrors>)
    ensures
        match r {
            Ok(_) => email_is_valid(email@),
            Err(errors) => !email_is_valid(email@) && errors@ == email_findings(email@),
        },
{
    email_checked(validate_email(email))
}

} // verus!
