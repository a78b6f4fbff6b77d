//! A subscriber's email address, validated against the HTML5 notion of a
//! valid email address.

use validator::ValidateEmail;
use vstd::prelude::*;

verus! {

/// Whether a string is a valid email address under the HTML5 rules that the
/// `validator` crate implements. The verdict is a function of the characters
/// alone.
pub uninterp spec fn email_ok(s: Seq<char>) -> bool;

/// Relies on `validator::ValidateEmail::validate_email` for `&str`: the HTML5
/// email shape check (non-empty local part, `@`, valid domain part).
#[verifier::external_body]
fn email_is_valid(s: &str) -> (r: bool)
    ensures
        r == email_ok(s@),
{
    s.validate_email()
}

/// An email address that passed validation on construction.
#[derive(Debug)]
pub struct SubscriberEmail {
    email: String,
}

impl View for SubscriberEmail {
    type V = Seq<char>;

    closed spec fn view(&self) -> Seq<char> {
        self.email@
    }
}

impl SubscriberEmail {
    /// The characters a valid address is made of.
    pub open spec fn wf(&self) -> bool {
        email_ok(self@)
    }

    /// Accept `value` as a subscriber email, or report why it is not one.
    pub fn try_from(value: String) -> (r: Result<SubscriberEmail, String>)
        ensures
            r is Ok <==> email_ok(value@),
            r matches Ok(e) ==> e@ == value@ && e.wf(),
            r matches Err(m) ==> m@ == "'"@ + value@ + "' is not a valid subscriber email"@,
    {
        if email_is_valid(value.as_str()) {
            Ok(SubscriberEmail { email: value })
        } else {
            let mut message = String::from_str("'");
            message.append(value.as_str());
            message.append("' is not a valid subscriber email");
            Err(message)
        }
    }

    /// The underlying string.
    pub fn as_ref(&self) -> (r: &str)
        ensures
            r@ == self@,
    {
        self.email.as_str()
    }
}

} // verus!
