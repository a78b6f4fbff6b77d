//! Runtime environment selection and the application-level settings that the
//! core depends on.

use crate::strutil::str_eq;
use vstd::prelude::*;

verus! {

/// What `str::to_lowercase` yields: the Unicode lowercase mapping of the
/// string, a function of its characters alone.
pub uninterp spec fn lower_of(s: Seq<char>) -> Seq<char>;

/// Relies on `str::to_lowercase` for the Unicode lowercase mapping.
#[verifier::external_body]
fn lowercase(s: &str) -> (r: String)
    ensures
        r@ == lower_of(s@),
{
    s.to_lowercase()
}

/// The environment the application runs in, selecting which configuration
/// profile applies.
#[derive(Debug)]
pub enum Environment {
    Local,
    Production,
}

impl Environment {
    /// Canonical name of the environment.
    pub fn as_str(&self) -> (r: &'static str)
        ensures
            self is Local ==> r@ == "local"@,
            self is Production ==> r@ == "production"@,
    {
        match self {
            Environment::Local => "local",
            Environment::Production => "production",
        }
    }

    /// Read an environment name, case-insensitively; anything but the two
    /// known names is rejected with a message naming the lowercased input.
    pub fn try_from(s: String) -> (r: Result<Environment, String>)
        ensures
            lower_of(s@) == "local"@ ==> (r matches Ok(e) && e is Local),
            lower_of(s@) == "production"@ ==> (r matches Ok(e) && e is Production),
            lower_of(s@) != "local"@ && lower_of(s@) != "production"@ ==> (r matches Err(m) && m@
                == lower_of(s@) + " is not a valid environment"@),
    {
        proof {
            reveal_strlit("local");
            reveal_strlit("production");
            assert("local"@.len() == 5);
            assert("production"@.len() == 10);
            assert("local"@ != "production"@);
        }
        let lowered = lowercase(s.as_str());
        if str_eq(lowered.as_str(), "local") {
            Ok(Environment::Local)
        } else if str_eq(lowered.as_str(), "production") {
            Ok(Environment::Production)
        } else {
            let mut message = lowered;
            message.append(" is not a valid environment");
            Err(message)
        }
    }
}

/// Network settings of the HTTP listener.
pub struct ApplicationSettings {
    pub host: String,
    pub port: u16,
}

} // verus!
