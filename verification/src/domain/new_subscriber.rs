//! The validated pair of email address and display name that a registration
//! form submits.

use crate::domain::{SubscriberEmail, SubscriberName};
use crate::routes::subscriptions::FormData;
use vstd::prelude::*;

verus! {

/// A registration whose fields both passed validation.
#[derive(Debug)]
pub struct NewSubscriber {
    pub email: SubscriberEmail,
    pub name: SubscriberName,
}

impl NewSubscriber {
    pub open spec fn wf(&self) -> bool {
        self.email.wf() && self.name.wf()
    }

    /// Validate a submitted form, name first, then email; the first failure
    /// is reported.
    pub fn try_from(form: FormData) -> (r: Result<NewSubscriber, String>)
        ensures
            r is Ok <==> crate::domain::name_ok(form.name@) && crate::domain::email_ok(
                form.email@,
            ),
            r matches Ok(n) ==> n.email@ == form.email@ && n.name@ == form.name@ && n.wf(),
            r matches Err(m) ==> if !crate::domain::name_ok(form.name@) {
                m@ == form.name@ + " is not a valid subscriber name"@
            } else {
                m@ == "'"@ + form.email@ + "' is not a valid subscriber email"@
            },
    {
        let name = match SubscriberName::try_from(form.name) {
            Ok(n) => n,
            Err(m) => {
                return Err(m);
            },
        };
        let email = match SubscriberEmail::try_from(form.email) {
            Ok(e) => e,
            Err(m) => {
                return Err(m);
            },
        };
        Ok(NewSubscriber { email, name })
    }
}

} // verus!
