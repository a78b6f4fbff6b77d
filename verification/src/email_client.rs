//! The shape of what is handed to the email gateway: one message per
//! recipient, and the request body the gateway's API expects.

use crate::domain::SubscriberEmail;
use vstd::prelude::*;

verus! {

/// One side of a message: an address and an optional display name.
#[derive(Debug)]
pub struct EmailInfo {
    pub email: String,
    pub name: String,
}

/// The request body the gateway's send endpoint takes.
#[derive(Debug)]
pub struct SendEmailRequest {
    pub from: EmailInfo,
    pub to: Vec<EmailInfo>,
    pub subject: String,
    pub text: String,
    pub html: String,
    pub category: String,
}

/// A fully prepared outbound message: the recipient and the three content
/// fields of one gateway send.
#[derive(Debug)]
pub struct OutboundEmail {
    pub recipient: SubscriberEmail,
    pub subject: String,
    pub html: String,
    pub text: String,
}

/// Assemble the gateway request body for one message from `sender` to the
/// message's recipient; the sender and recipient carry no display name and
/// no category is set.
pub fn build_send_email_request(sender: &SubscriberEmail, email: &OutboundEmail) -> (r:
    SendEmailRequest)
    ensures
        r.from.email@ == sender@,
        r.from.name@.len() == 0,
        r.to@.len() == 1,
        r.to@[0].email@ == email.recipient@,
        r.to@[0].name@.len() == 0,
        r.subject@ == email.subject@,
        r.text@ == email.text@,
        r.html@ == email.html@,
        r.category@.len() == 0,
{
    let from = EmailInfo { email: String::from_str(sender.as_ref()), name: String::new() };
    let mut to: Vec<EmailInfo> = Vec::new();
    to.push(EmailInfo { email: String::from_str(email.recipient.as_ref()), name: String::new() });
    SendEmailRequest {
        from: from,
        to: to,
        subject: email.subject.clone(),
        text: email.text.clone(),
        html: email.html.clone(),
        category: String::new(),
    }
}

} // verus!
