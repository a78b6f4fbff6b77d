//! The authenticated newsletter broadcast: credential checking, the read of
//! the confirmed subscribers, and the per-recipient dispatch plan with
//! defective rows skipped.

use crate::auth::{
    basic_auth_spec, validate_credentials, parse_basic_auth, validate_spec, AuthCheck,
    CredentialStore,
};
use crate::domain::{email_ok, SubscriberEmail};
use crate::email_client::OutboundEmail;
use crate::store::{StoreModel, SubscriberModel, SubscriberStatus, SubscriberStore};
use vstd::prelude::*;

verus! {

/// The JSON body a publish request carries.
pub struct BodyData {
    pub title: String,
    pub content: Content,
}

/// The two renderings of the newsletter issue.
pub struct Content {
    pub html: String,
    pub text: String,
}

/// Why a publish failed.
#[derive(Debug)]
pub enum PublishError {
    /// The caller could not be authenticated; the payload is the causal
    /// chain of messages, outermost first.
    AuthError(Vec<String>),
    /// A storage or delivery step failed; the payload is the causal chain.
    UnexpectedError(Vec<String>),
}

/// The HTTP status a publish failure maps to.
pub open spec fn publish_status(e: PublishError) -> int {
    match e {
        PublishError::AuthError(_) => 401,
        PublishError::UnexpectedError(_) => 500,
    }
}

/// The response a publish failure is rendered as: the status, and for an
/// authentication failure the challenge header.
pub struct ErrorResponse {
    pub status_code: u16,
    pub headers: Vec<(String, String)>,
}

impl PublishError {
    pub fn status_code(&self) -> (r: u16)
        ensures
            r == publish_status(*self),
    {
        match self {
            PublishError::AuthError(_) => 401,
            PublishError::UnexpectedError(_) => 500,
        }
    }

    /// Render the failure: an authentication failure is a 401 carrying
    /// exactly the challenge `WWW-Authenticate: Basic realm="publish"`; an
    /// unexpected failure is a bare 500.
    pub fn error_response(&self) -> (r: ErrorResponse)
        ensures
            r.status_code == publish_status(*self),
            *self matches PublishError::AuthError(_) ==> r.headers@.len() == 1 && r.headers@[0].0@
                == "WWW-Authenticate"@ && r.headers@[0].1@ == "Basic realm=\"publish\""@,
            *self matches PublishError::UnexpectedError(_) ==> r.headers@.len() == 0,
    {
        match self {
            PublishError::UnexpectedError(_) => {
                ErrorResponse { status_code: 500, headers: Vec::new() }
            },
            PublishError::AuthError(_) => {
                let mut headers: Vec<(String, String)> = Vec::new();
                headers.push(
                    (
                        String::from_str("WWW-Authenticate"),
                        String::from_str("Basic realm=\"publish\""),
                    ),
                );
                ErrorResponse { status_code: 401, headers }
            },
        }
    }
}

/// A subscriber the broadcast will reach: a confirmed row whose stored
/// email still parses as a valid address.
pub struct ConfirmedSubscriber {
    pub email: SubscriberEmail,
}

/// The confirmed rows of the store, in storage order.
pub open spec fn confirmed_rows(m: StoreModel) -> Seq<SubscriberModel> {
    m.subscribers.filter(|s: SubscriberModel| s.status is Confirmed)
}

/// Read the confirmed subscribers, re-validating each stored email
/// defensively: a row whose email no longer parses yields the validation
/// message instead of an address.
pub fn get_confirmed_subscribers(store: &SubscriberStore) -> (r: Vec<
    Result<ConfirmedSubscriber, String>,
>)
    ensures
        r@.len() == confirmed_rows(store@).len(),
        forall|k: int|
            0 <= k < r@.len() ==> match #[trigger] r@[k] {
                Ok(c) => email_ok(confirmed_rows(store@)[k].email) && c.email@ == confirmed_rows(
                    store@,
                )[k].email,
                Err(message) => !email_ok(confirmed_rows(store@)[k].email) && message@ == "'"@
                    + confirmed_rows(store@)[k].email + "' is not a valid subscriber email"@,
            },
{
    let subscribers = store.subscribers();
    let n = subscribers.len();
    let ghost subs = store@.subscribers;
    let ghost pred = |s: SubscriberModel| s.status is Confirmed;
    let mut r: Vec<Result<ConfirmedSubscriber, String>> = Vec::new();
    proof {
        reveal_with_fuel(Seq::<_>::filter, 1);
        assert(subs.take(0).filter(pred) =~= Seq::<SubscriberModel>::empty());
        assert(confirmed_rows(store@) == subs.filter(pred));
    }
    let mut i: usize = 0;
    #[verifier::loop_isolation(false)]
    while i < n
        invariant
            0 <= i <= n,
            r@.len() == subs.take(i as int).filter(pred).len(),
            forall|k: int|
                0 <= k < r@.len() ==> match #[trigger] r@[k] {
                    Ok(c) => email_ok(subs.take(i as int).filter(pred)[k].email) && c.email@
                        == subs.take(i as int).filter(pred)[k].email,
                    Err(message) => !email_ok(subs.take(i as int).filter(pred)[k].email)
                        && message@ == "'"@ + subs.take(i as int).filter(pred)[k].email
                        + "' is not a valid subscriber email"@,
                },
        decreases n - i,
    {
        reveal_with_fuel(Seq::<_>::filter, 1);
        let row = &subscribers[i];
        proof {
            assert(row@ == subs[i as int]);
        }
        match row.status {
            SubscriberStatus::Confirmed => {
                match SubscriberEmail::try_from(row.email.clone()) {
                    Ok(email) => {
                        r.push(Ok(ConfirmedSubscriber { email }));
                    },
                    Err(message) => {
                        r.push(Err(message));
                    },
                }
            },
            SubscriberStatus::PendingConfirmation => {},
        }
        proof {
            assert(subs.take(i + 1).drop_last() =~= subs.take(i as int));
            assert(subs.take(i + 1).last() == subs[i as int]);
        }
        i = i + 1;
    }
    proof {
        assert(subs.take(n as int) =~= subs);
    }
    r
}

/// The addresses one broadcast goes out to: the stored emails of the
/// confirmed rows that still parse, in storage order.
pub open spec fn newsletter_recipients(m: StoreModel) -> Seq<Seq<char>> {
    confirmed_rows(m).filter(|s: SubscriberModel| email_ok(s.email)).map_values(
        |s: SubscriberModel| s.email,
    )
}

/// Authenticate the caller and lay out the broadcast: one prepared message
/// per confirmed subscriber with a valid stored address, in storage order,
/// each carrying the issue's title and both bodies. Rows that fail the
/// defensive email re-validation are skipped, and the publish still
/// succeeds.
pub fn publish_newsletter(
    store: &SubscriberStore,
    credential_store: &CredentialStore,
    authorization: Option<&str>,
    body: &BodyData,
) -> (r: Result<Vec<OutboundEmail>, PublishError>)
    requires
        credential_store.wf(),
    ensures
        match basic_auth_spec(
            match authorization {
                Some(h) => Some(h@),
                None => None,
            },
        ) {
            Err(message) => r matches Err(PublishError::AuthError(chain)) && chain@.len() == 1
                && chain@[0]@ == message,
            Ok((username, password)) => match validate_spec(
                credential_store@,
                username,
                password,
            ) {
                AuthCheck::Authorized(_) => r matches Ok(plan) && {
                    &&& plan@.len() == newsletter_recipients(store@).len()
                    &&& forall|k: int|
                        0 <= k < plan@.len() ==> {
                            &&& (#[trigger] plan@[k]).recipient@ == newsletter_recipients(
                                store@,
                            )[k]
                            &&& plan@[k].subject@ == body.title@
                            &&& plan@[k].html@ == body.content.html@
                            &&& plan@[k].text@ == body.content.text@
                        }
                },
                AuthCheck::InvalidCredentials => r matches Err(PublishError::AuthError(chain))
                    && chain@.len() == 1 && chain@[0]@ == crate::auth::invalid_credentials_message(
                    credential_store@,
                    username,
                    password,
                ),
                AuthCheck::MalformedStoredHash => r matches Err(
                    PublishError::UnexpectedError(chain),
                ) && chain@.len() == 1 && chain@[0]@
                    == "Failed to parse hash in PHC string format."@,
            },
        },
{
    let credentials = match parse_basic_auth(authorization) {
        Ok(c) => c,
        Err(e) => {
            return Err(e);
        },
    };
    match validate_credentials(&credentials, credential_store) {
        Ok(_user_id) => {},
        Err(e) => {
            return Err(e);
        },
    }
    let subscribers = get_confirmed_subscribers(store);
    let n = subscribers.len();
    let ghost conf = confirmed_rows(store@);
    let ghost valid = |s: SubscriberModel| email_ok(s.email);
    let mut plan: Vec<OutboundEmail> = Vec::new();
    proof {
        reveal_with_fuel(Seq::<_>::filter, 1);
        assert(conf.take(0).filter(valid) =~= Seq::<SubscriberModel>::empty());
    }
    let mut i: usize = 0;
    #[verifier::loop_isolation(false)]
    while i < n
        invariant
            0 <= i <= n,
            plan@.len() == conf.take(i as int).filter(valid).len(),
            forall|k: int|
                0 <= k < plan@.len() ==> {
                    &&& (#[trigger] plan@[k]).recipient@ == conf.take(i as int).filter(
                        valid,
                    )[k].email
                    &&& plan@[k].subject@ == body.title@
                    &&& plan@[k].html@ == body.content.html@
                    &&& plan@[k].text@ == body.content.text@
                },
        decreases n - i,
    {
        reveal_with_fuel(Seq::<_>::filter, 1);
        match &subscribers[i] {
            Ok(subscriber) => {
                let recipient = match SubscriberEmail::try_from(
                    String::from_str(subscriber.email.as_ref()),
                ) {
                    Ok(e) => e,
                    Err(_) => vstd::pervasive::unreached(),
                };
                plan.push(
                    OutboundEmail {
                        recipient: recipient,
                        subject: body.title.clone(),
                        html: body.content.html.clone(),
                        text: body.content.text.clone(),
                    },
                );
            },
            Err(_skipped) => {},
        }
        proof {
            assert(conf.take(i + 1).drop_last() =~= conf.take(i as int));
            assert(conf.take(i + 1).last() == conf[i as int]);
        }
        i = i + 1;
    }
    proof {
        assert(conf.take(n as int) =~= conf);
        assert(newsletter_recipients(store@) == conf.filter(valid).map_values(
            |s: SubscriberModel| s.email,
        ));
        assert forall|k: int| 0 <= k < plan@.len() implies (#[trigger] plan@[k]).recipient@
            == newsletter_recipients(store@)[k] by {
            assert(newsletter_recipients(store@)[k] == conf.filter(valid)[k].email);
        }
    }
    Ok(plan)
}

/// A subscriber one broadcast serves: confirmed, with a stored email that
/// still parses as a valid address.
pub open spec fn deliverable(s: SubscriberModel) -> bool {
    s.status is Confirmed && email_ok(s.email)
}

/// How many subscribers one broadcast serves.
pub open spec fn count_deliverable(subs: Seq<SubscriberModel>) -> nat
    decreases subs.len(),
{
    if subs.len() == 0 {
        0
    } else {
        (if deliverable(subs.last()) {
            1nat
        } else {
            0nat
        }) + count_deliverable(subs.drop_last())
    }
}

proof fn lemma_newsletter_targets_rec(m: StoreModel)
    ensures
        newsletter_recipients(m).len() == count_deliverable(m.subscribers),
        forall|e: Seq<char>|
            #[trigger] newsletter_recipients(m).contains(e) <==> exists|i: int|
                0 <= i < m.subscribers.len() && deliverable(#[trigger] m.subscribers[i])
                    && m.subscribers[i].email == e,
    decreases m.subscribers.len(),
{
    reveal_with_fuel(Seq::<_>::filter, 2);
    let subs = m.subscribers;
    let cpred = |s: SubscriberModel| s.status is Confirmed;
    let vpred = |s: SubscriberModel| email_ok(s.email);
    let emailf = |s: SubscriberModel| s.email;
    if subs.len() == 0 {
        assert(newsletter_recipients(m) =~= Seq::<Seq<char>>::empty());
    } else {
        let m0 = StoreModel { subscribers: subs.drop_last(), tokens: m.tokens, next_id: m.next_id };
        lemma_newsletter_targets_rec(m0);
        let last = subs.last();
        let rec0 = newsletter_recipients(m0);
        let rec = newsletter_recipients(m);
        let n = subs.len() as int;
        if cpred(last) && vpred(last) {
            assert(confirmed_rows(m) == confirmed_rows(m0).push(last));
            assert(confirmed_rows(m0).push(last).drop_last() =~= confirmed_rows(m0));
            assert(confirmed_rows(m).filter(vpred) == confirmed_rows(m0).filter(vpred).push(last));
            assert(rec =~= rec0.push(last.email));
            assert(rec.len() == count_deliverable(subs));
            assert forall|e: Seq<char>| #[trigger] rec.contains(e) implies exists|i: int|
                0 <= i < n && deliverable(#[trigger] subs[i]) && subs[i].email == e by {
                let w = choose|w: int| 0 <= w < rec.len() && rec[w] == e;
                if w < rec0.len() {
                    assert(rec0.contains(e));
                    let i = choose|i: int|
                        0 <= i < m0.subscribers.len() && deliverable(#[trigger] m0.subscribers[i])
                            && m0.subscribers[i].email == e;
                    assert(deliverable(subs[i]) && subs[i].email == e);
                } else {
                    assert(e == last.email);
                    assert(deliverable(subs[n - 1]) && subs[n - 1].email == e);
                }
            }
            assert forall|e: Seq<char>|
                (exists|i: int|
                    0 <= i < n && deliverable(#[trigger] subs[i]) && subs[i].email
                        == e) implies #[trigger] rec.contains(e) by {
                let i = choose|i: int|
                    0 <= i < n && deliverable(#[trigger] subs[i]) && subs[i].email == e;
                if i < n - 1 {
                    assert(deliverable(m0.subscribers[i]) && m0.subscribers[i].email == e);
                    assert(rec0.contains(e));
                    let w = choose|w: int| 0 <= w < rec0.len() && rec0[w] == e;
                    assert(rec[w] == e);
                } else {
                    assert(rec[rec.len() - 1] == e);
                }
            }
        } else {
            if cpred(last) {
                assert(confirmed_rows(m) == confirmed_rows(m0).push(last));
                assert(confirmed_rows(m0).push(last).drop_last() =~= confirmed_rows(m0));
                assert(confirmed_rows(m).filter(vpred) == confirmed_rows(m0).filter(vpred));
            } else {
                assert(confirmed_rows(m) == confirmed_rows(m0));
            }
            assert(rec =~= rec0);
            assert(!deliverable(last));
            assert(rec.len() == count_deliverable(subs));
            assert forall|e: Seq<char>| #[trigger] rec.contains(e) implies exists|i: int|
                0 <= i < n && deliverable(#[trigger] subs[i]) && subs[i].email == e by {
                assert(rec0.contains(e));
                let i = choose|i: int|
                    0 <= i < m0.subscribers.len() && deliverable(#[trigger] m0.subscribers[i])
                        && m0.subscribers[i].email == e;
                assert(deliverable(subs[i]) && subs[i].email == e);
            }
            assert forall|e: Seq<char>|
                (exists|i: int|
                    0 <= i < n && deliverable(#[trigger] subs[i]) && subs[i].email
                        == e) implies #[trigger] rec.contains(e) by {
                let i = choose|i: int|
                    0 <= i < n && deliverable(#[trigger] subs[i]) && subs[i].email == e;
                assert(i < n - 1);
                assert(deliverable(m0.subscribers[i]) && m0.subscribers[i].email == e);
                assert(rec0.contains(e));
            }
        }
    }
}

/// One broadcast reaches exactly the deliverable subscribers: the plan has
/// one entry per confirmed subscriber whose stored address is valid, an
/// address appears in it exactly when such a subscriber carries it, and a
/// pending subscriber or a skipped defective row contributes nothing.
pub proof fn lemma_newsletter_targets(m: StoreModel)
    ensures
        newsletter_recipients(m).len() == count_deliverable(m.subscribers),
        forall|e: Seq<char>|
            #[trigger] newsletter_recipients(m).contains(e) <==> exists|i: int|
                0 <= i < m.subscribers.len() && deliverable(#[trigger] m.subscribers[i])
                    && m.subscribers[i].email == e,
{
    lemma_newsletter_targets_rec(m);
}

/// A publish without an `Authorization` header is refused before anything
/// else happens, and every authentication failure is answered with 401;
/// `PublishError::error_response` pins the challenge header that goes with
/// it.
pub proof fn lemma_missing_authorization_unauthorized()
    ensures
        basic_auth_spec(None) == Err::<(Seq<char>, Seq<char>), Seq<char>>(
            "The 'Authorization' header was missing"@,
        ),
        forall|e: PublishError| e is AuthError ==> publish_status(e) == 401,
{
}

/// The message an aborted delivery is reported with, naming the failing
/// recipient.
pub fn delivery_error(recipient: &SubscriberEmail) -> (r: PublishError)
    ensures
        r matches PublishError::UnexpectedError(chain) && chain@.len() == 1 && chain@[0]@
            == "Failed to send newsletter issue to "@ + recipient@,
{
    let mut message = String::from_str("Failed to send newsletter issue to ");
    message.append(recipient.as_ref());
    let mut chain: Vec<String> = Vec::new();
    chain.push(message);
    PublishError::UnexpectedError(chain)
}

} // verus!
