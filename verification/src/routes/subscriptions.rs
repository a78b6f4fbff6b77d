//! Registration of a new subscriber: validation, the atomic commit of the
//! subscriber row together with its confirmation token, and the prepared
//! confirmation email.

use crate::domain::{email_ok, name_ok, NewSubscriber};
use crate::email_client::OutboundEmail;
use crate::startup::ApplicationBaseUrl;
use crate::store::{
    has_token, register_transition, StoreError, StoreModel, SubscriberStore,
};
use rand::RngExt;
use vstd::prelude::*;

verus! {

/// The form a registration submits.
pub struct FormData {
    pub email: String,
    pub name: String,
}

/// Why a registration failed.
#[derive(Debug)]
pub enum SubscribeError {
    /// The submitted form is invalid; the payload says why, verbatim.
    ValidationError(String),
    /// A storage or delivery step failed; the payload is the causal chain of
    /// messages, outermost first.
    UnexpectedError(Vec<String>),
}

/// The HTTP status a registration failure maps to.
pub open spec fn subscribe_status(e: SubscribeError) -> int {
    match e {
        SubscribeError::ValidationError(_) => 400,
        SubscribeError::UnexpectedError(_) => 500,
    }
}

impl SubscribeError {
    pub fn status_code(&self) -> (r: u16)
        ensures
            r == subscribe_status(*self),
    {
        match self {
            SubscribeError::ValidationError(_) => 400,
            SubscribeError::UnexpectedError(_) => 500,
        }
    }
}

/// One rendered cause line per entry: `Cause by:\n\t <message>\n`.
pub open spec fn cause_lines(causes: Seq<Seq<char>>) -> Seq<char>
    decreases causes.len(),
{
    if causes.len() == 0 {
        Seq::empty()
    } else {
        "Cause by:\n\t "@ + causes[0] + "\n"@ + cause_lines(causes.skip(1))
    }
}

/// The rendering of a whole causal chain: the error itself on the first
/// line, then one line per cause.
pub open spec fn chain_format(chain: Seq<Seq<char>>) -> Seq<char>
    recommends
        chain.len() > 0,
{
    chain[0] + "\n"@ + cause_lines(chain.skip(1))
}

proof fn lemma_cause_lines_snoc(causes: Seq<Seq<char>>, last: Seq<char>)
    ensures
        cause_lines(causes.push(last)) == cause_lines(causes) + "Cause by:\n\t "@ + last + "\n"@,
    decreases causes.len(),
{
    let p = causes.push(last);
    if causes.len() == 0 {
        assert(p[0] == last);
        assert(p.skip(1) =~= Seq::<Seq<char>>::empty());
        assert(cause_lines(p.skip(1)) == Seq::<char>::empty());
        assert(cause_lines(p) == "Cause by:\n\t "@ + last + "\n"@ + Seq::<char>::empty());
        assert(cause_lines(p) =~= cause_lines(causes) + "Cause by:\n\t "@ + last + "\n"@);
    } else {
        assert(p[0] == causes[0]);
        assert(p.skip(1) =~= causes.skip(1).push(last));
        lemma_cause_lines_snoc(causes.skip(1), last);
        assert(cause_lines(p) == "Cause by:\n\t "@ + causes[0] + "\n"@ + (cause_lines(
            causes.skip(1),
        ) + "Cause by:\n\t "@ + last + "\n"@));
        assert(cause_lines(p) =~= cause_lines(causes) + "Cause by:\n\t "@ + last + "\n"@);
    }
}

/// Render a causal chain of error messages, outermost first, in the format
/// used for diagnostic logging.
pub fn error_chain_fmt(chain: &Vec<String>) -> (r: String)
    requires
        chain@.len() > 0,
    ensures
        r@ == chain_format(chain.deep_view()),
{
    let ghost dv = chain.deep_view();
    let mut r = chain[0].clone();
    r.append("\n");
    let mut i: usize = 1;
    while i < chain.len()
        invariant
            dv == chain.deep_view(),
            dv.len() == chain@.len(),
            forall|j: int| 0 <= j < dv.len() ==> dv[j] == #[trigger] chain@[j]@,
            1 <= i <= chain@.len(),
            r@ == dv[0] + "\n"@ + cause_lines(dv.skip(1).take(i - 1)),
        decreases chain@.len() - i,
    {
        r.append("Cause by:\n\t ");
        r.append(chain[i].as_str());
        r.append("\n");
        proof {
            assert(dv.skip(1).take(i as int) =~= dv.skip(1).take(i - 1).push(dv[i as int]));
            lemma_cause_lines_snoc(dv.skip(1).take(i - 1), dv[i as int]);
        }
        i = i + 1;
    }
    proof {
        assert(dv.skip(1).take(i - 1) =~= dv.skip(1));
    }
    r
}

/// Characters a subscription token is drawn from: case-sensitive
/// alphanumerics.
pub open spec fn token_char(c: char) -> bool {
    ('0' <= c && c <= '9') || ('a' <= c && c <= 'z') || ('A' <= c && c <= 'Z')
}

/// Length of a subscription token.
pub const TOKEN_LENGTH: usize = 25;

/// A well-formed subscription token: exactly 25 case-sensitive alphanumeric
/// characters.
pub open spec fn token_valid(s: Seq<char>) -> bool {
    s.len() == TOKEN_LENGTH && (forall|i: int| 0 <= i < s.len() ==> token_char(#[trigger] s[i]))
}

/// Relies on rand's thread-local generator with the `Alphanumeric`
/// distribution, which yields bytes from `A-Z a-z 0-9`; nothing is assumed
/// about which characters come out beyond the alphabet and the count.
#[verifier::external_body]
fn sample_alphanumeric(len: usize) -> (r: String)
    ensures
        r@.len() == len,
        forall|i: int| 0 <= i < r@.len() ==> token_char(#[trigger] r@[i]),
{
    let mut rng = rand::rng();
    std::iter::repeat_with(|| rng.sample(rand::distr::Alphanumeric))
        .map(char::from)
        .take(len)
        .collect()
}

/// Generate a random 25-characters-long case-sensitive subscription token.
pub fn generate_subscription_token() -> (t: String)
    ensures
        token_valid(t@),
{
    sample_alphanumeric(TOKEN_LENGTH)
}

/// What joining the fixed confirmation path and the token query parameter
/// onto `base` serializes to; `None` when `base` does not parse as a base
/// URL. A function of the two strings alone.
pub uninterp spec fn confirm_link(base: Seq<char>, token: Seq<char>) -> Option<Seq<char>>;

/// Relies on `url::Url::parse`, `Url::join` and `Url::query_pairs_mut` to
/// build the confirmation link; the serialized result depends on the two
/// arguments alone.
#[verifier::external_body]
fn create_confirmation_link(base_url: &str, subscription_token: &str) -> (r: Option<String>)
    ensures
        r is Some <==> confirm_link(base_url@, subscription_token@) is Some,
        r matches Some(link) ==> confirm_link(base_url@, subscription_token@) == Some(link@),
{
    let base = match url::Url::parse(base_url) {
        Ok(u) => u,
        Err(_) => return None,
    };
    let mut link = match base.join("subscriptions/confirm") {
        Ok(u) => u,
        Err(_) => return None,
    };
    link.query_pairs_mut().append_pair("subscription_token", subscription_token);
    Some(link.to_string())
}

/// The HTML body of the confirmation email.
pub open spec fn confirmation_html(link: Seq<char>) -> Seq<char> {
    "Welcome to our newsletter!<br />Click <a href=\""@ + link
        + "\">here</a> to confirm your subscription."@
}

/// The plain-text body of the confirmation email.
pub open spec fn confirmation_text(link: Seq<char>) -> Seq<char> {
    "Welcome to our newsletter!\nVisit "@ + link + " to confirm your subscription."@
}

fn build_confirmation_html(link: &str) -> (r: String)
    ensures
        r@ == confirmation_html(link@),
{
    let mut r = String::from_str("Welcome to our newsletter!<br />Click <a href=\"");
    r.append(link);
    r.append("\">here</a> to confirm your subscription.");
    r
}

fn build_confirmation_text(link: &str) -> (r: String)
    ensures
        r@ == confirmation_text(link@),
{
    let mut r = String::from_str("Welcome to our newsletter!\nVisit ");
    r.append(link);
    r.append(" to confirm your subscription.");
    r
}

/// The confirmation message for a new subscriber: subject "Welcome", with
/// the confirmation link in both the HTML and the plain-text body.
pub fn build_confirm_email(subscriber: NewSubscriber, confirmation_link: String) -> (r:
    OutboundEmail)
    ensures
        r.recipient@ == subscriber.email@,
        r.subject@ == "Welcome"@,
        r.html@ == confirmation_html(confirmation_link@),
        r.text@ == confirmation_text(confirmation_link@),
{
    let html = build_confirmation_html(confirmation_link.as_str());
    let text = build_confirmation_text(confirmation_link.as_str());
    OutboundEmail {
        recipient: subscriber.email,
        subject: String::from_str("Welcome"),
        html: html,
        text: text,
    }
}

/// A registration that was committed: the id it got, the token that was
/// issued for it, and the confirmation email that is to be sent.
#[derive(Debug)]
pub struct NewSubscription {
    pub subscriber_id: u64,
    pub subscription_token: String,
    pub confirmation_email: OutboundEmail,
}

/// The store grew by exactly one pending subscriber and its linked token,
/// at some timestamp.
pub open spec fn registration_committed(
    pre: StoreModel,
    post: StoreModel,
    email: Seq<char>,
    name: Seq<char>,
    token: Seq<char>,
) -> bool {
    exists|at: int| post == #[trigger] register_transition(pre, email, name, at, token)
}

/// The message a rejected form is reported with: the first of the name and
/// email failures, in that order.
pub open spec fn validation_message(email: Seq<char>, name: Seq<char>) -> Seq<char> {
    if !name_ok(name) {
        name + " is not a valid subscriber name"@
    } else {
        "'"@ + email + "' is not a valid subscriber email"@
    }
}

/// Register a validated subscriber under a given token: draft both rows,
/// commit them atomically, then build the confirmation email around the
/// confirmation link. A token collision refuses the commit and leaves the
/// store unchanged; a base URL that does not parse fails the registration
/// after the commit, so the subscriber stays committed.
pub fn subscribe_with_token(
    store: &mut SubscriberStore,
    subscriber: NewSubscriber,
    subscription_token: String,
    base_url: &ApplicationBaseUrl,
) -> (r: Result<NewSubscription, SubscribeError>)
    requires
        old(store).wf(),
        old(store)@.next_id < u64::MAX,
    ensures
        final(store).wf(),
        has_token(old(store)@, subscription_token@) ==> final(store)@ == old(store)@ && (
        r matches Err(SubscribeError::UnexpectedError(chain)) && chain@.len() == 1 && chain@[0]@
            == "Failed to store the confirmation token for a new subscriber"@),
        !has_token(old(store)@, subscription_token@) ==> {
            &&& registration_committed(
                old(store)@,
                final(store)@,
                subscriber.email@,
                subscriber.name@,
                subscription_token@,
            )
            &&& match confirm_link(base_url.0@, subscription_token@) {
                Some(link) => r matches Ok(n) && n.subscriber_id == old(store)@.next_id
                    && n.subscription_token@ == subscription_token@
                    && n.confirmation_email.recipient@ == subscriber.email@
                    && n.confirmation_email.subject@ == "Welcome"@
                    && n.confirmation_email.html@ == confirmation_html(link)
                    && n.confirmation_email.text@ == confirmation_text(link),
                None => r matches Err(SubscribeError::UnexpectedError(chain)) && chain@.len() == 1
                    && chain@[0]@ == "Failed to create a confirmation link for a new subscriber"@,
            }
        },
{
    let mut transaction = store.begin();
    let subscriber_id = transaction.insert_subscriber(&subscriber);
    transaction.store_token(subscriber_id, subscription_token.as_str());
    let ghost drafted_at = transaction@.subscriber->Some_0.subscribed_at;
    match store.commit(transaction) {
        Ok(()) => {},
        Err(StoreError::DuplicateToken) => {
            let mut chain: Vec<String> = Vec::new();
            chain.push(
                String::from_str("Failed to store the confirmation token for a new subscriber"),
            );
            return Err(SubscribeError::UnexpectedError(chain));
        },
    }
    proof {
        assert(final(store)@ == register_transition(
            old(store)@,
            subscriber.email@,
            subscriber.name@,
            drafted_at,
            subscription_token@,
        ));
    }
    let confirmation_link = match create_confirmation_link(
        base_url.0.as_str(),
        subscription_token.as_str(),
    ) {
        Some(link) => link,
        None => {
            let mut chain: Vec<String> = Vec::new();
            chain.push(
                String::from_str("Failed to create a confirmation link for a new subscriber"),
            );
            return Err(SubscribeError::UnexpectedError(chain));
        },
    };
    let confirmation_email = build_confirm_email(subscriber, confirmation_link);
    Ok(
        NewSubscription {
            subscriber_id: subscriber_id,
            subscription_token: subscription_token,
            confirmation_email: confirmation_email,
        },
    )
}

/// Register a submitted form: validate it, issue a fresh random token, and
/// commit the subscriber/token pair. What comes back on success carries the
/// confirmation email for the gateway to send.
pub fn subscribe(store: &mut SubscriberStore, form: FormData, base_url: &ApplicationBaseUrl) -> (r:
    Result<NewSubscription, SubscribeError>)
    requires
        old(store).wf(),
        old(store)@.next_id < u64::MAX,
    ensures
        final(store).wf(),
        !(name_ok(form.name@) && email_ok(form.email@)) ==> final(store)@ == old(store)@ && (
        r matches Err(SubscribeError::ValidationError(m)) && m@ == validation_message(
            form.email@,
            form.name@,
        )),
        name_ok(form.name@) && email_ok(form.email@) ==> match r {
            Ok(n) => {
                &&& token_valid(n.subscription_token@)
                &&& !has_token(old(store)@, n.subscription_token@)
                &&& registration_committed(
                    old(store)@,
                    final(store)@,
                    form.email@,
                    form.name@,
                    n.subscription_token@,
                )
                &&& n.subscriber_id == old(store)@.next_id
                &&& confirm_link(base_url.0@, n.subscription_token@) matches Some(link)
                    && n.confirmation_email.html@ == confirmation_html(link)
                    && n.confirmation_email.text@ == confirmation_text(link)
                &&& n.confirmation_email.recipient@ == form.email@
                &&& n.confirmation_email.subject@ == "Welcome"@
            },
            Err(SubscribeError::ValidationError(_)) => false,
            Err(SubscribeError::UnexpectedError(chain)) => {
                ||| (final(store)@ == old(store)@ && chain@.len() == 1 && chain@[0]@
                    == "Failed to store the confirmation token for a new subscriber"@)
                ||| (exists|token: Seq<char>|
                    #[trigger] token_valid(token) && registration_committed(
                        old(store)@,
                        final(store)@,
                        form.email@,
                        form.name@,
                        token,
                    ) && confirm_link(base_url.0@, token) is None && chain@.len() == 1
                        && chain@[0]@
                        == "Failed to create a confirmation link for a new subscriber"@)
            },
        },
{
    let subscriber = match NewSubscriber::try_from(form) {
        Ok(s) => s,
        Err(m) => {
            return Err(SubscribeError::ValidationError(m));
        },
    };
    let subscription_token = generate_subscription_token();
    subscribe_with_token(store, subscriber, subscription_token, base_url)
}

} // verus!
