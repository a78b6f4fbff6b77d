//! Confirmation of a pending subscription: resolve the submitted token to a
//! subscriber and perform the one-way pending-to-confirmed transition.

use crate::store::{
    confirm_transition, has_token, lemma_register_creates_pending_pair, register_transition,
    store_wf, token_lookup, StoreModel, SubscriberStatus, SubscriberStore,
};
use vstd::prelude::*;

verus! {

/// The query a confirmation request carries.
pub struct ConfirmRequest {
    pub subscription_token: String,
}

/// Why a confirmation failed.
#[derive(Debug)]
pub enum SubscriptionConfirmError {
    /// A storage step failed; the payload is the causal chain of messages,
    /// outermost first.
    UnexpectedError(Vec<String>),
    /// The token was never issued. Reported as an unauthorized-class
    /// outcome, not as "not found": an outside caller learns nothing about
    /// which tokens exist.
    UnknownToken,
}

/// The HTTP status a confirmation failure maps to: an unknown token is
/// unauthorized, anything unexpected is an internal failure.
pub open spec fn confirm_status(e: SubscriptionConfirmError) -> int {
    match e {
        SubscriptionConfirmError::UnexpectedError(_) => 500,
        SubscriptionConfirmError::UnknownToken => 401,
    }
}

impl SubscriptionConfirmError {
    pub fn status_code(&self) -> (r: u16)
        ensures
            r == confirm_status(*self),
    {
        match self {
            SubscriptionConfirmError::UnexpectedError(_) => 500,
            SubscriptionConfirmError::UnknownToken => 401,
        }
    }
}

/// What a confirmation does, as a function of the state and the token: an
/// unissued token is refused and changes nothing; an issued one confirms
/// the subscriber it resolves to.
pub open spec fn confirm_outcome(m: StoreModel, token: Seq<char>) -> Result<StoreModel, ()> {
    match token_lookup(m, token) {
        Some(id) => Ok(confirm_transition(m, id)),
        None => Err(()),
    }
}

/// Resolve the token and mark its subscriber as confirmed; idempotent for a
/// token that was already used.
pub fn confirm(store: &mut SubscriberStore, request: &ConfirmRequest) -> (r: Result<
    (),
    SubscriptionConfirmError,
>)
    requires
        old(store).wf(),
    ensures
        final(store).wf(),
        match confirm_outcome(old(store)@, request.subscription_token@) {
            Ok(m) => r is Ok && final(store)@ == m,
            Err(_) => r matches Err(SubscriptionConfirmError::UnknownToken) && final(store)@
                == old(store)@,
        },
{
    let id = match store.get_subscriber_id_from_token(request.subscription_token.as_str()) {
        Some(id) => id,
        None => {
            return Err(SubscriptionConfirmError::UnknownToken);
        },
    };
    store.confirm_subscriber(id);
    Ok(())
}

/// Confirming is idempotent: once a token's subscriber is confirmed,
/// confirming with the same token again succeeds and leaves the state
/// exactly as it was.
pub proof fn lemma_confirm_idempotent(m: StoreModel, token: Seq<char>)
    requires
        confirm_outcome(m, token) is Ok,
    ensures
        confirm_outcome(confirm_outcome(m, token)->Ok_0, token) == confirm_outcome(m, token),
{
    let id = token_lookup(m, token)->Some_0;
    let m1 = confirm_transition(m, id);
    assert(m1.tokens == m.tokens);
    assert(has_token(m1, token) == has_token(m, token));
    assert(token_lookup(m1, token) == token_lookup(m, token));
    let m2 = confirm_transition(m1, id);
    assert forall|k: int| 0 <= k < m2.subscribers.len() implies #[trigger] m2.subscribers[k]
        == m1.subscribers[k] by {
        assert(m1.subscribers[k] == crate::store::confirm_row(m.subscribers[k], id));
    }
    assert(m2.subscribers =~= m1.subscribers);
}

/// Registering and then confirming with the token issued for it confirms
/// exactly the new subscriber: the confirmation succeeds, the new row's
/// status becomes confirmed, every pre-existing row is untouched, and a
/// second confirmation with the same token succeeds without changing
/// anything further.
pub proof fn lemma_register_then_confirm(
    m: StoreModel,
    email: Seq<char>,
    name: Seq<char>,
    subscribed_at: int,
    token: Seq<char>,
)
    requires
        store_wf(m),
        !has_token(m, token),
    ensures
        ({
            let m1 = register_transition(m, email, name, subscribed_at, token);
            confirm_outcome(m1, token) matches Ok(m2) && {
                &&& m2.subscribers.len() == m1.subscribers.len()
                &&& m2.subscribers.last().email == email
                &&& m2.subscribers.last().status is Confirmed
                &&& forall|k: int|
                    0 <= k < m.subscribers.len() ==> #[trigger] m2.subscribers[k]
                        == m1.subscribers[k]
                &&& confirm_outcome(m2, token) == Ok::<StoreModel, ()>(m2)
            }
        }),
{
    lemma_register_creates_pending_pair(m, email, name, subscribed_at, token);
    let m1 = register_transition(m, email, name, subscribed_at, token);
    assert(token_lookup(m1, token) == Some(m.next_id));
    let m2 = confirm_transition(m1, m.next_id);
    let ns = m.subscribers.len() as int;
    assert(m2.subscribers[ns] == crate::store::confirm_row(m1.subscribers[ns], m.next_id));
    assert(m2.subscribers.last().status is Confirmed);
    assert forall|k: int| 0 <= k < m.subscribers.len() implies #[trigger] m2.subscribers[k]
        == m1.subscribers[k] by {
        assert(m1.subscribers[k] == m.subscribers[k]);
        assert(0 <= m.subscribers[k].id < m.next_id);
        assert(m2.subscribers[k] == crate::store::confirm_row(m1.subscribers[k], m.next_id));
    }
    lemma_confirm_idempotent(m1, token);
}

/// A token that was never issued is refused with the unauthorized-class
/// error, never anything that reveals more, and the state is untouched.
pub proof fn lemma_unknown_token_unauthorized(m: StoreModel, token: Seq<char>)
    requires
        !has_token(m, token),
    ensures
        confirm_outcome(m, token) is Err,
        confirm_status(SubscriptionConfirmError::UnknownToken) == 401,
{
}

} // verus!
