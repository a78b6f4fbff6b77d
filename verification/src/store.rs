//! In-memory subscriber storage: subscriber rows, confirmation-token rows,
//! and the transactional pairing of the two.
//!
//! The store maintains the central invariant of the data model: a subscriber
//! row and its confirmation token are created in one atomic unit, so no
//! reader ever observes one without the other.

use crate::domain::NewSubscriber;
use crate::strutil::str_eq;
use vstd::prelude::*;

verus! {

/// The two-state activation lifecycle of a subscriber.
#[derive(Clone, Copy, Debug, PartialEq, Eq, Structural)]
pub enum SubscriberStatus {
    PendingConfirmation,
    Confirmed,
}

impl SubscriberStatus {
    /// The name under which the status is stored and reported.
    pub fn as_str(&self) -> (r: &'static str)
        ensures
            *self is PendingConfirmation ==> r@ == "pending_confirmation"@,
            *self is Confirmed ==> r@ == "confirmed"@,
    {
        match self {
            SubscriberStatus::PendingConfirmation => "pending_confirmation",
            SubscriberStatus::Confirmed => "confirmed",
        }
    }
}

/// A stored subscriber row.
#[derive(Debug)]
pub struct Subscriber {
    pub id: u64,
    pub email: String,
    pub name: String,
    pub subscribed_at: i64,
    pub status: SubscriberStatus,
}

/// A stored confirmation-token row, linking a token to its subscriber.
#[derive(Debug)]
pub struct TokenRow {
    pub subscription_token: String,
    pub subscriber_id: u64,
}

/// Mathematical model of a subscriber row.
pub struct SubscriberModel {
    pub id: int,
    pub email: Seq<char>,
    pub name: Seq<char>,
    pub subscribed_at: int,
    pub status: SubscriberStatus,
}

/// Mathematical model of a token row.
pub struct TokenModel {
    pub token: Seq<char>,
    pub subscriber_id: int,
}

/// Mathematical model of the whole store.
pub struct StoreModel {
    pub subscribers: Seq<SubscriberModel>,
    pub tokens: Seq<TokenModel>,
    pub next_id: int,
}

impl View for Subscriber {
    type V = SubscriberModel;

    open spec fn view(&self) -> SubscriberModel {
        SubscriberModel {
            id: self.id as int,
            email: self.email@,
            name: self.name@,
            subscribed_at: self.subscribed_at as int,
            status: self.status,
        }
    }
}

impl View for TokenRow {
    type V = TokenModel;

    open spec fn view(&self) -> TokenModel {
        TokenModel {
            token: self.subscription_token@,
            subscriber_id: self.subscriber_id as int,
        }
    }
}

/// Well-formedness of a store: unique subscriber ids below the id counter,
/// unique tokens, and the pairing invariant — every token row names an
/// existing subscriber and every subscriber has at least one token row.
pub open spec fn store_wf(m: StoreModel) -> bool {
    &&& 0 <= m.next_id
    &&& forall|i: int, j: int|
        0 <= i < j < m.subscribers.len() ==> #[trigger] m.subscribers[i].id
            != #[trigger] m.subscribers[j].id
    &&& forall|i: int|
        0 <= i < m.subscribers.len() ==> 0 <= #[trigger] m.subscribers[i].id < m.next_id
    &&& forall|i: int, j: int|
        0 <= i < j < m.tokens.len() ==> #[trigger] m.tokens[i].token
            != #[trigger] m.tokens[j].token
    &&& forall|i: int|
        0 <= i < m.tokens.len() ==> subscriber_id_exists(m, #[trigger] m.tokens[i].subscriber_id)
    &&& forall|j: int|
        0 <= j < m.subscribers.len() ==> token_exists_for(m, #[trigger] m.subscribers[j].id)
}

/// Some subscriber row carries `id`.
pub open spec fn subscriber_id_exists(m: StoreModel, id: int) -> bool {
    exists|j: int| 0 <= j < m.subscribers.len() && #[trigger] m.subscribers[j].id == id
}

/// Some token row links to subscriber `id`.
pub open spec fn token_exists_for(m: StoreModel, id: int) -> bool {
    exists|i: int| 0 <= i < m.tokens.len() && #[trigger] m.tokens[i].subscriber_id == id
}

/// Whether some token row carries `token`.
pub open spec fn has_token(m: StoreModel, token: Seq<char>) -> bool {
    exists|i: int| 0 <= i < m.tokens.len() && #[trigger] m.tokens[i].token == token
}

pub open spec fn token_index(m: StoreModel, token: Seq<char>) -> int {
    choose|i: int| 0 <= i < m.tokens.len() && #[trigger] m.tokens[i].token == token
}

/// The subscriber id a token resolves to, if the token was ever issued.
pub open spec fn token_lookup(m: StoreModel, token: Seq<char>) -> Option<int> {
    if has_token(m, token) {
        Some(m.tokens[token_index(m, token)].subscriber_id)
    } else {
        None
    }
}

/// The state after storing one subscriber row with the next free id and a
/// token row linked to it.
pub open spec fn insert_pair_transition(
    m: StoreModel,
    email: Seq<char>,
    name: Seq<char>,
    subscribed_at: int,
    status: SubscriberStatus,
    token: Seq<char>,
) -> StoreModel {
    StoreModel {
        subscribers: m.subscribers.push(
            SubscriberModel {
                id: m.next_id,
                email: email,
                name: name,
                subscribed_at: subscribed_at,
                status: status,
            },
        ),
        tokens: m.tokens.push(TokenModel { token: token, subscriber_id: m.next_id }),
        next_id: m.next_id + 1,
    }
}

/// The state after committing a registration: one new pending subscriber
/// with the next free id, one new token row linked to it.
pub open spec fn register_transition(
    m: StoreModel,
    email: Seq<char>,
    name: Seq<char>,
    subscribed_at: int,
    token: Seq<char>,
) -> StoreModel {
    insert_pair_transition(
        m,
        email,
        name,
        subscribed_at,
        SubscriberStatus::PendingConfirmation,
        token,
    )
}

/// What confirming subscriber `id` does to one row: the matching row keeps
/// every field but its status, which becomes `Confirmed`; other rows are
/// untouched.
pub open spec fn confirm_row(s: SubscriberModel, id: int) -> SubscriberModel {
    if s.id == id {
        SubscriberModel {
            id: s.id,
            email: s.email,
            name: s.name,
            subscribed_at: s.subscribed_at,
            status: SubscriberStatus::Confirmed,
        }
    } else {
        s
    }
}

/// The state after confirming subscriber `id`: that subscriber's status is
/// `Confirmed`, everything else is untouched. Confirming an absent id
/// changes nothing; confirming twice is the same as confirming once.
pub open spec fn confirm_transition(m: StoreModel, id: int) -> StoreModel {
    StoreModel {
        subscribers: m.subscribers.map_values(|s: SubscriberModel| confirm_row(s, id)),
        tokens: m.tokens,
        next_id: m.next_id,
    }
}

/// Why a commit was refused.
#[derive(Debug)]
pub enum StoreError {
    /// The token chosen for the new registration is already stored; the
    /// uniqueness constraint on tokens refuses the pair.
    DuplicateToken,
}

/// The subscriber and token stores, with the id counter that assigns fresh
/// subscriber ids.
pub struct SubscriberStore {
    subscribers: Vec<Subscriber>,
    tokens: Vec<TokenRow>,
    next_id: u64,
}

impl View for SubscriberStore {
    type V = StoreModel;

    closed spec fn view(&self) -> StoreModel {
        StoreModel {
            subscribers: self.subscribers@.map_values(|s: Subscriber| s@),
            tokens: self.tokens@.map_values(|t: TokenRow| t@),
            next_id: self.next_id as int,
        }
    }
}

/// A draft of the two rows a registration writes, committed atomically or
/// not at all. Dropping the draft without committing leaves no trace.
pub struct Transaction {
    reserved_id: u64,
    subscriber: Option<Subscriber>,
    token: Option<TokenRow>,
}

/// Mathematical model of a transaction draft.
pub struct TransactionModel {
    pub reserved_id: int,
    pub subscriber: Option<SubscriberModel>,
    pub token: Option<TokenModel>,
}

impl View for Transaction {
    type V = TransactionModel;

    closed spec fn view(&self) -> TransactionModel {
        TransactionModel {
            reserved_id: self.reserved_id as int,
            subscriber: match self.subscriber {
                Some(s) => Some(s@),
                None => None,
            },
            token: match self.token {
                Some(t) => Some(t@),
                None => None,
            },
        }
    }
}

/// Both rows drafted, linked to the reserved id, with the subscriber still
/// pending: what a commit demands.
pub open spec fn transaction_complete(t: TransactionModel) -> bool {
    &&& t.subscriber matches Some(s) && s.id == t.reserved_id && s.status
        is PendingConfirmation
    &&& t.token matches Some(tok) && tok.subscriber_id == t.reserved_id
}

/// Relies on `chrono::Utc::now` for the registration timestamp; nothing is
/// assumed about the value it returns.
#[verifier::external_body]
fn now_timestamp() -> i64 {
    chrono::Utc::now().timestamp()
}

impl Transaction {
    /// Draft the subscriber row, pending confirmation, under the reserved
    /// id, timestamped now. Returns the id the row will have.
    pub fn insert_subscriber(&mut self, subscriber: &NewSubscriber) -> (id: u64)
        requires
            old(self)@.subscriber is None,
        ensures
            id == old(self)@.reserved_id,
            final(self)@.reserved_id == old(self)@.reserved_id,
            final(self)@.token == old(self)@.token,
            final(self)@.subscriber matches Some(s) && s.id == old(self)@.reserved_id && s.email
                == subscriber.email@ && s.name == subscriber.name@ && s.status
                is PendingConfirmation,
    {
        let row = Subscriber {
            id: self.reserved_id,
            email: String::from_str(subscriber.email.as_ref()),
            name: String::from_str(subscriber.name.as_ref()),
            subscribed_at: now_timestamp(),
            status: SubscriberStatus::PendingConfirmation,
        };
        self.subscriber = Some(row);
        self.reserved_id
    }

    /// Draft the token row linking `subscription_token` to the subscriber.
    pub fn store_token(&mut self, subscriber_id: u64, subscription_token: &str)
        requires
            old(self)@.token is None,
            subscriber_id == old(self)@.reserved_id,
        ensures
            final(self)@.reserved_id == old(self)@.reserved_id,
            final(self)@.subscriber == old(self)@.subscriber,
            final(self)@.token matches Some(t) && t.token == subscription_token@
                && t.subscriber_id == subscriber_id,
    {
        let row = TokenRow {
            subscription_token: String::from_str(subscription_token),
            subscriber_id: subscriber_id,
        };
        self.token = Some(row);
    }
}

impl SubscriberStore {
    /// An empty store.
    pub fn new() -> (r: SubscriberStore)
        ensures
            r@.subscribers.len() == 0,
            r@.tokens.len() == 0,
            r@.next_id == 0,
            store_wf(r@),
    {
        SubscriberStore { subscribers: Vec::new(), tokens: Vec::new(), next_id: 0 }
    }

    /// Whether the store is well formed; every operation preserves this.
    pub open spec fn wf(&self) -> bool {
        store_wf(self@)
    }

    /// Whether the id counter is exhausted, so no further registration can
    /// be accepted.
    pub fn at_capacity(&self) -> (r: bool)
        ensures
            r == (self@.next_id == u64::MAX),
    {
        self.next_id == u64::MAX
    }

    /// The stored subscriber rows, in insertion order.
    pub fn subscribers(&self) -> (r: &Vec<Subscriber>)
        ensures
            r@.map_values(|s: Subscriber| s@) == self@.subscribers,
    {
        &self.subscribers
    }

    /// The stored token rows, in insertion order.
    pub fn tokens(&self) -> (r: &Vec<TokenRow>)
        ensures
            r@.map_values(|t: TokenRow| t@) == self@.tokens,
    {
        &self.tokens
    }

    /// Open a transaction draft; the subscriber id the registration will use
    /// is reserved from the id counter.
    pub fn begin(&self) -> (t: Transaction)
        ensures
            t@.reserved_id == self@.next_id,
            t@.subscriber is None,
            t@.token is None,
    {
        Transaction { reserved_id: self.next_id, subscriber: None, token: None }
    }

    /// Commit a complete draft atomically: either both rows become visible
    /// and the id counter advances, or — when the token is already taken —
    /// nothing changes at all.
    pub fn commit(&mut self, transaction: Transaction) -> (r: Result<(), StoreError>)
        requires
            old(self).wf(),
            old(self)@.next_id < u64::MAX,
            transaction@.reserved_id == old(self)@.next_id,
            transaction_complete(transaction@),
        ensures
            final(self).wf(),
            ({
                let sub = transaction@.subscriber->Some_0;
                let tok = transaction@.token->Some_0;
                if has_token(old(self)@, tok.token) {
                    &&& r matches Err(StoreError::DuplicateToken)
                    &&& final(self)@ == old(self)@
                } else {
                    &&& r is Ok
                    &&& final(self)@ == register_transition(
                        old(self)@,
                        sub.email,
                        sub.name,
                        sub.subscribed_at,
                        tok.token,
                    )
                }
            }),
    {
        let ghost pre = self@;
        let sub = match transaction.subscriber {
            Some(s) => s,
            None => { return vstd::pervasive::unreached() },
        };
        let tok = match transaction.token {
            Some(t) => t,
            None => { return vstd::pervasive::unreached() },
        };
        if self.get_subscriber_id_from_token(tok.subscription_token.as_str()).is_some() {
            return Err(StoreError::DuplicateToken);
        }
        self.subscribers.push(sub);
        self.tokens.push(tok);
        self.next_id = self.next_id + 1;
        proof {
            let post = register_transition(pre, sub@.email, sub@.name, sub@.subscribed_at, tok@.token);
            assert(self@.subscribers =~= post.subscribers);
            assert(self@.tokens =~= post.tokens);
            lemma_register_wf(pre, sub@.email, sub@.name, sub@.subscribed_at, tok@.token);
        }
        Ok(())
    }

    /// Restore a persisted subscriber row and its token as they were
    /// stored, without re-running validation: data written under older
    /// rules may carry an email today's checks would refuse. The token must
    /// still be unique.
    pub fn restore(
        &mut self,
        email: String,
        name: String,
        subscribed_at: i64,
        status: SubscriberStatus,
        subscription_token: String,
    ) -> (r: Result<u64, StoreError>)
        requires
            old(self).wf(),
            old(self)@.next_id < u64::MAX,
        ensures
            final(self).wf(),
            has_token(old(self)@, subscription_token@) ==> (r matches Err(
                StoreError::DuplicateToken,
            ) && final(self)@ == old(self)@),
            !has_token(old(self)@, subscription_token@) ==> (r matches Ok(id) && id == old(
                self,
            )@.next_id && final(self)@ == insert_pair_transition(
                old(self)@,
                email@,
                name@,
                subscribed_at as int,
                status,
                subscription_token@,
            )),
    {
        let ghost pre = self@;
        if self.get_subscriber_id_from_token(subscription_token.as_str()).is_some() {
            return Err(StoreError::DuplicateToken);
        }
        let id = self.next_id;
        let row = Subscriber {
            id: id,
            email: email,
            name: name,
            subscribed_at: subscribed_at,
            status: status,
        };
        let token_row = TokenRow { subscription_token: subscription_token, subscriber_id: id };
        self.subscribers.push(row);
        self.tokens.push(token_row);
        self.next_id = self.next_id + 1;
        proof {
            let post = insert_pair_transition(
                pre,
                row@.email,
                row@.name,
                row@.subscribed_at,
                status,
                token_row@.token,
            );
            assert(self@.subscribers =~= post.subscribers);
            assert(self@.tokens =~= post.tokens);
            lemma_insert_pair_wf(
                pre,
                row@.email,
                row@.name,
                row@.subscribed_at,
                status,
                token_row@.token,
            );
        }
        Ok(id)
    }

    /// The subscriber id stored for `subscription_token`, if that token was
    /// ever issued.
    pub fn get_subscriber_id_from_token(&self, subscription_token: &str) -> (r: Option<u64>)
        requires
            self.wf(),
        ensures
            r matches Some(id) ==> token_lookup(self@, subscription_token@) == Some(id as int),
            r is None ==> token_lookup(self@, subscription_token@) is None,
    {
        let n = self.tokens.len();
        let mut i: usize = 0;
        while i < n
            invariant
                self.wf(),
                n == self.tokens.len(),
                self@.tokens.len() == n,
                forall|k: int| 0 <= k < n ==> #[trigger] self@.tokens[k] == self.tokens@[k]@,
                0 <= i <= n,
                forall|k: int| 0 <= k < i ==> #[trigger] self@.tokens[k].token != subscription_token@,
            decreases n - i,
        {
            if str_eq(self.tokens[i].subscription_token.as_str(), subscription_token) {
                proof {
                    assert(self@.tokens[i as int].token == subscription_token@);
                    assert(has_token(self@, subscription_token@));
                    let w = token_index(self@, subscription_token@);
                    if w != i as int {
                        assert(self@.tokens[w].token == self@.tokens[i as int].token);
                        assert(false);
                    }
                }
                return Some(self.tokens[i].subscriber_id);
            }
            i = i + 1;
        }
        proof {
            if has_token(self@, subscription_token@) {
                let w = token_index(self@, subscription_token@);
                assert(self@.tokens[w].token == subscription_token@);
                assert(false);
            }
        }
        None
    }

    /// Mark the subscriber with `subscriber_id` as confirmed. The write is
    /// idempotent, and an id that is not stored updates nothing.
    pub fn confirm_subscriber(&mut self, subscriber_id: u64)
        requires
            old(self).wf(),
        ensures
            final(self).wf(),
            final(self)@ == confirm_transition(old(self)@, subscriber_id as int),
    {
        let ghost pre = self@;
        let n = self.subscribers.len();
        let mut i: usize = 0;
        while i < n
            invariant
                n == self.subscribers.len(),
                self@.subscribers.len() == n,
                pre.subscribers.len() == n,
                0 <= i <= n,
                self@.tokens == pre.tokens,
                self@.next_id == pre.next_id,
                forall|k: int|
                    0 <= k < i ==> #[trigger] self@.subscribers[k] == confirm_row(
                        pre.subscribers[k],
                        subscriber_id as int,
                    ),
                forall|k: int| i <= k < n ==> #[trigger] self@.subscribers[k] == pre.subscribers[k],
            decreases n - i,
        {
            let ghost prev = self@;
            if self.subscribers[i].id == subscriber_id {
                let updated = Subscriber {
                    id: self.subscribers[i].id,
                    email: self.subscribers[i].email.clone(),
                    name: self.subscribers[i].name.clone(),
                    subscribed_at: self.subscribers[i].subscribed_at,
                    status: SubscriberStatus::Confirmed,
                };
                self.subscribers.set(i, updated);
                proof {
                    assert(self@.subscribers[i as int] == updated@);
                    assert(updated@ == confirm_row(prev.subscribers[i as int], subscriber_id as int));
                    assert(forall|k: int|
                        0 <= k < n && k != i ==> #[trigger] self@.subscribers[k]
                            == prev.subscribers[k]);
                }
            }
            i = i + 1;
        }
        proof {
            assert(self@.subscribers =~= confirm_transition(pre, subscriber_id as int).subscribers);
            assert(self@ == confirm_transition(pre, subscriber_id as int));
            lemma_confirm_wf(pre, subscriber_id as int);
        }
    }
}

/// Storing a fresh pair preserves well-formedness, whatever the row's
/// status: the fresh id keeps ids unique, the fresh token keeps tokens
/// unique, and the new pair keeps the pairing invariant.
pub proof fn lemma_insert_pair_wf(
    m: StoreModel,
    email: Seq<char>,
    name: Seq<char>,
    subscribed_at: int,
    status: SubscriberStatus,
    token: Seq<char>,
)
    requires
        store_wf(m),
        !has_token(m, token),
    ensures
        store_wf(insert_pair_transition(m, email, name, subscribed_at, status, token)),
{
    let post = insert_pair_transition(m, email, name, subscribed_at, status, token);
    let ns = m.subscribers.len() as int;
    let nt = m.tokens.len() as int;
    assert forall|i: int, j: int| 0 <= i < j < post.subscribers.len() implies #[trigger] post.subscribers[i].id
        != #[trigger] post.subscribers[j].id by {
        if j < ns {
        } else {
            assert(post.subscribers[i] == m.subscribers[i]);
            assert(post.subscribers[j].id == m.next_id);
        }
    }
    assert forall|i: int| 0 <= i < post.subscribers.len() implies 0 <= #[trigger] post.subscribers[i].id
        < post.next_id by {
        if i < ns {
            assert(post.subscribers[i] == m.subscribers[i]);
            assert(0 <= m.subscribers[i].id < m.next_id);
        } else {
            assert(post.subscribers[i].id == m.next_id);
        }
    }
    assert forall|i: int, j: int| 0 <= i < j < post.tokens.len() implies #[trigger] post.tokens[i].token
        != #[trigger] post.tokens[j].token by {
        if j < nt {
        } else {
            assert(post.tokens[j].token == token);
            assert(post.tokens[i] == m.tokens[i]);
        }
    }
    assert forall|i: int| 0 <= i < post.tokens.len() implies subscriber_id_exists(
        post,
        #[trigger] post.tokens[i].subscriber_id,
    ) by {
        if i < nt {
            assert(subscriber_id_exists(m, m.tokens[i].subscriber_id));
            let w = choose|j: int|
                0 <= j < m.subscribers.len() && #[trigger] m.subscribers[j].id
                    == m.tokens[i].subscriber_id;
            assert(post.subscribers[w].id == post.tokens[i].subscriber_id);
        } else {
            assert(post.subscribers[ns].id == post.tokens[i].subscriber_id);
        }
    }
    assert forall|j: int| 0 <= j < post.subscribers.len() implies token_exists_for(
        post,
        #[trigger] post.subscribers[j].id,
    ) by {
        if j < ns {
            assert(token_exists_for(m, m.subscribers[j].id));
            let w = choose|i: int|
                0 <= i < m.tokens.len() && #[trigger] m.tokens[i].subscriber_id
                    == m.subscribers[j].id;
            assert(post.tokens[w].subscriber_id == post.subscribers[j].id);
        } else {
            assert(post.tokens[nt].subscriber_id == post.subscribers[j].id);
        }
    }
    assert(store_wf(post));
}

/// Registration preserves well-formedness.
pub proof fn lemma_register_wf(
    m: StoreModel,
    email: Seq<char>,
    name: Seq<char>,
    subscribed_at: int,
    token: Seq<char>,
)
    requires
        store_wf(m),
        !has_token(m, token),
    ensures
        store_wf(register_transition(m, email, name, subscribed_at, token)),
{
    lemma_insert_pair_wf(
        m,
        email,
        name,
        subscribed_at,
        SubscriberStatus::PendingConfirmation,
        token,
    );
}

/// How many subscriber rows carry `id`.
pub open spec fn count_subscribers_with_id(s: Seq<SubscriberModel>, id: int) -> nat
    decreases s.len(),
{
    if s.len() == 0 {
        0
    } else {
        (if s.last().id == id {
            1nat
        } else {
            0nat
        }) + count_subscribers_with_id(s.drop_last(), id)
    }
}

/// How many token rows link to subscriber `id`.
pub open spec fn count_tokens_for(t: Seq<TokenModel>, id: int) -> nat
    decreases t.len(),
{
    if t.len() == 0 {
        0
    } else {
        (if t.last().subscriber_id == id {
            1nat
        } else {
            0nat
        }) + count_tokens_for(t.drop_last(), id)
    }
}

proof fn lemma_count_subscribers_zero(s: Seq<SubscriberModel>, id: int)
    requires
        forall|k: int| 0 <= k < s.len() ==> #[trigger] s[k].id != id,
    ensures
        count_subscribers_with_id(s, id) == 0,
    decreases s.len(),
{
    if s.len() > 0 {
        lemma_count_subscribers_zero(s.drop_last(), id);
    }
}

proof fn lemma_count_tokens_zero(t: Seq<TokenModel>, id: int)
    requires
        forall|k: int| 0 <= k < t.len() ==> #[trigger] t[k].subscriber_id != id,
    ensures
        count_tokens_for(t, id) == 0,
    decreases t.len(),
{
    if t.len() > 0 {
        lemma_count_tokens_zero(t.drop_last(), id);
    }
}

/// Registering creates exactly one pending subscriber row and exactly one
/// token row, linked to each other by the fresh id, and the issued token
/// resolves to that subscriber; every row that was there before is
/// untouched.
pub proof fn lemma_register_creates_pending_pair(
    m: StoreModel,
    email: Seq<char>,
    name: Seq<char>,
    subscribed_at: int,
    token: Seq<char>,
)
    requires
        store_wf(m),
        !has_token(m, token),
    ensures
        ({
            let post = register_transition(m, email, name, subscribed_at, token);
            &&& post.subscribers.len() == m.subscribers.len() + 1
            &&& post.subscribers.last().email == email
            &&& post.subscribers.last().name == name
            &&& post.subscribers.last().status is PendingConfirmation
            &&& post.subscribers.last().id == m.next_id
            &&& count_subscribers_with_id(post.subscribers, m.next_id) == 1
            &&& count_tokens_for(post.tokens, m.next_id) == 1
            &&& token_lookup(post, token) == Some(m.next_id)
            &&& forall|k: int|
                0 <= k < m.subscribers.len() ==> #[trigger] post.subscribers[k]
                    == m.subscribers[k]
            &&& forall|k: int| 0 <= k < m.tokens.len() ==> #[trigger] post.tokens[k] == m.tokens[k]
        }),
{
    let post = register_transition(m, email, name, subscribed_at, token);
    assert forall|k: int| 0 <= k < m.subscribers.len() implies #[trigger] m.subscribers[k].id
        != m.next_id by {
        assert(0 <= m.subscribers[k].id < m.next_id);
    }
    lemma_count_subscribers_zero(m.subscribers, m.next_id);
    assert(post.subscribers.drop_last() =~= m.subscribers);
    assert(count_subscribers_with_id(post.subscribers, m.next_id) == 1);
    assert forall|k: int| 0 <= k < m.tokens.len() implies #[trigger] m.tokens[k].subscriber_id
        != m.next_id by {
        assert(subscriber_id_exists(m, m.tokens[k].subscriber_id));
        let w = choose|j: int|
            0 <= j < m.subscribers.len() && #[trigger] m.subscribers[j].id
                == m.tokens[k].subscriber_id;
        assert(0 <= m.subscribers[w].id < m.next_id);
    }
    lemma_count_tokens_zero(m.tokens, m.next_id);
    assert(post.tokens.drop_last() =~= m.tokens);
    assert(count_tokens_for(post.tokens, m.next_id) == 1);
    let nt = m.tokens.len() as int;
    assert(post.tokens[nt].token == token);
    assert(has_token(post, token));
    let w = token_index(post, token);
    if w != nt {
        assert(post.tokens[w].token == token);
        assert(post.tokens[w] == m.tokens[w]);
        assert(has_token(m, token));
        assert(false);
    }
    assert(token_lookup(post, token) == Some(m.next_id));
}

/// Confirmation preserves well-formedness: ids, tokens and the pairing are
/// untouched; only one status field changes.
pub proof fn lemma_confirm_wf(m: StoreModel, id: int)
    requires
        store_wf(m),
    ensures
        store_wf(confirm_transition(m, id)),
{
    let post = confirm_transition(m, id);
    assert(post.subscribers.len() == m.subscribers.len());
    assert(forall|k: int|
        0 <= k < post.subscribers.len() ==> #[trigger] post.subscribers[k].id
            == m.subscribers[k].id);
    assert forall|i: int, j: int| 0 <= i < j < post.subscribers.len() implies #[trigger] post.subscribers[i].id
        != #[trigger] post.subscribers[j].id by {
        assert(post.subscribers[i].id == m.subscribers[i].id);
        assert(post.subscribers[j].id == m.subscribers[j].id);
    }
    assert forall|i: int| 0 <= i < post.subscribers.len() implies 0 <= #[trigger] post.subscribers[i].id
        < post.next_id by {
        assert(post.subscribers[i].id == m.subscribers[i].id);
    }
    assert forall|i: int| 0 <= i < post.tokens.len() implies subscriber_id_exists(
        post,
        #[trigger] post.tokens[i].subscriber_id,
    ) by {
        assert(subscriber_id_exists(m, m.tokens[i].subscriber_id));
        let w = choose|j: int|
            0 <= j < m.subscribers.len() && #[trigger] m.subscribers[j].id
                == m.tokens[i].subscriber_id;
        assert(post.subscribers[w].id == post.tokens[i].subscriber_id);
    }
    assert forall|j: int| 0 <= j < post.subscribers.len() implies token_exists_for(
        post,
        #[trigger] post.subscribers[j].id,
    ) by {
        assert(token_exists_for(m, m.subscribers[j].id));
        let w = choose|i: int|
            0 <= i < m.tokens.len() && #[trigger] m.tokens[i].subscriber_id
                == m.subscribers[j].id;
        assert(post.tokens[w].subscriber_id == post.subscribers[j].id);
    }
    assert(store_wf(post));
}

} // verus!
