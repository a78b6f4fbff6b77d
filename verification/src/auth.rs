//! Operator authentication: the credential store, HTTP Basic credential
//! parsing, and constant-effort password verification.

use crate::routes::newsletters::PublishError;
use argon2::{Argon2, PasswordHash, PasswordVerifier};
use crate::strutil::{find_char, str_eq, str_has_prefix};
use base64::Engine;
use vstd::prelude::*;
use vstd::utf8::{decode_utf8, encode_utf8, valid_utf8};

verus! {

/// A stored operator credential: an id, a unique username, and the
/// self-describing PHC-format password hash.
#[derive(Debug)]
pub struct Credential {
    pub user_id: u64,
    pub username: String,
    pub password_hash: String,
}

/// Mathematical model of a credential row.
pub struct CredentialModel {
    pub user_id: int,
    pub username: Seq<char>,
    pub password_hash: Seq<char>,
}

impl View for Credential {
    type V = CredentialModel;

    open spec fn view(&self) -> CredentialModel {
        CredentialModel {
            user_id: self.user_id as int,
            username: self.username@,
            password_hash: self.password_hash@,
        }
    }
}

/// Usernames are unique.
pub open spec fn creds_wf(m: Seq<CredentialModel>) -> bool {
    forall|i: int, j: int|
        0 <= i < j < m.len() ==> #[trigger] m[i].username != #[trigger] m[j].username
}

/// Whether some credential row carries `username`.
pub open spec fn has_username(m: Seq<CredentialModel>, username: Seq<char>) -> bool {
    exists|i: int| 0 <= i < m.len() && #[trigger] m[i].username == username
}

pub open spec fn username_index(m: Seq<CredentialModel>, username: Seq<char>) -> int {
    choose|i: int| 0 <= i < m.len() && #[trigger] m[i].username == username
}

/// The credential stored for `username`, if there is one.
pub open spec fn cred_lookup(m: Seq<CredentialModel>, username: Seq<char>) -> Option<
    CredentialModel,
> {
    if has_username(m, username) {
        Some(m[username_index(m, username)])
    } else {
        None
    }
}

/// The operator credentials, read by the newsletter broadcast;
/// provisioning happens outside this core.
pub struct CredentialStore {
    users: Vec<Credential>,
}

impl View for CredentialStore {
    type V = Seq<CredentialModel>;

    closed spec fn view(&self) -> Seq<CredentialModel> {
        self.users@.map_values(|c: Credential| c@)
    }
}

impl CredentialStore {
    /// An empty credential store.
    pub fn new() -> (r: CredentialStore)
        ensures
            r@.len() == 0,
            creds_wf(r@),
    {
        CredentialStore { users: Vec::new() }
    }

    pub open spec fn wf(&self) -> bool {
        creds_wf(self@)
    }

    /// Add a credential; a username that is already taken is refused and
    /// nothing changes.
    pub fn add_user(&mut self, credential: Credential) -> (r: bool)
        requires
            old(self).wf(),
        ensures
            final(self).wf(),
            has_username(old(self)@, credential.username@) ==> !r && final(self)@ == old(self)@,
            !has_username(old(self)@, credential.username@) ==> r && final(self)@ == old(
                self,
            )@.push(credential@),
    {
        if self.get_stored_credentials(credential.username.as_str()).is_some() {
            return false;
        }
        let ghost pre = self@;
        self.users.push(credential);
        proof {
            assert(self@ =~= pre.push(credential@));
            assert forall|i: int, j: int| 0 <= i < j < self@.len() implies #[trigger] self@[i].username
                != #[trigger] self@[j].username by {
                if j < pre.len() {
                } else {
                    assert(self@[i] == pre[i]);
                    if has_username(pre, credential.username@) {
                    }
                }
            }
        }
        true
    }

    /// The id and stored password hash for `username`, if that operator
    /// exists.
    pub fn get_stored_credentials(&self, username: &str) -> (r: Option<(u64, String)>)
        requires
            self.wf(),
        ensures
            match cred_lookup(self@, username@) {
                Some(c) => r matches Some((id, hash)) && id == c.user_id && hash@
                    == c.password_hash,
                None => r is None,
            },
    {
        let n = self.users.len();
        let mut i: usize = 0;
        while i < n
            invariant
                self.wf(),
                n == self.users.len(),
                self@.len() == n,
                forall|k: int| 0 <= k < n ==> #[trigger] self@[k] == self.users@[k]@,
                0 <= i <= n,
                forall|k: int| 0 <= k < i ==> #[trigger] self@[k].username != username@,
            decreases n - i,
        {
            if str_eq(self.users[i].username.as_str(), username) {
                proof {
                    assert(self@[i as int].username == username@);
                    assert(has_username(self@, username@));
                    let w = username_index(self@, username@);
                    if w != i as int {
                        assert(self@[w].username == self@[i as int].username);
                        assert(false);
                    }
                }
                return Some((self.users[i].user_id, self.users[i].password_hash.clone()));
            }
            i = i + 1;
        }
        proof {
            if has_username(self@, username@) {
                let w = username_index(self@, username@);
                assert(self@[w].username == username@);
                assert(false);
            }
        }
        None
    }
}

/// The credentials carried by an HTTP Basic `Authorization` header.
#[derive(Debug)]
pub struct BasicAuthorization {
    pub username: String,
    pub password: String,
}

/// What the standard-alphabet base64 decoding of a string yields, `None`
/// when the input is not valid base64. A function of the characters alone.
pub uninterp spec fn b64_decode(s: Seq<char>) -> Option<Seq<u8>>;

/// Relies on base64's `BASE64_STANDARD.decode`: the result is a function of
/// the input alone.
#[verifier::external_body]
fn base64_decode(s: &str) -> (r: Option<Vec<u8>>)
    ensures
        r is Some <==> b64_decode(s@) is Some,
        r matches Some(v) ==> b64_decode(s@) == Some(v@),
{
    match base64::prelude::BASE64_STANDARD.decode(s) {
        Ok(v) => Some(v),
        Err(_) => None,
    }
}

/// Relies on `String::from_utf8`: it succeeds exactly on valid UTF-8 and
/// keeps the bytes; validity and the byte encoding are stated with vstd's
/// model of UTF-8.
#[verifier::external_body]
fn utf8_to_string(bytes: Vec<u8>) -> (r: Option<String>)
    ensures
        r is Some <==> valid_utf8(bytes@),
        r matches Some(s) ==> encode_utf8(s@) == bytes@,
{
    match String::from_utf8(bytes) {
        Ok(s) => Some(s),
        Err(_) => None,
    }
}

/// `i` is the position of the first colon in `cs`.
pub open spec fn is_first_colon(cs: Seq<char>, i: int) -> bool {
    0 <= i < cs.len() && cs[i] == ':' && (forall|j: int| 0 <= j < i ==> cs[j] != ':')
}

pub open spec fn has_colon(cs: Seq<char>) -> bool {
    exists|i: int| 0 <= i < cs.len() && cs[i] == ':'
}

pub open spec fn first_colon(cs: Seq<char>) -> int {
    choose|i: int| is_first_colon(cs, i)
}

/// What parsing a Basic `Authorization` header value yields: the username
/// and password split at the first colon of the decoded credentials, or the
/// message explaining the first check that failed.
pub open spec fn basic_auth_spec(header: Option<Seq<char>>) -> Result<
    (Seq<char>, Seq<char>),
    Seq<char>,
> {
    match header {
        None => Err("The 'Authorization' header was missing"@),
        Some(h) => if !(h.len() >= "Basic "@.len() && h.take("Basic "@.len() as int)
            == "Basic "@) {
            Err("The authorization scheme was not 'Basic'"@)
        } else {
            match b64_decode(h.skip("Basic "@.len() as int)) {
                None => Err("Failed to base64-decode 'Basic' credentials"@),
                Some(bytes) => if !valid_utf8(bytes) {
                    Err("The decoded credential string is not valid UTF8"@)
                } else {
                    let cs = decode_utf8(bytes);
                    if has_colon(cs) {
                        Ok((cs.take(first_colon(cs)), cs.skip(first_colon(cs) + 1)))
                    } else {
                        Err("A password must be provided in 'Basic' auth"@)
                    }
                },
            }
        },
    }
}

fn auth_error(message: &str) -> (r: PublishError)
    ensures
        r matches PublishError::AuthError(chain) && chain@.len() == 1 && chain@[0]@ == message@,
{
    let mut chain: Vec<String> = Vec::new();
    chain.push(String::from_str(message));
    PublishError::AuthError(chain)
}

/// Parse the Basic `Authorization` header value into a username/password
/// pair: scheme check, base64 decoding, UTF-8 decoding, and the split at
/// the first colon. Every failure is an authentication failure.
pub fn parse_basic_auth(header: Option<&str>) -> (r: Result<BasicAuthorization, PublishError>)
    ensures
        match basic_auth_spec(
            match header {
                Some(h) => Some(h@),
                None => None,
            },
        ) {
            Ok((username, password)) => r matches Ok(c) && c.username@ == username && c.password@
                == password,
            Err(message) => r matches Err(PublishError::AuthError(chain)) && chain@.len() == 1
                && chain@[0]@ == message,
        },
{
    proof {
        reveal_strlit("Basic ");
    }
    let h = match header {
        Some(h) => h,
        None => {
            return Err(auth_error("The 'Authorization' header was missing"));
        },
    };
    if !str_has_prefix(h, "Basic ") {
        return Err(auth_error("The authorization scheme was not 'Basic'"));
    }
    let n = h.unicode_len();
    let encoded = h.substring_char(6, n);
    proof {
        assert(encoded@ =~= h@.skip(6));
    }
    let decoded_bytes = match base64_decode(encoded) {
        Some(b) => b,
        None => {
            return Err(auth_error("Failed to base64-decode 'Basic' credentials"));
        },
    };
    let decoded = match utf8_to_string(decoded_bytes) {
        Some(s) => s,
        None => {
            return Err(auth_error("The decoded credential string is not valid UTF8"));
        },
    };
    proof {
        vstd::utf8::encode_utf8_decode_utf8(decoded@);
    }
    let colon = match find_char(decoded.as_str(), ':') {
        Some(i) => i,
        None => {
            return Err(auth_error("A password must be provided in 'Basic' auth"));
        },
    };
    let m = decoded.as_str().unicode_len();
    let username = String::from_str(decoded.as_str().substring_char(0, colon));
    let password = String::from_str(decoded.as_str().substring_char(colon + 1, m));
    proof {
        let cs = decoded@;
        assert(is_first_colon(cs, colon as int));
        let w = first_colon(cs);
        if w != colon as int {
            if w < colon as int {
                assert(cs[w] == ':');
            } else {
                assert(cs[colon as int] == ':');
            }
            assert(false);
        }
        assert(username@ =~= cs.take(colon as int));
        assert(password@ =~= cs.skip(colon as int + 1));
    }
    Ok(BasicAuthorization { username, password })
}

/// Whether a string parses as a PHC-format password hash, as argon2's
/// `PasswordHash::new` decides it. A function of the characters alone.
pub uninterp spec fn phc_ok(hash: Seq<char>) -> bool;

/// Whether a password matches a PHC-format hash, as argon2's
/// `verify_password` decides it with the parameters embedded in the hash.
/// A function of the two strings alone.
pub uninterp spec fn password_matches(hash: Seq<char>, password: Seq<char>) -> bool;

enum PasswordCheck {
    MalformedHash,
    Match,
    NoMatch,
}

/// Relies on argon2's `PasswordHash::new` (PHC parsing) and
/// `Argon2::default().verify_password`, which recomputes the hash with the
/// parameters embedded in the stored hash and compares; both are functions
/// of their string arguments alone.
#[verifier::external_body]
fn check_password(expected_password_hash: &str, password_candidate: &str) -> (r: PasswordCheck)
    ensures
        r is MalformedHash <==> !phc_ok(expected_password_hash@),
        phc_ok(expected_password_hash@) ==> (r is Match <==> password_matches(
            expected_password_hash@,
            password_candidate@,
        )),
{
    match PasswordHash::new(expected_password_hash) {
        Err(_) => PasswordCheck::MalformedHash,
        Ok(parsed) => match Argon2::default().verify_password(
            password_candidate.as_bytes(),
            &parsed,
        ) {
            Ok(()) => PasswordCheck::Match,
            Err(_) => PasswordCheck::NoMatch,
        },
    }
}

/// The precomputed hash that a failed username lookup is verified against,
/// so that rejecting an unknown username costs a full hash verification,
/// just as a wrong password does.
pub open spec fn fallback_password_hash() -> Seq<char> {
    "$argon2id$v=19$m=15000,t=2,p=1$gZiV/M1gPc22ElAH/Jh1Hw$CWOrkoo7oJBQ/iyh7uJ0LO2aLEfrHwTWllSAxT0zRno"@
}

fn fallback_password_hash_exec() -> (r: &'static str)
    ensures
        r@ == fallback_password_hash(),
{
    "$argon2id$v=19$m=15000,t=2,p=1$gZiV/M1gPc22ElAH/Jh1Hw$CWOrkoo7oJBQ/iyh7uJ0LO2aLEfrHwTWllSAxT0zRno"
}

/// What validating a username/password pair decides.
pub enum AuthCheck {
    /// The username exists and the password matches its stored hash; the
    /// payload is the operator's id.
    Authorized(int),
    /// Unknown username or wrong password — deliberately one outcome.
    InvalidCredentials,
    /// The stored hash (or the fallback hash) does not parse as a PHC
    /// string; an internal failure, not an authentication verdict.
    MalformedStoredHash,
}

/// The validation verdict as a function of the stored credentials and the
/// submitted pair. A lookup miss is verified against the fallback hash, and
/// both failure paths end in `InvalidCredentials`.
pub open spec fn validate_spec(
    m: Seq<CredentialModel>,
    username: Seq<char>,
    password: Seq<char>,
) -> AuthCheck {
    match cred_lookup(m, username) {
        Some(c) => {
            if !phc_ok(c.password_hash) {
                AuthCheck::MalformedStoredHash
            } else if password_matches(c.password_hash, password) {
                AuthCheck::Authorized(c.user_id)
            } else {
                AuthCheck::InvalidCredentials
            }
        },
        None => {
            if !phc_ok(fallback_password_hash()) {
                AuthCheck::MalformedStoredHash
            } else {
                AuthCheck::InvalidCredentials
            }
        },
    }
}

/// The message an `InvalidCredentials` verdict carries: a password that
/// happens to match the fallback hash walks the unknown-username path to
/// its end, every other rejection is reported as a wrong password.
pub open spec fn invalid_credentials_message(
    m: Seq<CredentialModel>,
    username: Seq<char>,
    password: Seq<char>,
) -> Seq<char> {
    if cred_lookup(m, username) is None && password_matches(fallback_password_hash(), password) {
        "Unknown username."@
    } else {
        "Invalid password."@
    }
}

/// Validate a username/password pair against the credential store. A hash
/// verification runs whether or not the username exists, so the two
/// rejection paths cost the same, and both produce the same error category.
pub fn validate_credentials(
    credentials: &BasicAuthorization,
    credential_store: &CredentialStore,
) -> (r: Result<u64, PublishError>)
    requires
        credential_store.wf(),
    ensures
        match validate_spec(credential_store@, credentials.username@, credentials.password@) {
            AuthCheck::Authorized(id) => r matches Ok(u) && u == id,
            AuthCheck::InvalidCredentials => r matches Err(PublishError::AuthError(chain))
                && chain@.len() == 1 && chain@[0]@ == invalid_credentials_message(
                credential_store@,
                credentials.username@,
                credentials.password@,
            ),
            AuthCheck::MalformedStoredHash => r matches Err(PublishError::UnexpectedError(chain))
                && chain@.len() == 1 && chain@[0]@
                == "Failed to parse hash in PHC string format."@,
        },
{
    let looked_up = credential_store.get_stored_credentials(credentials.username.as_str());
    let (user_id, expected_password_hash): (Option<u64>, String) = match looked_up {
        Some((id, hash)) => (Some(id), hash),
        None => (None, String::from_str(fallback_password_hash_exec())),
    };
    match check_password(expected_password_hash.as_str(), credentials.password.as_str()) {
        PasswordCheck::MalformedHash => {
            let mut chain: Vec<String> = Vec::new();
            chain.push(String::from_str("Failed to parse hash in PHC string format."));
            Err(PublishError::UnexpectedError(chain))
        },
        PasswordCheck::NoMatch => Err(auth_error("Invalid password.")),
        PasswordCheck::Match => match user_id {
            Some(id) => Ok(id),
            None => Err(auth_error("Unknown username.")),
        },
    }
}

/// Authentication failure is uniform: an unknown username and a wrong
/// password for a known one are the same verdict, `InvalidCredentials`, so
/// the outcome never reveals which of the two happened.
pub proof fn lemma_auth_failure_uniform(
    m: Seq<CredentialModel>,
    unknown_username: Seq<char>,
    any_password: Seq<char>,
    known_username: Seq<char>,
    wrong_password: Seq<char>,
)
    ensures
        cred_lookup(m, unknown_username) is None && phc_ok(fallback_password_hash())
            ==> validate_spec(m, unknown_username, any_password) is InvalidCredentials,
        (cred_lookup(m, known_username) matches Some(c) && phc_ok(c.password_hash)
            && !password_matches(c.password_hash, wrong_password)) ==> validate_spec(
            m,
            known_username,
            wrong_password,
        ) is InvalidCredentials,
{
}

} // verus!
