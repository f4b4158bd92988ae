//! The session: which phase the client is in, what it holds in each, and
//! how every operation moves it on. A session sends nothing itself: each
//! operation hands out the request to send and is completed with the reply.

use crate::envelope::{decode_of, encode, is_envelope, is_json, refusal_of, sealable, Vault};
use crate::error::SyncError;
use crate::kdf::{
    authentication_proof_of, derive_authentication_proof, derive_encryption_key,
    derive_master_key, encryption_key_of, master_key_of, wipe, MasterKey,
};
use crate::protocol::{
    acknowledgement_of, answer_of, delete, delete_outcome_of, delete_request, delete_request_of,
    fetch_outcome_of, fetch_request, fetch_request_of, fetched, logged_in, login_outcome_of,
    login_request, login_request_of, logout, logout_request, logout_request_of,
    register_outcome_of, register_request, register_request_of, registered, update,
    update_request, update_request_of, Reply, Request, ENCRYPTED_DATA_KEY, TOKEN_KEY,
};
use vstd::prelude::*;

verus! {

/// Where a session stands.
#[derive(Debug, Clone, Copy, PartialEq, Eq, Structural)]
pub enum Phase {
    /// Nothing is held yet.
    LoggedOut,
    /// Authenticating: a registration is in flight.
    Registering,
    /// Authenticating: a login is in flight.
    LoggingIn,
    /// Active, with no request in flight.
    Idle,
    /// Active: a fetch is in flight.
    Fetching,
    /// Active: an update is in flight.
    Updating,
    /// Active: a logout is in flight.
    LoggingOut,
    /// Active: an account deletion is in flight.
    Deleting,
    /// Ended: the token is discarded and the master key wiped.
    Terminated,
}

impl Phase {
    /// Whether a registration or a login is in flight.
    pub open spec fn authenticating(self) -> bool {
        self == Phase::Registering || self == Phase::LoggingIn
    }

    /// Whether the session holds a token and a master key.
    pub open spec fn active(self) -> bool {
        self == Phase::Idle || self.syncing()
    }

    /// Whether a request of an active session is in flight.
    pub open spec fn syncing(self) -> bool {
        self == Phase::Fetching || self == Phase::Updating || self == Phase::LoggingOut || self
            == Phase::Deleting
    }
}

/// What `register` and `login` derive from the credentials: the master key
/// and the authentication proof, or nothing where a derivation fails.
pub open spec fn secrets_of(password: Seq<char>, email: Seq<char>) -> Option<
    (Seq<char>, Seq<char>),
> {
    match master_key_of(password, email) {
        Some(master_key) => match authentication_proof_of(master_key, password) {
            Some(proof) => Some((master_key, proof)),
            None => None,
        },
        None => None,
    }
}

/// One session with one backend.
pub struct Session {
    phase: Phase,
    backend_url: String,
    token: String,
    master_key: MasterKey,
}

impl Session {
    /// The phase of the session.
    pub closed spec fn phase(&self) -> Phase {
        self.phase
    }

    /// The address of the backend.
    pub closed spec fn backend_url(&self) -> Seq<char> {
        self.backend_url@
    }

    /// The session token; empty while there is none.
    pub closed spec fn token(&self) -> Seq<char> {
        self.token@
    }

    /// The master key; empty while there is none.
    pub closed spec fn master_key(&self) -> Seq<char> {
        self.master_key@
    }

    /// Whether the session holds no secret: no token and no master key.
    pub open spec fn holds_nothing(&self) -> bool {
        self.token().len() == 0 && self.master_key().len() == 0
    }

    /// The invariant of a session: outside the active phases there is no
    /// token, and before authentication and after the end there is no master
    /// key either.
    pub open spec fn wf(&self) -> bool {
        &&& !self.phase().active() ==> self.token().len() == 0
        &&& (self.phase() == Phase::LoggedOut || self.phase() == Phase::Terminated)
            ==> self.master_key().len() == 0
    }

    /// Whether `next` is this session moved to `phase` with nothing else changed.
    pub open spec fn moved_to(&self, next: &Session, phase: Phase) -> bool {
        &&& next.phase() == phase
        &&& next.backend_url() == self.backend_url()
        &&& next.token() == self.token()
        &&& next.master_key() == self.master_key()
    }

    /// Whether `next` is this session moved to `phase` with token and master
    /// key gone.
    pub open spec fn torn_down_to(&self, next: &Session, phase: Phase) -> bool {
        &&& next.phase() == phase
        &&& next.backend_url() == self.backend_url()
        &&& next.holds_nothing()
    }

    /// A session with the backend at `backend_url`, logged out.
    pub fn new(backend_url: String) -> (session: Session)
        ensures
            session.wf(),
            session.phase() == Phase::LoggedOut,
            session.backend_url() == backend_url@,
            session.holds_nothing(),
    {
        Session {
            phase: Phase::LoggedOut,
            backend_url,
            token: String::new(),
            master_key: MasterKey::new(String::new()),
        }
    }

    /// An active session, idle, made of what an earlier authentication gave.
    pub fn active(backend_url: String, token: String, master_key: MasterKey) -> (session: Session)
        ensures
            session.wf(),
            session.phase() == Phase::Idle,
            session.backend_url() == backend_url@,
            session.token() == token@,
            session.master_key() == master_key@,
    {
        Session { phase: Phase::Idle, backend_url, token, master_key }
    }

    /// The phase of the session.
    pub fn current_phase(&self) -> (phase: Phase)
        ensures
            phase == self.phase(),
    {
        self.phase
    }

    /// The address of the backend.
    pub fn url(&self) -> (url: &str)
        ensures
            url@ == self.backend_url(),
    {
        self.backend_url.as_str()
    }

    /// The session token; empty outside the active phases.
    pub fn session_token(&self) -> (token: &str)
        ensures
            token@ == self.token(),
    {
        self.token.as_str()
    }

    /// Whether the master key is gone.
    pub fn is_wiped(&self) -> (wiped: bool)
        ensures
            wiped == (self.master_key().len() == 0),
    {
        self.master_key.is_wiped()
    }

    /// Derives the secrets and moves to `phase`, or ends the session.
    fn authenticate(&mut self, email: &str, password: &mut String, phase: Phase) -> (r: Result<
        String,
        SyncError,
    >)
        requires
            old(self).phase() == Phase::LoggedOut,
            old(self).wf(),
            phase.authenticating(),
        ensures
            final(self).wf(),
            final(password)@.len() == 0,
            match secrets_of(old(password)@, email@) {
                Some((master_key, proof)) => {
                    &&& r matches Ok(sent)
                    &&& sent@ == proof
                    &&& final(self).phase() == phase
                    &&& final(self).backend_url() == old(self).backend_url()
                    &&& final(self).token().len() == 0
                    &&& final(self).master_key() == master_key
                },
                None => {
                    &&& r == Err::<String, SyncError>(SyncError::KeyDerivation)
                    &&& old(self).torn_down_to(final(self), Phase::Terminated)
                },
            },
    {
        let derived = derive_master_key(password.as_str(), email);
        match derived {
            Ok(mut master_key) => {
                let derived = derive_authentication_proof(&master_key, password.as_str());
                wipe(password);
                match derived {
                    Ok(credential) => {
                        self.master_key = master_key;
                        self.phase = phase;
                        Ok(credential)
                    },
                    Err(_) => {
                        master_key.wipe();
                        self.phase = Phase::Terminated;
                        Err(SyncError::KeyDerivation)
                    },
                }
            },
            Err(_) => {
                wipe(password);
                self.phase = Phase::Terminated;
                Err(SyncError::KeyDerivation)
            },
        }
    }

    /// Begins a registration: derives master key and authentication proof
    /// from the credentials and hands out the request that carries the proof.
    /// The password is wiped before this returns, whatever happens. A failed
    /// derivation is fatal: the session ends.
    pub fn register(&mut self, email: &str, password: &mut String) -> (r: Result<
        Request,
        SyncError,
    >)
        requires
            old(self).phase() == Phase::LoggedOut,
            old(self).wf(),
        ensures
            final(self).wf(),
            final(password)@.len() == 0,
            match secrets_of(old(password)@, email@) {
                Some((master_key, proof)) => {
                    &&& r matches Ok(request)
                    &&& request@ == register_request_of(old(self).backend_url(), email@, proof)
                    &&& final(self).phase() == Phase::Registering
                    &&& final(self).backend_url() == old(self).backend_url()
                    &&& final(self).token().len() == 0
                    &&& final(self).master_key() == master_key
                },
                None => {
                    &&& r matches Err(e)
                    &&& e == SyncError::KeyDerivation
                    &&& old(self).torn_down_to(final(self), Phase::Terminated)
                },
            },
    {
        match self.authenticate(email, password, Phase::Registering) {
            Ok(credential) => Ok(
                register_request(self.backend_url.as_str(), email, credential.as_str()),
            ),
            Err(e) => Err(e),
        }
    }

    /// Begins a login: as `register`, but for the login endpoint.
    pub fn login(&mut self, email: &str, password: &mut String) -> (r: Result<Request, SyncError>)
        requires
            old(self).phase() == Phase::LoggedOut,
            old(self).wf(),
        ensures
            final(self).wf(),
            final(password)@.len() == 0,
            match secrets_of(old(password)@, email@) {
                Some((master_key, proof)) => {
                    &&& r matches Ok(request)
                    &&& request@ == login_request_of(old(self).backend_url(), email@, proof)
                    &&& final(self).phase() == Phase::LoggingIn
                    &&& final(self).backend_url() == old(self).backend_url()
                    &&& final(self).token().len() == 0
                    &&& final(self).master_key() == master_key
                },
                None => {
                    &&& r matches Err(e)
                    &&& e == SyncError::KeyDerivation
                    &&& old(self).torn_down_to(final(self), Phase::Terminated)
                },
            },
    {
        match self.authenticate(email, password, Phase::LoggingIn) {
            Ok(credential) => Ok(
                login_request(self.backend_url.as_str(), email, credential.as_str()),
            ),
            Err(e) => Err(e),
        }
    }

    /// Completes a registration or a login with the backend's reply. With a
    /// token the session becomes active. Every failure wipes the master key
    /// and leaves the session logged out, ready for another attempt.
    pub fn authenticated(&mut self, reply: &Reply) -> (r: Result<(), SyncError>)
        requires
            old(self).phase().authenticating(),
            old(self).wf(),
        ensures
            final(self).wf(),
            match (if old(self).phase() == Phase::Registering {
                register_outcome_of(answer_of(reply@, TOKEN_KEY@))
            } else {
                login_outcome_of(answer_of(reply@, TOKEN_KEY@))
            }) {
                Ok(token) => {
                    &&& r is Ok
                    &&& final(self).phase() == Phase::Idle
                    &&& final(self).backend_url() == old(self).backend_url()
                    &&& final(self).token() == token
                    &&& final(self).master_key() == old(self).master_key()
                },
                Err(e) => {
                    &&& r == Err::<(), SyncError>(e)
                    &&& old(self).torn_down_to(final(self), Phase::LoggedOut)
                },
            },
    {
        let outcome = match self.phase {
            Phase::Registering => registered(reply),
            _ => logged_in(reply),
        };
        match outcome {
            Ok(token) => {
                self.token = token;
                self.phase = Phase::Idle;
                Ok(())
            },
            Err(e) => {
                self.master_key.wipe();
                self.phase = Phase::LoggedOut;
                Err(e)
            },
        }
    }

    /// Begins a fetch of the vault.
    pub fn fetch_vault(&mut self) -> (request: Request)
        requires
            old(self).phase() == Phase::Idle,
            old(self).wf(),
        ensures
            final(self).wf(),
            old(self).moved_to(final(self), Phase::Fetching),
            request@ == fetch_request_of(old(self).backend_url(), old(self).token()),
    {
        self.phase = Phase::Fetching;
        fetch_request(self.backend_url.as_str(), self.token.as_str())
    }

    /// Completes a fetch: opens the envelope with the key derived from the
    /// session's master key. The session is idle again, whatever the outcome.
    pub fn vault_fetched(&mut self, reply: &Reply) -> (r: Result<Vault, SyncError>)
        requires
            old(self).phase() == Phase::Fetching,
            old(self).wf(),
        ensures
            final(self).wf(),
            old(self).moved_to(final(self), Phase::Idle),
            match r {
                Ok(vault) => fetch_outcome_of(
                    answer_of(reply@, ENCRYPTED_DATA_KEY@),
                    encryption_key_of(old(self).master_key()),
                ) == Ok::<Option<Seq<u8>>, SyncError>(vault@),
                Err(e) => fetch_outcome_of(
                    answer_of(reply@, ENCRYPTED_DATA_KEY@),
                    encryption_key_of(old(self).master_key()),
                ) == Err::<Option<Seq<u8>>, SyncError>(e),
            },
    {
        self.phase = Phase::Idle;
        let key = derive_encryption_key(&self.master_key);
        fetched(reply, &key)
    }

    /// Begins an update: seals the entries, serialized as JSON, with the key
    /// derived from the session's master key, under a fresh nonce, and hands
    /// out the request that carries the envelope. Where the plaintext is no
    /// JSON or cannot be sealed the session stays idle.
    pub fn update_vault(&mut self, plaintext: &[u8]) -> (r: Result<Request, SyncError>)
        requires
            old(self).phase() == Phase::Idle,
            old(self).wf(),
        ensures
            final(self).wf(),
            r is Ok <==> is_json(plaintext@) && sealable(plaintext@.len()),
            match r {
                Ok(request) => {
                    &&& old(self).moved_to(final(self), Phase::Updating)
                    &&& exists|envelope: Seq<char>, nonce: Seq<u8>|
                        {
                            &&& #[trigger] is_envelope(
                                envelope,
                                encryption_key_of(old(self).master_key()),
                                nonce,
                                plaintext@,
                            )
                            &&& request@ == update_request_of(
                                old(self).backend_url(),
                                old(self).token(),
                                envelope,
                            )
                            &&& decode_of(envelope, encryption_key_of(old(self).master_key()))
                                == Ok::<Option<Seq<u8>>, SyncError>(Some(plaintext@))
                        }
                },
                Err(e) => e == refusal_of(plaintext@) && old(self).moved_to(
                    final(self),
                    Phase::Idle,
                ),
            },
    {
        let key = derive_encryption_key(&self.master_key);
        match encode(plaintext, &key) {
            Ok(envelope) => {
                self.phase = Phase::Updating;
                Ok(
                    update_request(
                        self.backend_url.as_str(),
                        self.token.as_str(),
                        envelope.as_str(),
                    ),
                )
            },
            Err(e) => Err(e),
        }
    }

    /// Completes an update. The session is idle again, whatever the outcome.
    pub fn vault_updated(&mut self, reply: &Reply) -> (r: Result<(), SyncError>)
        requires
            old(self).phase() == Phase::Updating,
            old(self).wf(),
        ensures
            final(self).wf(),
            old(self).moved_to(final(self), Phase::Idle),
            r == acknowledgement_of(reply@),
    {
        self.phase = Phase::Idle;
        update(reply)
    }

    /// Begins a logout.
    pub fn logout(&mut self) -> (request: Request)
        requires
            old(self).phase() == Phase::Idle,
            old(self).wf(),
        ensures
            final(self).wf(),
            old(self).moved_to(final(self), Phase::LoggingOut),
            request@ == logout_request_of(old(self).backend_url(), old(self).token()),
    {
        self.phase = Phase::LoggingOut;
        logout_request(self.backend_url.as_str(), self.token.as_str())
    }

    /// Completes a logout. A failure is reported and changes nothing else:
    /// the session ends, the token is discarded and the master key wiped.
    pub fn logged_out(&mut self, reply: &Reply) -> (r: Result<(), SyncError>)
        requires
            old(self).phase() == Phase::LoggingOut,
            old(self).wf(),
        ensures
            final(self).wf(),
            old(self).torn_down_to(final(self), Phase::Terminated),
            r == acknowledgement_of(reply@),
    {
        self.terminate();
        logout(reply)
    }

    /// Begins the deletion of the account.
    pub fn delete_account(&mut self) -> (request: Request)
        requires
            old(self).phase() == Phase::Idle,
            old(self).wf(),
        ensures
            final(self).wf(),
            old(self).moved_to(final(self), Phase::Deleting),
            request@ == delete_request_of(old(self).backend_url(), old(self).token()),
    {
        self.phase = Phase::Deleting;
        delete_request(self.backend_url.as_str(), self.token.as_str())
    }

    /// Completes the deletion of the account. Once acknowledged the session
    /// ends, with token discarded and master key wiped. A failure comes
    /// before any teardown: the session is idle again and holds what it held.
    pub fn account_deleted(&mut self, reply: &Reply) -> (r: Result<(), SyncError>)
        requires
            old(self).phase() == Phase::Deleting,
            old(self).wf(),
        ensures
            final(self).wf(),
            r == delete_outcome_of(reply@),
            match r {
                Ok(_) => old(self).torn_down_to(final(self), Phase::Terminated),
                Err(_) => old(self).moved_to(final(self), Phase::Idle),
            },
    {
        let outcome = delete(reply);
        match outcome {
            Ok(_) => self.terminate(),
            Err(_) => {
                self.phase = Phase::Idle;
            },
        }
        outcome
    }

    /// Ends the session from any phase: discards the token and wipes the
    /// master key.
    pub fn terminate(&mut self)
        ensures
            final(self).wf(),
            old(self).torn_down_to(final(self), Phase::Terminated),
    {
        wipe(&mut self.token);
        self.master_key.wipe();
        self.phase = Phase::Terminated;
    }
}

} // verus!
