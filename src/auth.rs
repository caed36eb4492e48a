//! Signup, login, logout and session calls for one identity at its homeserver.
//!
//! The handshake is a sequence of network calls with decisions between them. `Auth`
//! makes the decisions: each method takes the outcome of the previous call and returns
//! the next `AuthAction`, which the caller performs before handing its outcome back.
use vstd::prelude::*;

use crate::challenge::{from_be_bytes, signable_of, Challenge, CHALLENGE_LEN};
use crate::crypto::{ed25519_public_of, ed25519_signature_of, Keypair};
use crate::error::{AuthError, DHTError, HTTPError};
use crate::helpers::Path;
use crate::http::{update_session, HttpReply};
use crate::records::ResourceRecord;
use crate::resolver::{is_publication, resolved_url, PublishRequest, Resolver};
use crate::zbase32::z32_encode_spec;

verus! {

/// Which signature the homeserver is sent: one that registers the user, or one that
/// opens a session.
#[derive(Debug, Clone, Copy, PartialEq, Eq, Structural)]
pub enum SigType {
    Signup,
    Login,
}

/// Where an `Auth` stands.
#[derive(Debug, Clone, Copy, PartialEq, Eq, Structural)]
pub enum Stage {
    /// No operation is under way.
    Idle,
    /// Waiting for the homeserver URL, before the challenge.
    ResolvingForChallenge,
    /// Waiting for the challenge.
    FetchingChallenge,
    /// Waiting for the reply to the signed challenge.
    SendingSignature,
    /// Waiting for the homeserver URL, before publishing it.
    ResolvingForPublish,
    /// Waiting for the record store to take the publication.
    Publishing,
    /// Waiting for the reply to the logout.
    LoggingOut,
    /// Waiting for the session.
    FetchingSession,
}

/// What the caller is to do next.
pub enum AuthAction {
    /// Resolve the homeserver of this public key, then call `homeserver_resolved`.
    Resolve(String),
    /// GET `path` at the homeserver `url`, sending the session cookie.
    Get { url: String, path: String },
    /// PUT `body` as `application/octet-stream` to `path` at the homeserver `url`,
    /// sending the session cookie.
    Put { url: String, path: String, body: Vec<u8> },
    /// DELETE `path` at the homeserver `url`, sending the session cookie.
    Delete { url: String, path: String },
    /// Sign the records with the pending keypair and store them, then call `published`.
    Publish(PublishRequest),
    /// The operation is over, with the user id or with the stage that failed.
    Done(Result<String, AuthError>),
}

struct Pending {
    keypair: Keypair,
    sig_type: SigType,
    user_id: String,
}

/// One identity's homeserver URL and session, and the resolver that finds the former.
pub struct Auth {
    pub homeserver_url: Option<String>,
    pub session_id: Option<String>,
    resolver: Resolver,
    pending: Option<Pending>,
    stage: Stage,
}

/// Whether a stage belongs to the signing handshake.
pub open spec fn is_handshake(s: Stage) -> bool {
    s == Stage::ResolvingForChallenge || s == Stage::FetchingChallenge || s
        == Stage::SendingSignature || s == Stage::ResolvingForPublish || s == Stage::Publishing
}

/// The path that a signature of type `t` by `user` is sent to.
pub open spec fn signature_path(t: SigType, user: Seq<char>) -> Seq<char> {
    match t {
        SigType::Signup => "/mvp/users/"@ + user + "/pkarr"@,
        SigType::Login => "/mvp/session/"@ + user,
    }
}

/// The session after a reply that sets `cookie` (or none).
pub open spec fn session_after(session: Option<String>, cookie: Option<String>, next: Option<String>) -> bool {
    match cookie {
        Some(c) => next matches Some(s) && s@ == c@,
        None => next == session,
    }
}

impl Auth {
    /// The homeserver URL, if known.
    pub closed spec fn home_url(&self) -> Option<String> {
        self.homeserver_url
    }

    /// The session, if one is open.
    pub closed spec fn session_spec(&self) -> Option<String> {
        self.session_id
    }

    /// Where the operation under way stands.
    pub closed spec fn stage_spec(&self) -> Stage {
        self.stage
    }

    /// The resolver's cache.
    pub closed spec fn cache(&self) -> Map<Seq<char>, Seq<char>> {
        self.resolver@
    }

    /// The user id of the handshake under way (or of the last one).
    pub closed spec fn user(&self) -> Seq<char> {
        match self.pending {
            Some(p) => p.user_id@,
            None => Seq::empty(),
        }
    }

    /// The secret key of the handshake under way (or of the last one).
    pub closed spec fn secret(&self) -> Seq<u8> {
        match self.pending {
            Some(p) => p.keypair.secret_spec(),
            None => Seq::empty(),
        }
    }

    /// The signature type of the handshake under way (or of the last one).
    pub closed spec fn sig_type(&self) -> SigType {
        match self.pending {
            Some(p) => p.sig_type,
            None => SigType::Login,
        }
    }

    /// No secret key is held but zeros.
    pub closed spec fn key_scrubbed(&self) -> bool {
        match self.pending {
            Some(p) => p.keypair.is_scrubbed(),
            None => true,
        }
    }

    /// The resolver is well formed; a handshake holds a keypair and its user id, and
    /// outside a handshake the secret key is zeros.
    pub closed spec fn wf(&self) -> bool {
        &&& self.resolver.wf()
        &&& is_handshake(self.stage) ==> (self.pending matches Some(p) && p.keypair.public_spec()
            == ed25519_public_of(p.keypair.secret_spec()) && p.user_id@ == z32_encode_spec(
            p.keypair.public_spec(),
        ))
        &&& (self.stage == Stage::FetchingChallenge || self.stage == Stage::SendingSignature
            || self.stage == Stage::Publishing) ==> self.homeserver_url is Some
        &&& !is_handshake(self.stage) ==> self.key_scrubbed()
    }

    /// An idle `Auth` with `resolver`, knowing `homeserver_url` if given, with no session.
    pub fn new(resolver: Resolver, homeserver_url: Option<String>) -> (r: Auth)
        requires
            resolver.wf(),
        ensures
            r.wf(),
            r.stage_spec() == Stage::Idle,
            r.cache() == resolver@,
            r.home_url() == homeserver_url,
            r.session_spec() is None,
    {
        Auth { homeserver_url, session_id: None, resolver, pending: None, stage: Stage::Idle }
    }

    /// Where the operation under way stands.
    pub fn stage(&self) -> (r: Stage)
        ensures
            r == self.stage_spec(),
    {
        self.stage
    }

    /// The resolver, for the steps of a resolution that do not change it.
    pub fn resolver(&self) -> (r: &Resolver)
        requires
            self.wf(),
        ensures
            r.wf(),
            r@ == self.cache(),
    {
        &self.resolver
    }

    /// The keypair of the handshake under way, which signs a publication.
    pub fn keypair(&self) -> (r: Option<&Keypair>)
        ensures
            r matches Some(k) ==> k.secret_spec() == self.secret(),
    {
        match &self.pending {
            Some(p) => Some(&p.keypair),
            None => None,
        }
    }

    /// Ends a resolution with the lookup of the homeserver's record set (see
    /// `Resolver::resolve_homeserver_records`).
    pub fn resolve_homeserver_records(
        &mut self,
        public_key: &str,
        lookup: Result<Vec<ResourceRecord>, DHTError>,
    ) -> (r: Result<String, DHTError>)
        requires
            old(self).wf(),
        ensures
            final(self).wf(),
            final(self).stage_spec() == old(self).stage_spec(),
            final(self).user() == old(self).user(),
            final(self).secret() == old(self).secret(),
            final(self).sig_type() == old(self).sig_type(),
            final(self).home_url() == old(self).home_url(),
            final(self).session_spec() == old(self).session_spec(),
            lookup matches Err(e) ==> r == Err::<String, DHTError>(e) && final(self).cache()
                == old(self).cache(),
            lookup matches Ok(records) ==> match resolved_url(records@) {
                Ok(u) => r matches Ok(s) && s@ == u && final(self).cache() == old(self).cache().insert(public_key@, u),
                Err(e) => r == Err::<String, DHTError>(e) && final(self).cache() == old(self).cache(),
            },
    {
        self.resolver.resolve_homeserver_records(public_key, lookup)
    }

    fn scrub_key(&mut self)
        ensures
            final(self).key_scrubbed(),
            final(self).resolver == old(self).resolver,
            final(self).home_url() == old(self).home_url(),
            final(self).session_spec() == old(self).session_spec(),
            final(self).stage == old(self).stage,
            final(self).user() == old(self).user(),
            final(self).sig_type() == old(self).sig_type(),
    {
        let taken = self.pending.take();
        match taken {
            Some(p) => {
                let mut p = p;
                p.keypair.scrub();
                self.pending = Some(p);
            },
            None => {},
        }
    }

    fn finish(&mut self, result: Result<String, AuthError>) -> (r: AuthAction)
        requires
            old(self).resolver.wf(),
        ensures
            final(self).wf(),
            r == AuthAction::Done(result),
            final(self).stage == Stage::Idle,
            final(self).resolver == old(self).resolver,
            final(self).home_url() == old(self).home_url(),
            final(self).session_spec() == old(self).session_spec(),
            final(self).user() == old(self).user(),
            final(self).sig_type() == old(self).sig_type(),
    {
        self.scrub_key();
        self.stage = Stage::Idle;
        AuthAction::Done(result)
    }

    /// Asks for the challenge, once the homeserver is known.
    fn request_challenge(&mut self) -> (r: AuthAction)
        requires
            old(self).resolver.wf(),
            old(self).pending matches Some(p) && p.keypair.public_spec() == ed25519_public_of(
                p.keypair.secret_spec(),
            ) && p.user_id@ == z32_encode_spec(p.keypair.public_spec()),
        ensures
            final(self).wf(),
            final(self).pending == old(self).pending,
            final(self).resolver == old(self).resolver,
            final(self).home_url() == old(self).home_url(),
            final(self).session_spec() == old(self).session_spec(),
            old(self).home_url() is None ==> final(self).stage
                == Stage::ResolvingForChallenge && (r matches AuthAction::Resolve(k) && k@
                == old(self).user()),
            old(self).home_url() matches Some(h) ==> final(self).stage
                == Stage::FetchingChallenge && (r matches AuthAction::Get { url, path } && url@
                == h@ && path@ == "/mvp/challenge"@),
    {
        match &self.homeserver_url {
            None => {
                self.stage = Stage::ResolvingForChallenge;
                let user = self.pending.as_ref().unwrap().user_id.clone();
                AuthAction::Resolve(user)
            },
            Some(h) => {
                let url = h.clone();
                self.stage = Stage::FetchingChallenge;
                AuthAction::Get { url, path: Path::get_challenge_string() }
            },
        }
    }

    fn begin(&mut self, seed: &[u8; 32], sig_type: SigType) -> (r: AuthAction)
        requires
            old(self).wf(),
            old(self).stage_spec() == Stage::Idle,
        ensures
            final(self).wf(),
            final(self).user() == z32_encode_spec(ed25519_public_of(seed@)),
            final(self).secret() == seed@,
            final(self).sig_type() == sig_type,
            final(self).cache() == old(self).cache(),
            final(self).home_url() == old(self).home_url(),
            final(self).session_spec() == old(self).session_spec(),
            old(self).home_url() is None ==> final(self).stage_spec()
                == Stage::ResolvingForChallenge && (r matches AuthAction::Resolve(k) && k@
                == final(self).user()),
            old(self).home_url() matches Some(h) ==> final(self).stage_spec()
                == Stage::FetchingChallenge && (r matches AuthAction::Get { url, path } && url@
                == h@ && path@ == "/mvp/challenge"@),
    {
        let keypair = Keypair::from_seed(seed);
        let user_id = keypair.to_z32();
        self.pending = Some(Pending { keypair, sig_type, user_id });
        self.request_challenge()
    }

    /// Starts signing up the identity of `seed`: resolve the homeserver if it is not
    /// known, fetch a challenge, send its signature to the registration path, publish
    /// the homeserver, and end with the user id.
    pub fn signup(&mut self, seed: &[u8; 32]) -> (r: AuthAction)
        requires
            old(self).wf(),
            old(self).stage_spec() == Stage::Idle,
        ensures
            final(self).wf(),
            final(self).user() == z32_encode_spec(ed25519_public_of(seed@)),
            final(self).secret() == seed@,
            final(self).sig_type() == SigType::Signup,
            final(self).cache() == old(self).cache(),
            final(self).home_url() == old(self).home_url(),
            final(self).session_spec() == old(self).session_spec(),
            old(self).home_url() is None ==> final(self).stage_spec()
                == Stage::ResolvingForChallenge && (r matches AuthAction::Resolve(k) && k@
                == final(self).user()),
            old(self).home_url() matches Some(h) ==> final(self).stage_spec()
                == Stage::FetchingChallenge && (r matches AuthAction::Get { url, path } && url@
                == h@ && path@ == "/mvp/challenge"@),
    {
        self.begin(seed, SigType::Signup)
    }

    /// Starts logging in the identity of `seed`: as `signup`, but the signature goes to
    /// the session path and nothing is published.
    pub fn login(&mut self, seed: &[u8; 32]) -> (r: AuthAction)
        requires
            old(self).wf(),
            old(self).stage_spec() == Stage::Idle,
        ensures
            final(self).wf(),
            final(self).user() == z32_encode_spec(ed25519_public_of(seed@)),
            final(self).secret() == seed@,
            final(self).sig_type() == SigType::Login,
            final(self).cache() == old(self).cache(),
            final(self).home_url() == old(self).home_url(),
            final(self).session_spec() == old(self).session_spec(),
            old(self).home_url() is None ==> final(self).stage_spec()
                == Stage::ResolvingForChallenge && (r matches AuthAction::Resolve(k) && k@
                == final(self).user()),
            old(self).home_url() matches Some(h) ==> final(self).stage_spec()
                == Stage::FetchingChallenge && (r matches AuthAction::Get { url, path } && url@
                == h@ && path@ == "/mvp/challenge"@),
    {
        self.begin(seed, SigType::Login)
    }

    /// Goes on with the homeserver URL that a resolution gave, or fails the handshake.
    pub fn homeserver_resolved(&mut self, outcome: Result<String, DHTError>) -> (r: AuthAction)
        requires
            old(self).wf(),
            old(self).stage_spec() == Stage::ResolvingForChallenge || old(self).stage_spec()
                == Stage::ResolvingForPublish,
        ensures
            final(self).wf(),
            final(self).cache() == old(self).cache(),
            final(self).session_spec() == old(self).session_spec(),
            final(self).user() == old(self).user(),
            final(self).sig_type() == old(self).sig_type(),
            r is Done ==> final(self).key_scrubbed(),
            outcome matches Err(e) ==> r == AuthAction::Done(
                Err(AuthError::FailedToResolveHomeserver(e)),
            ) && final(self).stage_spec() == Stage::Idle && final(self).home_url() == old(self).home_url(),
            outcome matches Ok(u) ==> (final(self).home_url() matches Some(h) && h@ == u@)
                && final(self).secret() == old(self).secret(),
            outcome is Ok && old(self).stage_spec() == Stage::ResolvingForChallenge ==> final(self).stage_spec() == Stage::FetchingChallenge && (r matches AuthAction::Get {
                url,
                path,
            } && outcome matches Ok(u) && url@ == u@ && path@ == "/mvp/challenge"@),
            outcome is Ok && old(self).stage_spec() == Stage::ResolvingForPublish ==> final(self).stage_spec() == Stage::Publishing && (r matches AuthAction::Publish(req)
                && outcome matches Ok(u) && req.public_key@ == old(self).user()
                && req.homeserver_url@ == u@ && is_publication(
                req.records@,
                old(self).user(),
                u@,
            )),
    {
        match outcome {
            Err(e) => self.finish(Err(AuthError::FailedToResolveHomeserver(e))),
            Ok(u) => {
                self.homeserver_url = Some(u);
                if self.stage == Stage::ResolvingForChallenge {
                    self.request_challenge()
                } else {
                    self.request_publication()
                }
            },
        }
    }

    fn request_publication(&mut self) -> (r: AuthAction)
        requires
            old(self).wf(),
            is_handshake(old(self).stage),
            old(self).home_url() is Some,
        ensures
            final(self).wf(),
            final(self).pending == old(self).pending,
            final(self).resolver == old(self).resolver,
            final(self).home_url() == old(self).home_url(),
            final(self).session_spec() == old(self).session_spec(),
            final(self).stage == Stage::Publishing,
            r matches AuthAction::Publish(req) && old(self).home_url() matches Some(h)
                && req.public_key@ == old(self).user() && req.homeserver_url@ == h@
                && is_publication(req.records@, old(self).user(), h@),
    {
        let h = self.homeserver_url.as_ref().unwrap();
        let p = self.pending.as_ref().unwrap();
        let req = self.resolver.publish(&p.keypair, h.as_str());
        self.stage = Stage::Publishing;
        AuthAction::Publish(req)
    }

    /// Goes on with the challenge that the homeserver sent, at time `now`: unless it has
    /// expired, signs its signable bytes and sends the signature to the path of the
    /// handshake's type.
    pub fn challenge_received(&mut self, outcome: Result<HttpReply, HTTPError>, now: u64) -> (r:
        AuthAction)
        requires
            old(self).wf(),
            old(self).stage_spec() == Stage::FetchingChallenge,
        ensures
            final(self).wf(),
            final(self).cache() == old(self).cache(),
            final(self).home_url() == old(self).home_url(),
            final(self).user() == old(self).user(),
            final(self).sig_type() == old(self).sig_type(),
            r is Done ==> final(self).key_scrubbed() && final(self).stage_spec() == Stage::Idle,
            outcome matches Err(e) ==> r == AuthAction::Done(
                Err(AuthError::FailedToGetChallenge(e)),
            ) && final(self).session_spec() == old(self).session_spec(),
            outcome matches Ok(reply) ==> session_after(
                old(self).session_spec(),
                reply.session_cookie,
                final(self).session_spec(),
            ),
            outcome matches Ok(reply) ==> (reply.body@.len() != CHALLENGE_LEN ==> r
                == AuthAction::Done(
                Err(AuthError::FailedToGetChallenge(HTTPError::ResponseParseFailed)),
            )),
            outcome matches Ok(reply) ==> (reply.body@.len() == CHALLENGE_LEN && from_be_bytes(
                reply.body@.subrange(32, 40),
            ) <= now ==> r == AuthAction::Done(Err(AuthError::ChallengeExpired))),
            outcome matches Ok(reply) ==> (reply.body@.len() == CHALLENGE_LEN && from_be_bytes(
                reply.body@.subrange(32, 40),
            ) > now ==> final(self).stage_spec() == Stage::SendingSignature && final(self).secret() == old(self).secret() && (r matches AuthAction::Put { url, path, body } && old(self).home_url() matches Some(h) && url@ == h@ && path@ == signature_path(
                old(self).sig_type(),
                old(self).user(),
            ) && body@ == ed25519_signature_of(
                old(self).secret(),
                signable_of(reply.body@.subrange(0, 32)),
            ))),
    {
        match outcome {
            Err(e) => self.finish(Err(AuthError::FailedToGetChallenge(e))),
            Ok(reply) => {
                update_session(&mut self.session_id, &reply.session_cookie);
                match Challenge::parse(reply.body.as_slice()) {
                    None => self.finish(
                        Err(AuthError::FailedToGetChallenge(HTTPError::ResponseParseFailed)),
                    ),
                    Some(challenge) => {
                        if challenge.expired_at(now) {
                            return self.finish(Err(AuthError::ChallengeExpired));
                        }
                        let url = self.homeserver_url.as_ref().unwrap().clone();
                        let p = self.pending.as_ref().unwrap();
                        let signature = p.keypair.sign(&challenge.signable);
                        let path = match p.sig_type {
                            SigType::Signup => Path::get_signup_string(p.user_id.as_str()),
                            SigType::Login => Path::get_session_string(Some(p.user_id.as_str())),
                        };
                        let body = sig_bytes(&signature);
                        self.stage = Stage::SendingSignature;
                        AuthAction::Put { url, path, body }
                    },
                }
            },
        }
    }

    /// Goes on once the homeserver took the signature: a login ends with the user id, a
    /// signup goes on to publish the homeserver.
    pub fn signature_sent(&mut self, outcome: Result<HttpReply, HTTPError>) -> (r: AuthAction)
        requires
            old(self).wf(),
            old(self).stage_spec() == Stage::SendingSignature,
        ensures
            final(self).wf(),
            final(self).cache() == old(self).cache(),
            final(self).home_url() == old(self).home_url(),
            final(self).user() == old(self).user(),
            final(self).sig_type() == old(self).sig_type(),
            r is Done ==> final(self).key_scrubbed() && final(self).stage_spec() == Stage::Idle,
            outcome matches Err(e) ==> r == AuthAction::Done(
                Err(AuthError::FailedToSendUserSignature(e)),
            ) && final(self).session_spec() == old(self).session_spec(),
            outcome matches Ok(reply) ==> session_after(
                old(self).session_spec(),
                reply.session_cookie,
                final(self).session_spec(),
            ),
            outcome is Ok && old(self).sig_type() == SigType::Login ==> (r matches AuthAction::Done(
                Ok(u),
            ) && u@ == old(self).user()),
            outcome is Ok && old(self).sig_type() == SigType::Signup ==> final(self).stage_spec()
                == Stage::Publishing && final(self).secret() == old(self).secret() && (
            r matches AuthAction::Publish(req) && old(self).home_url() matches Some(h)
                && req.public_key@ == old(self).user() && req.homeserver_url@ == h@
                && is_publication(req.records@, old(self).user(), h@)),
    {
        match outcome {
            Err(e) => self.finish(Err(AuthError::FailedToSendUserSignature(e))),
            Ok(reply) => {
                update_session(&mut self.session_id, &reply.session_cookie);
                let p = self.pending.as_ref().unwrap();
                let (sig_type, user) = (p.sig_type, p.user_id.clone());
                match sig_type {
                    SigType::Login => self.finish(Ok(user)),
                    SigType::Signup => self.request_publication(),
                }
            },
        }
    }

    /// Ends a signup with the record store's outcome: on success the homeserver is
    /// cached for the user and the user id returned.
    pub fn published(&mut self, outcome: Result<(), String>) -> (r: AuthAction)
        requires
            old(self).wf(),
            old(self).stage_spec() == Stage::Publishing,
        ensures
            final(self).wf(),
            final(self).stage_spec() == Stage::Idle,
            final(self).key_scrubbed(),
            final(self).home_url() == old(self).home_url(),
            final(self).session_spec() == old(self).session_spec(),
            final(self).user() == old(self).user(),
            outcome matches Err(e) ==> r == AuthAction::Done(
                Err(AuthError::FailedToPublishHomeserver(DHTError::EntryNotPublished(e))),
            ) && final(self).cache() == old(self).cache(),
            outcome is Ok ==> (r matches AuthAction::Done(Ok(u)) && u@ == old(self).user()),
            outcome is Ok ==> (old(self).home_url() matches Some(h) && final(self).cache()
                == old(self).cache().insert(old(self).user(), h@)),
    {
        let user = self.pending.as_ref().unwrap().user_id.clone();
        let h = self.homeserver_url.as_ref().unwrap().clone();
        match self.resolver.publish_done(user.as_str(), h.as_str(), outcome) {
            Err(e) => self.finish(Err(AuthError::FailedToPublishHomeserver(e))),
            Ok(()) => self.finish(Ok(user)),
        }
    }

    /// Starts logging `user_id` out: both a homeserver and a session must be known.
    pub fn logout(&mut self, user_id: &str) -> (r: AuthAction)
        requires
            old(self).wf(),
            old(self).stage_spec() == Stage::Idle,
        ensures
            final(self).wf(),
            final(self).cache() == old(self).cache(),
            final(self).home_url() == old(self).home_url(),
            final(self).session_spec() == old(self).session_spec(),
            old(self).home_url() is None ==> r == AuthAction::Done(Err(AuthError::NoHomeserver))
                && final(self).stage_spec() == Stage::Idle,
            old(self).home_url() is Some && old(self).session_spec() is None ==> r
                == AuthAction::Done(Err(AuthError::NoSession)) && final(self).stage_spec()
                == Stage::Idle,
            old(self).home_url() is Some && old(self).session_spec() is Some ==> final(self).stage_spec() == Stage::LoggingOut && (r matches AuthAction::Delete { url, path }
                && old(self).home_url() matches Some(h) && url@ == h@ && path@
                == "/mvp/session/"@ + user_id@),
    {
        match &self.homeserver_url {
            None => AuthAction::Done(Err(AuthError::NoHomeserver)),
            Some(h) => {
                if self.session_id.is_none() {
                    return AuthAction::Done(Err(AuthError::NoSession));
                }
                let url = h.clone();
                self.stage = Stage::LoggingOut;
                AuthAction::Delete { url, path: Path::get_session_string(Some(user_id)) }
            },
        }
    }

    /// Ends a logout with the homeserver's reply: on success the session that was open
    /// is returned and none is left.
    pub fn logout_done(&mut self, outcome: Result<HttpReply, HTTPError>) -> (r: AuthAction)
        requires
            old(self).wf(),
            old(self).stage_spec() == Stage::LoggingOut,
        ensures
            final(self).wf(),
            final(self).stage_spec() == Stage::Idle,
            final(self).cache() == old(self).cache(),
            final(self).home_url() == old(self).home_url(),
            outcome matches Err(e) ==> r == AuthAction::Done(Err(AuthError::FailedToLogout(e)))
                && final(self).session_spec() == old(self).session_spec(),
            outcome is Ok ==> final(self).session_spec() is None,
            outcome is Ok && old(self).session_spec() is None ==> r == AuthAction::Done(
                Err(AuthError::NoSession),
            ),
            outcome is Ok ==> (old(self).session_spec() matches Some(s) ==> (r matches AuthAction::Done(
                Ok(t),
            ) && t@ == s@)),
    {
        self.stage = Stage::Idle;
        match outcome {
            Err(e) => AuthAction::Done(Err(AuthError::FailedToLogout(e))),
            Ok(_) => match self.session_id.take() {
                Some(s) => AuthAction::Done(Ok(s)),
                None => AuthAction::Done(Err(AuthError::NoSession)),
            },
        }
    }

    /// Starts fetching the session: both a homeserver and a session must be known.
    pub fn session(&mut self) -> (r: AuthAction)
        requires
            old(self).wf(),
            old(self).stage_spec() == Stage::Idle,
        ensures
            final(self).wf(),
            final(self).cache() == old(self).cache(),
            final(self).home_url() == old(self).home_url(),
            final(self).session_spec() == old(self).session_spec(),
            old(self).home_url() is None ==> r == AuthAction::Done(Err(AuthError::NoHomeserver))
                && final(self).stage_spec() == Stage::Idle,
            old(self).home_url() is Some && old(self).session_spec() is None ==> r
                == AuthAction::Done(Err(AuthError::NoSession)) && final(self).stage_spec()
                == Stage::Idle,
            old(self).home_url() is Some && old(self).session_spec() is Some ==> final(self).stage_spec() == Stage::FetchingSession && (r matches AuthAction::Get { url, path }
                && old(self).home_url() matches Some(h) && url@ == h@ && path@
                == "/mvp/session"@),
    {
        match &self.homeserver_url {
            None => AuthAction::Done(Err(AuthError::NoHomeserver)),
            Some(h) => {
                if self.session_id.is_none() {
                    return AuthAction::Done(Err(AuthError::NoSession));
                }
                let url = h.clone();
                self.stage = Stage::FetchingSession;
                AuthAction::Get { url, path: Path::get_session_string(None) }
            },
        }
    }

    /// Ends a session fetch with the homeserver's reply: its body, as text.
    pub fn session_done(&mut self, outcome: Result<HttpReply, HTTPError>) -> (r: AuthAction)
        requires
            old(self).wf(),
            old(self).stage_spec() == Stage::FetchingSession,
        ensures
            final(self).wf(),
            final(self).stage_spec() == Stage::Idle,
            final(self).cache() == old(self).cache(),
            final(self).home_url() == old(self).home_url(),
            outcome matches Err(e) ==> r == AuthAction::Done(
                Err(AuthError::FailedToRetrieveSession(e)),
            ) && final(self).session_spec() == old(self).session_spec(),
            outcome matches Ok(reply) ==> (r matches AuthAction::Done(Ok(t)) && t@ == reply.text@)
                && session_after(old(self).session_spec(), reply.session_cookie, final(self).session_spec()),
    {
        self.stage = Stage::Idle;
        match outcome {
            Err(e) => AuthAction::Done(Err(AuthError::FailedToRetrieveSession(e))),
            Ok(reply) => {
                update_session(&mut self.session_id, &reply.session_cookie);
                AuthAction::Done(Ok(reply.text))
            },
        }
    }
}

/// Outside a handshake no secret key bytes remain but zeros: every step that ends a
/// signup or a login, on success or on failure, leaves the keypair scrubbed.
pub proof fn lemma_idle_key_scrubbed(auth: Auth)
    requires
        auth.wf(),
        !is_handshake(auth.stage_spec()),
    ensures
        auth.key_scrubbed(),
{
}

fn sig_bytes(sig: &[u8; 64]) -> (r: Vec<u8>)
    ensures
        r@ == sig@,
{
    let mut v: Vec<u8> = Vec::with_capacity(64);
    let mut i: usize = 0;
    while i < 64
        invariant
            i <= 64,
            v@ =~= sig@.subrange(0, i as int),
        decreases 64 - i,
    {
        v.push(sig[i]);
        i = i + 1;
    }
    v
}

} // verus!
