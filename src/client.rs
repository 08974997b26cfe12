//! The client: its configuration, its key cache, and the steps of a token
//! validation.
//!
//! A validation is a short exchange between the caller and the client. The
//! caller hands in an [`Event`]; the client answers with an [`Action`]: either
//! the key-set document is to be fetched (the caller fetches it and hands the
//! outcome back) or the validation is done. Fetching is the caller's work, so
//! every decision here is a function of the client's state, the token, the
//! fetched document and the instant `now` (seconds since the Unix epoch).
use vstd::prelude::*;
use jwt_simple::algorithms::RS256PublicKey;
use jwt_simple::claims::JWTClaims;
use crate::error::JwkClientErr;
use crate::external::{decode_key_id, header_key_id, verify_rs256};
use crate::key_cache::{
    document_keys_accepted, holds_document, valid_key, JwkRaw, KeyCache, KeyEntry,
};
use crate::refresh_policy::{is_stale, may_retry, retry_allowed, stale};

verus! {

/// Seconds after which cached keys are stale: one hour.
pub const DEFAULT_REFRESH_INTERVAL: i64 = 3600;

/// Seconds that must pass between two reactive fetches: five minutes.
pub const DEFAULT_RETRY_COOLDOWN: i64 = 300;

/// What a client is, as a mathematical value.
pub ghost struct ClientModel {
    pub jwks_uri: Seq<char>,
    pub issuer: Seq<char>,
    pub audience: Seq<char>,
    pub keys: Map<Seq<char>, KeyEntry>,
    pub refresh_interval: i64,
    pub retry_cooldown: i64,
    pub last_refresh: Option<i64>,
    pub last_retry: Option<i64>,
}

/// Validates tokens of one issuer for one audience against the keys that
/// `jwks_uri` publishes.
pub struct JwkClient {
    jwks_uri: String,
    issuer: String,
    audience: String,
    public_keys: KeyCache,
    /// How long fetched keys stay fresh before a validation fetches them again.
    auto_refresh_interval: i64,
    /// The least time between two fetches that follow a failed validation.
    retry_rate_limit: i64,
    /// When keys were last fetched ahead of a validation.
    last_refresh: Option<i64>,
    /// When keys were last fetched after a failed validation.
    last_retry: Option<i64>,
}

impl View for JwkClient {
    type V = ClientModel;

    closed spec fn view(&self) -> ClientModel {
        ClientModel {
            jwks_uri: self.jwks_uri@,
            issuer: self.issuer@,
            audience: self.audience@,
            keys: self.public_keys@,
            refresh_interval: self.auto_refresh_interval,
            retry_cooldown: self.retry_rate_limit,
            last_refresh: self.last_refresh,
            last_retry: self.last_retry,
        }
    }
}

/// Which fetch of the key set a refresh completes.
#[derive(PartialEq, Eq, Structural, Clone, Copy, Debug)]
pub enum RefreshKind {
    /// The fetch made before validating, because the keys were stale.
    Proactive,
    /// The fetch made after a failed validation attempt.
    Reactive,
}

/// Where a validation stands between two steps.
#[derive(PartialEq, Eq, Structural, Clone, Copy, Debug)]
pub enum ValidationState {
    /// Nothing has been done yet.
    Start,
    /// The keys were stale; the key set is being fetched before the attempt.
    AwaitingProactiveFetch,
    /// The attempt failed; the key set is being fetched for the one retry.
    AwaitingReactiveFetch,
    /// The validation has its result.
    Finished,
}

/// What the caller hands to the next step of a validation.
pub enum Event {
    /// The validation begins.
    Begin,
    /// The key-set document that was asked for: its records, or why it could
    /// not be fetched or decoded.
    KeySetFetched(Result<Vec<JwkRaw>, JwkClientErr>),
}

/// What the caller is to do after a step of a validation.
#[verifier::reject_recursive_types(T)]
pub enum Action<T> {
    /// Fetch the key-set document and hand it to the next step.
    FetchKeySet,
    /// The validation is over, with these claims or this error.
    Done(Result<JWTClaims<T>, JwkClientErr>),
}

/// Whether `event` is what a validation in state `state` waits for.
pub open spec fn expects(state: ValidationState, event: Event) -> bool {
    match state {
        ValidationState::Start => event is Begin,
        ValidationState::AwaitingProactiveFetch => event is KeySetFetched,
        ValidationState::AwaitingReactiveFetch => event is KeySetFetched,
        ValidationState::Finished => false,
    }
}

/// How far a token gets before its signature is checked.
pub enum TokenCheck {
    /// The header cannot be decoded.
    Malformed,
    /// The header names no key identifier.
    MissingKeyId,
    /// No cached key with that identifier is active.
    UnknownKey,
    /// An active key with that identifier is cached.
    KeyFound,
}

/// How far `token` gets with the keys `keys` at `now`.
pub open spec fn token_check(keys: Map<Seq<char>, KeyEntry>, token: Seq<char>, now: i64) -> TokenCheck {
    match header_key_id(token) {
        None => TokenCheck::Malformed,
        Some(None) => TokenCheck::MissingKeyId,
        Some(Some(kid)) => if valid_key(keys, kid, now) is Some {
            TokenCheck::KeyFound
        } else {
            TokenCheck::UnknownKey
        },
    }
}

/// The results that one validation attempt may have: each failure before
/// the signature check has its own error; once a key is found, the
/// signature check decides between the claims and a `ParseError`.
pub open spec fn attempt_result<T>(
    keys: Map<Seq<char>, KeyEntry>,
    token: Seq<char>,
    now: i64,
    r: Result<JWTClaims<T>, JwkClientErr>,
) -> bool {
    match token_check(keys, token, now) {
        TokenCheck::Malformed => r matches Err(JwkClientErr::ParseError(_)),
        TokenCheck::MissingKeyId => r matches Err(JwkClientErr::MissingKeyId),
        TokenCheck::UnknownKey => r matches Err(JwkClientErr::UnknownOrInactiveKey),
        TokenCheck::KeyFound => r is Ok || r matches Err(JwkClientErr::ParseError(_)),
    }
}

/// The client after a successful refresh from `doc` at `now`: the keys are
/// those of the document, and only the timestamp of that kind of refresh
/// moves.
pub open spec fn refreshed(
    before: ClientModel,
    after: ClientModel,
    doc: Seq<JwkRaw>,
    now: i64,
    kind: RefreshKind,
) -> bool {
    &&& holds_document(after.keys, doc)
    &&& after.jwks_uri == before.jwks_uri
    &&& after.issuer == before.issuer
    &&& after.audience == before.audience
    &&& after.refresh_interval == before.refresh_interval
    &&& after.retry_cooldown == before.retry_cooldown
    &&& after.last_refresh == (if kind == RefreshKind::Proactive {
        Some(now)
    } else {
        before.last_refresh
    })
    &&& after.last_retry == (if kind == RefreshKind::Reactive {
        Some(now)
    } else {
        before.last_retry
    })
}

/// Whether a refresh from `fetched` succeeds.
pub open spec fn refresh_succeeds(fetched: Result<Vec<JwkRaw>, JwkClientErr>) -> bool {
    match fetched {
        Ok(doc) => document_keys_accepted(doc@),
        Err(_) => false,
    }
}

/// The error that a failed refresh from `fetched` reports.
pub open spec fn refresh_error(fetched: Result<Vec<JwkRaw>, JwkClientErr>, e: JwkClientErr) -> bool {
    match fetched {
        Err(f) => e == f,
        Ok(_) => e is MalformedKey,
    }
}

/// What follows an attempt with result `outcome`: success ends the
/// validation; a failure asks for one more fetch where the cooldown allows
/// it, and ends the validation with that failure otherwise.
pub open spec fn decision<T>(
    model: ClientModel,
    outcome: Result<JWTClaims<T>, JwkClientErr>,
    now: i64,
    state: ValidationState,
    action: Action<T>,
) -> bool {
    if outcome is Err && retry_allowed(model.last_retry, now, model.retry_cooldown) {
        state == ValidationState::AwaitingReactiveFetch && action is FetchKeySet
    } else {
        state == ValidationState::Finished && action == Action::Done(outcome)
    }
}

/// What may follow an attempt made with the client in state `model`: the
/// decision on some result that such an attempt can have.
pub open spec fn decided_after_attempt<T>(
    model: ClientModel,
    token: Seq<char>,
    now: i64,
    state: ValidationState,
    action: Action<T>,
) -> bool {
    match action {
        Action::FetchKeySet => state == ValidationState::AwaitingReactiveFetch && retry_allowed(
            model.last_retry,
            now,
            model.retry_cooldown,
        ),
        Action::Done(res) => state == ValidationState::Finished && attempt_result(
            model.keys,
            token,
            now,
            res,
        ) && (res is Err ==> !retry_allowed(model.last_retry, now, model.retry_cooldown)),
    }
}

impl JwkClient {
    /// A client for the key set at `jwks_uri`, accepting tokens from `issuer`
    /// for `audience`. It holds no key yet, has never fetched, and uses the
    /// default refresh interval and retry cooldown.
    pub fn new(jwks_uri: String, issuer: String, audience: String) -> (r: JwkClient)
        ensures
            r@ == (ClientModel {
                jwks_uri: jwks_uri@,
                issuer: issuer@,
                audience: audience@,
                keys: Map::empty(),
                refresh_interval: DEFAULT_REFRESH_INTERVAL,
                retry_cooldown: DEFAULT_RETRY_COOLDOWN,
                last_refresh: None,
                last_retry: None,
            }),
    {
        JwkClient {
            jwks_uri,
            issuer,
            audience,
            public_keys: KeyCache::new(),
            auto_refresh_interval: DEFAULT_REFRESH_INTERVAL,
            retry_rate_limit: DEFAULT_RETRY_COOLDOWN,
            last_refresh: None,
            last_retry: None,
        }
    }

    /// Sets how many seconds fetched keys stay fresh.
    pub fn set_auto_refresh_interval(&mut self, duration: i64)
        ensures
            final(self)@ == (ClientModel { refresh_interval: duration, ..old(self)@ }),
    {
        self.auto_refresh_interval = duration;
    }

    /// Sets how many seconds must pass between two fetches that follow a
    /// failed validation.
    pub fn set_retry_rate_limit(&mut self, duration: i64)
        ensures
            final(self)@ == (ClientModel { retry_cooldown: duration, ..old(self)@ }),
    {
        self.retry_rate_limit = duration;
    }

    /// Where the key-set document is published.
    pub fn jwks_uri(&self) -> (r: &String)
        ensures
            r@ == self@.jwks_uri,
    {
        &self.jwks_uri
    }

    /// Whether the keys must be fetched before a validation at `now`.
    pub fn keys_are_stale(&self, now: i64) -> (r: bool)
        ensures
            r == stale(self@.last_refresh, now, self@.refresh_interval),
    {
        is_stale(self.last_refresh, now, self.auto_refresh_interval)
    }

    /// Whether a validation that failed at `now` may fetch the keys again.
    pub fn can_retry_on_failure(&self, now: i64) -> (r: bool)
        ensures
            r == retry_allowed(self@.last_retry, now, self@.retry_cooldown),
    {
        may_retry(self.last_retry, now, self.retry_rate_limit)
    }

    /// The cached key for `key_id` if it is active at `now`.
    pub fn get_valid_key(&self, key_id: &String, now: i64) -> (r: Option<&RS256PublicKey>)
        ensures
            match r {
                Some(k) => valid_key(self@.keys, key_id@, now) == Some(*k),
                None => valid_key(self@.keys, key_id@, now) is None,
            },
    {
        self.public_keys.lookup_valid(key_id, now)
    }

    /// Replaces the cached keys with those of a fetched key-set document, and
    /// records `now` as the instant of this kind of refresh. Nothing changes
    /// where the fetch failed or a record holds malformed key material.
    pub fn refresh_public_keys(
        &mut self,
        fetched: Result<Vec<JwkRaw>, JwkClientErr>,
        now: i64,
        kind: RefreshKind,
    ) -> (r: Result<(), JwkClientErr>)
        ensures
            r is Ok <==> refresh_succeeds(fetched),
            r is Ok ==> refreshed(old(self)@, final(self)@, fetched->Ok_0@, now, kind),
            r matches Err(e) ==> refresh_error(fetched, e) && final(self)@ == old(self)@,
    {
        let doc = match fetched {
            Ok(doc) => doc,
            Err(e) => {
                return Err(e);
            },
        };
        match KeyCache::from_document(&doc) {
            Ok(cache) => {
                self.public_keys = cache;
                match kind {
                    RefreshKind::Proactive => {
                        self.last_refresh = Some(now);
                    },
                    RefreshKind::Reactive => {
                        self.last_retry = Some(now);
                    },
                }
                Ok(())
            },
            Err(e) => Err(JwkClientErr::MalformedKey(e)),
        }
    }

    /// One validation attempt with the cached keys: reads the key identifier
    /// from the token's header, looks up the active key for it, and checks
    /// the token's signature, issuer and audience with that key.
    pub fn validate_token_impl<T: serde::de::DeserializeOwned>(&self, token: &str, now: i64) -> (r:
        Result<JWTClaims<T>, JwkClientErr>)
        ensures
            attempt_result(self@.keys, token@, now, r),
    {
        let key_id = match decode_key_id(token) {
            Ok(Some(k)) => k,
            Ok(None) => {
                return Err(JwkClientErr::MissingKeyId);
            },
            Err(e) => {
                return Err(JwkClientErr::ParseError(e));
            },
        };
        let key = match self.get_valid_key(&key_id, now) {
            Some(k) => k,
            None => {
                return Err(JwkClientErr::UnknownOrInactiveKey);
            },
        };
        match verify_rs256::<T>(key, token, &self.issuer, &self.audience) {
            Ok(claims) => Ok(claims),
            Err(e) => Err(JwkClientErr::ParseError(e)),
        }
    }

    /// Decides what follows an attempt at `now` whose result was `outcome`.
    pub fn after_attempt<T>(&self, outcome: Result<JWTClaims<T>, JwkClientErr>, now: i64) -> (r: (
        ValidationState,
        Action<T>,
    ))
        ensures
            decision(self@, outcome, now, r.0, r.1),
    {
        match outcome {
            Ok(claims) => (ValidationState::Finished, Action::Done(Ok(claims))),
            Err(e) => if self.can_retry_on_failure(now) {
                (ValidationState::AwaitingReactiveFetch, Action::FetchKeySet)
            } else {
                (ValidationState::Finished, Action::Done(Err(e)))
            },
        }
    }

    /// One step of the validation of `token` at `now`.
    ///
    /// A validation starts in `ValidationState::Start` with `Event::Begin`.
    /// Stale keys are fetched first, and a failure to fetch them ends the
    /// validation. A failed attempt is followed by one more fetch and one more
    /// attempt where the retry cooldown has passed; the result of that second
    /// attempt, or the failure of that fetch, ends the validation in any case.
    /// Where that second fetch fails, its own error is returned rather than
    /// the failure of the first attempt.
    pub fn validate_token<T: serde::de::DeserializeOwned>(
        &mut self,
        state: &mut ValidationState,
        token: &str,
        event: Event,
        now: i64,
    ) -> (r: Action<T>)
        requires
            expects(*old(state), event),
        ensures
            *old(state) == ValidationState::Start ==> if stale(
                old(self)@.last_refresh,
                now,
                old(self)@.refresh_interval,
            ) {
                &&& r is FetchKeySet
                &&& *final(state) == ValidationState::AwaitingProactiveFetch
                &&& final(self)@ == old(self)@
            } else {
                &&& final(self)@ == old(self)@
                &&& decided_after_attempt(old(self)@, token@, now, *final(state), r)
            },
            *old(state) == ValidationState::AwaitingProactiveFetch ==> if refresh_succeeds(
                event->KeySetFetched_0,
            ) {
                &&& refreshed(
                    old(self)@,
                    final(self)@,
                    event->KeySetFetched_0->Ok_0@,
                    now,
                    RefreshKind::Proactive,
                )
                &&& decided_after_attempt(final(self)@, token@, now, *final(state), r)
            } else {
                &&& final(self)@ == old(self)@
                &&& *final(state) == ValidationState::Finished
                &&& r matches Action::Done(Err(e)) && refresh_error(event->KeySetFetched_0, e)
            },
            *old(state) == ValidationState::AwaitingReactiveFetch ==> if refresh_succeeds(
                event->KeySetFetched_0,
            ) {
                &&& refreshed(
                    old(self)@,
                    final(self)@,
                    event->KeySetFetched_0->Ok_0@,
                    now,
                    RefreshKind::Reactive,
                )
                &&& *final(state) == ValidationState::Finished
                &&& r matches Action::Done(res) && attempt_result(final(self)@.keys, token@, now, res)
            } else {
                &&& final(self)@ == old(self)@
                &&& *final(state) == ValidationState::Finished
                &&& r matches Action::Done(Err(e)) && refresh_error(event->KeySetFetched_0, e)
            },
            *old(state) == ValidationState::AwaitingReactiveFetch ==> r is Done
                && *final(state) == ValidationState::Finished,
    {
        match event {
            Event::Begin => {
                if self.keys_are_stale(now) {
                    *state = ValidationState::AwaitingProactiveFetch;
                    return Action::FetchKeySet;
                }
                let outcome = self.validate_token_impl::<T>(token, now);
                let (next, action) = self.after_attempt(outcome, now);
                *state = next;
                action
            },
            Event::KeySetFetched(fetched) => {
                let kind = if *state == ValidationState::AwaitingReactiveFetch {
                    RefreshKind::Reactive
                } else {
                    RefreshKind::Proactive
                };
                match self.refresh_public_keys(fetched, now, kind) {
                    Err(e) => {
                        *state = ValidationState::Finished;
                        Action::Done(Err(e))
                    },
                    Ok(()) => {
                        let outcome = self.validate_token_impl::<T>(token, now);
                        if kind == RefreshKind::Reactive {
                            *state = ValidationState::Finished;
                            Action::Done(outcome)
                        } else {
                            let (next, action) = self.after_attempt(outcome, now);
                            *state = next;
                            action
                        }
                    },
                }
            },
        }
    }
}

/// Retry cooldown: once a reactive refresh has completed at `at`, a failed
/// attempt no more than the cooldown later asks for no further fetch, and
/// so ends the validation with its own failure.
pub proof fn lemma_retry_cooldown<T>(
    before: ClientModel,
    after: ClientModel,
    doc: Seq<JwkRaw>,
    at: i64,
    later: i64,
    token: Seq<char>,
    state: ValidationState,
    action: Action<T>,
)
    requires
        refreshed(before, after, doc, at, RefreshKind::Reactive),
        at <= later,
        later - at <= after.retry_cooldown,
        decided_after_attempt(after, token, later, state, action),
    ensures
        !retry_allowed(after.last_retry, later, after.retry_cooldown),
        action is Done,
        state == ValidationState::Finished,
{
}

/// Independent clocks: a reactive refresh leaves the staleness of the keys
/// as it was, and a proactive refresh leaves the retry cooldown as it was.
pub proof fn lemma_independent_timestamps(
    before: ClientModel,
    after: ClientModel,
    doc: Seq<JwkRaw>,
    at: i64,
    now: i64,
    kind: RefreshKind,
)
    requires
        refreshed(before, after, doc, at, kind),
    ensures
        kind == RefreshKind::Reactive ==> stale(after.last_refresh, now, after.refresh_interval)
            == stale(before.last_refresh, now, before.refresh_interval),
        kind == RefreshKind::Proactive ==> retry_allowed(after.last_retry, now, after.retry_cooldown)
            == retry_allowed(before.last_retry, now, before.retry_cooldown),
{
}

} // verus!
