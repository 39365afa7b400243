//! Building a client.

use super::token::{Authorization, AuthorizationKind, AuthorizationView, Scope, TokenView};
use super::{Osu, OsuView};
use crate::error::{ErrorView, OsuError};
use crate::text::opt_text;
use vstd::prelude::*;

verus! {

/// The settings a client is built from. Only the client id and the client
/// secret must be given.
#[derive(Debug)]
pub struct OsuBuilder {
    auth_kind: Option<AuthorizationKind>,
    client_id: Option<u64>,
    client_secret: Option<String>,
    retries: usize,
    timeout_ms: u64,
    per_second: u32,
}

/// What an [`OsuBuilder`] holds.
pub struct BuilderView {
    pub auth_kind: Option<AuthorizationView>,
    pub client_id: Option<u64>,
    pub client_secret: Option<Seq<char>>,
    pub retries: usize,
    pub timeout_ms: u64,
    pub per_second: u32,
}

/// The settings of a builder on which nothing was set: two retries, ten
/// seconds per attempt, fifteen requests per second, and the application's
/// own authorization with the scope `public`.
pub open spec fn defaults() -> BuilderView {
    BuilderView {
        auth_kind: None,
        client_id: None,
        client_secret: None,
        retries: 2,
        timeout_ms: 10_000,
        per_second: 15,
    }
}

/// `n` brought into the range from 1 to 20.
pub open spec fn clamped(n: u32) -> u32 {
    if n < 1 {
        1
    } else if n > 20 {
        20
    } else {
        n
    }
}

/// The client that a builder stands for, or the setting that is missing.
pub open spec fn built(b: BuilderView) -> Result<OsuView, ErrorView> {
    match b.client_id {
        None => Err(ErrorView::BuilderMissingId),
        Some(client_id) => match b.client_secret {
            None => Err(ErrorView::BuilderMissingSecret),
            Some(client_secret) => Ok(
                OsuView {
                    client_id,
                    client_secret,
                    timeout_ms: b.timeout_ms,
                    retries: b.retries,
                    rate_limit: super::bucket(b.per_second),
                    auth_kind: match b.auth_kind {
                        Some(kind) => kind,
                        None => AuthorizationView::Client(Scope::Public),
                    },
                    token: TokenView { access: None, refresh: None, expires_in: 0 },
                },
            ),
        },
    }
}

impl View for OsuBuilder {
    type V = BuilderView;

    closed spec fn view(&self) -> BuilderView {
        BuilderView {
            auth_kind: match self.auth_kind {
                Some(kind) => Some(kind@),
                None => None,
            },
            client_id: self.client_id,
            client_secret: opt_text(self.client_secret),
            retries: self.retries,
            timeout_ms: self.timeout_ms,
            per_second: self.per_second,
        }
    }
}

impl Default for OsuBuilder {
    fn default() -> (b: OsuBuilder)
        ensures
            b@ == defaults(),
    {
        OsuBuilder::new()
    }
}

impl OsuBuilder {
    #[verifier::type_invariant]
    spec fn limited(self) -> bool {
        1 <= self.per_second <= 20
    }

    /// A builder with the default settings.
    pub fn new() -> (b: OsuBuilder)
        ensures
            b@ == defaults(),
    {
        OsuBuilder {
            auth_kind: None,
            client_id: None,
            client_secret: None,
            retries: 2,
            timeout_ms: 10_000,
            per_second: 15,
        }
    }

    /// Sets the client id of the application.
    pub fn client_id(self, client_id: u64) -> (b: OsuBuilder)
        ensures
            b@ == (BuilderView { client_id: Some(client_id), ..self@ }),
    {
        proof {
            use_type_invariant(&self);
        }
        OsuBuilder { client_id: Some(client_id), ..self }
    }

    /// Sets the client secret of the application.
    pub fn client_secret(self, client_secret: String) -> (b: OsuBuilder)
        ensures
            b@ == (BuilderView { client_secret: Some(client_secret@), ..self@ }),
    {
        proof {
            use_type_invariant(&self);
        }
        OsuBuilder { client_secret: Some(client_secret), ..self }
    }

    /// Makes the client act for the user who was sent back to
    /// `redirect_uri` with `code`.
    pub fn with_authorization(self, code: String, redirect_uri: String) -> (b: OsuBuilder)
        ensures
            b@ == (BuilderView {
                auth_kind: Some(AuthorizationView::User { code: code@, redirect_uri: redirect_uri@ }),
                ..self@
            }),
    {
        proof {
            use_type_invariant(&self);
        }
        OsuBuilder {
            auth_kind: Some(AuthorizationKind::User(Authorization { code, redirect_uri })),
            ..self
        }
    }

    /// Sets how often a request that timed out is sent again.
    pub fn retries(self, retries: usize) -> (b: OsuBuilder)
        ensures
            b@ == (BuilderView { retries, ..self@ }),
    {
        proof {
            use_type_invariant(&self);
        }
        OsuBuilder { retries, ..self }
    }

    /// Sets how many milliseconds one attempt may take.
    pub fn timeout(self, timeout_ms: u64) -> (b: OsuBuilder)
        ensures
            b@ == (BuilderView { timeout_ms, ..self@ }),
    {
        proof {
            use_type_invariant(&self);
        }
        OsuBuilder { timeout_ms, ..self }
    }

    /// Sets how many requests per second the client may send, between 1
    /// and 20; a value outside is replaced by the nearest bound.
    pub fn ratelimit(self, reqs_per_sec: u32) -> (b: OsuBuilder)
        ensures
            b@ == (BuilderView { per_second: clamped(reqs_per_sec), ..self@ }),
    {
        proof {
            use_type_invariant(&self);
        }
        let per_second = if reqs_per_sec < 1 {
            1
        } else if reqs_per_sec > 20 {
            20
        } else {
            reqs_per_sec
        };
        OsuBuilder { per_second, ..self }
    }

    /// The client with these settings and without a token, or the error
    /// that names the missing setting. The client is ready once its
    /// first token request was answered and the answer handed to
    /// [`Osu::initialize`].
    pub fn build(self) -> (r: Result<Osu, OsuError>)
        ensures
            match built(self@) {
                Ok(osu) => r matches Ok(o) && o@ == osu,
                Err(e) => r matches Err(f) && f@ == e,
            },
    {
        proof {
            use_type_invariant(&self);
        }
        let client_id = match self.client_id {
            Some(client_id) => client_id,
            None => {
                return Err(OsuError::BuilderMissingId);
            },
        };
        let client_secret = match self.client_secret {
            Some(client_secret) => client_secret,
            None => {
                return Err(OsuError::BuilderMissingSecret);
            },
        };
        let auth_kind = match self.auth_kind {
            Some(kind) => kind,
            None => AuthorizationKind::default(),
        };
        Ok(
            Osu::assemble(
                client_id,
                client_secret,
                self.timeout_ms,
                self.retries,
                self.per_second,
                auth_kind,
            ),
        )
    }
}

} // verus!
