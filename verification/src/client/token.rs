//! The access token, the grant it is asked with, and the schedule of its
//! renewal.

use crate::text::opt_text;
use vstd::prelude::*;

verus! {

/// What a token of the application may be used for.
#[derive(Clone, Copy, Debug, PartialEq, Eq, Structural)]
pub enum Scope {
    ChatWrite,
    Delegate,
    ForumWrite,
    FriendsRead,
    Identify,
    Lazer,
    Public,
}

impl Scope {
    /// The scope as the token endpoint spells it.
    pub open spec fn spec_name(self) -> Seq<char> {
        match self {
            Scope::ChatWrite => "chat.write"@,
            Scope::Delegate => "delegate"@,
            Scope::ForumWrite => "forum.write"@,
            Scope::FriendsRead => "friends.read"@,
            Scope::Identify => "identify"@,
            Scope::Lazer => "lazer"@,
            Scope::Public => "public"@,
        }
    }

    /// The scope as the token endpoint spells it.
    pub fn name(self) -> (s: &'static str)
        ensures
            s@ == self.spec_name(),
    {
        match self {
            Scope::ChatWrite => "chat.write",
            Scope::Delegate => "delegate",
            Scope::ForumWrite => "forum.write",
            Scope::FriendsRead => "friends.read",
            Scope::Identify => "identify",
            Scope::Lazer => "lazer",
            Scope::Public => "public",
        }
    }
}

/// What a user handed over when they authorized the application.
#[derive(Debug)]
pub struct Authorization {
    /// The one-time code.
    pub code: String,
    /// The address the user was sent back to.
    pub redirect_uri: String,
}

/// How the client authenticates. Chosen once, when the client is built.
#[derive(Debug)]
pub enum AuthorizationKind {
    /// As the application itself, with the given scope.
    Client(Scope),
    /// On behalf of a user.
    User(Authorization),
}

/// What an [`AuthorizationKind`] holds.
pub enum AuthorizationView {
    Client(Scope),
    User { code: Seq<char>, redirect_uri: Seq<char> },
}

impl View for AuthorizationKind {
    type V = AuthorizationView;

    open spec fn view(&self) -> AuthorizationView {
        match self {
            AuthorizationKind::Client(scope) => AuthorizationView::Client(*scope),
            AuthorizationKind::User(auth) => AuthorizationView::User {
                code: auth.code@,
                redirect_uri: auth.redirect_uri@,
            },
        }
    }
}

impl Default for AuthorizationKind {
    fn default() -> (kind: AuthorizationKind)
        ensures
            kind@ == AuthorizationView::Client(Scope::Public),
    {
        AuthorizationKind::Client(Scope::Public)
    }
}

/// The answer of the token endpoint.
#[derive(Debug)]
pub struct TokenResponse {
    pub access_token: String,
    /// Seconds until the access token expires.
    pub expires_in: u64,
    pub refresh_token: Option<String>,
    pub token_type: String,
}

/// The tokens the client currently holds.
#[derive(Debug)]
pub struct Token {
    pub access: Option<String>,
    pub refresh: Option<String>,
    /// Seconds the access token was said to live when it was issued.
    pub expires_in: u64,
}

/// What a [`Token`] holds.
pub struct TokenView {
    pub access: Option<Seq<char>>,
    pub refresh: Option<Seq<char>>,
    pub expires_in: u64,
}

impl View for Token {
    type V = TokenView;

    open spec fn view(&self) -> TokenView {
        TokenView {
            access: opt_text(self.access),
            refresh: opt_text(self.refresh),
            expires_in: self.expires_in,
        }
    }
}

impl Token {
    /// The token store before the first answer of the token endpoint.
    pub fn empty() -> (token: Token)
        ensures
            token@ == (TokenView { access: None, refresh: None, expires_in: 0 }),
    {
        Token { access: None, refresh: None, expires_in: 0 }
    }

    /// Replaces all that the store holds by what the token endpoint
    /// answered.
    pub fn update(&mut self, response: TokenResponse)
        ensures
            final(self)@ == stored(response),
    {
        *self = Token {
            access: Some(response.access_token),
            refresh: response.refresh_token,
            expires_in: response.expires_in,
        };
    }
}

/// Seconds between the issue of a token that lives `expires_in` seconds
/// and the attempt to renew it: a twentieth of the lifetime before the
/// token expires, and never less than one second before.
pub open spec fn spec_refresh_delay(expires_in: u64) -> u64 {
    if expires_in == 0 {
        0
    } else if expires_in < 20 {
        (expires_in - 1) as u64
    } else {
        (expires_in - expires_in / 20) as u64
    }
}

/// Seconds between the issue of a token that lives `expires_in` seconds
/// and the attempt to renew it.
pub fn refresh_delay(expires_in: u64) -> (delay: u64)
    ensures
        delay == spec_refresh_delay(expires_in),
{
    if expires_in == 0 {
        0
    } else if expires_in < 20 {
        expires_in - 1
    } else {
        expires_in - expires_in / 20
    }
}

/// The renewal of a token is attempted before the token expires, not
/// after: the delay is shorter than the token's lifetime, unless that is
/// zero.
pub proof fn law_renewal_before_expiry(expires_in: u64)
    ensures
        spec_refresh_delay(expires_in) <= expires_in,
        expires_in > 0 ==> spec_refresh_delay(expires_in) < expires_in,
{
}

/// Where the renewal of the token stands.
#[derive(Clone, Copy, Debug, PartialEq, Eq, Structural)]
pub enum LoopPhase {
    /// The token is in use; its renewal is not due yet.
    Waiting,
    /// A new token was asked for.
    Renewing,
    /// The client is gone.
    Stopped,
}

/// The state of the renewal loop. `generation` counts the tokens stored so
/// far, so that the expiry of a token that was replaced meanwhile can be
/// told from the expiry of the current one.
#[derive(Clone, Copy, Debug, PartialEq, Eq, Structural)]
pub struct TokenLoop {
    pub phase: LoopPhase,
    pub generation: u64,
}

/// What the caller reports to the renewal loop.
#[derive(Debug)]
pub enum LoopEvent {
    /// The time to renew the token has come.
    RenewalDue,
    /// The token endpoint answered.
    Renewed(TokenResponse),
    /// The token endpoint could not be reached or refused.
    RenewalFailed,
    /// The lifetime of the token of this generation is over.
    Expired { generation: u64 },
    /// The client is being dropped.
    Cancelled,
}

/// What the renewal loop asks the caller to do next.
#[derive(Clone, Copy, Debug, PartialEq, Eq, Structural)]
pub enum LoopAction {
    /// A token was stored. Report [`LoopEvent::RenewalDue`] after
    /// `renew_after` seconds, and [`LoopEvent::Expired`] with this
    /// generation after `expire_after` seconds.
    Schedule { renew_after: u64, expire_after: u64, generation: u64 },
    /// Ask the token endpoint for a token and report the outcome.
    Renew,
    /// The renewal failed. Report [`LoopEvent::RenewalDue`] again after
    /// `renew_after` seconds.
    Retry { renew_after: u64 },
    /// End the loop.
    Stop,
    /// Nothing to do.
    Nothing,
}

/// The generation after `generation`.
pub open spec fn next_generation(generation: u64) -> u64 {
    if generation == u64::MAX {
        0
    } else {
        (generation + 1) as u64
    }
}

/// What the store holds once it was filled from an answer of the token
/// endpoint.
pub open spec fn stored(response: TokenResponse) -> TokenView {
    TokenView {
        access: Some(response.access_token@),
        refresh: opt_text(response.refresh_token),
        expires_in: response.expires_in,
    }
}

impl TokenLoop {
    /// The loop, the store and the action after an event.
    ///
    /// A due renewal is answered by asking for a token. The answer is
    /// stored whole and starts a new generation, whose renewal and expiry
    /// are scheduled from the lifetime it came with. A failed renewal is
    /// tried again after the same delay as before. When the current token
    /// expires the store forgets the access token, so that requests fail
    /// with `NoToken` until the renewal succeeds; the expiry of an earlier
    /// generation changes nothing. A cancelled loop stops and stays
    /// stopped.
    pub open spec fn spec_step(self, token: TokenView, event: LoopEvent) -> (
        TokenLoop,
        TokenView,
        LoopAction,
    ) {
        if self.phase == LoopPhase::Stopped {
            (self, token, LoopAction::Nothing)
        } else {
            match event {
                LoopEvent::Cancelled => (
                    TokenLoop { phase: LoopPhase::Stopped, ..self },
                    token,
                    LoopAction::Stop,
                ),
                LoopEvent::Expired { generation } => if generation == self.generation {
                    (self, TokenView { access: None, ..token }, LoopAction::Nothing)
                } else {
                    (self, token, LoopAction::Nothing)
                },
                LoopEvent::RenewalDue => if self.phase == LoopPhase::Waiting {
                    (TokenLoop { phase: LoopPhase::Renewing, ..self }, token, LoopAction::Renew)
                } else {
                    (self, token, LoopAction::Nothing)
                },
                LoopEvent::Renewed(response) => if self.phase == LoopPhase::Renewing {
                    let generation = next_generation(self.generation);
                    (
                        TokenLoop { phase: LoopPhase::Waiting, generation },
                        stored(response),
                        LoopAction::Schedule {
                            renew_after: spec_refresh_delay(response.expires_in),
                            expire_after: response.expires_in,
                            generation,
                        },
                    )
                } else {
                    (self, token, LoopAction::Nothing)
                },
                LoopEvent::RenewalFailed => if self.phase == LoopPhase::Renewing {
                    (
                        TokenLoop { phase: LoopPhase::Waiting, ..self },
                        token,
                        LoopAction::Retry { renew_after: spec_refresh_delay(token.expires_in) },
                    )
                } else {
                    (self, token, LoopAction::Nothing)
                },
            }
        }
    }

    /// The loop as it starts with the first token, and the schedule of
    /// that token.
    pub open spec fn spec_start(response: TokenResponse) -> (TokenLoop, LoopAction) {
        (
            TokenLoop { phase: LoopPhase::Waiting, generation: 0 },
            LoopAction::Schedule {
                renew_after: spec_refresh_delay(response.expires_in),
                expire_after: response.expires_in,
                generation: 0,
            },
        )
    }

    /// Stores the first token and starts the loop.
    pub fn start(token: &mut Token, response: TokenResponse) -> (r: (TokenLoop, LoopAction))
        ensures
            final(token)@ == stored(response),
            r == TokenLoop::spec_start(response),
    {
        let expires_in = response.expires_in;
        token.update(response);
        (
            TokenLoop { phase: LoopPhase::Waiting, generation: 0 },
            LoopAction::Schedule {
                renew_after: refresh_delay(expires_in),
                expire_after: expires_in,
                generation: 0,
            },
        )
    }

    /// Takes an event, updates the store, and says what to do next.
    pub fn step(&mut self, token: &mut Token, event: LoopEvent) -> (action: LoopAction)
        ensures
            (*final(self), final(token)@, action) == old(self).spec_step(old(token)@, event),
    {
        if self.phase == LoopPhase::Stopped {
            return LoopAction::Nothing;
        }
        match event {
            LoopEvent::Cancelled => {
                self.phase = LoopPhase::Stopped;
                LoopAction::Stop
            },
            LoopEvent::Expired { generation } => {
                if generation == self.generation {
                    token.access = None;
                }
                LoopAction::Nothing
            },
            LoopEvent::RenewalDue => {
                if self.phase == LoopPhase::Waiting {
                    self.phase = LoopPhase::Renewing;
                    LoopAction::Renew
                } else {
                    LoopAction::Nothing
                }
            },
            LoopEvent::Renewed(response) => {
                if self.phase == LoopPhase::Renewing {
                    let expires_in = response.expires_in;
                    token.update(response);
                    self.phase = LoopPhase::Waiting;
                    self.generation = if self.generation == u64::MAX {
                        0
                    } else {
                        self.generation + 1
                    };
                    LoopAction::Schedule {
                        renew_after: refresh_delay(expires_in),
                        expire_after: expires_in,
                        generation: self.generation,
                    }
                } else {
                    LoopAction::Nothing
                }
            },
            LoopEvent::RenewalFailed => {
                if self.phase == LoopPhase::Renewing {
                    self.phase = LoopPhase::Waiting;
                    LoopAction::Retry { renew_after: refresh_delay(token.expires_in) }
                } else {
                    LoopAction::Nothing
                }
            },
        }
    }
}

impl TokenLoop {
    /// The loop and the store after a sequence of events.
    pub open spec fn run(self, token: TokenView, events: Seq<LoopEvent>) -> (TokenLoop, TokenView)
        decreases events.len(),
    {
        if events.len() == 0 {
            (self, token)
        } else {
            let before = self.run(token, events.drop_last());
            let after = before.0.spec_step(before.1, events.last());
            (after.0, after.1)
        }
    }

    /// Whether none of the events is the expiry of the token that is
    /// current when the event arrives.
    pub open spec fn unexpired(self, token: TokenView, events: Seq<LoopEvent>) -> bool {
        forall|i: int|
            0 <= i < events.len() ==> (#[trigger] events[i] matches LoopEvent::Expired {
                generation,
            } ==> generation != self.run(token, events.take(i)).0.generation)
    }
}

/// Every answer of the token endpoint is followed by a schedule that
/// renews the token before it expires, and a failed renewal is tried again
/// no later than one lifetime of the current token.
pub proof fn law_schedule_renews_before_expiry(state: TokenLoop, token: TokenView, event: LoopEvent)
    ensures
        state.spec_step(token, event).2 matches LoopAction::Schedule {
            renew_after,
            expire_after,
            ..
        } ==> renew_after <= expire_after && (expire_after > 0 ==> renew_after < expire_after),
        state.spec_step(token, event).2 matches LoopAction::Retry { renew_after } ==> renew_after
            <= token.expires_in,
{
}

/// A store that holds an access token holds one after any sequence of
/// events of the renewal loop in which the current token does not expire:
/// waiting, renewing, failing to renew and stopping never empty it.
pub proof fn law_token_kept_until_expiry(state: TokenLoop, token: TokenView, events: Seq<LoopEvent>)
    requires
        token.access is Some,
        state.unexpired(token, events),
    ensures
        state.run(token, events).1.access is Some,
    decreases events.len(),
{
    if events.len() > 0 {
        let shorter = events.drop_last();
        assert forall|i: int| 0 <= i < shorter.len() implies (#[trigger] shorter[i] matches LoopEvent::Expired {
            generation,
        } ==> generation != state.run(token, shorter.take(i)).0.generation) by {
            assert(shorter.take(i) =~= events.take(i));
            assert(shorter[i] == events[i]);
        }
        law_token_kept_until_expiry(state, token, shorter);
        assert(events.take(events.len() - 1) =~= shorter);
        assert(events[events.len() - 1] == events.last());
    }
}

} // verus!
