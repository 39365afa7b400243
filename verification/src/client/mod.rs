//! The client: its settings, its token, and the requests it builds.

use crate::error::{ErrorView, OsuError};
use crate::foreign::{check_header_value, is_header_value, parse_url, parsed_url};
use crate::model::GameMode;
use crate::request::ranking::{
    ChartRankingsView, GetChartRankings, GetCountryRankings, GetPerformanceRankings,
    GetScoreRankings, GetSpotlights, PagedRankingsView, PerformanceRankingsView, SpotlightsView,
};
use crate::request::{body_closed, body_with, quoted, Body, Request, RequestView};
use crate::routing::Method;
use crate::text::{decimal, decimal_string};
use crate::transport::{
    push_header, Action, ActionView, Exchange, ExchangeView, Header, HttpRequest, HttpRequestView,
};
use builder::OsuBuilder;
use token::{
    stored, AuthorizationKind, AuthorizationView, LoopAction, LoopEvent, Token, TokenLoop,
    TokenResponse, TokenView,
};
use vstd::prelude::*;
use vstd::string::StringExecFns;
use vstd::utf8::encode_utf8;

pub mod builder;
pub mod token;

verus! {

/// The value of the `user-agent` header of every request.
pub const MY_USER_AGENT: &'static str = "osu_client (Rust API v2)";

/// The value of every `accept` and `content-type` header.
pub const APPLICATION_JSON: &'static str = "application/json";

/// The version of the API that the client asks for.
pub const API_VERSION: u32 = 20220705;

/// The address of the token endpoint.
pub const TOKEN_URL: &'static str = "https://osu.ppy.sh/oauth/token";

/// The address below which every endpoint of the API lies.
pub const API_BASE: &'static str = "https://osu.ppy.sh/api/v2/";

/// The client's settings and its current token.
#[derive(Debug)]
pub struct Osu {
    client_id: u64,
    client_secret: String,
    timeout_ms: u64,
    retries: usize,
    rate_limit: RateLimit,
    auth_kind: AuthorizationKind,
    token: Token,
}

/// What an [`Osu`] holds.
pub struct OsuView {
    pub client_id: u64,
    pub client_secret: Seq<char>,
    /// Milliseconds one attempt may take.
    pub timeout_ms: u64,
    /// How often a timed-out request is sent again.
    pub retries: usize,
    /// The settings of the rate limiter.
    pub rate_limit: RateLimit,
    pub auth_kind: AuthorizationView,
    pub token: TokenView,
}

impl View for Osu {
    type V = OsuView;

    closed spec fn view(&self) -> OsuView {
        OsuView {
            client_id: self.client_id,
            client_secret: self.client_secret@,
            timeout_ms: self.timeout_ms,
            retries: self.retries,
            rate_limit: self.rate_limit,
            auth_kind: self.auth_kind@,
            token: self.token@,
        }
    }
}

/// The settings of the leaky bucket that limits the client's requests.
#[derive(Clone, Copy, Debug, PartialEq, Eq, Structural)]
pub struct RateLimit {
    /// How many requests the bucket holds at most, and holds at first.
    pub capacity: u32,
    /// Milliseconds between two refills.
    pub refill_interval_ms: u64,
    /// How many requests one refill adds.
    pub refill_amount: u32,
}

/// The bucket for `per_second` requests per second: it holds that many
/// requests and gains one every `1000 / per_second` milliseconds.
pub open spec fn bucket(per_second: u32) -> RateLimit {
    RateLimit {
        capacity: per_second,
        refill_interval_ms: (1000int / per_second as int) as u64,
        refill_amount: 1,
    }
}

/// What starting an exchange gives, or the failure to build its request.
pub open spec fn started_view(r: Result<(Exchange, Action), OsuError>) -> Result<
    (ExchangeView, ActionView),
    ErrorView,
> {
    match r {
        Ok((exchange, action)) => Ok((exchange@, action@)),
        Err(e) => Err(e@),
    }
}

/// The exchange that sends `request` under the client's limits, and the
/// action it begins with.
pub open spec fn exchange_of(osu: OsuView, request: HttpRequestView) -> (ExchangeView, ActionView) {
    (ExchangeView::started(request, osu.timeout_ms, osu.retries), ActionView::Acquire)
}

/// What asking the client to execute a request of an endpoint gives: the
/// exchange that sends the built request, or the reason why none is built.
pub open spec fn execution(osu: OsuView, req: RequestView) -> Result<
    (ExchangeView, ActionView),
    ErrorView,
> {
    match api_request(osu, req) {
        Ok(request) => Ok(exchange_of(osu, request)),
        Err(e) => Err(e),
    }
}

/// A client that holds an access token builds every request whose address
/// is a URL: none fails for want of a token. A client holds one from its
/// initialization until the token expires, and building requests changes
/// nothing in the client, so every request started in between finds it.
pub proof fn law_initialized_client_has_token(osu: OsuView, req: RequestView)
    requires
        osu.token.access is Some,
    ensures
        api_request(osu, req) != Err::<HttpRequestView, ErrorView>(ErrorView::NoToken),
        execution(osu, req) != Err::<(ExchangeView, ActionView), ErrorView>(ErrorView::NoToken),
{
}

/// Once a client was initialized with an answer of the token endpoint,
/// every request whose address is a URL is built with a token, whatever the
/// renewal loop went through since, as long as the current token did not
/// expire.
pub proof fn law_requests_find_token_until_expiry(
    osu: OsuView,
    response: TokenResponse,
    events: Seq<LoopEvent>,
    req: RequestView,
)
    requires
        TokenLoop::spec_start(response).0.unexpired(stored(response), events),
    ensures
        ({
            let token = TokenLoop::spec_start(response).0.run(stored(response), events).1;
            api_request(OsuView { token, ..osu }, req) != Err::<HttpRequestView, ErrorView>(
                ErrorView::NoToken,
            )
        }),
{
    token::law_token_kept_until_expiry(
        TokenLoop::spec_start(response).0,
        stored(response),
        events,
    );
}

/// The text of the body of a token request: a JSON object with the
/// client's id and secret, the grant type, and what the grant needs. A
/// user's client asks with its refresh token once it has one, and with the
/// one-time code before.
pub open spec fn token_body(
    client_id: u64,
    client_secret: Seq<char>,
    auth_kind: AuthorizationView,
    refresh: Option<Seq<char>>,
) -> Seq<char> {
    let credentials = body_with(
        body_with(Seq::empty(), "client_id"@, decimal(client_id as nat)),
        "client_secret"@,
        quoted(client_secret),
    );
    let members = match auth_kind {
        AuthorizationView::Client(scope) => body_with(
            body_with(credentials, "grant_type"@, quoted("client_credentials"@)),
            "scope"@,
            quoted(scope.spec_name()),
        ),
        AuthorizationView::User { code, redirect_uri } => match refresh {
            Some(refresh) => body_with(
                body_with(credentials, "grant_type"@, quoted("refresh_token"@)),
                "refresh_token"@,
                quoted(refresh),
            ),
            None => body_with(
                body_with(
                    body_with(
                        body_with(credentials, "grant_type"@, quoted("authorization_code"@)),
                        "redirect_uri"@,
                        quoted(redirect_uri),
                    ),
                    "code"@,
                    quoted(code),
                ),
                "scope"@,
                quoted("identify public"@),
            ),
        },
    };
    body_closed(members)
}

/// The request that asks the token endpoint for a token.
pub open spec fn token_request(osu: OsuView) -> HttpRequestView {
    let body = encode_utf8(
        token_body(osu.client_id, osu.client_secret, osu.auth_kind, osu.token.refresh),
    );
    HttpRequestView {
        method: Method::Post,
        url: TOKEN_URL@,
        headers: seq![
            ("user-agent"@, MY_USER_AGENT@),
            ("accept"@, APPLICATION_JSON@),
            ("content-type"@, APPLICATION_JSON@),
            ("content-length"@, decimal(body.len())),
        ],
        body,
    }
}

/// The text a request is addressed to: the API's base, the path, the
/// query.
pub open spec fn request_address(req: RequestView) -> Seq<char> {
    API_BASE@ + req.path + req.query
}

/// The value of the `authorization` header for an access token.
pub open spec fn bearer(access: Seq<char>) -> Seq<char> {
    "Bearer "@ + access
}

/// The headers of an API request, in order. `content-type` is there only
/// beside a body.
pub open spec fn api_headers(access: Seq<char>, body: Seq<u8>) -> Seq<(Seq<char>, Seq<char>)> {
    let fixed = seq![
        ("authorization"@, bearer(access)),
        ("user-agent"@, MY_USER_AGENT@),
        ("x-api-version"@, decimal(API_VERSION as nat)),
        ("accept"@, APPLICATION_JSON@),
        ("content-length"@, decimal(body.len())),
    ];
    if body.len() > 0 {
        fixed.push(("content-type"@, APPLICATION_JSON@))
    } else {
        fixed
    }
}

/// The request that goes out for `method`, `address` and `body`, where
/// `url` is what parsing the address gave: the address must be a URL, the
/// client must hold an access token, and the token must fit in a header.
pub open spec fn signed_request(
    token: TokenView,
    method: Method,
    address: Seq<char>,
    url: Option<Seq<char>>,
    body: Seq<char>,
) -> Result<HttpRequestView, ErrorView> {
    match url {
        None => Err(ErrorView::Url { url: address }),
        Some(url) => match token.access {
            None => Err(ErrorView::NoToken),
            Some(access) => if is_header_value(bearer(access)) {
                let bytes = encode_utf8(body_closed(body));
                Ok(HttpRequestView { method, url, headers: api_headers(access, bytes), body: bytes })
            } else {
                Err(ErrorView::CreatingTokenHeader)
            },
        },
    }
}

/// The request that goes out for a request of an endpoint, or the reason
/// why none does.
pub open spec fn api_request(osu: OsuView, req: RequestView) -> Result<HttpRequestView, ErrorView> {
    signed_request(
        osu.token,
        req.method,
        request_address(req),
        parsed_url(request_address(req)),
        req.body,
    )
}

/// What a built request, or the failure to build one, holds.
pub open spec fn built_view(r: Result<HttpRequest, OsuError>) -> Result<HttpRequestView, ErrorView> {
    match r {
        Ok(req) => Ok(req@),
        Err(e) => Err(e@),
    }
}

/// What parsing an address gave, as [`signed_request`] takes it.
pub open spec fn url_view(url: Result<String, url::ParseError>) -> Option<Seq<char>> {
    match url {
        Ok(url) => Some(url@),
        Err(_) => None,
    }
}

/// The text a request is addressed to.
pub fn address(req: &Request) -> (text: String)
    ensures
        text@ == request_address(req@),
{
    let mut text = String::from_str(API_BASE);
    text.append(req.path.as_str());
    text.append(req.query.as_str());
    text
}

impl Osu {
    /// A client for this application with the default settings and no
    /// token yet. The client is ready once its first token request was
    /// answered and the answer handed to [`Osu::initialize`].
    pub fn new(client_id: u64, client_secret: String) -> (osu: Osu)
        ensures
            builder::built(
                builder::BuilderView {
                    client_id: Some(client_id),
                    client_secret: Some(client_secret@),
                    ..builder::defaults()
                },
            ) == Ok::<OsuView, ErrorView>(osu@),
    {
        Osu::assemble(client_id, client_secret, 10_000, 2, 15, AuthorizationKind::default())
    }

    /// Fine-tune building a client.
    pub fn builder() -> (b: OsuBuilder)
        ensures
            b@ == builder::defaults(),
    {
        OsuBuilder::new()
    }

    /// Get the chart rankings of the latest spotlight, or of the one that
    /// the builder is told.
    pub fn chart_rankings(&self, mode: GameMode) -> (b: GetChartRankings<'_>)
        ensures
            b@ == (ChartRankingsView { started: false, osu: self@, mode, spotlight: None }),
    {
        GetChartRankings::new(self, mode)
    }

    /// Get the ranking of countries by total pp.
    pub fn country_rankings(&self, mode: GameMode) -> (b: GetCountryRankings<'_>)
        ensures
            b@ == (PagedRankingsView { started: false, osu: self@, mode, page: None }),
    {
        GetCountryRankings::new(self, mode)
    }

    /// Get the ranking of users by pp.
    pub fn performance_rankings(&self, mode: GameMode) -> (b: GetPerformanceRankings<'_>)
        ensures
            b@ == (PerformanceRankingsView {
                started: false,
                osu: self@,
                mode,
                country: None,
                variant: None,
                page: None,
            }),
    {
        GetPerformanceRankings::new(self, mode)
    }

    /// Get the ranking of users by ranked score.
    pub fn score_rankings(&self, mode: GameMode) -> (b: GetScoreRankings<'_>)
        ensures
            b@ == (PagedRankingsView { started: false, osu: self@, mode, page: None }),
    {
        GetScoreRankings::new(self, mode)
    }

    /// Get the list of spotlights.
    pub fn spotlights(&self) -> (b: GetSpotlights<'_>)
        ensures
            b@ == (SpotlightsView { started: false, osu: self@ }),
    {
        GetSpotlights::new(self)
    }

    /// A client with these settings and no token yet.
    pub(crate) fn assemble(
        client_id: u64,
        client_secret: String,
        timeout_ms: u64,
        retries: usize,
        per_second: u32,
        auth_kind: AuthorizationKind,
    ) -> (osu: Osu)
        requires
            1 <= per_second <= 20,
        ensures
            osu@ == (OsuView {
                client_id,
                client_secret: client_secret@,
                timeout_ms,
                retries,
                rate_limit: bucket(per_second),
                auth_kind: auth_kind@,
                token: TokenView { access: None, refresh: None, expires_in: 0 },
            }),
    {
        Osu {
            client_id,
            client_secret,
            timeout_ms,
            retries,
            rate_limit: RateLimit {
                capacity: per_second,
                refill_interval_ms: 1000 / (per_second as u64),
                refill_amount: 1,
            },
            auth_kind,
            token: Token::empty(),
        }
    }

    /// The settings of the client's rate limiter.
    pub fn rate_limit(&self) -> (limit: RateLimit)
        ensures
            limit == self@.rate_limit,
    {
        self.rate_limit
    }

    /// How many milliseconds one attempt may take.
    pub fn timeout(&self) -> (timeout_ms: u64)
        ensures
            timeout_ms == self@.timeout_ms,
    {
        self.timeout_ms
    }

    /// How often a request that timed out is sent again.
    pub fn retries(&self) -> (retries: usize)
        ensures
            retries == self@.retries,
    {
        self.retries
    }

    /// Ends the construction of the client with the outcome of the first
    /// token request. An answer is stored and starts the renewal loop; a
    /// failure is fatal and comes back as `UpdateToken`.
    pub fn initialize(&mut self, first: Result<TokenResponse, OsuError>) -> (r: Result<
        (TokenLoop, LoopAction),
        OsuError,
    >)
        ensures
            match first {
                Ok(response) => {
                    &&& final(self)@ == (OsuView { token: stored(response), ..old(self)@ })
                    &&& r == Ok::<(TokenLoop, LoopAction), OsuError>(
                        TokenLoop::spec_start(response),
                    )
                },
                Err(source) => {
                    &&& final(self)@ == old(self)@
                    &&& r matches Err(e)
                    &&& e@ == (ErrorView::UpdateToken { source: Box::new(source@) })
                },
            },
    {
        match first {
            Ok(response) => Ok(TokenLoop::start(&mut self.token, response)),
            Err(source) => Err(OsuError::UpdateToken { source: Box::new(source) }),
        }
    }

    /// Hands an event of the renewal loop to the loop and the client's
    /// token store.
    pub fn renew(&mut self, state: &mut TokenLoop, event: LoopEvent) -> (action: LoopAction)
        ensures
            ({
                let after = old(state).spec_step(old(self)@.token, event);
                &&& *final(state) == after.0
                &&& final(self)@ == (OsuView { token: after.1, ..old(self)@ })
                &&& action == after.2
            }),
    {
        state.step(&mut self.token, event)
    }

    /// Starts the exchange that asks the token endpoint for a token.
    pub fn token_exchange(&self) -> (r: (Exchange, Action))
        ensures
            (r.0@, r.1@) == exchange_of(self@, token_request(self@)),
    {
        Exchange::start(self.request_token(), self.timeout_ms, self.retries)
    }

    /// Starts the exchange for a request of an endpoint, or says why the
    /// request cannot be built. No slot of the rate limiter is asked for
    /// where the request cannot be built.
    pub fn request(&self, req: Request) -> (r: Result<(Exchange, Action), OsuError>)
        ensures
            started_view(r) == execution(self@, req@),
    {
        match self.build_request(req) {
            Ok(request) => Ok(Exchange::start(request, self.timeout_ms, self.retries)),
            Err(e) => Err(e),
        }
    }

    /// Completes a request whose address has been parsed: refuses it where
    /// the address is no URL, the client holds no access token, or the
    /// token does not fit in a header; else adds the headers of an API
    /// request and turns the body into bytes.
    pub fn sign(
        &self,
        method: Method,
        address: String,
        url: Result<String, url::ParseError>,
        body: Body,
    ) -> (r: Result<HttpRequest, OsuError>)
        ensures
            built_view(r) == signed_request(self@.token, method, address@, url_view(url), body@),
    {
        let url = match url {
            Ok(url) => url,
            Err(source) => {
                return Err(OsuError::Url { source, url: address });
            },
        };
        let access = match &self.token.access {
            Some(access) => access,
            None => {
                return Err(OsuError::NoToken);
            },
        };
        let mut value = String::from_str("Bearer ");
        value.append(access.as_str());
        if let Err(source) = check_header_value(value.as_str()) {
            return Err(OsuError::CreatingTokenHeader { source });
        }
        let bytes = body.into_bytes();
        let mut headers: Vec<Header> = Vec::new();
        push_header(&mut headers, "authorization", value);
        push_header(&mut headers, "user-agent", String::from_str(MY_USER_AGENT));
        push_header(&mut headers, "x-api-version", decimal_string(API_VERSION as u64));
        push_header(&mut headers, "accept", String::from_str(APPLICATION_JSON));
        assert(bytes.len() <= u64::MAX);
        push_header(&mut headers, "content-length", decimal_string(bytes.len() as u64));
        if bytes.len() > 0 {
            push_header(&mut headers, "content-type", String::from_str(APPLICATION_JSON));
        }
        let req = HttpRequest { method, url, headers, body: bytes };
        assert(req@.headers =~= api_headers(access@, bytes@));
        Ok(req)
    }

    /// Builds the request that goes out for a request of an endpoint.
    pub fn build_request(&self, req: Request) -> (r: Result<HttpRequest, OsuError>)
        ensures
            built_view(r) == api_request(self@, req@),
    {
        let text = address(&req);
        let url = parse_url(text.as_str());
        self.sign(req.method, text, url, req.body)
    }

    /// The request that asks the token endpoint for a token, by the grant
    /// that the client's authorization and its current tokens call for.
    pub fn request_token(&self) -> (req: HttpRequest)
        ensures
            req@ == token_request(self@),
    {
        let mut body = Body::new();
        body.push_without_quotes("client_id", self.client_id);
        body.push_with_quotes("client_secret", self.client_secret.as_str());
        match &self.auth_kind {
            AuthorizationKind::Client(scope) => {
                body.push_with_quotes("grant_type", "client_credentials");
                body.push_with_quotes("scope", scope.name());
            },
            AuthorizationKind::User(auth) => match &self.token.refresh {
                Some(refresh) => {
                    body.push_with_quotes("grant_type", "refresh_token");
                    body.push_with_quotes("refresh_token", refresh.as_str());
                },
                None => {
                    body.push_with_quotes("grant_type", "authorization_code");
                    body.push_with_quotes("redirect_uri", auth.redirect_uri.as_str());
                    body.push_with_quotes("code", auth.code.as_str());
                    body.push_with_quotes("scope", "identify public");
                },
            },
        }
        let bytes = body.into_bytes();
        let mut headers: Vec<Header> = Vec::new();
        push_header(&mut headers, "user-agent", String::from_str(MY_USER_AGENT));
        push_header(&mut headers, "accept", String::from_str(APPLICATION_JSON));
        push_header(&mut headers, "content-type", String::from_str(APPLICATION_JSON));
        assert(bytes.len() <= u64::MAX);
        push_header(&mut headers, "content-length", decimal_string(bytes.len() as u64));
        let req = HttpRequest {
            method: Method::Post,
            url: String::from_str(TOKEN_URL),
            headers,
            body: bytes,
        };
        assert(req@.headers =~= token_request(self@).headers);
        req
    }
}

} // verus!
