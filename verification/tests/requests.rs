use osu_client::client::builder::OsuBuilder;
use osu_client::client::token::TokenResponse;
use osu_client::client::{Osu, API_VERSION, APPLICATION_JSON, MY_USER_AGENT};
use osu_client::error::OsuError;
use osu_client::model::{GameMode, RankingType};
use osu_client::request::{Body, Query, Request};
use osu_client::routing::{Method, Route};
use osu_client::text::{decimal_string, push_decimal};
use osu_client::transport::HttpRequest;

fn response(access: &str, refresh: Option<&str>, expires_in: u64) -> TokenResponse {
    TokenResponse {
        access_token: access.to_owned(),
        expires_in,
        refresh_token: refresh.map(str::to_owned),
        token_type: "Bearer".to_owned(),
    }
}

fn app_client() -> Osu {
    OsuBuilder::new().client_id(123).client_secret("secret".to_owned()).build().unwrap()
}

fn ready_client(access: &str) -> Osu {
    let mut osu = app_client();
    osu.initialize(Ok(response(access, None, 86400))).unwrap();
    osu
}

fn headers(req: &HttpRequest) -> Vec<(String, String)> {
    req.headers.iter().map(|h| (h.name.clone(), h.value.clone())).collect()
}

fn pair(name: &str, value: &str) -> (String, String) {
    (name.to_owned(), value.to_owned())
}

#[test]
fn decimal_of_zero_is_one_digit() {
    assert_eq!(decimal_string(0), "0");
}

#[test]
fn decimal_of_numbers() {
    assert_eq!(decimal_string(7), "7");
    assert_eq!(decimal_string(10), "10");
    assert_eq!(decimal_string(20220705), "20220705");
    assert_eq!(decimal_string(u64::MAX), "18446744073709551615");
}

#[test]
fn push_decimal_appends() {
    let mut s = "n=".to_owned();
    push_decimal(&mut s, 1203);
    assert_eq!(s, "n=1203");
}

#[test]
fn query_starts_with_question_mark_and_joins_with_ampersand() {
    let mut q = Query::new();
    assert_eq!(q.as_str(), "");
    q.push("country", "be");
    assert_eq!(q.as_str(), "?country=be");
    q.push_number("cursor[page]", 3);
    assert_eq!(q.as_str(), "?country=be&cursor[page]=3");
}

#[test]
fn empty_body_has_no_bytes() {
    assert_eq!(Body::new().into_bytes(), Vec::<u8>::new());
}

#[test]
fn body_is_a_json_object() {
    let mut b = Body::new();
    b.push_without_quotes("client_id", 42);
    b.push_with_quotes("grant_type", "client_credentials");
    assert_eq!(
        String::from_utf8(b.into_bytes()).unwrap(),
        r#"{"client_id":42,"grant_type":"client_credentials"}"#
    );
}

#[test]
fn body_encodes_text_as_utf8() {
    let mut b = Body::new();
    b.push_with_quotes("k", "é");
    assert_eq!(b.into_bytes(), "{\"k\":\"é\"}".as_bytes().to_vec());
}

#[test]
fn routes_have_their_paths() {
    let (method, path) =
        Route::GetRankings { mode: GameMode::STD, ranking_type: RankingType::Performance }
            .into_parts();
    assert_eq!(method, Method::Get);
    assert_eq!(path, "rankings/osu/performance");
    let (_, path) =
        Route::GetRankings { mode: GameMode::CTB, ranking_type: RankingType::Charts }.into_parts();
    assert_eq!(path, "rankings/fruits/charts");
    let (_, path) =
        Route::GetRankings { mode: GameMode::TKO, ranking_type: RankingType::Country }.into_parts();
    assert_eq!(path, "rankings/taiko/country");
    let (_, path) =
        Route::GetRankings { mode: GameMode::MNA, ranking_type: RankingType::Score }.into_parts();
    assert_eq!(path, "rankings/mania/score");
    let (method, path) = Route::GetSpotlights.into_parts();
    assert_eq!(method, Method::Get);
    assert_eq!(path, "spotlights");
}

#[test]
fn method_names() {
    assert_eq!(Method::Get.name(), "GET");
    assert_eq!(Method::Post.name(), "POST");
}

#[test]
fn token_request_of_an_application() {
    let req = app_client().request_token();
    let body = r#"{"client_id":123,"client_secret":"secret","grant_type":"client_credentials","scope":"public"}"#;
    assert_eq!(req.method, Method::Post);
    assert_eq!(req.url, "https://osu.ppy.sh/oauth/token");
    assert_eq!(String::from_utf8(req.body.clone()).unwrap(), body);
    assert_eq!(
        headers(&req),
        vec![
            pair("user-agent", MY_USER_AGENT),
            pair("accept", APPLICATION_JSON),
            pair("content-type", APPLICATION_JSON),
            pair("content-length", &body.len().to_string()),
        ]
    );
}

#[test]
fn token_request_of_a_user_uses_the_code_first() {
    let osu = OsuBuilder::new()
        .client_id(9)
        .client_secret("s".to_owned())
        .with_authorization("the-code".to_owned(), "https://app.example/cb".to_owned())
        .build()
        .unwrap();
    let req = osu.request_token();
    assert_eq!(
        String::from_utf8(req.body).unwrap(),
        r#"{"client_id":9,"client_secret":"s","grant_type":"authorization_code","redirect_uri":"https://app.example/cb","code":"the-code","scope":"identify public"}"#
    );
}

#[test]
fn token_request_of_a_user_uses_the_refresh_token_once_stored() {
    let mut osu = OsuBuilder::new()
        .client_id(9)
        .client_secret("s".to_owned())
        .with_authorization("the-code".to_owned(), "https://app.example/cb".to_owned())
        .build()
        .unwrap();
    osu.initialize(Ok(response("acc", Some("ref"), 100))).unwrap();
    let req = osu.request_token();
    assert_eq!(
        String::from_utf8(req.body).unwrap(),
        r#"{"client_id":9,"client_secret":"s","grant_type":"refresh_token","refresh_token":"ref"}"#
    );
}

#[test]
fn api_request_carries_the_fixed_headers() {
    let osu = ready_client("abc");
    let mut query = Query::new();
    query.push("country", "be");
    let req = Request::with_query(
        query,
        Route::GetRankings { mode: GameMode::STD, ranking_type: RankingType::Performance },
    );
    let built = osu.build_request(req).unwrap();
    assert_eq!(built.method, Method::Get);
    assert_eq!(built.url, "https://osu.ppy.sh/api/v2/rankings/osu/performance?country=be");
    assert!(built.body.is_empty());
    assert_eq!(
        headers(&built),
        vec![
            pair("authorization", "Bearer abc"),
            pair("user-agent", MY_USER_AGENT),
            pair("x-api-version", "20220705"),
            pair("accept", APPLICATION_JSON),
            pair("content-length", "0"),
        ]
    );
    assert_eq!(API_VERSION, 20220705);
}

#[test]
fn api_request_with_a_body_has_a_content_type() {
    let osu = ready_client("abc");
    let mut body = Body::new();
    body.push_without_quotes("n", 1);
    let req = Request {
        query: Query::new(),
        method: Method::Post,
        path: "things".to_owned(),
        body,
    };
    let built = osu.build_request(req).unwrap();
    assert_eq!(built.body, b"{\"n\":1}".to_vec());
    assert_eq!(
        headers(&built),
        vec![
            pair("authorization", "Bearer abc"),
            pair("user-agent", MY_USER_AGENT),
            pair("x-api-version", "20220705"),
            pair("accept", APPLICATION_JSON),
            pair("content-length", "7"),
            pair("content-type", APPLICATION_JSON),
        ]
    );
}

#[test]
fn address_is_normalised_by_the_url_parser() {
    let osu = ready_client("abc");
    let mut query = Query::new();
    query.push("q", "a b");
    let req = Request { query, method: Method::Get, path: "x/../search".to_owned(), body: Body::new() };
    assert_eq!(osu_client::client::address(&req), "https://osu.ppy.sh/api/v2/x/../search?q=a b");
    let built = osu.build_request(req).unwrap();
    assert_eq!(built.url, "https://osu.ppy.sh/api/v2/search?q=a%20b");
}

#[test]
fn request_without_token_fails_with_no_token() {
    let osu = app_client();
    let err = osu.build_request(Request::from_route(Route::GetSpotlights)).unwrap_err();
    assert!(matches!(err, OsuError::NoToken));
    assert!(matches!(osu.request(Request::from_route(Route::GetSpotlights)), Err(OsuError::NoToken)));
}

#[test]
fn address_that_is_no_url_fails_before_the_token_is_looked_at() {
    let osu = app_client();
    let err = osu
        .sign(Method::Get, "no url".to_owned(), Err(url::ParseError::RelativeUrlWithoutBase), Body::new())
        .unwrap_err();
    match err {
        OsuError::Url { source, url } => {
            assert_eq!(source, url::ParseError::RelativeUrlWithoutBase);
            assert_eq!(url, "no url");
        }
        other => panic!("unexpected error: {:?}", other),
    }
}

#[test]
fn token_that_fits_no_header_is_refused() {
    let osu = ready_client("line\nbreak");
    let err = osu.build_request(Request::from_route(Route::GetSpotlights)).unwrap_err();
    assert!(matches!(err, OsuError::CreatingTokenHeader { .. }));
    let osu = ready_client("del\u{7f}");
    let err = osu.build_request(Request::from_route(Route::GetSpotlights)).unwrap_err();
    assert!(matches!(err, OsuError::CreatingTokenHeader { .. }));
}

#[test]
fn token_with_tab_or_bytes_above_ascii_fits_a_header() {
    let osu = ready_client("a\tb");
    assert!(osu.build_request(Request::from_route(Route::GetSpotlights)).is_ok());
    let osu = ready_client("é");
    let built = osu.build_request(Request::from_route(Route::GetSpotlights)).unwrap();
    assert_eq!(built.headers[0].value, "Bearer é");
}

#[test]
fn duplicate_is_equal() {
    let osu = ready_client("abc");
    let built = osu.build_request(Request::from_route(Route::GetSpotlights)).unwrap();
    let copy = built.duplicate();
    assert_eq!(copy.method, built.method);
    assert_eq!(copy.url, built.url);
    assert_eq!(copy.body, built.body);
    assert_eq!(headers(&copy), headers(&built));
}
