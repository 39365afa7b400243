use osu_client::client::builder::OsuBuilder;
use osu_client::client::token::{
    refresh_delay, AuthorizationKind, LoopAction, LoopEvent, LoopPhase, Scope, Token, TokenLoop,
    TokenResponse,
};
use osu_client::client::Osu;
use osu_client::error::OsuError;
use osu_client::request::Request;
use osu_client::routing::Route;

fn response(access: &str, refresh: Option<&str>, expires_in: u64) -> TokenResponse {
    TokenResponse {
        access_token: access.to_owned(),
        expires_in,
        refresh_token: refresh.map(str::to_owned),
        token_type: "Bearer".to_owned(),
    }
}

fn client() -> Osu {
    OsuBuilder::new().client_id(1).client_secret("s".to_owned()).build().unwrap()
}

fn access_of(osu: &Osu) -> Option<String> {
    match osu.build_request(Request::from_route(Route::GetSpotlights)) {
        Ok(req) => Some(req.headers[0].value.clone()),
        Err(OsuError::NoToken) => None,
        Err(other) => panic!("unexpected error: {:?}", other),
    }
}

#[test]
fn scope_names() {
    assert_eq!(Scope::ChatWrite.name(), "chat.write");
    assert_eq!(Scope::Delegate.name(), "delegate");
    assert_eq!(Scope::ForumWrite.name(), "forum.write");
    assert_eq!(Scope::FriendsRead.name(), "friends.read");
    assert_eq!(Scope::Identify.name(), "identify");
    assert_eq!(Scope::Lazer.name(), "lazer");
    assert_eq!(Scope::Public.name(), "public");
}

#[test]
fn default_authorization_is_the_public_scope() {
    assert!(matches!(AuthorizationKind::default(), AuthorizationKind::Client(Scope::Public)));
}

#[test]
fn token_starts_empty_and_is_replaced_whole() {
    let mut token = Token::empty();
    assert_eq!(token.access, None);
    assert_eq!(token.refresh, None);
    assert_eq!(token.expires_in, 0);
    token.update(response("a", Some("r"), 60));
    assert_eq!(token.access.as_deref(), Some("a"));
    assert_eq!(token.refresh.as_deref(), Some("r"));
    assert_eq!(token.expires_in, 60);
    token.update(response("b", None, 30));
    assert_eq!(token.access.as_deref(), Some("b"));
    assert_eq!(token.refresh, None);
    assert_eq!(token.expires_in, 30);
}

#[test]
fn refresh_delay_values() {
    assert_eq!(refresh_delay(0), 0);
    assert_eq!(refresh_delay(1), 0);
    assert_eq!(refresh_delay(19), 18);
    assert_eq!(refresh_delay(20), 19);
    assert_eq!(refresh_delay(100), 95);
    assert_eq!(refresh_delay(86400), 82080);
    assert_eq!(refresh_delay(u64::MAX), u64::MAX - u64::MAX / 20);
}

#[test]
fn renewal_comes_before_expiry() {
    for t in 1..2000u64 {
        assert!(refresh_delay(t) < t);
    }
    assert!(refresh_delay(u64::MAX) < u64::MAX);
}

#[test]
fn first_token_starts_the_loop() {
    let mut token = Token::empty();
    let (state, action) = TokenLoop::start(&mut token, response("a", None, 86400));
    assert_eq!(state, TokenLoop { phase: LoopPhase::Waiting, generation: 0 });
    assert_eq!(
        action,
        LoopAction::Schedule { renew_after: 82080, expire_after: 86400, generation: 0 }
    );
    assert_eq!(token.access.as_deref(), Some("a"));
}

#[test]
fn failed_first_token_fails_the_construction() {
    let mut osu = client();
    match osu.initialize(Err(OsuError::NotFound)) {
        Err(OsuError::UpdateToken { source }) => assert!(matches!(*source, OsuError::NotFound)),
        other => panic!("unexpected result: {:?}", other),
    }
    assert_eq!(access_of(&osu), None);
}

#[test]
fn requests_after_initialization_see_the_token() {
    let mut osu = client();
    assert_eq!(access_of(&osu), None);
    osu.initialize(Ok(response("first", None, 100))).unwrap();
    for _ in 0..10 {
        assert_eq!(access_of(&osu).as_deref(), Some("Bearer first"));
    }
}

#[test]
fn loop_renews_and_schedules_again() {
    let mut osu = client();
    let (mut state, action) = osu.initialize(Ok(response("first", None, 100))).unwrap();
    assert_eq!(action, LoopAction::Schedule { renew_after: 95, expire_after: 100, generation: 0 });
    assert_eq!(osu.renew(&mut state, LoopEvent::RenewalDue), LoopAction::Renew);
    assert_eq!(state.phase, LoopPhase::Renewing);
    assert_eq!(access_of(&osu).as_deref(), Some("Bearer first"));
    let action = osu.renew(&mut state, LoopEvent::Renewed(response("second", None, 40)));
    assert_eq!(action, LoopAction::Schedule { renew_after: 38, expire_after: 40, generation: 1 });
    assert_eq!(state, TokenLoop { phase: LoopPhase::Waiting, generation: 1 });
    assert_eq!(access_of(&osu).as_deref(), Some("Bearer second"));
}

#[test]
fn failed_renewal_is_tried_again_at_the_same_pace() {
    let mut osu = client();
    let (mut state, _) = osu.initialize(Ok(response("first", None, 100))).unwrap();
    osu.renew(&mut state, LoopEvent::RenewalDue);
    let action = osu.renew(&mut state, LoopEvent::RenewalFailed);
    assert_eq!(action, LoopAction::Retry { renew_after: 95 });
    assert_eq!(state, TokenLoop { phase: LoopPhase::Waiting, generation: 0 });
    assert_eq!(access_of(&osu).as_deref(), Some("Bearer first"));
    assert_eq!(osu.renew(&mut state, LoopEvent::RenewalDue), LoopAction::Renew);
}

#[test]
fn expiry_of_the_current_token_empties_the_store() {
    let mut osu = client();
    let (mut state, _) = osu.initialize(Ok(response("first", Some("r"), 100))).unwrap();
    osu.renew(&mut state, LoopEvent::RenewalDue);
    assert_eq!(osu.renew(&mut state, LoopEvent::Expired { generation: 0 }), LoopAction::Nothing);
    assert_eq!(access_of(&osu), None);
    let action = osu.renew(&mut state, LoopEvent::Renewed(response("second", None, 100)));
    assert_eq!(action, LoopAction::Schedule { renew_after: 95, expire_after: 100, generation: 1 });
    assert_eq!(access_of(&osu).as_deref(), Some("Bearer second"));
}

#[test]
fn expiry_of_a_replaced_token_changes_nothing() {
    let mut osu = client();
    let (mut state, _) = osu.initialize(Ok(response("first", None, 100))).unwrap();
    osu.renew(&mut state, LoopEvent::RenewalDue);
    osu.renew(&mut state, LoopEvent::Renewed(response("second", None, 100)));
    assert_eq!(osu.renew(&mut state, LoopEvent::Expired { generation: 0 }), LoopAction::Nothing);
    assert_eq!(access_of(&osu).as_deref(), Some("Bearer second"));
}

#[test]
fn cancelled_loop_stops_for_good() {
    let mut osu = client();
    let (mut state, _) = osu.initialize(Ok(response("first", None, 100))).unwrap();
    assert_eq!(osu.renew(&mut state, LoopEvent::Cancelled), LoopAction::Stop);
    assert_eq!(state.phase, LoopPhase::Stopped);
    assert_eq!(osu.renew(&mut state, LoopEvent::RenewalDue), LoopAction::Nothing);
    assert_eq!(
        osu.renew(&mut state, LoopEvent::Renewed(response("second", None, 100))),
        LoopAction::Nothing
    );
    assert_eq!(osu.renew(&mut state, LoopEvent::Expired { generation: 0 }), LoopAction::Nothing);
    assert_eq!(state.phase, LoopPhase::Stopped);
    assert_eq!(access_of(&osu).as_deref(), Some("Bearer first"));
}

#[test]
fn events_out_of_turn_are_ignored() {
    let mut token = Token::empty();
    let (mut state, _) = TokenLoop::start(&mut token, response("first", None, 100));
    assert_eq!(
        state.step(&mut token, LoopEvent::Renewed(response("x", None, 1))),
        LoopAction::Nothing
    );
    assert_eq!(state.step(&mut token, LoopEvent::RenewalFailed), LoopAction::Nothing);
    assert_eq!(token.access.as_deref(), Some("first"));
    assert_eq!(state.step(&mut token, LoopEvent::RenewalDue), LoopAction::Renew);
    assert_eq!(state.step(&mut token, LoopEvent::RenewalDue), LoopAction::Nothing);
    assert_eq!(state.phase, LoopPhase::Renewing);
}

#[test]
fn generation_wraps_around() {
    let mut token = Token::empty();
    let mut state = TokenLoop { phase: LoopPhase::Renewing, generation: u64::MAX };
    let action = state.step(&mut token, LoopEvent::Renewed(response("a", None, 10)));
    assert_eq!(action, LoopAction::Schedule { renew_after: 9, expire_after: 10, generation: 0 });
    assert_eq!(state.generation, 0);
}
