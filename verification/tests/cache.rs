use osu_client::cache::{Resolved, UserCache, UserId};

#[test]
fn id_resolves_to_itself() {
    let cache = UserCache::new();
    assert!(matches!(cache.cache_user(UserId::Id(2)), Resolved::Id(2)));
}

#[test]
fn unknown_name_comes_back_in_lower_case() {
    let cache = UserCache::new();
    match cache.cache_user(UserId::Name("BadEwe-99 [X]".to_owned())) {
        Resolved::Unknown(name) => assert_eq!(name, "badewe-99 [x]"),
        other => panic!("unexpected result: {:?}", other),
    }
}

#[test]
fn stored_name_resolves_whatever_its_case() {
    let mut cache = UserCache::new();
    cache.update_cache(2211396, "Cookiezi");
    assert!(matches!(cache.cache_user(UserId::Name("cookiezi".to_owned())), Resolved::Id(2211396)));
    assert!(matches!(cache.cache_user(UserId::Name("COOKIEZI".to_owned())), Resolved::Id(2211396)));
    assert!(matches!(cache.cache_user(UserId::Name("cookiez".to_owned())), Resolved::Unknown(_)));
}

#[test]
fn later_entry_replaces_the_earlier() {
    let mut cache = UserCache::new();
    cache.update_cache(1, "peppy");
    cache.update_cache(2, "PEPPY");
    cache.update_cache(3, "other");
    assert!(matches!(cache.cache_user(UserId::Name("Peppy".to_owned())), Resolved::Id(2)));
    assert!(matches!(cache.cache_user(UserId::Name("other".to_owned())), Resolved::Id(3)));
}

#[test]
fn only_ascii_letters_are_lowered() {
    let cache = UserCache::new();
    match cache.cache_user(UserId::Name("ÀB@Z[".to_owned())) {
        Resolved::Unknown(name) => assert_eq!(name, "Àb@z["),
        other => panic!("unexpected result: {:?}", other),
    }
}
