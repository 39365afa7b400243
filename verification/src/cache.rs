//! The cache of user ids by name, which saves the request that looks a
//! name up.

use crate::foreign::{
    ascii_lower, cache_get, cache_insert, cache_new, cached, make_ascii_lowercase,
};
use vstd::prelude::*;

verus! {

/// A user, by id or by name.
#[derive(Debug)]
pub enum UserId {
    /// The user's id.
    Id(u32),
    /// The user's name. Names are ASCII and do not tell upper from lower
    /// case.
    Name(String),
}

/// What is known of a user's id.
#[derive(Debug)]
pub enum Resolved {
    /// The id, as it was given or as the cache holds it.
    Id(u32),
    /// The cache does not hold the name. This is the name in lower case,
    /// to ask the API with and to store the answer under.
    Unknown(String),
}

/// The key a name is stored under: the name in ASCII lower case.
pub open spec fn cache_key(name: Seq<char>) -> Seq<char> {
    name.map_values(|c: char| ascii_lower(c))
}

/// User ids by name.
pub struct UserCache {
    names: dashmap::DashMap<String, u32>,
}

impl View for UserCache {
    type V = Map<Seq<char>, u32>;

    closed spec fn view(&self) -> Map<Seq<char>, u32> {
        cached(self.names)
    }
}

impl UserCache {
    /// The cache without entries.
    pub fn new() -> (cache: UserCache)
        ensures
            cache@ == Map::<Seq<char>, u32>::empty(),
    {
        UserCache { names: cache_new() }
    }

    /// Resolves a user to an id without asking the API, where that is
    /// possible: an id is taken as it is, a name is looked up in lower
    /// case.
    pub fn cache_user(&self, user_id: UserId) -> (r: Resolved)
        ensures
            match user_id {
                UserId::Id(id) => r == Resolved::Id(id),
                UserId::Name(name) => if self@.contains_key(cache_key(name@)) {
                    r == Resolved::Id(self@[cache_key(name@)])
                } else {
                    r matches Resolved::Unknown(key) && key@ == cache_key(name@)
                },
            },
    {
        match user_id {
            UserId::Id(id) => Resolved::Id(id),
            UserId::Name(name) => {
                let mut name = name;
                make_ascii_lowercase(&mut name);
                match cache_get(&self.names, name.as_str()) {
                    Some(id) => Resolved::Id(id),
                    None => Resolved::Unknown(name),
                }
            },
        }
    }

    /// Stores the id of a user under the user's name in lower case. An
    /// earlier entry of that name is replaced.
    pub fn update_cache(&mut self, user_id: u32, username: &str)
        ensures
            final(self)@ == old(self)@.insert(cache_key(username@), user_id),
    {
        let mut name = username.to_owned();
        make_ascii_lowercase(&mut name);
        cache_insert(&mut self.names, name, user_id);
    }
}

} // verus!
