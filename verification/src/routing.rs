//! Routes of the API and the paths they stand for.

use crate::model::{GameMode, RankingType};
use vstd::prelude::*;
use vstd::string::StringExecFns;

verus! {

/// The HTTP methods that the client uses.
#[derive(Clone, Copy, Debug, PartialEq, Eq, Structural)]
pub enum Method {
    /// `GET`
    Get,
    /// `POST`
    Post,
}

impl Method {
    /// The method's name on the wire.
    pub open spec fn spec_name(self) -> Seq<char> {
        match self {
            Method::Get => "GET"@,
            Method::Post => "POST"@,
        }
    }

    /// The method's name on the wire.
    pub fn name(self) -> (s: &'static str)
        ensures
            s@ == self.spec_name(),
    {
        match self {
            Method::Get => "GET",
            Method::Post => "POST",
        }
    }
}

/// An endpoint of the API.
#[derive(Clone, Copy, Debug, PartialEq, Eq, Structural)]
pub enum Route {
    /// One page of a ranking of the given kind for a mode.
    GetRankings { mode: GameMode, ranking_type: RankingType },
    /// The list of spotlights.
    GetSpotlights,
}

impl Route {
    /// The path of the route below the API's base, without a leading slash.
    pub open spec fn spec_path(self) -> Seq<char> {
        match self {
            Route::GetRankings { mode, ranking_type } => "rankings/"@ + mode.spec_name() + "/"@
                + ranking_type.spec_name(),
            Route::GetSpotlights => "spotlights"@,
        }
    }

    /// The method the route is called with.
    pub open spec fn spec_method(self) -> Method {
        Method::Get
    }

    /// The method and the path of the route.
    pub fn into_parts(self) -> (parts: (Method, String))
        ensures
            parts.0 == self.spec_method(),
            parts.1@ == self.spec_path(),
    {
        match self {
            Route::GetRankings { mode, ranking_type } => {
                let mut path = String::from_str("rankings/");
                path.append(mode.name());
                path.append("/");
                path.append(ranking_type.name());
                (Method::Get, path)
            },
            Route::GetSpotlights => (Method::Get, String::from_str("spotlights")),
        }
    }
}

} // verus!
