//! The few model values that requests are built from.

use vstd::prelude::*;

verus! {

/// The game modes of osu!.
#[derive(Clone, Copy, Debug, PartialEq, Eq, Structural)]
pub enum GameMode {
    /// osu!standard
    STD,
    /// osu!taiko
    TKO,
    /// osu!catch
    CTB,
    /// osu!mania
    MNA,
}

impl GameMode {
    /// The name of the mode as it stands in a path.
    pub open spec fn spec_name(self) -> Seq<char> {
        match self {
            GameMode::STD => "osu"@,
            GameMode::TKO => "taiko"@,
            GameMode::CTB => "fruits"@,
            GameMode::MNA => "mania"@,
        }
    }

    /// The name of the mode as it stands in a path.
    pub fn name(self) -> (s: &'static str)
        ensures
            s@ == self.spec_name(),
    {
        match self {
            GameMode::STD => "osu",
            GameMode::TKO => "taiko",
            GameMode::CTB => "fruits",
            GameMode::MNA => "mania",
        }
    }
}

/// The kinds of ranking that the API offers.
#[derive(Clone, Copy, Debug, PartialEq, Eq, Structural)]
pub enum RankingType {
    /// Spotlight charts
    Charts,
    /// Countries by total pp
    Country,
    /// Users by pp
    Performance,
    /// Users by ranked score
    Score,
}

impl RankingType {
    /// The name of the ranking as it stands in a path.
    pub open spec fn spec_name(self) -> Seq<char> {
        match self {
            RankingType::Charts => "charts"@,
            RankingType::Country => "country"@,
            RankingType::Performance => "performance"@,
            RankingType::Score => "score"@,
        }
    }

    /// The name of the ranking as it stands in a path.
    pub fn name(self) -> (s: &'static str)
        ensures
            s@ == self.spec_name(),
    {
        match self {
            RankingType::Charts => "charts",
            RankingType::Country => "country",
            RankingType::Performance => "performance",
            RankingType::Score => "score",
        }
    }
}

} // verus!
