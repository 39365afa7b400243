//! Ranking endpoints.

use crate::client::{execution, started_view, Osu, OsuView};
use crate::error::OsuError;
use crate::model::{GameMode, RankingType};
use crate::request::{
    driven, push_page, query_with, with_page, Drive, Lazy, Query, Request, RequestView,
};
use crate::routing::Route;
use crate::text::{decimal, opt_text};
use crate::transport::{Action, Exchange};
use vstd::prelude::*;

verus! {

/// The request for a ranking of a mode with this query.
pub open spec fn ranking_request(query: Seq<char>, mode: GameMode, ranking_type: RankingType) -> RequestView {
    let route = Route::GetRankings { mode, ranking_type };
    RequestView {
        query,
        method: route.spec_method(),
        path: route.spec_path(),
        body: Seq::<char>::empty(),
    }
}

/// Get the chart rankings of a spotlight: the spotlight, its mapsets and
/// the users who took part. Without a spotlight id the latest spotlight is
/// meant.
#[derive(Debug)]
#[must_use]
pub struct GetChartRankings<'a> {
    fut: Lazy,
    osu: &'a Osu,
    mode: GameMode,
    spotlight: Option<u32>,
}

/// What a [`GetChartRankings`] holds.
pub struct ChartRankingsView {
    pub started: bool,
    pub osu: OsuView,
    pub mode: GameMode,
    pub spotlight: Option<u32>,
}

impl ChartRankingsView {
    /// The request the builder stands for.
    pub open spec fn request(self) -> RequestView {
        let query = match self.spotlight {
            Some(id) => query_with(Seq::empty(), "spotlight"@, decimal(id as nat)),
            None => Seq::empty(),
        };
        ranking_request(query, self.mode, RankingType::Charts)
    }
}

impl<'a> View for GetChartRankings<'a> {
    type V = ChartRankingsView;

    closed spec fn view(&self) -> ChartRankingsView {
        ChartRankingsView {
            started: self.fut.started,
            osu: self.osu@,
            mode: self.mode,
            spotlight: self.spotlight,
        }
    }
}

impl<'a> GetChartRankings<'a> {
    pub(crate) fn new(osu: &'a Osu, mode: GameMode) -> (b: Self)
        ensures
            b@ == (ChartRankingsView { started: false, osu: osu@, mode, spotlight: None }),
    {
        GetChartRankings { fut: Lazy::new(), osu, mode, spotlight: None }
    }

    /// Specify the spotlight id. If none is given, the latest spotlight
    /// will be returned.
    pub fn spotlight(self, spotlight_id: u32) -> (b: Self)
        ensures
            b@ == (ChartRankingsView { spotlight: Some(spotlight_id), ..self@ }),
    {
        GetChartRankings { spotlight: Some(spotlight_id), ..self }
    }

    /// Builds the request and starts its exchange.
    pub fn start(&self) -> (r: Result<(Exchange, Action), OsuError>)
        ensures
            started_view(r) == execution(self@.osu, self@.request()),
    {
        let mut query = Query::new();
        if let Some(spotlight) = self.spotlight {
            query.push_number("spotlight", spotlight as u64);
        }
        let req = Request::with_query(
            query,
            Route::GetRankings { mode: self.mode, ranking_type: RankingType::Charts },
        );
        self.osu.request(req)
    }

    /// Polls the request: the first poll starts it, later ones do not.
    pub fn poll(&mut self) -> (d: Drive)
        ensures
            final(self)@ == (ChartRankingsView { started: true, ..old(self)@ }),
            d@ == driven(old(self)@.started, old(self)@.osu, old(self)@.request()),
    {
        if self.fut.poll() {
            Drive::Start(self.start())
        } else {
            Drive::Resume
        }
    }
}

/// Get the ranking of countries by total pp.
#[derive(Debug)]
#[must_use]
pub struct GetCountryRankings<'a> {
    fut: Lazy,
    osu: &'a Osu,
    mode: GameMode,
    page: Option<u32>,
}

/// What a [`GetCountryRankings`] or a [`GetScoreRankings`] holds.
pub struct PagedRankingsView {
    pub started: bool,
    pub osu: OsuView,
    pub mode: GameMode,
    pub page: Option<u32>,
}

impl PagedRankingsView {
    /// The request the builder stands for, for a ranking of this kind.
    pub open spec fn request(self, ranking_type: RankingType) -> RequestView {
        ranking_request(with_page(Seq::empty(), self.page), self.mode, ranking_type)
    }
}

impl<'a> View for GetCountryRankings<'a> {
    type V = PagedRankingsView;

    closed spec fn view(&self) -> PagedRankingsView {
        PagedRankingsView {
            started: self.fut.started,
            osu: self.osu@,
            mode: self.mode,
            page: self.page,
        }
    }
}

impl<'a> GetCountryRankings<'a> {
    pub(crate) fn new(osu: &'a Osu, mode: GameMode) -> (b: Self)
        ensures
            b@ == (PagedRankingsView { started: false, osu: osu@, mode, page: None }),
    {
        GetCountryRankings { fut: Lazy::new(), osu, mode, page: None }
    }

    /// Specify the page. Without one the API answers with the first page.
    pub fn page(self, page: u32) -> (b: Self)
        ensures
            b@ == (PagedRankingsView { page: Some(page), ..self@ }),
    {
        GetCountryRankings { page: Some(page), ..self }
    }

    /// Builds the request and starts its exchange.
    pub fn start(&self) -> (r: Result<(Exchange, Action), OsuError>)
        ensures
            started_view(r) == execution(
                self@.osu,
                self@.request(RankingType::Country),
            ),
    {
        let mut query = Query::new();
        push_page(&mut query, self.page);
        let req = Request::with_query(
            query,
            Route::GetRankings { mode: self.mode, ranking_type: RankingType::Country },
        );
        self.osu.request(req)
    }

    /// Polls the request: the first poll starts it, later ones do not.
    pub fn poll(&mut self) -> (d: Drive)
        ensures
            final(self)@ == (PagedRankingsView { started: true, ..old(self)@ }),
            d@ == driven(
                old(self)@.started,
                old(self)@.osu,
                old(self)@.request(RankingType::Country),
            ),
    {
        if self.fut.poll() {
            Drive::Start(self.start())
        } else {
            Drive::Resume
        }
    }
}

/// Get the ranking of users by pp: the performance leaderboard.
#[derive(Debug)]
#[must_use]
pub struct GetPerformanceRankings<'a> {
    fut: Lazy,
    osu: &'a Osu,
    mode: GameMode,
    country: Option<String>,
    variant: Option<&'static str>,
    page: Option<u32>,
}

/// What a [`GetPerformanceRankings`] holds.
pub struct PerformanceRankingsView {
    pub started: bool,
    pub osu: OsuView,
    pub mode: GameMode,
    pub country: Option<Seq<char>>,
    pub variant: Option<Seq<char>>,
    pub page: Option<u32>,
}

impl PerformanceRankingsView {
    /// The request the builder stands for: the query holds the country,
    /// the variant and the page, in this order, as far as they were set.
    pub open spec fn request(self) -> RequestView {
        let by_country = match self.country {
            Some(country) => query_with(Seq::empty(), "country"@, country),
            None => Seq::empty(),
        };
        let by_variant = match self.variant {
            Some(variant) => query_with(by_country, "variant"@, variant),
            None => by_country,
        };
        ranking_request(with_page(by_variant, self.page), self.mode, RankingType::Performance)
    }

    /// The builder with this variant, which only osu!mania knows.
    pub open spec fn with_variant(self, variant: Seq<char>) -> PerformanceRankingsView {
        if self.mode == GameMode::MNA {
            PerformanceRankingsView { variant: Some(variant), ..self }
        } else {
            self
        }
    }
}

impl<'a> View for GetPerformanceRankings<'a> {
    type V = PerformanceRankingsView;

    closed spec fn view(&self) -> PerformanceRankingsView {
        PerformanceRankingsView {
            started: self.fut.started,
            osu: self.osu@,
            mode: self.mode,
            country: opt_text(self.country),
            variant: match self.variant {
                Some(variant) => Some(variant@),
                None => None,
            },
            page: self.page,
        }
    }
}

impl<'a> GetPerformanceRankings<'a> {
    pub(crate) fn new(osu: &'a Osu, mode: GameMode) -> (b: Self)
        ensures
            b@ == (PerformanceRankingsView {
                started: false,
                osu: osu@,
                mode,
                country: None,
                variant: None,
                page: None,
            }),
    {
        GetPerformanceRankings {
            fut: Lazy::new(),
            osu,
            mode,
            country: None,
            variant: None,
            page: None,
        }
    }

    /// Specify a country code.
    pub fn country(self, country: String) -> (b: Self)
        ensures
            b@ == (PerformanceRankingsView { country: Some(country@), ..self@ }),
    {
        GetPerformanceRankings { country: Some(country), ..self }
    }

    /// Consider only 4K scores. Has no effect on a mode other than
    /// osu!mania.
    pub fn variant_4k(self) -> (b: Self)
        ensures
            b@ == self@.with_variant("4k"@),
    {
        if self.mode == GameMode::MNA {
            GetPerformanceRankings { variant: Some("4k"), ..self }
        } else {
            self
        }
    }

    /// Consider only 7K scores. Has no effect on a mode other than
    /// osu!mania.
    pub fn variant_7k(self) -> (b: Self)
        ensures
            b@ == self@.with_variant("7k"@),
    {
        if self.mode == GameMode::MNA {
            GetPerformanceRankings { variant: Some("7k"), ..self }
        } else {
            self
        }
    }

    /// Pages range from 1 to 200.
    pub fn page(self, page: u32) -> (b: Self)
        ensures
            b@ == (PerformanceRankingsView { page: Some(page), ..self@ }),
    {
        GetPerformanceRankings { page: Some(page), ..self }
    }

    /// The mode and the kind of ranking that the parsed answer is to be
    /// marked with: the API's answer names neither.
    pub fn marks(&self) -> (m: (GameMode, RankingType))
        ensures
            m == (self@.mode, RankingType::Performance),
    {
        (self.mode, RankingType::Performance)
    }

    /// Builds the request and starts its exchange.
    pub fn start(&self) -> (r: Result<(Exchange, Action), OsuError>)
        ensures
            started_view(r) == execution(self@.osu, self@.request()),
    {
        let mut query = Query::new();
        if let Some(country) = &self.country {
            query.push("country", country.as_str());
        }
        if let Some(variant) = self.variant {
            query.push("variant", variant);
        }
        push_page(&mut query, self.page);
        let req = Request::with_query(
            query,
            Route::GetRankings { mode: self.mode, ranking_type: RankingType::Performance },
        );
        self.osu.request(req)
    }

    /// Polls the request: the first poll starts it, later ones do not.
    pub fn poll(&mut self) -> (d: Drive)
        ensures
            final(self)@ == (PerformanceRankingsView { started: true, ..old(self)@ }),
            d@ == driven(old(self)@.started, old(self)@.osu, old(self)@.request()),
    {
        if self.fut.poll() {
            Drive::Start(self.start())
        } else {
            Drive::Resume
        }
    }
}

/// Get the ranking of users by ranked score.
#[derive(Debug)]
#[must_use]
pub struct GetScoreRankings<'a> {
    fut: Lazy,
    osu: &'a Osu,
    mode: GameMode,
    page: Option<u32>,
}

impl<'a> View for GetScoreRankings<'a> {
    type V = PagedRankingsView;

    closed spec fn view(&self) -> PagedRankingsView {
        PagedRankingsView {
            started: self.fut.started,
            osu: self.osu@,
            mode: self.mode,
            page: self.page,
        }
    }
}

impl<'a> GetScoreRankings<'a> {
    pub(crate) fn new(osu: &'a Osu, mode: GameMode) -> (b: Self)
        ensures
            b@ == (PagedRankingsView { started: false, osu: osu@, mode, page: None }),
    {
        GetScoreRankings { fut: Lazy::new(), osu, mode, page: None }
    }

    /// Pages range from 1 to 200.
    pub fn page(self, page: u32) -> (b: Self)
        ensures
            b@ == (PagedRankingsView { page: Some(page), ..self@ }),
    {
        GetScoreRankings { page: Some(page), ..self }
    }

    /// The mode and the kind of ranking that the parsed answer is to be
    /// marked with: the API's answer names neither.
    pub fn marks(&self) -> (m: (GameMode, RankingType))
        ensures
            m == (self@.mode, RankingType::Score),
    {
        (self.mode, RankingType::Score)
    }

    /// Builds the request and starts its exchange.
    pub fn start(&self) -> (r: Result<(Exchange, Action), OsuError>)
        ensures
            started_view(r) == execution(
                self@.osu,
                self@.request(RankingType::Score),
            ),
    {
        let mut query = Query::new();
        push_page(&mut query, self.page);
        let req = Request::with_query(
            query,
            Route::GetRankings { mode: self.mode, ranking_type: RankingType::Score },
        );
        self.osu.request(req)
    }

    /// Polls the request: the first poll starts it, later ones do not.
    pub fn poll(&mut self) -> (d: Drive)
        ensures
            final(self)@ == (PagedRankingsView { started: true, ..old(self)@ }),
            d@ == driven(
                old(self)@.started,
                old(self)@.osu,
                old(self)@.request(RankingType::Score),
            ),
    {
        if self.fut.poll() {
            Drive::Start(self.start())
        } else {
            Drive::Resume
        }
    }
}

/// Get the list of spotlights.
#[derive(Debug)]
#[must_use]
pub struct GetSpotlights<'a> {
    fut: Lazy,
    osu: &'a Osu,
}

/// What a [`GetSpotlights`] holds.
pub struct SpotlightsView {
    pub started: bool,
    pub osu: OsuView,
}

/// The request for the list of spotlights.
pub open spec fn spotlights_request() -> RequestView {
    RequestView {
        query: Seq::<char>::empty(),
        method: Route::GetSpotlights.spec_method(),
        path: Route::GetSpotlights.spec_path(),
        body: Seq::<char>::empty(),
    }
}

impl<'a> View for GetSpotlights<'a> {
    type V = SpotlightsView;

    closed spec fn view(&self) -> SpotlightsView {
        SpotlightsView { started: self.fut.started, osu: self.osu@ }
    }
}

impl<'a> GetSpotlights<'a> {
    pub(crate) fn new(osu: &'a Osu) -> (b: Self)
        ensures
            b@ == (SpotlightsView { started: false, osu: osu@ }),
    {
        GetSpotlights { fut: Lazy::new(), osu }
    }

    /// Builds the request and starts its exchange.
    pub fn start(&self) -> (r: Result<(Exchange, Action), OsuError>)
        ensures
            started_view(r) == execution(
                self@.osu,
                spotlights_request(),
            ),
    {
        self.osu.request(Request::from_route(Route::GetSpotlights))
    }

    /// Polls the request: the first poll starts it, later ones do not.
    pub fn poll(&mut self) -> (d: Drive)
        ensures
            final(self)@ == (SpotlightsView { started: true, ..old(self)@ }),
            d@ == driven(old(self)@.started, old(self)@.osu, spotlights_request()),
    {
        if self.fut.poll() {
            Drive::Start(self.start())
        } else {
            Drive::Resume
        }
    }
}

} // verus!
