//! The two routes of the gateway.
use vstd::prelude::*;
use vstd::string::*;
use crate::clock::{utc_today, CalendarDate};
use crate::repo::{
    base_url, is_code_char, is_competitions_request, is_scores_request, is_valid_code, valid_code,
    ScoreRepo, UpstreamRequest,
};

verus! {

/// What a request path asks for.
pub enum RouteSpec {
    Competitions,
    Fixtures(Seq<char>),
    NotFound,
}

/// The path without its leading `/`.
pub open spec fn path_segment(path: Seq<char>) -> Seq<char> {
    if path.len() > 0 && path[0] == '/' {
        path.drop_first()
    } else {
        path
    }
}

/// `/` asks for the index; `/<code>` for the fixtures of a code whose
/// characters are all allowed; any other path for nothing.
pub open spec fn route_of(path: Seq<char>) -> RouteSpec {
    let seg = path_segment(path);
    if seg.len() == 0 {
        RouteSpec::Competitions
    } else if valid_code(seg) {
        RouteSpec::Fixtures(seg)
    } else {
        RouteSpec::NotFound
    }
}

/// A routed request.
pub enum Route {
    /// `GET /`: the competition index.
    Competitions,
    /// `GET /<code>`: today's fixtures of a competition.
    Fixtures(String),
    /// Any other path: answered with 404.
    NotFound,
}

impl View for Route {
    type V = RouteSpec;

    open spec fn view(&self) -> RouteSpec {
        match self {
            Route::Competitions => RouteSpec::Competitions,
            Route::Fixtures(code) => RouteSpec::Fixtures(code@),
            Route::NotFound => RouteSpec::NotFound,
        }
    }
}

impl Route {
    /// Routes a request path.
    pub fn route(path: &str) -> (r: Route)
        ensures
            r@ == route_of(path@),
    {
        let n = path.unicode_len();
        let start: usize = if n > 0 && path.get_char(0) == '/' { 1 } else { 0 };
        let seg = path.substring_char(start, n);
        assert(seg@ =~= path_segment(path@));
        if start == n {
            Route::Competitions
        } else if is_valid_code(seg) {
            Route::Fixtures(String::from_str(seg))
        } else {
            Route::NotFound
        }
    }

    /// The provider request that answers this route; `None` for an unknown path.
    pub fn request(&self, repo: &ScoreRepo, today: &CalendarDate) -> (r: Option<UpstreamRequest>)
        ensures
            match self@ {
                RouteSpec::Competitions => r matches Some(q) && is_competitions_request(q, repo.api_key@),
                RouteSpec::Fixtures(code) => (r is Some <==> valid_code(code)) && (r matches Some(q)
                    ==> is_scores_request(q, repo.api_key@, code, *today)),
                RouteSpec::NotFound => r is None,
            },
    {
        match self {
            Route::Competitions => Some(repo.get_competitions()),
            Route::Fixtures(code) => repo.scores_request(code.as_str(), today),
            Route::NotFound => None,
        }
    }

    /// The provider request that answers this route on the current UTC day;
    /// `None` for an unknown path.
    pub fn upstream_request(&self, repo: &ScoreRepo) -> (r: Option<UpstreamRequest>)
        ensures
            match self@ {
                RouteSpec::Competitions => r matches Some(q) && is_competitions_request(q, repo.api_key@),
                RouteSpec::Fixtures(code) => (r is Some <==> valid_code(code)) && (r matches Some(q)
                    ==> exists|today: CalendarDate|
                    #[trigger] today.wf() && is_scores_request(q, repo.api_key@, code, today)),
                RouteSpec::NotFound => r is None,
            },
    {
        let today = utc_today();
        self.request(repo, &today)
    }
}

/// The index route asks only for the index, whatever the path held, and a
/// competition route never asks for the index.
pub proof fn lemma_routes_apart(
    path: Seq<char>,
    q: UpstreamRequest,
    key: Seq<char>,
    today: CalendarDate,
)
    ensures
        route_of(path) is Competitions ==> path_segment(path).len() == 0,
        route_of(path) matches RouteSpec::Fixtures(code) && is_scores_request(q, key, code, today)
            ==> q.url@ != base_url() && !is_competitions_request(q, key),
{
    if let RouteSpec::Fixtures(code) = route_of(path) {
        if is_scores_request(q, key, code, today) {
            assert(q.url@.len() > base_url().len());
        }
    }
}

/// A path whose segment holds a `/` is not found, so no provider request is
/// made for it.
pub proof fn lemma_separator_not_found(path: Seq<char>, i: int)
    requires
        0 <= i < path_segment(path).len(),
        path_segment(path)[i] == '/',
    ensures
        route_of(path) is NotFound,
{
    assert(!is_code_char(path_segment(path)[i]));
}

} // verus!
