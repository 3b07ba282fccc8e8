//! Plain records projected from the provider's JSON documents.
use vstd::prelude::*;

verus! {

/// One match of a fixtures document. A field that the document lacks, or
/// holds with another JSON type, is `None`.
pub struct Fixture {
    /// `homeTeam.name`
    pub home_name: Option<String>,
    /// `awayTeam.name`
    pub away_name: Option<String>,
    /// `score.fullTime.homeTeam`, as JSON number text.
    pub home_score: Option<String>,
    /// `score.fullTime.awayTeam`, as JSON number text.
    pub away_score: Option<String>,
    /// `utcDate`
    pub utc_date: Option<String>,
    /// `status`
    pub status: Option<String>,
}

/// A day-scoped fixtures document of one competition.
pub struct FixtureDoc {
    /// `competition.name`
    pub competition_name: Option<String>,
    /// `matches`, in the provider's order; `None` when the array is absent.
    pub matches: Option<Vec<Fixture>>,
}

/// One element of the competition index.
pub struct CompetitionEntry {
    /// `code`; `None` when null or missing.
    pub code: Option<String>,
    /// `name`
    pub name: Option<String>,
}

/// The competition index document.
pub struct CompetitionIndex {
    /// `competitions`, in the provider's order; `None` when the array is absent.
    pub competitions: Option<Vec<CompetitionEntry>>,
}

/// The text of an optional string.
pub open spec fn opt_text(o: Option<String>) -> Option<Seq<char>> {
    match o {
        Some(s) => Some(s@),
        None => None,
    }
}

} // verus!
