//! Rendering of fixtures documents and of the competition index as text.
use vstd::prelude::*;
use vstd::string::*;
use crate::clock::{rfc3339_utc_clock, utc_clock_of};
use crate::model::{opt_text, CompetitionEntry, CompetitionIndex, Fixture, FixtureDoc};
use crate::style::{paint, painted, Tone};
use crate::text::{decimal, push_decimal};

verus! {

/// A full-time score, `<home> - <away>`, each in its JSON text.
pub open spec fn score_text(home: Seq<char>, away: Seq<char>) -> Seq<char> {
    home + " - "@ + away
}

/// A kickoff time, `HH:MM`.
pub open spec fn clock_text(hour: nat, minute: nat) -> Seq<char> {
    decimal(hour, 2) + ":"@ + decimal(minute, 2)
}

/// The text of a fixture's middle cell: the full-time score when the home
/// score is there, else the kickoff time when one was read from `utcDate`,
/// else the status. `None` when none of them can be shown, and when the home
/// score comes without the away score.
pub open spec fn middle_text(f: Fixture, kickoff: Option<(u32, u32)>) -> Option<Seq<char>> {
    match f.home_score {
        Some(h) => match f.away_score {
            Some(a) => Some(score_text(h@, a@)),
            None => None,
        },
        None => match kickoff {
            Some((hour, minute)) => Some(clock_text(hour as nat, minute as nat)),
            None => opt_text(f.status),
        },
    }
}

/// A fixture's line, `<home> <styled middle> <away>` and a newline, given
/// the kickoff time read from its `utcDate`. `None` when a team name or the
/// middle cell is missing: such a fixture is skipped.
pub open spec fn fixture_line_text(f: Fixture, kickoff: Option<(u32, u32)>) -> Option<Seq<char>> {
    match (opt_text(f.home_name), middle_text(f, kickoff), opt_text(f.away_name)) {
        (Some(home), Some(mid), Some(away)) => Some(
            home + " "@ + painted(Tone::Cell, " "@ + mid + " "@) + " "@ + away + "\n"@,
        ),
        _ => None,
    }
}

/// The kickoff time of a fixture, when its `utcDate` is an RFC 3339 timestamp.
pub open spec fn kickoff_of(f: Fixture) -> Option<(u32, u32)> {
    match f.utc_date {
        Some(s) => rfc3339_utc_clock(s@),
        None => None,
    }
}

/// A fixture's rendered line, if it has one.
pub open spec fn rendered(f: Fixture) -> Option<Seq<char>> {
    fixture_line_text(f, kickoff_of(f))
}

/// The lines of the renderable fixtures of `ms`, in order.
pub open spec fn fixtures_body(ms: Seq<Fixture>) -> Seq<char>
    decreases ms.len(),
{
    if ms.len() == 0 {
        Seq::empty()
    } else {
        fixtures_body(ms.drop_last()) + match rendered(ms.last()) {
            Some(line) => line,
            None => Seq::empty(),
        }
    }
}

/// The text of a fixtures document: a styled `<competition>:` header, the
/// fixture lines and a blank line. `None` when the competition name or the
/// matches array is missing, or when no fixture can be rendered.
pub open spec fn fixtures_view(doc: FixtureDoc) -> Option<Seq<char>> {
    match (opt_text(doc.competition_name), doc.matches) {
        (Some(name), Some(ms)) => {
            let body = fixtures_body(ms@);
            if body.len() == 0 {
                None
            } else {
                Some("\n"@ + painted(Tone::Header, name + ":"@) + "\n"@ + body + "\n"@)
            }
        },
        _ => None,
    }
}

/// The usage block that opens the competition index.
pub open spec fn usage_text() -> Seq<char> {
    "\nUsage:\n curl ftbl.in/<competition>\n\nCompetitions:\n"@
}

/// An entry's line of the index, `   <styled code>: <name>` and a newline;
/// empty when the entry has no code or no name.
pub open spec fn entry_text(e: CompetitionEntry) -> Seq<char> {
    match (opt_text(e.code), opt_text(e.name)) {
        (Some(code), Some(name)) => "   "@ + painted(Tone::Cell, code) + ": "@ + name + "\n"@,
        _ => Seq::empty(),
    }
}

/// The lines of the entries of `es`, in order.
pub open spec fn entries_body(es: Seq<CompetitionEntry>) -> Seq<char>
    decreases es.len(),
{
    if es.len() == 0 {
        Seq::empty()
    } else {
        entries_body(es.drop_last()) + entry_text(es.last())
    }
}

/// The text of the competition index: the usage block, one line per entry
/// with a code and a name, and a blank line. `None` when the array is absent.
pub open spec fn competitions_view(index: CompetitionIndex) -> Option<Seq<char>> {
    match index.competitions {
        Some(es) => Some(usage_text() + entries_body(es@) + "\n"@),
        None => None,
    }
}

/// The concatenation of `parts`, in order.
pub open spec fn joined(parts: Seq<Seq<char>>) -> Seq<char>
    decreases parts.len(),
{
    if parts.len() == 0 {
        Seq::empty()
    } else {
        joined(parts.drop_last()) + parts.last()
    }
}

/// Whether fixture `f` has a line.
pub open spec fn has_line(f: Fixture) -> bool {
    rendered(f) is Some
}

/// The line of a fixture that has one.
pub open spec fn line_of(f: Fixture) -> Seq<char> {
    match rendered(f) {
        Some(line) => line,
        None => Seq::empty(),
    }
}

/// Whether index entry `e` carries a code.
pub open spec fn has_code(e: CompetitionEntry) -> bool {
    e.code is Some
}

proof fn lemma_joined_push(parts: Seq<Seq<char>>, last: Seq<char>)
    ensures
        joined(parts.push(last)) == joined(parts) + last,
{
    assert(parts.push(last).drop_last() =~= parts);
}

/// A fixture with something for its middle cell: a home score, a readable
/// kickoff time or a status.
pub open spec fn renderable(f: Fixture) -> bool {
    f.home_score is Some || kickoff_of(f) is Some || f.status is Some
}

/// A fixture with both team names, whose home score, if there, comes with
/// the away score.
pub open spec fn well_formed(f: Fixture) -> bool {
    &&& f.home_name is Some
    &&& f.away_name is Some
    &&& f.home_score is Some ==> f.away_score is Some
}

/// A well-formed fixture has a line exactly when it is renderable, and that
/// line is its home team, the styled middle cell and its away team.
pub proof fn lemma_line_shape(f: Fixture)
    requires
        well_formed(f),
    ensures
        has_line(f) <==> renderable(f),
        renderable(f) ==> line_of(f) == f.home_name->0@ + " "@ + painted(
            Tone::Cell,
            " "@ + middle_text(f, kickoff_of(f))->0 + " "@,
        ) + " "@ + f.away_name->0@ + "\n"@,
{
}

/// For well-formed fixtures, the fixtures body is the lines of the
/// renderable fixtures in the provider's order: nothing is reordered,
/// repeated or dropped but fixtures with nothing to show.
pub proof fn lemma_fixture_order(ms: Seq<Fixture>)
    requires
        forall|i: int| 0 <= i < ms.len() ==> well_formed(#[trigger] ms[i]),
    ensures
        fixtures_body(ms) == joined(
            ms.filter(|f: Fixture| renderable(f)).map_values(|f: Fixture| line_of(f)),
        ),
    decreases ms.len(),
{
    let pred = |f: Fixture| renderable(f);
    let lf = |f: Fixture| line_of(f);
    if ms.len() == 0 {
        assert(ms.filter(pred).map_values(lf) =~= Seq::<Seq<char>>::empty());
    } else {
        let init = ms.drop_last();
        let last = ms.last();
        assert forall|i: int| 0 <= i < init.len() implies well_formed(#[trigger] init[i]) by {
            assert(init[i] == ms[i]);
        }
        lemma_fixture_order(init);
        lemma_line_shape(last);
        assert(ms =~= init.push(last));
        init.lemma_filter_push(last, pred);
        let kept = init.filter(pred);
        if pred(last) {
            assert(kept.push(last).map_values(lf) =~= kept.map_values(lf).push(lf(last)));
            lemma_joined_push(kept.map_values(lf), lf(last));
        }
    }
}

proof fn lemma_line_nonempty(f: Fixture)
    ensures
        rendered(f) matches Some(line) ==> line.len() > 0,
{
    reveal_strlit("\n");
}

/// The fixtures body is empty exactly when no fixture has a line.
proof fn lemma_body_empty(ms: Seq<Fixture>)
    ensures
        fixtures_body(ms).len() == 0 <==> forall|i: int| 0 <= i < ms.len() ==> !has_line(#[trigger] ms[i]),
    decreases ms.len(),
{
    if ms.len() > 0 {
        let init = ms.drop_last();
        lemma_body_empty(init);
        lemma_line_nonempty(ms.last());
        if forall|i: int| 0 <= i < ms.len() ==> !has_line(#[trigger] ms[i]) {
            assert forall|i: int| 0 <= i < init.len() implies !has_line(#[trigger] init[i]) by {
                assert(init[i] == ms[i]);
            }
        } else {
            let i = choose|i: int| 0 <= i < ms.len() && has_line(#[trigger] ms[i]);
            if i < ms.len() - 1 {
                assert(init[i] == ms[i]);
            }
        }
    }
}

/// For a document with a competition name and well-formed fixtures, the
/// view has text exactly when the matches array is there and some fixture
/// is renderable: it has a score, a readable kickoff time or a status.
pub proof fn lemma_fixtures_nonempty(doc: FixtureDoc)
    requires
        doc.competition_name is Some,
        doc.matches matches Some(ms) ==> forall|i: int|
            0 <= i < ms@.len() ==> well_formed(#[trigger] ms@[i]),
    ensures
        fixtures_view(doc) is Some <==> (doc.matches matches Some(ms) && exists|i: int|
            0 <= i < ms@.len() && renderable(#[trigger] ms@[i])),
{
    if let Some(ms) = doc.matches {
        lemma_body_empty(ms@);
        if exists|i: int| 0 <= i < ms@.len() && renderable(#[trigger] ms@[i]) {
            let i = choose|i: int| 0 <= i < ms@.len() && renderable(#[trigger] ms@[i]);
            lemma_line_shape(ms@[i]);
        } else {
            assert forall|i: int| 0 <= i < ms@.len() implies !has_line(#[trigger] ms@[i]) by {
                lemma_line_shape(ms@[i]);
            }
        }
    }
}

/// The index lists, in the provider's order, one line for each entry that
/// carries a code, and none for the others.
pub proof fn lemma_index_entries(index: CompetitionIndex)
    requires
        index.competitions matches Some(es) ==> forall|i: int|
            0 <= i < es@.len() ==> (#[trigger] es@[i]).name is Some,
    ensures
        competitions_view(index) == match index.competitions {
            Some(es) => Some(
                usage_text() + joined(
                    es@.filter(|e: CompetitionEntry| has_code(e)).map_values(
                        |e: CompetitionEntry| entry_text(e),
                    ),
                ) + "\n"@,
            ),
            None => None,
        },
{
    if let Some(es) = index.competitions {
        lemma_entries_order(es@);
    }
}

proof fn lemma_entries_order(es: Seq<CompetitionEntry>)
    requires
        forall|i: int| 0 <= i < es.len() ==> (#[trigger] es[i]).name is Some,
    ensures
        entries_body(es) == joined(
            es.filter(|e: CompetitionEntry| has_code(e)).map_values(|e: CompetitionEntry| entry_text(e)),
        ),
    decreases es.len(),
{
    let pred = |e: CompetitionEntry| has_code(e);
    let lf = |e: CompetitionEntry| entry_text(e);
    if es.len() == 0 {
        assert(es.filter(pred).map_values(lf) =~= Seq::<Seq<char>>::empty());
    } else {
        let init = es.drop_last();
        let last = es.last();
        assert forall|i: int| 0 <= i < init.len() implies (#[trigger] init[i]).name is Some by {
            assert(init[i] == es[i]);
        }
        lemma_entries_order(init);
        assert(es =~= init.push(last));
        init.lemma_filter_push(last, pred);
        let kept = init.filter(pred);
        if pred(last) {
            assert(kept.push(last).map_values(lf) =~= kept.map_values(lf).push(lf(last)));
            lemma_joined_push(kept.map_values(lf), lf(last));
        } else {
            assert(entry_text(last) =~= Seq::<char>::empty());
        }
    }
}

/// Renders the two views.
pub struct ScoreView;

impl ScoreView {
    /// The line of fixture `f`, given the kickoff time read from its `utcDate`.
    pub fn fixture_line(f: &Fixture, kickoff: Option<(u32, u32)>) -> (r: Option<String>)
        ensures
            opt_text(r) == fixture_line_text(*f, kickoff),
    {
        let home = match &f.home_name {
            Some(h) => h,
            None => return None,
        };
        let away = match &f.away_name {
            Some(a) => a,
            None => return None,
        };
        let mut mid = String::from_str(" ");
        match &f.home_score {
            Some(h) => match &f.away_score {
                Some(a) => {
                    mid.append(h.as_str());
                    mid.append(" - ");
                    mid.append(a.as_str());
                },
                None => return None,
            },
            None => match kickoff {
                Some((hour, minute)) => {
                    push_decimal(&mut mid, hour as u64, 2);
                    mid.append(":");
                    push_decimal(&mut mid, minute as u64, 2);
                },
                None => match &f.status {
                    Some(s) => mid.append(s.as_str()),
                    None => return None,
                },
            },
        }
        mid.append(" ");
        let mut line = String::from_str(home.as_str());
        line.append(" ");
        paint(&mut line, Tone::Cell, mid.as_str());
        line.append(" ");
        line.append(away.as_str());
        line.append("\n");
        Some(line)
    }

    /// The text of a fixtures document, or `None` when it has nothing to show.
    pub fn scores(doc: FixtureDoc) -> (r: Option<String>)
        ensures
            opt_text(r) == fixtures_view(doc),
    {
        let name = match &doc.competition_name {
            Some(n) => n,
            None => return None,
        };
        let ms = match &doc.matches {
            Some(m) => m,
            None => return None,
        };
        let mut body = String::new();
        let n = ms.len();
        for i in 0..n
            invariant
                n == ms@.len(),
                body@ == fixtures_body(ms@.take(i as int)),
        {
            let f = &ms[i];
            let kickoff = match &f.utc_date {
                Some(s) => utc_clock_of(s.as_str()),
                None => None,
            };
            let line = Self::fixture_line(f, kickoff);
            assert(ms@.take(i + 1).drop_last() =~= ms@.take(i as int));
            if let Some(l) = line {
                body.append(l.as_str());
            }
        }
        assert(ms@.take(n as int) =~= ms@);
        if body.as_str().is_empty() {
            return None;
        }
        let mut header = String::from_str(name.as_str());
        header.append(":");
        let mut out = String::from_str("\n");
        paint(&mut out, Tone::Header, header.as_str());
        out.append("\n");
        out.append(body.as_str());
        out.append("\n");
        Some(out)
    }

    /// The text of the competition index, or `None` when it has no array.
    pub fn competitions(index: CompetitionIndex) -> (r: Option<String>)
        ensures
            opt_text(r) == competitions_view(index),
    {
        let es = match &index.competitions {
            Some(e) => e,
            None => return None,
        };
        let mut out = String::from_str("\nUsage:\n curl ftbl.in/<competition>\n\nCompetitions:\n");
        let n = es.len();
        for i in 0..n
            invariant
                n == es@.len(),
                out@ == usage_text() + entries_body(es@.take(i as int)),
        {
            let e = &es[i];
            assert(es@.take(i + 1).drop_last() =~= es@.take(i as int));
            if let (Some(code), Some(name)) = (&e.code, &e.name) {
                out.append("   ");
                paint(&mut out, Tone::Cell, code.as_str());
                out.append(": ");
                out.append(name.as_str());
                out.append("\n");
            }
        }
        assert(es@.take(n as int) =~= es@);
        out.append("\n");
        Some(out)
    }
}

} // verus!
