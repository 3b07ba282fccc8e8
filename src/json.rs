//! A JSON tree and the projection of the provider's documents into records.
use vstd::prelude::*;
use vstd::string::*;
use crate::model::{opt_text, CompetitionEntry, CompetitionIndex, Fixture, FixtureDoc};

verus! {

#[verifier::external_type_specification]
#[verifier::external_body]
pub struct ExValue(serde_json::Value);

/// A decoded JSON value.
pub enum Json {
    Null,
    Bool(bool),
    /// A number, in the text that serde_json writes for it.
    Number(String),
    /// Any other number.
    Str(String),
    Array(Vec<Json>),
    /// The members of an object, in the order serde_json's map walks them
    /// (sorted by name, as its `preserve_order` feature is off).
    Object(Vec<(String, Json)>),
}

/// Relies on the variants of `serde_json::Value` and on the `Display` of
/// `serde_json::Number`: the same tree, each number as its JSON text.
#[verifier::external_body]
fn json_of(v: &serde_json::Value) -> (r: Json) {
    match v {
        serde_json::Value::Null => Json::Null,
        serde_json::Value::Bool(b) => Json::Bool(*b),
        serde_json::Value::Number(n) => Json::Number(n.to_string()),
        serde_json::Value::String(s) => Json::Str(s.clone()),
        serde_json::Value::Array(a) => Json::Array(a.iter().map(json_of).collect()),
        serde_json::Value::Object(m) => Json::Object(m.iter().map(|(k, x)| (k.clone(), json_of(x))).collect()),
    }
}

/// The value of the last member named `key` among `members`.
pub open spec fn lookup(members: Seq<(String, Json)>, key: Seq<char>) -> Option<Json>
    decreases members.len(),
{
    if members.len() == 0 {
        None
    } else if members.last().0@ == key {
        Some(members.last().1)
    } else {
        lookup(members.drop_last(), key)
    }
}

/// Member `key` of `j`; `Null` when `j` is no object or has no such member.
pub open spec fn member(j: Json, key: Seq<char>) -> Json {
    match j {
        Json::Object(members) => match lookup(members@, key) {
            Some(v) => v,
            None => Json::Null,
        },
        _ => Json::Null,
    }
}

/// Member `k2` of member `k1`.
pub open spec fn member2(j: Json, k1: Seq<char>, k2: Seq<char>) -> Json {
    member(member(j, k1), k2)
}

/// The string that `j` is.
pub open spec fn str_of(j: Json) -> Option<Seq<char>> {
    match j {
        Json::Str(s) => Some(s@),
        _ => None,
    }
}

/// The JSON text of the number that `j` is.
pub open spec fn number_of(j: Json) -> Option<Seq<char>> {
    match j {
        Json::Number(n) => Some(n@),
        _ => None,
    }
}

/// `f` holds the fields of the match object `j`.
pub open spec fn projects_fixture(j: Json, f: Fixture) -> bool {
    &&& opt_text(f.home_name) == str_of(member2(j, "homeTeam"@, "name"@))
    &&& opt_text(f.away_name) == str_of(member2(j, "awayTeam"@, "name"@))
    &&& opt_text(f.home_score) == number_of(member(member2(j, "score"@, "fullTime"@), "homeTeam"@))
    &&& opt_text(f.away_score) == number_of(member(member2(j, "score"@, "fullTime"@), "awayTeam"@))
    &&& opt_text(f.utc_date) == str_of(member(j, "utcDate"@))
    &&& opt_text(f.status) == str_of(member(j, "status"@))
}

/// `d` holds the competition name and the matches of the document `j`.
pub open spec fn projects_fixture_doc(j: Json, d: FixtureDoc) -> bool {
    &&& opt_text(d.competition_name) == str_of(member2(j, "competition"@, "name"@))
    &&& match (member(j, "matches"@), d.matches) {
        (Json::Array(items), Some(ms)) => items@.len() == ms@.len() && forall|i: int|
            0 <= i < ms@.len() ==> projects_fixture(#[trigger] items@[i], ms@[i]),
        (Json::Array(_), None) => false,
        (_, m) => m is None,
    }
}

/// `e` holds the code and name of the index element `j`.
pub open spec fn projects_entry(j: Json, e: CompetitionEntry) -> bool {
    &&& opt_text(e.code) == str_of(member(j, "code"@))
    &&& opt_text(e.name) == str_of(member(j, "name"@))
}

/// `x` holds the elements of the index document `j`.
pub open spec fn projects_index(j: Json, x: CompetitionIndex) -> bool {
    match (member(j, "competitions"@), x.competitions) {
        (Json::Array(items), Some(es)) => items@.len() == es@.len() && forall|i: int|
            0 <= i < es@.len() ==> projects_entry(#[trigger] items@[i], es@[i]),
        (Json::Array(_), None) => false,
        (_, m) => m is None,
    }
}

impl Json {
    /// Converts a decoded `serde_json` value.
    pub fn from_value(v: &serde_json::Value) -> (r: Json) {
        json_of(v)
    }

    /// Member `key` of this value.
    pub fn member<'a>(&'a self, key: &str) -> (r: &'a Json)
        ensures
            *r == member(*self, key@),
    {
        match self {
            Json::Object(members) => {
                let mut i = members.len();
                assert(members@.take(i as int) =~= members@);
                while i > 0
                    invariant
                        i <= members@.len(),
                        lookup(members@, key@) == lookup(members@.take(i as int), key@),
                        member(*self, key@) == match lookup(members@, key@) {
                            Some(v) => v,
                            None => Json::Null,
                        },
                    decreases i,
                {
                    assert(members@.take(i as int).drop_last() =~= members@.take(i - 1));
                    let k = String::from_str(key);
                    if members[i - 1].0 == k {
                        return &members[i - 1].1;
                    }
                    i = i - 1;
                }
                &Json::Null
            },
            _ => &Json::Null,
        }
    }

    /// The string this value is.
    pub fn text(&self) -> (r: Option<String>)
        ensures
            opt_text(r) == str_of(*self),
    {
        match self {
            Json::Str(s) => Some(s.clone()),
            _ => None,
        }
    }

    /// The JSON text of the number this value is.
    pub fn number(&self) -> (r: Option<String>)
        ensures
            opt_text(r) == number_of(*self),
    {
        match self {
            Json::Number(n) => Some(n.clone()),
            _ => None,
        }
    }
}

impl Fixture {
    /// Reads the fields of a match object.
    pub fn from_json(j: &Json) -> (r: Fixture)
        ensures
            projects_fixture(*j, r),
    {
        let full_time = j.member("score").member("fullTime");
        Fixture {
            home_name: j.member("homeTeam").member("name").text(),
            away_name: j.member("awayTeam").member("name").text(),
            home_score: full_time.member("homeTeam").number(),
            away_score: full_time.member("awayTeam").number(),
            utc_date: j.member("utcDate").text(),
            status: j.member("status").text(),
        }
    }
}

impl FixtureDoc {
    /// Reads a fixtures document.
    pub fn from_json(j: &Json) -> (r: FixtureDoc)
        ensures
            projects_fixture_doc(*j, r),
    {
        let competition_name = j.member("competition").member("name").text();
        let matches = match j.member("matches") {
            Json::Array(items) => {
                let mut ms: Vec<Fixture> = Vec::new();
                for i in 0..items.len()
                    invariant
                        ms@.len() == i,
                        forall|k: int| 0 <= k < i ==> projects_fixture(#[trigger] items@[k], ms@[k]),
                {
                    ms.push(Fixture::from_json(&items[i]));
                }
                Some(ms)
            },
            _ => None,
        };
        FixtureDoc { competition_name, matches }
    }
}

impl CompetitionEntry {
    /// Reads an element of the competition index.
    pub fn from_json(j: &Json) -> (r: CompetitionEntry)
        ensures
            projects_entry(*j, r),
    {
        CompetitionEntry { code: j.member("code").text(), name: j.member("name").text() }
    }
}

impl CompetitionIndex {
    /// Reads the competition index document.
    pub fn from_json(j: &Json) -> (r: CompetitionIndex)
        ensures
            projects_index(*j, r),
    {
        let competitions = match j.member("competitions") {
            Json::Array(items) => {
                let mut es: Vec<CompetitionEntry> = Vec::new();
                for i in 0..items.len()
                    invariant
                        es@.len() == i,
                        forall|k: int| 0 <= k < i ==> projects_entry(#[trigger] items@[k], es@[k]),
                {
                    es.push(CompetitionEntry::from_json(&items[i]));
                }
                Some(es)
            },
            _ => None,
        };
        CompetitionIndex { competitions }
    }
}

} // verus!
