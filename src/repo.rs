//! The configured API key and the requests sent to the data provider.
use vstd::prelude::*;
use vstd::string::*;
use crate::clock::{utc_today, CalendarDate};
use crate::model::opt_text;
use crate::text::{decimal, push_decimal};

verus! {

/// The provider's competitions root.
pub open spec fn base_url() -> Seq<char> {
    "https://api.football-data.org/v2/competitions/"@
}

/// The fixtures endpoint of competition `code`.
pub open spec fn scores_url(code: Seq<char>) -> Seq<char> {
    base_url() + code + "/matches"@
}

/// A year as chrono's `%Y` writes it: zero-padded to four digits, with a sign
/// outside the years 0 to 9999.
pub open spec fn year_text(y: int) -> Seq<char> {
    if 0 <= y <= 9999 {
        decimal(y as nat, 4)
    } else if y > 9999 {
        "+"@ + decimal(y as nat, 4)
    } else {
        "-"@ + decimal((-y) as nat, 4)
    }
}

/// A date as `YYYY-MM-DD`.
pub open spec fn iso_date_text(d: CalendarDate) -> Seq<char> {
    year_text(d.year as int) + "-"@ + decimal(d.month as nat, 2) + "-"@ + decimal(d.day as nat, 2)
}

/// The text of each name-value pair.
pub open spec fn pairs_text(q: Seq<(String, String)>) -> Seq<(Seq<char>, Seq<char>)> {
    q.map_values(|p: (String, String)| (p.0@, p.1@))
}

/// The single-day window of `today`: `dateFrom` and `dateTo` both that date.
pub open spec fn date_query(today: CalendarDate) -> Seq<(Seq<char>, Seq<char>)> {
    seq![("dateFrom"@, iso_date_text(today)), ("dateTo"@, iso_date_text(today))]
}

/// An HTTP GET to be sent to the provider.
pub struct UpstreamRequest {
    pub url: String,
    /// The value of the `X-Auth-Token` header, if the request carries one.
    pub auth_token: Option<String>,
    /// The query parameters, in order.
    pub query: Vec<(String, String)>,
}

/// `r` asks for the fixtures of `code` on `today`, authenticated with `key`.
pub open spec fn is_scores_request(
    r: UpstreamRequest,
    key: Seq<char>,
    code: Seq<char>,
    today: CalendarDate,
) -> bool {
    &&& r.url@ == scores_url(code)
    &&& opt_text(r.auth_token) == Some(key)
    &&& pairs_text(r.query@) == date_query(today)
}

/// `r` asks for the competition index, authenticated with `key`.
pub open spec fn is_competitions_request(r: UpstreamRequest, key: Seq<char>) -> bool {
    &&& r.url@ == base_url()
    &&& opt_text(r.auth_token) == Some(key)
    &&& r.query@.len() == 0
}

/// A path separator.
pub open spec fn is_separator(c: char) -> bool {
    c == '/' || c == '\\'
}

/// A C0 or C1 control character, or DEL.
pub open spec fn is_control(c: char) -> bool {
    (c as u32) < 0x20 || (0x7f <= (c as u32) && (c as u32) < 0xa0)
}

/// A character of Unicode's `White_Space` property outside the controls.
pub open spec fn is_space(c: char) -> bool {
    let u = c as u32;
    u == 0x20 || u == 0xa0 || u == 0x1680 || (0x2000 <= u && u <= 0x200a) || u == 0x2028
        || u == 0x2029 || u == 0x202f || u == 0x205f || u == 0x3000
}

/// A character that a competition code may hold.
pub open spec fn is_code_char(c: char) -> bool {
    !is_separator(c) && !is_control(c) && !is_space(c)
}

/// A competition code that is safe as one segment of the provider's URL:
/// not empty, and no separator, whitespace or control character in it.
pub open spec fn valid_code(code: Seq<char>) -> bool {
    code.len() > 0 && forall|i: int| 0 <= i < code.len() ==> is_code_char(#[trigger] code[i])
}

/// Whether `c` may stand in a competition code.
pub fn code_char(c: char) -> (r: bool)
    ensures
        r == is_code_char(c),
{
    let u = c as u32;
    let separator = c == '/' || c == '\\';
    let control = u < 0x20 || (0x7f <= u && u < 0xa0);
    let space = u == 0x20 || u == 0xa0 || u == 0x1680 || (0x2000 <= u && u <= 0x200a)
        || u == 0x2028 || u == 0x2029 || u == 0x202f || u == 0x205f || u == 0x3000;
    !separator && !control && !space
}

/// Whether `code` is a valid competition code.
pub fn is_valid_code(code: &str) -> (r: bool)
    ensures
        r == valid_code(code@),
{
    let n = code.unicode_len();
    if n == 0 {
        return false;
    }
    let mut i: usize = 0;
    while i < n
        invariant
            i <= n,
            n == code@.len(),
            forall|j: int| 0 <= j < i ==> is_code_char(#[trigger] code@[j]),
        decreases n - i,
    {
        let c = code.get_char(i);
        if !code_char(c) {
            return false;
        }
        i = i + 1;
    }
    true
}

/// A code that holds a `/` is refused, so no request is made for it.
pub proof fn lemma_separator_refused(code: Seq<char>, i: int)
    requires
        0 <= i < code.len(),
        code[i] == '/',
    ensures
        !valid_code(code),
{
    assert(!is_code_char(code[i]));
}


/// Writes `d` as `YYYY-MM-DD`.
pub fn iso_date(d: &CalendarDate) -> (r: String)
    ensures
        r@ == iso_date_text(*d),
{
    let mut s = String::new();
    let y = d.year as i64;
    if y < 0 {
        s.append("-");
        push_decimal(&mut s, (-y) as u64, 4);
    } else {
        if y > 9999 {
            s.append("+");
        }
        push_decimal(&mut s, y as u64, 4);
    }
    s.append("-");
    push_decimal(&mut s, d.month as u64, 2);
    s.append("-");
    push_decimal(&mut s, d.day as u64, 2);
    s
}

/// The value under `key` of the TOML table in `text`, when `text` parses as
/// a table and that value is a string.
pub uninterp spec fn toml_string_entry(text: Seq<char>, key: Seq<char>) -> Option<Seq<char>>;

/// Relies on `toml::from_str` into a `toml::Table`, then `Table::get` and
/// `Value::as_str`.
#[verifier::external_body]
fn toml_string(text: &str, key: &str) -> (r: Option<String>)
    ensures
        opt_text(r) == toml_string_entry(text@, key@),
{
    let table: toml::Table = toml::from_str(text).ok()?;
    table.get(key)?.as_str().map(String::from)
}

/// The API key that a configuration text sets: the string `api_key`, when
/// the text parses and the key is there and not empty.
pub open spec fn configured_key(text: Seq<char>) -> Option<Seq<char>> {
    match toml_string_entry(text, "api_key"@) {
        Some(k) => if k.len() > 0 { Some(k) } else { None },
        None => None,
    }
}

/// The configuration: the key the provider authenticates requests by.
pub struct ScoreRepo {
    pub api_key: String,
}

impl ScoreRepo {
    /// A non-empty key.
    pub open spec fn wf(&self) -> bool {
        self.api_key@.len() > 0
    }

    /// The configuration holding `api_key`, as read from a configuration
    /// text; `None` when the key is absent or empty.
    pub fn from_api_key(api_key: Option<String>) -> (r: Option<ScoreRepo>)
        ensures
            match r {
                Some(repo) => repo.wf() && opt_text(api_key) == Some(repo.api_key@),
                None => opt_text(api_key) matches Some(k) ==> k.len() == 0,
            },
    {
        match api_key {
            Some(k) => if k.as_str().is_empty() {
                None
            } else {
                Some(ScoreRepo { api_key: k })
            },
            None => None,
        }
    }

    /// Reads the configuration from the text of a TOML file.
    pub fn new(config: &str) -> (r: Option<ScoreRepo>)
        ensures
            match r {
                Some(repo) => repo.wf() && configured_key(config@) == Some(repo.api_key@),
                None => configured_key(config@) is None,
            },
    {
        let key = toml_string(config, "api_key");
        Self::from_api_key(key)
    }

    /// The request for the fixtures of `comp_code` on `today`; `None` when
    /// the code is not valid.
    pub fn scores_request(&self, comp_code: &str, today: &CalendarDate) -> (r: Option<UpstreamRequest>)
        ensures
            r is Some <==> valid_code(comp_code@),
            r matches Some(q) ==> is_scores_request(q, self.api_key@, comp_code@, *today),
    {
        if !is_valid_code(comp_code) {
            return None;
        }
        let mut url = String::from_str("https://api.football-data.org/v2/competitions/");
        url.append(comp_code);
        url.append("/matches");
        let date = iso_date(today);
        let query = vec![
            (String::from_str("dateFrom"), date.clone()),
            (String::from_str("dateTo"), date),
        ];
        assert(pairs_text(query@) =~= date_query(*today));
        Some(UpstreamRequest { url, auth_token: Some(self.api_key.clone()), query })
    }

    /// The request for the fixtures of `comp_code` on the current UTC day;
    /// `None` when the code is not valid.
    pub fn get_scores(&self, comp_code: String) -> (r: Option<UpstreamRequest>)
        ensures
            r is Some <==> valid_code(comp_code@),
            r matches Some(q) ==> exists|today: CalendarDate|
                #[trigger] today.wf() && is_scores_request(q, self.api_key@, comp_code@, today),
    {
        let today = utc_today();
        self.scores_request(comp_code.as_str(), &today)
    }

    /// The request for the competition index.
    pub fn get_competitions(&self) -> (r: UpstreamRequest)
        ensures
            is_competitions_request(r, self.api_key@),
    {
        UpstreamRequest {
            url: String::from_str("https://api.football-data.org/v2/competitions/"),
            auth_token: Some(self.api_key.clone()),
            query: Vec::new(),
        }
    }
}

} // verus!
