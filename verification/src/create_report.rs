//! Building and validating the "create report" request.
//!
//! A request holds at most ten phrases and any number of region ids. A
//! phrase may not contain `&`, `%`, `+`, the spaced hyphen `" - "`, or
//! `:`; the checks run in that order and the first match names the error.
//! The builder is persistent: every operation consumes a value and, on
//! success, returns a new one, so a failed operation never leaves a
//! half-changed request behind.
use vstd::prelude::*;
use vstd::string::StrSliceExecFns;
use vstd::string::StringExecFns;

use crate::json::{lemma_models_of, lemma_pair_models_of, models_of, pair_models_of, JsonModel,
    JsonValue};
use crate::{check_status, spec_check_status, ErrorKind};

verus! {

/// Defines the phrase list and the region ids used when asking the
/// service to generate a report.
#[derive(Debug, Clone, PartialEq)]
pub struct ReportRequest {
    phrases: Vec<String>,
    geo_id: Vec<i64>,
}

/// `s` holds the character `c` somewhere.
pub open spec fn contains_char(s: Seq<char>, c: char) -> bool {
    exists|i: int| 0 <= i < s.len() && s[i] == c
}

/// The three-character pattern `c0 c1 c2` occurs in `s` at position `i`.
pub open spec fn triple_at(s: Seq<char>, c0: char, c1: char, c2: char, i: int) -> bool {
    0 <= i && i + 2 < s.len() && s[i] == c0 && s[i + 1] == c1 && s[i + 2] == c2
}

/// `s` holds a hyphen with a space on both sides.
pub open spec fn contains_spaced_hyphen(s: Seq<char>) -> bool {
    exists|i: int| triple_at(s, ' ', '-', ' ', i)
}

/// What the service forbids inside a phrase.
#[derive(Debug, Clone, Copy, PartialEq, Eq, Structural)]
pub enum Violation {
    Ampersand,
    Percent,
    Plus,
    SpacedHyphen,
    Colon,
}

/// The first forbidden character or sequence a phrase holds, checked in
/// the order `&`, `%`, `+`, `" - "`, `:`; `None` for a legal phrase.
pub open spec fn first_violation(s: Seq<char>) -> Option<Violation> {
    if contains_char(s, '&') {
        Some(Violation::Ampersand)
    } else if contains_char(s, '%') {
        Some(Violation::Percent)
    } else if contains_char(s, '+') {
        Some(Violation::Plus)
    } else if contains_spaced_hyphen(s) {
        Some(Violation::SpacedHyphen)
    } else if contains_char(s, ':') {
        Some(Violation::Colon)
    } else {
        None
    }
}

/// A phrase the service accepts.
pub open spec fn valid_phrase(s: Seq<char>) -> bool {
    first_violation(s) is None
}

/// The error each violation is reported as.
pub open spec fn violation_error(v: Violation) -> ErrorKind {
    match v {
        Violation::Ampersand => ErrorKind::InvalidKeyphrase {
            reason: "Cant use '&' in keyphrases",
        },
        Violation::Percent => ErrorKind::InvalidKeyphrase { reason: "Cant use '%' in keyphrases" },
        Violation::Plus => ErrorKind::InvalidKeyphrase { reason: "Cant use '+' in keyphrases" },
        Violation::SpacedHyphen => ErrorKind::InvalidKeyphrase {
            reason: "Cant use ' - ' in keyphrases",
        },
        Violation::Colon => ErrorKind::InvalidKeyphrase { reason: "Cant use ':' in keyphrases" },
    }
}

/// What adding one phrase to a phrase list yields: the list must not be
/// full (ten phrases) and the phrase must be legal; the new list has the
/// phrase appended.
pub open spec fn spec_add_phrase(phrases: Seq<Seq<char>>, p: Seq<char>) -> Result<
    Seq<Seq<char>>,
    ErrorKind,
> {
    if phrases.len() >= 10 {
        Err(ErrorKind::TooManyKeyphrases)
    } else {
        match first_violation(p) {
            Some(v) => Err(violation_error(v)),
            None => Ok(phrases.push(p)),
        }
    }
}

/// What adding a list of phrases in order yields: the first failure wins
/// and nothing after it is added.
pub open spec fn spec_add_phrases(phrases: Seq<Seq<char>>, ps: Seq<Seq<char>>) -> Result<
    Seq<Seq<char>>,
    ErrorKind,
>
    decreases ps.len(),
{
    if ps.len() == 0 {
        Ok(phrases)
    } else {
        match spec_add_phrase(phrases, ps[0]) {
            Err(e) => Err(e),
            Ok(with_first) => spec_add_phrases(with_first, ps.drop_first()),
        }
    }
}

/// Law: a phrase holding a forbidden character or the spaced hyphen is
/// turned away as an invalid keyphrase. The phrase list is a value the
/// operation cannot alter: on failure no new list is produced, so the
/// builder keeps exactly the phrases it had. (A list already holding ten
/// phrases reports `TooManyKeyphrases` before the phrase is looked at,
/// which is why this law speaks of lists below that bound.)
pub proof fn lemma_forbidden_phrase_rejected(phrases: Seq<Seq<char>>, p: Seq<char>)
    requires
        phrases.len() < 10,
        contains_char(p, '&') || contains_char(p, '%') || contains_char(p, '+')
            || contains_spaced_hyphen(p) || contains_char(p, ':'),
    ensures
        spec_add_phrase(phrases, p) matches Err(e) && e matches ErrorKind::InvalidKeyphrase {
            ..
        },
{
}

/// Law: adding an eleventh phrase always fails with `TooManyKeyphrases`,
/// whatever the phrase; the ten phrases held are left as they are, since
/// on failure no new list is produced.
pub proof fn lemma_eleventh_phrase_rejected(phrases: Seq<Seq<char>>, p: Seq<char>)
    requires
        phrases.len() == 10,
    ensures
        spec_add_phrase(phrases, p) == Err::<Seq<Seq<char>>, ErrorKind>(
            ErrorKind::TooManyKeyphrases,
        ),
{
}

/// Scans for one character, exactly as `contains_char` states.
fn has_char(s: &str, c: char) -> (r: bool)
    ensures
        r == contains_char(s@, c),
{
    let n = s.unicode_len();
    let mut i: usize = 0;
    while i < n
        invariant
            n == s@.len(),
            i <= n,
            forall|j: int| 0 <= j < i ==> s@[j] != c,
        decreases n - i,
    {
        if s.get_char(i) == c {
            assert(s@[i as int] == c);
            return true;
        }
        i = i + 1;
    }
    false
}

/// Scans for a hyphen with a space on both sides, exactly as
/// `contains_spaced_hyphen` states.
fn has_spaced_hyphen(s: &str) -> (r: bool)
    ensures
        r == contains_spaced_hyphen(s@),
{
    let n = s.unicode_len();
    if n < 3 {
        return false;
    }
    let mut i: usize = 0;
    while i < n - 2
        invariant
            n == s@.len(),
            3 <= n,
            i <= n - 2,
            forall|j: int| 0 <= j < i ==> !triple_at(s@, ' ', '-', ' ', j),
        decreases n - i,
    {
        if s.get_char(i) == ' ' && s.get_char(i + 1) == '-' && s.get_char(i + 2) == ' ' {
            assert(triple_at(s@, ' ', '-', ' ', i as int));
            return true;
        }
        i = i + 1;
    }
    false
}

impl ReportRequest {
    /// The phrase list as contracts speak of it.
    pub closed spec fn phrases_view(self) -> Seq<Seq<char>> {
        self.phrases.deep_view()
    }

    /// The region-id list as contracts speak of it.
    pub closed spec fn geo_view(self) -> Seq<i64> {
        self.geo_id@
    }

    /// Creates an empty request: no phrases, no region ids.
    pub fn new() -> (r: Self)
        ensures
            r.phrases_view() == Seq::<Seq<char>>::empty(),
            r.geo_view() == Seq::<i64>::empty(),
    {
        let r = ReportRequest { phrases: Vec::new(), geo_id: Vec::new() };
        proof {
            assert(r.phrases_view() =~= Seq::<Seq<char>>::empty());
        }
        r
    }

    /// Checks a phrase against the forbidden characters, in the order
    /// `first_violation` states, and hands the phrase back when legal.
    pub fn check_phrase(phrase: &str) -> (r: Result<&str, ErrorKind>)
        ensures
            first_violation(phrase@) matches Some(v) ==> r == Err::<&str, ErrorKind>(
                violation_error(v),
            ),
            valid_phrase(phrase@) ==> (r matches Ok(p) && p@ == phrase@),
    {
        if has_char(phrase, '&') {
            return Err(ErrorKind::InvalidKeyphrase { reason: "Cant use '&' in keyphrases" });
        }
        if has_char(phrase, '%') {
            return Err(ErrorKind::InvalidKeyphrase { reason: "Cant use '%' in keyphrases" });
        }
        if has_char(phrase, '+') {
            return Err(ErrorKind::InvalidKeyphrase { reason: "Cant use '+' in keyphrases" });
        }
        if has_spaced_hyphen(phrase) {
            return Err(ErrorKind::InvalidKeyphrase { reason: "Cant use ' - ' in keyphrases" });
        }
        if has_char(phrase, ':') {
            return Err(ErrorKind::InvalidKeyphrase { reason: "Cant use ':' in keyphrases" });
        }
        Ok(phrase)
    }

    /// Adds one phrase, exactly as `spec_add_phrase` states: full builders
    /// and forbidden phrases fail, and a failure produces no new builder.
    pub fn add_phrase(self, phrase: &str) -> (r: Result<Self, ErrorKind>)
        ensures
            r matches Ok(req) ==> spec_add_phrase(self.phrases_view(), phrase@) == Ok::<
                Seq<Seq<char>>,
                ErrorKind,
            >(req.phrases_view()) && req.geo_view() == self.geo_view(),
            r matches Err(e) ==> spec_add_phrase(self.phrases_view(), phrase@) == Err::<
                Seq<Seq<char>>,
                ErrorKind,
            >(e),
    {
        if self.phrases.len() >= 10 {
            return Err(ErrorKind::TooManyKeyphrases);
        }
        match Self::check_phrase(phrase) {
            Err(e) => Err(e),
            Ok(p) => {
                let mut req = self;
                req.phrases.push(String::from_str(p));
                proof {
                    assert(req.phrases_view() =~= self.phrases_view().push(phrase@));
                }
                Ok(req)
            },
        }
    }

    /// Adds a list of phrases in order, exactly as `spec_add_phrases`
    /// states: the first failure is reported and the original builder
    /// value stays what it was.
    pub fn with_phrases(self, phrases: &Vec<&str>) -> (r: Result<Self, ErrorKind>)
        ensures
            r matches Ok(req) ==> spec_add_phrases(self.phrases_view(), phrases.deep_view())
                == Ok::<Seq<Seq<char>>, ErrorKind>(req.phrases_view()) && req.geo_view()
                == self.geo_view(),
            r matches Err(e) ==> spec_add_phrases(self.phrases_view(), phrases.deep_view())
                == Err::<Seq<Seq<char>>, ErrorKind>(e),
    {
        let ghost start = self.phrases_view();
        let ghost all = phrases.deep_view();
        let mut req = self;
        let n = phrases.len();
        assert(all.skip(0) =~= all);
        let mut i: usize = 0;
        while i < n
            invariant
                n == phrases@.len(),
                all == phrases.deep_view(),
                start == self.phrases_view(),
                i <= n,
                spec_add_phrases(start, all) == spec_add_phrases(
                    req.phrases_view(),
                    all.skip(i as int),
                ),
                req.geo_view() == self.geo_view(),
            decreases n - i,
        {
            proof {
                assert(all[i as int] == phrases@[i as int]@);
                assert(all.skip(i as int)[0] == all[i as int]);
                assert(all.skip(i as int).drop_first() =~= all.skip(i + 1));
            }
            match req.add_phrase(phrases[i]) {
                Err(e) => {
                    return Err(e);
                },
                Ok(next) => {
                    req = next;
                },
            }
            i = i + 1;
        }
        proof {
            assert(all.skip(n as int) =~= Seq::<Seq<char>>::empty());
        }
        Ok(req)
    }

    /// Adds one region id; region ids are never validated.
    pub fn add_geo(self, geo_id: i64) -> (r: Self)
        ensures
            r.geo_view() == self.geo_view().push(geo_id),
            r.phrases_view() == self.phrases_view(),
    {
        let mut req = self;
        req.geo_id.push(geo_id);
        req
    }

    /// Adds a list of region ids in order, as adding each one singly
    /// with `add_geo`: the ids are appended to those already held.
    pub fn with_geo(self, geo_ids: &Vec<i64>) -> (r: Self)
        ensures
            r.geo_view() == self.geo_view() + geo_ids@,
            r.phrases_view() == self.phrases_view(),
    {
        let mut req = self;
        let n = geo_ids.len();
        let mut i: usize = 0;
        proof {
            assert(req.geo_view() =~= self.geo_view() + geo_ids@.subrange(0, 0));
        }
        while i < n
            invariant
                n == geo_ids@.len(),
                i <= n,
                req.geo_view() == self.geo_view() + geo_ids@.subrange(0, i as int),
                req.phrases_view() == self.phrases_view(),
            decreases n - i,
        {
            req.geo_id.push(geo_ids[i]);
            proof {
                assert(req.geo_view() =~= self.geo_view() + geo_ids@.subrange(0, i + 1));
            }
            i = i + 1;
        }
        proof {
            assert(self.geo_view() + geo_ids@.subrange(0, n as int) =~= self.geo_view()
                + geo_ids@);
        }
        req
    }

    /// Builds the request's `param` payload, exactly as
    /// `spec_create_params` states: the phrases under `Phrases`, the
    /// region ids under `GeoID`, both keys present even when empty.
    pub fn params(&self) -> (r: JsonValue)
        ensures
            r.model() == spec_create_params(self.phrases_view(), self.geo_view()),
    {
        let ghost pv = self.phrases_view();
        let ghost gv = self.geo_view();
        let mut texts: Vec<JsonValue> = Vec::new();
        let n = self.phrases.len();
        let mut i: usize = 0;
        proof {
            assert(models_of(texts@) =~= pv.take(0).map_values(
                |p: Seq<char>| JsonModel::Text(p),
            ));
        }
        while i < n
            invariant
                n == self.phrases@.len(),
                i <= n,
                pv == self.phrases_view(),
                models_of(texts@) == pv.take(i as int).map_values(
                    |p: Seq<char>| JsonModel::Text(p),
                ),
            decreases n - i,
        {
            let ghost prev = texts@;
            texts.push(JsonValue::Text(self.phrases[i].clone()));
            proof {
                assert(texts@.drop_last() =~= prev);
                assert(models_of(texts@) == models_of(prev).push(texts@.last().model()));
                assert(models_of(texts@) =~= pv.take(i + 1).map_values(
                    |p: Seq<char>| JsonModel::Text(p),
                ));
            }
            i = i + 1;
        }
        let mut ints: Vec<JsonValue> = Vec::new();
        let m = self.geo_id.len();
        let mut j: usize = 0;
        proof {
            assert(models_of(ints@) =~= gv.take(0).map_values(|g: i64| JsonModel::Int(g)));
        }
        while j < m
            invariant
                m == self.geo_id@.len(),
                j <= m,
                gv == self.geo_view(),
                models_of(ints@) == gv.take(j as int).map_values(|g: i64| JsonModel::Int(g)),
            decreases m - j,
        {
            let ghost prev = ints@;
            ints.push(JsonValue::Int(self.geo_id[j]));
            proof {
                assert(ints@.drop_last() =~= prev);
                assert(models_of(ints@) == models_of(prev).push(ints@.last().model()));
                assert(models_of(ints@) =~= gv.take(j + 1).map_values(|g: i64| JsonModel::Int(g)));
            }
            j = j + 1;
        }
        let mut pairs: Vec<(String, JsonValue)> = Vec::new();
        let ghost texts_snapshot = texts@;
        let ghost ints_snapshot = ints@;
        pairs.push((String::from_str("Phrases"), JsonValue::Array(texts)));
        pairs.push((String::from_str("GeoID"), JsonValue::Array(ints)));
        proof {
            lemma_pair_models_of(pairs@);
            assert(pv.take(n as int) =~= pv);
            assert(gv.take(m as int) =~= gv);
            assert(pair_models_of(pairs@) =~= seq![
                ("Phrases"@, JsonModel::Array(pv.map_values(|p: Seq<char>| JsonModel::Text(p)))),
                ("GeoID"@, JsonModel::Array(gv.map_values(|g: i64| JsonModel::Int(g)))),
            ]);
        }
        JsonValue::Object(pairs)
    }
}

/// The `param` payload of a "create report" request: one JSON object
/// holding the phrases as an array of strings under `Phrases` and the
/// region ids as an array of integers under `GeoID`. Both keys are
/// always present, even over empty lists.
pub open spec fn spec_create_params(phrases: Seq<Seq<char>>, geo: Seq<i64>) -> JsonModel {
    JsonModel::Object(
        seq![
            ("Phrases"@, JsonModel::Array(phrases.map_values(|p: Seq<char>| JsonModel::Text(p)))),
            ("GeoID"@, JsonModel::Array(geo.map_values(|g: i64| JsonModel::Int(g)))),
        ],
    )
}

/// What the `CreateNewWordstatReport` response decodes to: the envelope
/// must pass the status check and carry an integer report id under
/// `data`.
pub open spec fn spec_report_id_from_response(response: JsonValue) -> Result<i64, ErrorKind> {
    match spec_check_status(response) {
        Err(e) => Err(e),
        Ok(_) => match response.spec_get("data"@) {
            None => Err(ErrorKind::MalformedResponse { reason: "Data field not found in response" }),
            Some(JsonValue::Int(report_id)) => Ok(report_id),
            Some(JsonValue::OtherNumber) => Err(
                ErrorKind::MalformedResponse { reason: "Data field is not an integer" },
            ),
            Some(_) => Err(ErrorKind::MalformedResponse { reason: "Data field is not a number" }),
        },
    }
}

/// Decodes a full `CreateNewWordstatReport` response envelope, exactly
/// as `spec_report_id_from_response` states.
pub fn report_id_from_response(response: &JsonValue) -> (r: Result<i64, ErrorKind>)
    ensures
        r == spec_report_id_from_response(*response),
{
    match check_status(response) {
        Err(e) => {
            return Err(e);
        },
        Ok(_) => {},
    }
    match response.get("data") {
        None => Err(ErrorKind::MalformedResponse { reason: "Data field not found in response" }),
        Some(JsonValue::Int(report_id)) => Ok(*report_id),
        Some(JsonValue::OtherNumber) => Err(
            ErrorKind::MalformedResponse { reason: "Data field is not an integer" },
        ),
        Some(_) => Err(ErrorKind::MalformedResponse { reason: "Data field is not a number" }),
    }
}

} // verus!
