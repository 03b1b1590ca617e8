//! Decoding a finished report: one entry per requested phrase, each with
//! the regions covered and two lists of keyword-statistics items.
use vstd::prelude::*;

use crate::json::JsonValue;
use crate::{check_status, spec_check_status, ErrorKind};

verus! {

/// A single search-volume data point: a phrase and its searches over the
/// last month.
#[derive(Debug, PartialEq)]
pub struct WordstatItem {
    pub phrase: String,
    pub shows: i64,
}

/// One report entry: the requested phrase, the region ids the statistics
/// cover, the phrases searched together with it, and similar phrases.
/// `searched_also` may be absent from the payload for low-volume keywords;
/// absence decodes to an empty list, not an error.
#[derive(Debug, PartialEq)]
pub struct ReportEntry {
    pub phrase: String,
    pub geo_id: Vec<i64>,
    pub searched_with: Vec<WordstatItem>,
    pub searched_also: Vec<WordstatItem>,
}

/// What decoding one keyword-statistics object yields: `Phrase` must be a
/// string and `Shows` an integer.
pub open spec fn spec_parse_wordstat_item(v: JsonValue) -> Result<WordstatItem, ErrorKind> {
    match v.spec_get("Phrase"@) {
        None => Err(ErrorKind::MalformedResponse { reason: "Phrase not found in WordstatItem" }),
        Some(JsonValue::Text(phrase)) => match v.spec_get("Shows"@) {
            None => Err(ErrorKind::MalformedResponse { reason: "Shows field not found" }),
            Some(JsonValue::Int(shows)) => Ok(WordstatItem { phrase, shows }),
            Some(_) => Err(ErrorKind::MalformedResponse { reason: "Shows field is not an integer" }),
        },
        Some(_) => Err(
            ErrorKind::MalformedResponse { reason: "Phrase in WordstatItem is not a string" },
        ),
    }
}

/// What decoding a list of keyword-statistics objects yields, stopping at
/// the first invalid element.
pub open spec fn spec_parse_wordstat_items(data: Seq<JsonValue>) -> Result<
    Seq<WordstatItem>,
    ErrorKind,
>
    decreases data.len(),
{
    if data.len() == 0 {
        Ok(Seq::empty())
    } else {
        match spec_parse_wordstat_item(data[0]) {
            Err(e) => Err(e),
            Ok(item) => match spec_parse_wordstat_items(data.drop_first()) {
                Err(e) => Err(e),
                Ok(rest) => Ok(seq![item] + rest),
            },
        }
    }
}

/// What decoding a region-id list yields: every element must be an
/// integer, and the first element that is not one is the error.
pub open spec fn spec_parse_geoid(data: Seq<JsonValue>) -> Result<Seq<i64>, ErrorKind>
    decreases data.len(),
{
    if data.len() == 0 {
        Ok(Seq::empty())
    } else {
        match data[0] {
            JsonValue::Int(id) => match spec_parse_geoid(data.drop_first()) {
                Err(e) => Err(e),
                Ok(rest) => Ok(seq![id] + rest),
            },
            JsonValue::OtherNumber => Err(
                ErrorKind::MalformedResponse { reason: "GeoID is not an integer" },
            ),
            _ => Err(ErrorKind::MalformedResponse { reason: "GeoID is not a number" }),
        }
    }
}

/// A report entry as contracts speak of it: the entry with its vectors
/// abstracted to sequences.
pub ghost struct EntryModel {
    pub phrase: Seq<char>,
    pub geo_id: Seq<i64>,
    pub searched_with: Seq<WordstatItem>,
    pub searched_also: Seq<WordstatItem>,
}

impl ReportEntry {
    /// The view a decoded entry presents in contracts.
    pub open spec fn model(self) -> EntryModel {
        EntryModel {
            phrase: self.phrase@,
            geo_id: self.geo_id@,
            searched_with: self.searched_with@,
            searched_also: self.searched_also@,
        }
    }
}

/// What decoding one report entry yields: `Phrase` a string, `GeoID` an
/// array of integers, `SearchedWith` an array of keyword-statistics
/// objects, and `SearchedAlso` the same shape when present, an empty list
/// when the key is absent.
pub open spec fn spec_parse_report_entry(v: JsonValue) -> Result<EntryModel, ErrorKind> {
    match v.spec_get("Phrase"@) {
        None => Err(ErrorKind::MalformedResponse { reason: "No Phrase field" }),
        Some(JsonValue::Text(phrase)) => match v.spec_get("GeoID"@) {
            None => Err(ErrorKind::MalformedResponse { reason: "No GeoID field" }),
            Some(JsonValue::Array(geoid_arr)) => match spec_parse_geoid(geoid_arr@) {
                Err(e) => Err(e),
                Ok(geo_id) => match v.spec_get("SearchedWith"@) {
                    None => Err(ErrorKind::MalformedResponse { reason: "No SearchedWith field" }),
                    Some(JsonValue::Array(with_arr)) => match spec_parse_wordstat_items(
                        with_arr@,
                    ) {
                        Err(e) => Err(e),
                        Ok(searched_with) => match v.spec_get("SearchedAlso"@) {
                            None => Ok(
                                EntryModel {
                                    phrase: phrase@,
                                    geo_id,
                                    searched_with,
                                    searched_also: Seq::empty(),
                                },
                            ),
                            Some(JsonValue::Array(also_arr)) => match spec_parse_wordstat_items(
                                also_arr@,
                            ) {
                                Err(e) => Err(e),
                                Ok(searched_also) => Ok(
                                    EntryModel {
                                        phrase: phrase@,
                                        geo_id,
                                        searched_with,
                                        searched_also,
                                    },
                                ),
                            },
                            Some(_) => Err(
                                ErrorKind::MalformedResponse {
                                    reason: "SearchedAlso field is not an array",
                                },
                            ),
                        },
                    },
                    Some(_) => Err(
                        ErrorKind::MalformedResponse {
                            reason: "SearchedWith field is not an array",
                        },
                    ),
                },
            },
            Some(_) => Err(
                ErrorKind::MalformedResponse { reason: "GeoID field is not an array" },
            ),
        },
        Some(_) => Err(ErrorKind::MalformedResponse { reason: "Phrase field is not a string" }),
    }
}

/// What decoding the report's entry list yields, stopping at the first
/// invalid entry.
pub open spec fn spec_parse_report(data: Seq<JsonValue>) -> Result<Seq<EntryModel>, ErrorKind>
    decreases data.len(),
{
    if data.len() == 0 {
        Ok(Seq::empty())
    } else {
        match spec_parse_report_entry(data[0]) {
            Err(e) => Err(e),
            Ok(entry) => match spec_parse_report(data.drop_first()) {
                Err(e) => Err(e),
                Ok(rest) => Ok(seq![entry] + rest),
            },
        }
    }
}

/// The entry models of a decoded vector of entries.
pub open spec fn entry_models(entries: Seq<ReportEntry>) -> Seq<EntryModel> {
    entries.map_values(|e: ReportEntry| e.model())
}

/// Decodes one keyword-statistics object, exactly as
/// `spec_parse_wordstat_item` states.
pub fn parse_wordstat_item(data: &JsonValue) -> (r: Result<WordstatItem, ErrorKind>)
    ensures
        r == spec_parse_wordstat_item(*data),
{
    let phrase = match data.get("Phrase") {
        None => {
            return Err(ErrorKind::MalformedResponse { reason: "Phrase not found in WordstatItem" });
        },
        Some(JsonValue::Text(phrase)) => phrase.clone(),
        Some(_) => {
            return Err(
                ErrorKind::MalformedResponse { reason: "Phrase in WordstatItem is not a string" },
            );
        },
    };
    let shows = match data.get("Shows") {
        None => {
            return Err(ErrorKind::MalformedResponse { reason: "Shows field not found" });
        },
        Some(JsonValue::Int(shows)) => *shows,
        Some(_) => {
            return Err(ErrorKind::MalformedResponse { reason: "Shows field is not an integer" });
        },
    };
    Ok(WordstatItem { phrase, shows })
}

/// Decodes a list of keyword-statistics objects element-wise, exactly as
/// `spec_parse_wordstat_items` states.
pub fn parse_wordstat_items(data: &Vec<JsonValue>) -> (r: Result<Vec<WordstatItem>, ErrorKind>)
    ensures
        match r {
            Ok(items) => spec_parse_wordstat_items(data@) == Ok::<Seq<WordstatItem>, ErrorKind>(
                items@,
            ),
            Err(e) => spec_parse_wordstat_items(data@) == Err::<Seq<WordstatItem>, ErrorKind>(e),
        },
{
    let mut items: Vec<WordstatItem> = Vec::new();
    let n = data.len();
    assert(data@.skip(0) =~= data@);
    let mut i: usize = 0;
    while i < n
        invariant
            n == data@.len(),
            i <= n,
            spec_parse_wordstat_items(data@) matches Ok(all) ==> {
                &&& spec_parse_wordstat_items(data@.skip(i as int)) matches Ok(rest)
                &&& all == items@ + rest
            },
            spec_parse_wordstat_items(data@) matches Err(e) ==> spec_parse_wordstat_items(
                data@.skip(i as int),
            ) == Err::<Seq<WordstatItem>, ErrorKind>(e),
        decreases n - i,
    {
        proof {
            assert(data@.skip(i as int)[0] == data@[i as int]);
            assert(data@.skip(i as int).drop_first() =~= data@.skip(i + 1));
        }
        match parse_wordstat_item(&data[i]) {
            Err(e) => {
                return Err(e);
            },
            Ok(item) => {
                items.push(item);
            },
        }
        proof {
            if spec_parse_wordstat_items(data@) is Ok {
                assert(spec_parse_wordstat_items(data@)->Ok_0 =~= items@
                    + spec_parse_wordstat_items(data@.skip(i + 1))->Ok_0);
            }
        }
        i = i + 1;
    }
    proof {
        assert(data@.skip(n as int) =~= Seq::<JsonValue>::empty());
        if spec_parse_wordstat_items(data@) is Ok {
            assert(spec_parse_wordstat_items(data@)->Ok_0 =~= items@);
        }
    }
    Ok(items)
}

/// Decodes a region-id list element-wise, exactly as `spec_parse_geoid`
/// states.
pub fn parse_geoid(data: &Vec<JsonValue>) -> (r: Result<Vec<i64>, ErrorKind>)
    ensures
        match r {
            Ok(ids) => spec_parse_geoid(data@) == Ok::<Seq<i64>, ErrorKind>(ids@),
            Err(e) => spec_parse_geoid(data@) == Err::<Seq<i64>, ErrorKind>(e),
        },
{
    let mut geoids: Vec<i64> = Vec::new();
    let n = data.len();
    assert(data@.skip(0) =~= data@);
    let mut i: usize = 0;
    while i < n
        invariant
            n == data@.len(),
            i <= n,
            spec_parse_geoid(data@) matches Ok(all) ==> {
                &&& spec_parse_geoid(data@.skip(i as int)) matches Ok(rest)
                &&& all == geoids@ + rest
            },
            spec_parse_geoid(data@) matches Err(e) ==> spec_parse_geoid(data@.skip(i as int))
                == Err::<Seq<i64>, ErrorKind>(e),
        decreases n - i,
    {
        proof {
            assert(data@.skip(i as int)[0] == data@[i as int]);
            assert(data@.skip(i as int).drop_first() =~= data@.skip(i + 1));
        }
        match &data[i] {
            JsonValue::Int(id) => {
                geoids.push(*id);
            },
            JsonValue::OtherNumber => {
                return Err(ErrorKind::MalformedResponse { reason: "GeoID is not an integer" });
            },
            _ => {
                return Err(ErrorKind::MalformedResponse { reason: "GeoID is not a number" });
            },
        }
        proof {
            if spec_parse_geoid(data@) is Ok {
                assert(spec_parse_geoid(data@)->Ok_0 =~= geoids@ + spec_parse_geoid(
                    data@.skip(i + 1),
                )->Ok_0);
            }
        }
        i = i + 1;
    }
    proof {
        assert(data@.skip(n as int) =~= Seq::<JsonValue>::empty());
        if spec_parse_geoid(data@) is Ok {
            assert(spec_parse_geoid(data@)->Ok_0 =~= geoids@);
        }
    }
    Ok(geoids)
}

/// Decodes one report entry, exactly as `spec_parse_report_entry` states
/// (the entry's vectors viewed as sequences).
pub fn parse_report_entry(data: &JsonValue) -> (r: Result<ReportEntry, ErrorKind>)
    ensures
        match r {
            Ok(entry) => spec_parse_report_entry(*data) == Ok::<EntryModel, ErrorKind>(
                entry.model(),
            ),
            Err(e) => spec_parse_report_entry(*data) == Err::<EntryModel, ErrorKind>(e),
        },
{
    let phrase = match data.get("Phrase") {
        None => {
            return Err(ErrorKind::MalformedResponse { reason: "No Phrase field" });
        },
        Some(JsonValue::Text(phrase)) => phrase.clone(),
        Some(_) => {
            return Err(ErrorKind::MalformedResponse { reason: "Phrase field is not a string" });
        },
    };
    let geo_id = match data.get("GeoID") {
        None => {
            return Err(ErrorKind::MalformedResponse { reason: "No GeoID field" });
        },
        Some(JsonValue::Array(geoid_arr)) => match parse_geoid(geoid_arr) {
            Err(e) => {
                return Err(e);
            },
            Ok(geo_id) => geo_id,
        },
        Some(_) => {
            return Err(ErrorKind::MalformedResponse { reason: "GeoID field is not an array" });
        },
    };
    let searched_with = match data.get("SearchedWith") {
        None => {
            return Err(ErrorKind::MalformedResponse { reason: "No SearchedWith field" });
        },
        Some(JsonValue::Array(with_arr)) => match parse_wordstat_items(with_arr) {
            Err(e) => {
                return Err(e);
            },
            Ok(items) => items,
        },
        Some(_) => {
            return Err(
                ErrorKind::MalformedResponse { reason: "SearchedWith field is not an array" },
            );
        },
    };
    let searched_also = match data.get("SearchedAlso") {
        None => Vec::new(),
        Some(JsonValue::Array(also_arr)) => match parse_wordstat_items(also_arr) {
            Err(e) => {
                return Err(e);
            },
            Ok(items) => items,
        },
        Some(_) => {
            return Err(
                ErrorKind::MalformedResponse { reason: "SearchedAlso field is not an array" },
            );
        },
    };
    Ok(ReportEntry { phrase, geo_id, searched_with, searched_also })
}

/// Decodes the report's entry list element-wise, failing on the first
/// invalid entry, exactly as `spec_parse_report` states.
pub fn parse_report(data: &Vec<JsonValue>) -> (r: Result<Vec<ReportEntry>, ErrorKind>)
    ensures
        match r {
            Ok(report) => spec_parse_report(data@) == Ok::<Seq<EntryModel>, ErrorKind>(
                entry_models(report@),
            ),
            Err(e) => spec_parse_report(data@) == Err::<Seq<EntryModel>, ErrorKind>(e),
        },
{
    let mut report: Vec<ReportEntry> = Vec::new();
    let n = data.len();
    assert(data@.skip(0) =~= data@);
    assert(entry_models(report@) =~= Seq::<EntryModel>::empty());
    let mut i: usize = 0;
    while i < n
        invariant
            n == data@.len(),
            i <= n,
            spec_parse_report(data@) matches Ok(all) ==> {
                &&& spec_parse_report(data@.skip(i as int)) matches Ok(rest)
                &&& all == entry_models(report@) + rest
            },
            spec_parse_report(data@) matches Err(e) ==> spec_parse_report(data@.skip(i as int))
                == Err::<Seq<EntryModel>, ErrorKind>(e),
        decreases n - i,
    {
        proof {
            assert(data@.skip(i as int)[0] == data@[i as int]);
            assert(data@.skip(i as int).drop_first() =~= data@.skip(i + 1));
        }
        match parse_report_entry(&data[i]) {
            Err(e) => {
                return Err(e);
            },
            Ok(entry) => {
                report.push(entry);
            },
        }
        proof {
            if spec_parse_report(data@) is Ok {
                assert(spec_parse_report(data@)->Ok_0 =~= entry_models(report@)
                    + spec_parse_report(data@.skip(i + 1))->Ok_0);
            }
        }
        i = i + 1;
    }
    proof {
        assert(data@.skip(n as int) =~= Seq::<JsonValue>::empty());
        if spec_parse_report(data@) is Ok {
            assert(spec_parse_report(data@)->Ok_0 =~= entry_models(report@));
        }
    }
    Ok(report)
}

/// What the whole `GetWordstatReport` response decodes to.
pub open spec fn spec_report_from_response(response: JsonValue) -> Result<
    Seq<EntryModel>,
    ErrorKind,
> {
    match spec_check_status(response) {
        Err(e) => Err(e),
        Ok(_) => match response.spec_get("data"@) {
            None => Err(ErrorKind::MalformedResponse { reason: "No data field in response" }),
            Some(JsonValue::Array(items)) => spec_parse_report(items@),
            Some(_) => Err(ErrorKind::MalformedResponse { reason: "Data field is not an array" }),
        },
    }
}

/// Decodes a full `GetWordstatReport` response envelope, exactly as
/// `spec_report_from_response` states.
pub fn report_from_response(response: &JsonValue) -> (r: Result<Vec<ReportEntry>, ErrorKind>)
    ensures
        match r {
            Ok(report) => spec_report_from_response(*response) == Ok::<
                Seq<EntryModel>,
                ErrorKind,
            >(entry_models(report@)),
            Err(e) => spec_report_from_response(*response) == Err::<Seq<EntryModel>, ErrorKind>(e),
        },
{
    match check_status(response) {
        Err(e) => {
            return Err(e);
        },
        Ok(_) => {},
    }
    match response.get("data") {
        None => Err(ErrorKind::MalformedResponse { reason: "No data field in response" }),
        Some(JsonValue::Array(items)) => parse_report(items),
        Some(_) => Err(ErrorKind::MalformedResponse { reason: "Data field is not an array" }),
    }
}

} // verus!
