//! Decoding the region catalogue.
//!
//! A region is a geographic targeting unit: a name, a numeric id, and an
//! optional parent id (`None` marks the root region, sent as JSON null).
use vstd::prelude::*;

use crate::json::JsonValue;
use crate::{check_status, spec_check_status, ErrorKind};

verus! {

/// A geographic region, produced only by decoding a response.
#[derive(Debug, PartialEq)]
pub struct Region {
    pub name: String,
    pub id: i64,
    pub parent_id: Option<i64>,
}

/// How a `ParentID` value decodes: JSON null is the root (no parent), an
/// integer is the parent's id, and anything else is malformed.
pub open spec fn spec_parent_id(v: JsonValue) -> Result<Option<i64>, ErrorKind> {
    match v {
        JsonValue::Null => Ok(None),
        JsonValue::Int(n) => Ok(Some(n)),
        JsonValue::OtherNumber => Err(
            ErrorKind::MalformedResponse { reason: "ParentID field is not an integer" },
        ),
        _ => Err(
            ErrorKind::MalformedResponse {
                reason: "ParentID field is not null and not a number",
            },
        ),
    }
}

/// What decoding one region object yields: `RegionName` must be a string,
/// `ParentID` null or an integer, `RegionID` an integer; the first missing
/// or mismatched field is the error.
pub open spec fn spec_parse_region(v: JsonValue) -> Result<Region, ErrorKind> {
    match v.spec_get("RegionName"@) {
        None => Err(ErrorKind::MalformedResponse { reason: "No RegionName field" }),
        Some(JsonValue::Text(name)) => match v.spec_get("ParentID"@) {
            None => Err(ErrorKind::MalformedResponse { reason: "No ParentID field" }),
            Some(parent_val) => match spec_parent_id(parent_val) {
                Err(e) => Err(e),
                Ok(parent_id) => match v.spec_get("RegionID"@) {
                    None => Err(ErrorKind::MalformedResponse { reason: "No RegionID field" }),
                    Some(JsonValue::Int(id)) => Ok(Region { name, id, parent_id }),
                    Some(_) => Err(
                        ErrorKind::MalformedResponse { reason: "RegionID is not an integer" },
                    ),
                },
            },
        },
        Some(_) => Err(ErrorKind::MalformedResponse { reason: "RegionName field is not a string" }),
    }
}

/// What decoding a list of region objects yields: each element in order,
/// stopping at the first invalid one.
pub open spec fn spec_parse_regions(data: Seq<JsonValue>) -> Result<Seq<Region>, ErrorKind>
    decreases data.len(),
{
    if data.len() == 0 {
        Ok(Seq::empty())
    } else {
        match spec_parse_region(data[0]) {
            Err(e) => Err(e),
            Ok(region) => match spec_parse_regions(data.drop_first()) {
                Err(e) => Err(e),
                Ok(rest) => Ok(seq![region] + rest),
            },
        }
    }
}

/// Decodes one region object, exactly as `spec_parse_region` states.
pub fn parse_region(reg: &JsonValue) -> (r: Result<Region, ErrorKind>)
    ensures
        r == spec_parse_region(*reg),
{
    let name = match reg.get("RegionName") {
        None => {
            return Err(ErrorKind::MalformedResponse { reason: "No RegionName field" });
        },
        Some(JsonValue::Text(name)) => name.clone(),
        Some(_) => {
            return Err(ErrorKind::MalformedResponse { reason: "RegionName field is not a string" });
        },
    };
    let parent_id = match reg.get("ParentID") {
        None => {
            return Err(ErrorKind::MalformedResponse { reason: "No ParentID field" });
        },
        Some(JsonValue::Null) => None,
        Some(JsonValue::Int(n)) => Some(*n),
        Some(JsonValue::OtherNumber) => {
            return Err(ErrorKind::MalformedResponse { reason: "ParentID field is not an integer" });
        },
        Some(_) => {
            return Err(
                ErrorKind::MalformedResponse {
                    reason: "ParentID field is not null and not a number",
                },
            );
        },
    };
    let id = match reg.get("RegionID") {
        None => {
            return Err(ErrorKind::MalformedResponse { reason: "No RegionID field" });
        },
        Some(JsonValue::Int(id)) => *id,
        Some(_) => {
            return Err(ErrorKind::MalformedResponse { reason: "RegionID is not an integer" });
        },
    };
    Ok(Region { name, id, parent_id })
}

/// Decodes a list of region objects element-wise, failing on the first
/// invalid element, exactly as `spec_parse_regions` states.
pub fn parse_data(data: &Vec<JsonValue>) -> (r: Result<Vec<Region>, ErrorKind>)
    ensures
        match r {
            Ok(regions) => spec_parse_regions(data@) == Ok::<Seq<Region>, ErrorKind>(regions@),
            Err(e) => spec_parse_regions(data@) == Err::<Seq<Region>, ErrorKind>(e),
        },
{
    let mut regions: Vec<Region> = Vec::new();
    let n = data.len();
    assert(data@.skip(0) =~= data@);
    let mut i: usize = 0;
    while i < n
        invariant
            n == data@.len(),
            i <= n,
            spec_parse_regions(data@) matches Ok(all) ==> {
                &&& spec_parse_regions(data@.skip(i as int)) matches Ok(rest)
                &&& all == regions@ + rest
            },
            spec_parse_regions(data@) matches Err(e) ==> spec_parse_regions(
                data@.skip(i as int),
            ) == Err::<Seq<Region>, ErrorKind>(e),
        decreases n - i,
    {
        proof {
            assert(data@.skip(i as int)[0] == data@[i as int]);
            assert(data@.skip(i as int).drop_first() =~= data@.skip(i + 1));
        }
        match parse_region(&data[i]) {
            Err(e) => {
                return Err(e);
            },
            Ok(region) => {
                regions.push(region);
            },
        }
        proof {
            if spec_parse_regions(data@) is Ok {
                assert(spec_parse_regions(data@)->Ok_0 =~= regions@ + spec_parse_regions(
                    data@.skip(i + 1),
                )->Ok_0);
            }
        }
        i = i + 1;
    }
    proof {
        assert(data@.skip(n as int) =~= Seq::<JsonValue>::empty());
        if spec_parse_regions(data@) is Ok {
            assert(spec_parse_regions(data@)->Ok_0 =~= regions@);
        }
    }
    Ok(regions)
}

/// What the whole `GetRegions` response decodes to: the envelope must pass
/// the status check and carry a `data` array of region objects.
pub open spec fn spec_regions_from_response(response: JsonValue) -> Result<Seq<Region>, ErrorKind> {
    match spec_check_status(response) {
        Err(e) => Err(e),
        Ok(_) => match response.spec_get("data"@) {
            None => Err(ErrorKind::MalformedResponse { reason: "No data field in response" }),
            Some(JsonValue::Array(items)) => spec_parse_regions(items@),
            Some(_) => Err(
                ErrorKind::MalformedResponse { reason: "Data field does not contain an array" },
            ),
        },
    }
}

/// Decodes a full `GetRegions` response envelope, exactly as
/// `spec_regions_from_response` states.
pub fn regions_from_response(response: &JsonValue) -> (r: Result<Vec<Region>, ErrorKind>)
    ensures
        match r {
            Ok(regions) => spec_regions_from_response(*response) == Ok::<
                Seq<Region>,
                ErrorKind,
            >(regions@),
            Err(e) => spec_regions_from_response(*response) == Err::<Seq<Region>, ErrorKind>(e),
        },
{
    match check_status(response) {
        Err(e) => {
            return Err(e);
        },
        Ok(_) => {},
    }
    match response.get("data") {
        None => Err(ErrorKind::MalformedResponse { reason: "No data field in response" }),
        Some(JsonValue::Array(items)) => parse_data(items),
        Some(_) => Err(
            ErrorKind::MalformedResponse { reason: "Data field does not contain an array" },
        ),
    }
}

} // verus!
