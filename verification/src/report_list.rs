//! Decoding the list of server-side reports and their states.
use vstd::prelude::*;

use crate::json::{str_eq, JsonValue};
use crate::{check_status, spec_check_status, ErrorKind};

verus! {

/// The state of a server-side report. Unknown state strings from the
/// service decode to `Unrecognized` rather than failing, since the service
/// may introduce new states.
#[derive(Debug, Clone, Copy, PartialEq, Eq, Structural)]
pub enum StatusCode {
    Done,
    Pending,
    Failed,
    Unrecognized,
}

/// One entry of the report list: a report id and its state.
#[derive(Debug, Clone, Copy, PartialEq, Eq, Structural)]
pub struct ReportStatus {
    pub report_id: i64,
    pub status: StatusCode,
}

/// How a state string decodes: the three named states, and `Unrecognized`
/// for anything else — never an error.
pub open spec fn spec_status_code(s: Seq<char>) -> StatusCode {
    if s == "Done"@ {
        StatusCode::Done
    } else if s == "Pending"@ {
        StatusCode::Pending
    } else if s == "Failed"@ {
        StatusCode::Failed
    } else {
        StatusCode::Unrecognized
    }
}

/// What decoding one report-list object yields: `ReportID` must be an
/// integer and `StatusReport` a string.
pub open spec fn spec_parse_report(v: JsonValue) -> Result<ReportStatus, ErrorKind> {
    match v.spec_get("ReportID"@) {
        None => Err(ErrorKind::MalformedResponse { reason: "No ReportID field" }),
        Some(JsonValue::Int(report_id)) => match v.spec_get("StatusReport"@) {
            None => Err(ErrorKind::MalformedResponse { reason: "No StatusReport field" }),
            Some(JsonValue::Text(status_str)) => Ok(
                ReportStatus { report_id, status: spec_status_code(status_str@) },
            ),
            Some(_) => Err(
                ErrorKind::MalformedResponse { reason: "StatusReport field is not a string" },
            ),
        },
        Some(_) => Err(ErrorKind::MalformedResponse { reason: "ReportID field is not an integer" }),
    }
}

/// What decoding a list of report-list objects yields, stopping at the
/// first invalid element.
pub open spec fn spec_parse_reports(data: Seq<JsonValue>) -> Result<Seq<ReportStatus>, ErrorKind>
    decreases data.len(),
{
    if data.len() == 0 {
        Ok(Seq::empty())
    } else {
        match spec_parse_report(data[0]) {
            Err(e) => Err(e),
            Ok(report) => match spec_parse_reports(data.drop_first()) {
                Err(e) => Err(e),
                Ok(rest) => Ok(seq![report] + rest),
            },
        }
    }
}

/// Decodes one report-list object, exactly as `spec_parse_report` states.
pub fn parse_report(report: &JsonValue) -> (r: Result<ReportStatus, ErrorKind>)
    ensures
        r == spec_parse_report(*report),
{
    let report_id = match report.get("ReportID") {
        None => {
            return Err(ErrorKind::MalformedResponse { reason: "No ReportID field" });
        },
        Some(JsonValue::Int(report_id)) => *report_id,
        Some(_) => {
            return Err(ErrorKind::MalformedResponse { reason: "ReportID field is not an integer" });
        },
    };
    let status = match report.get("StatusReport") {
        None => {
            return Err(ErrorKind::MalformedResponse { reason: "No StatusReport field" });
        },
        Some(JsonValue::Text(status_str)) => {
            if str_eq(status_str.as_str(), "Done") {
                StatusCode::Done
            } else if str_eq(status_str.as_str(), "Pending") {
                StatusCode::Pending
            } else if str_eq(status_str.as_str(), "Failed") {
                StatusCode::Failed
            } else {
                StatusCode::Unrecognized
            }
        },
        Some(_) => {
            return Err(
                ErrorKind::MalformedResponse { reason: "StatusReport field is not a string" },
            );
        },
    };
    Ok(ReportStatus { report_id, status })
}

/// Decodes a list of report-list objects element-wise, failing on the
/// first invalid element, exactly as `spec_parse_reports` states.
pub fn parse_reports(data: &Vec<JsonValue>) -> (r: Result<Vec<ReportStatus>, ErrorKind>)
    ensures
        match r {
            Ok(reports) => spec_parse_reports(data@) == Ok::<Seq<ReportStatus>, ErrorKind>(
                reports@,
            ),
            Err(e) => spec_parse_reports(data@) == Err::<Seq<ReportStatus>, ErrorKind>(e),
        },
{
    let mut reports: Vec<ReportStatus> = Vec::new();
    let n = data.len();
    assert(data@.skip(0) =~= data@);
    let mut i: usize = 0;
    while i < n
        invariant
            n == data@.len(),
            i <= n,
            spec_parse_reports(data@) matches Ok(all) ==> {
                &&& spec_parse_reports(data@.skip(i as int)) matches Ok(rest)
                &&& all == reports@ + rest
            },
            spec_parse_reports(data@) matches Err(e) ==> spec_parse_reports(
                data@.skip(i as int),
            ) == Err::<Seq<ReportStatus>, ErrorKind>(e),
        decreases n - i,
    {
        proof {
            assert(data@.skip(i as int)[0] == data@[i as int]);
            assert(data@.skip(i as int).drop_first() =~= data@.skip(i + 1));
        }
        match parse_report(&data[i]) {
            Err(e) => {
                return Err(e);
            },
            Ok(report) => {
                reports.push(report);
            },
        }
        proof {
            if spec_parse_reports(data@) is Ok {
                assert(spec_parse_reports(data@)->Ok_0 =~= reports@ + spec_parse_reports(
                    data@.skip(i + 1),
                )->Ok_0);
            }
        }
        i = i + 1;
    }
    proof {
        assert(data@.skip(n as int) =~= Seq::<JsonValue>::empty());
        if spec_parse_reports(data@) is Ok {
            assert(spec_parse_reports(data@)->Ok_0 =~= reports@);
        }
    }
    Ok(reports)
}

/// What the whole `GetWordstatReportList` response decodes to.
pub open spec fn spec_report_list_from_response(response: JsonValue) -> Result<
    Seq<ReportStatus>,
    ErrorKind,
> {
    match spec_check_status(response) {
        Err(e) => Err(e),
        Ok(_) => match response.spec_get("data"@) {
            None => Err(ErrorKind::MalformedResponse { reason: "No data field in response" }),
            Some(JsonValue::Array(items)) => spec_parse_reports(items@),
            Some(_) => Err(ErrorKind::MalformedResponse { reason: "Data field is not an array" }),
        },
    }
}

/// Decodes a full `GetWordstatReportList` response envelope, exactly as
/// `spec_report_list_from_response` states.
pub fn report_list_from_response(response: &JsonValue) -> (r: Result<Vec<ReportStatus>, ErrorKind>)
    ensures
        match r {
            Ok(reports) => spec_report_list_from_response(*response) == Ok::<
                Seq<ReportStatus>,
                ErrorKind,
            >(reports@),
            Err(e) => spec_report_list_from_response(*response) == Err::<
                Seq<ReportStatus>,
                ErrorKind,
            >(e),
        },
{
    match check_status(response) {
        Err(e) => {
            return Err(e);
        },
        Ok(_) => {},
    }
    match response.get("data") {
        None => Err(ErrorKind::MalformedResponse { reason: "No data field in response" }),
        Some(JsonValue::Array(items)) => parse_reports(items),
        Some(_) => Err(ErrorKind::MalformedResponse { reason: "Data field is not an array" }),
    }
}

} // verus!
