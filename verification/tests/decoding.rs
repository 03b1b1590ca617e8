use serde_json::Value;
use wordstat_rs::{
    regions_from_response, report_from_response, report_list_from_response, JsonValue, Region,
    ReportEntry, ReportStatus, StatusCode, WordstatItem,
};

fn jm(v: &Value) -> JsonValue {
    match v {
        Value::Null => JsonValue::Null,
        Value::Bool(b) => JsonValue::Bool(*b),
        Value::Number(n) => match n.as_i64() {
            Some(i) => JsonValue::Int(i),
            None => JsonValue::OtherNumber,
        },
        Value::String(s) => JsonValue::Text(s.clone()),
        Value::Array(items) => JsonValue::Array(items.iter().map(jm).collect()),
        Value::Object(map) => JsonValue::Object(map.iter().map(|(k, x)| (k.clone(), jm(x))).collect()),
    }
}

#[test]
fn parse_wordstat_item() {
    let data = r#"
                {"Phrase":"rust-lang","Shows":528123}
            "#;
    let input: Value = serde_json::from_str(data).unwrap();

    let received = wordstat_rs::get_report::parse_wordstat_item(&jm(&input)).unwrap();

    let expected = WordstatItem { phrase: "rust-lang".to_string(), shows: 528123 };
    assert_eq!(received, expected)
}

#[test]
#[should_panic]
fn parse_invalid_wordstat_item() {
    let data = r#"
                {"Ph":"rust-lang","Shows":528123}
            "#;
    let input: Value = serde_json::from_str(data).unwrap();

    let received = wordstat_rs::get_report::parse_wordstat_item(&jm(&input)).unwrap();

    let expected = WordstatItem { phrase: "rust-lang".to_string(), shows: 528123 };
    assert_eq!(received, expected)
}

#[test]
fn parse_report_entry() {
    let data = r#"
                {"Phrase": "rust-lang", "GeoID": [5, 4, 3],
                "SearchedWith":
                [ {"Phrase": "rust-lang", "Shows": 543}, {"Phrase": "rust-lang how", "Shows": 23}],
                "SearchedAlso":
                [ {"Phrase": "cpp", "Shows": 432}, {"Phrase": "cpp worse than rust?", "Shows": 12}]}
            "#;
    let input: Value = serde_json::from_str(data).unwrap();

    let received = wordstat_rs::get_report::parse_report_entry(&jm(&input)).unwrap();

    let expected = ReportEntry {
        phrase: "rust-lang".to_string(),
        geo_id: vec![5, 4, 3],
        searched_with: vec![
            WordstatItem { phrase: "rust-lang".to_string(), shows: 543 },
            WordstatItem { phrase: "rust-lang how".to_string(), shows: 23 },
        ],
        searched_also: vec![
            WordstatItem { phrase: "cpp".to_string(), shows: 432 },
            WordstatItem { phrase: "cpp worse than rust?".to_string(), shows: 12 },
        ],
    };
    assert_eq!(received, expected)
}

#[test]
fn get_report_get_regions() {
    let data = r#"
                {"data" :
                [
                    {"Phrase": "rust-lang", "GeoID": [5, 4, 3],
                    "SearchedWith":
                    [ {"Phrase": "rust-lang", "Shows": 543}, {"Phrase": "rust-lang how", "Shows": 23}],
                    "SearchedAlso":
                    [ {"Phrase": "cpp", "Shows": 432}, {"Phrase": "cpp worse than rust?", "Shows": 12}]},

                    {"Phrase": "rust-langgg", "GeoID": [5, 4, 3],
                    "SearchedWith":
                    [ {"Phrase": "rust-lang", "Shows": 543}, {"Phrase": "rust-lang how", "Shows": 23}],
                    "SearchedAlso":
                    [ {"Phrase": "cpp", "Shows": 432}, {"Phrase": "cpp worse than rust?", "Shows": 12}]}
                ]}
            "#;
    let return_value: Value = serde_json::from_str(data).unwrap();

    let received = report_from_response(&jm(&return_value)).unwrap();

    let expected = vec![
        ReportEntry {
            phrase: "rust-lang".to_string(),
            geo_id: vec![5, 4, 3],
            searched_with: vec![
                WordstatItem { phrase: "rust-lang".to_string(), shows: 543 },
                WordstatItem { phrase: "rust-lang how".to_string(), shows: 23 },
            ],
            searched_also: vec![
                WordstatItem { phrase: "cpp".to_string(), shows: 432 },
                WordstatItem { phrase: "cpp worse than rust?".to_string(), shows: 12 },
            ],
        },
        ReportEntry {
            phrase: "rust-langgg".to_string(),
            geo_id: vec![5, 4, 3],
            searched_with: vec![
                WordstatItem { phrase: "rust-lang".to_string(), shows: 543 },
                WordstatItem { phrase: "rust-lang how".to_string(), shows: 23 },
            ],
            searched_also: vec![
                WordstatItem { phrase: "cpp".to_string(), shows: 432 },
                WordstatItem { phrase: "cpp worse than rust?".to_string(), shows: 12 },
            ],
        },
    ];

    assert_eq!(received, expected)
}

#[test]
fn parse_region_europe() {
    let data = r#"
                {"RegionName":"Europe","RegionID":111,"ParentID":0}
            "#;
    let input: Value = serde_json::from_str(data).unwrap();

    let received = wordstat_rs::region::parse_region(&jm(&input)).unwrap();

    let expected = Region { name: "Europe".to_string(), id: 111, parent_id: Some(0) };
    assert_eq!(received, expected)
}

#[test]
fn parse_region_all() {
    let data = r#"
                {"ParentID":null,"RegionName":"All","RegionID":0}
            "#;
    let input: Value = serde_json::from_str(data).unwrap();

    let received = wordstat_rs::region::parse_region(&jm(&input)).unwrap();

    let expected = Region { name: "All".to_string(), id: 0, parent_id: None };
    assert_eq!(received, expected)
}

#[test]
fn parse_regions() {
    let data = r#"
                    [{"ParentID":null,"RegionName":"All","RegionID":0},
                     {"RegionName":"Europe","RegionID":111,"ParentID":0},
                     {"RegionID":138,"RegionName":"Australia and Oceania","ParentID":0},
                     {"ParentID":0,"RegionID":166,"RegionName":"CIS (except Russia)"},
                     {"ParentID":0,"RegionID":183,"RegionName":"Asia"},
                     {"RegionName":"Russia","RegionID":225,"ParentID":0},
                     {"RegionName":"Africa","RegionID":241,"ParentID":0},
                     {"ParentID":0,"RegionID":977,"RegionName":"Republic of Crimea"},
                     {"RegionName":"North America","RegionID":10002,"ParentID":0}
                    ]
            "#;
    let input: Value = serde_json::from_str(data).unwrap();
    let JsonValue::Array(input_vec) = jm(&input) else { panic!("Something wrong with serde") };

    let received = wordstat_rs::region::parse_data(&input_vec).unwrap();

    let expected = vec![
        Region { name: "All".to_string(), id: 0, parent_id: None },
        Region { name: "Europe".to_string(), id: 111, parent_id: Some(0) },
        Region { name: "Australia and Oceania".to_string(), id: 138, parent_id: Some(0) },
        Region { name: "CIS (except Russia)".to_string(), id: 166, parent_id: Some(0) },
        Region { name: "Asia".to_string(), id: 183, parent_id: Some(0) },
        Region { name: "Russia".to_string(), id: 225, parent_id: Some(0) },
        Region { name: "Africa".to_string(), id: 241, parent_id: Some(0) },
        Region { name: "Republic of Crimea".to_string(), id: 977, parent_id: Some(0) },
        Region { name: "North America".to_string(), id: 10002, parent_id: Some(0) },
    ];
    assert_eq!(received, expected)
}

#[test]
fn region_get_regions() {
    let data = r#"
                    {"data":
                        [{"ParentID":null,"RegionName":"All","RegionID":0},
                         {"RegionName":"Europe","RegionID":111,"ParentID":0},
                         {"RegionID":138,"RegionName":"Australia and Oceania","ParentID":0},
                         {"ParentID":0,"RegionID":166,"RegionName":"CIS (except Russia)"},
                         {"ParentID":0,"RegionID":183,"RegionName":"Asia"},
                         {"RegionName":"Russia","RegionID":225,"ParentID":0},
                         {"RegionName":"Africa","RegionID":241,"ParentID":0},
                         {"ParentID":0,"RegionID":977,"RegionName":"Republic of Crimea"},
                         {"RegionName":"North America","RegionID":10002,"ParentID":0}
                        ]
                    }
            "#;
    let return_value: Value = serde_json::from_str(data).unwrap();

    let received = regions_from_response(&jm(&return_value)).unwrap();

    let expected = vec![
        Region { name: "All".to_string(), id: 0, parent_id: None },
        Region { name: "Europe".to_string(), id: 111, parent_id: Some(0) },
        Region { name: "Australia and Oceania".to_string(), id: 138, parent_id: Some(0) },
        Region { name: "CIS (except Russia)".to_string(), id: 166, parent_id: Some(0) },
        Region { name: "Asia".to_string(), id: 183, parent_id: Some(0) },
        Region { name: "Russia".to_string(), id: 225, parent_id: Some(0) },
        Region { name: "Africa".to_string(), id: 241, parent_id: Some(0) },
        Region { name: "Republic of Crimea".to_string(), id: 977, parent_id: Some(0) },
        Region { name: "North America".to_string(), id: 10002, parent_id: Some(0) },
    ];
    assert_eq!(received, expected)
}

#[test]
fn parse_report() {
    let data = r#"
                {"ReportID":54312,"StatusReport":"Done"}
            "#;
    let input: Value = serde_json::from_str(data).unwrap();

    let received = wordstat_rs::report_list::parse_report(&jm(&input)).unwrap();

    let expected = ReportStatus { report_id: 54312, status: StatusCode::Done };
    assert_eq!(received, expected)
}

#[test]
#[should_panic]
fn parse_invalid_report() {
    let data = r#"
                {"Report":54312,"StatusReport":"Done"}
            "#;
    let input: Value = serde_json::from_str(data).unwrap();

    let received = wordstat_rs::report_list::parse_report(&jm(&input)).unwrap();

    let expected = ReportStatus { report_id: 54312, status: StatusCode::Done };
    assert_eq!(received, expected)
}

#[test]
fn entry_missing_searched_also_is_empty() {
    let data = r#"
                {"Phrase": "rare phrase", "GeoID": [7],
                "SearchedWith": [ {"Phrase": "rare phrase again", "Shows": 2} ]}
            "#;
    let input: Value = serde_json::from_str(data).unwrap();

    let received = wordstat_rs::get_report::parse_report_entry(&jm(&input)).unwrap();

    assert_eq!(received.searched_also, vec![]);
    assert_eq!(received.phrase, "rare phrase".to_string());
    assert_eq!(received.geo_id, vec![7]);
}

#[test]
fn entry_searched_also_not_array_is_error() {
    let data = r#"
                {"Phrase": "p", "GeoID": [], "SearchedWith": [], "SearchedAlso": 3}
            "#;
    let input: Value = serde_json::from_str(data).unwrap();

    let received = wordstat_rs::get_report::parse_report_entry(&jm(&input));

    assert_eq!(
        received,
        Err(wordstat_rs::ErrorKind::MalformedResponse {
            reason: "SearchedAlso field is not an array"
        })
    );
}

#[test]
fn wordstat_item_missing_phrase_is_malformed() {
    let data = r#"{"Ph":"x","Shows":1}"#;
    let input: Value = serde_json::from_str(data).unwrap();

    let received = wordstat_rs::get_report::parse_wordstat_item(&jm(&input));

    assert_eq!(
        received,
        Err(wordstat_rs::ErrorKind::MalformedResponse {
            reason: "Phrase not found in WordstatItem"
        })
    );
}

#[test]
fn geo_id_with_fraction_is_error() {
    let data = r#"
                {"Phrase": "p", "GeoID": [1, 2.5], "SearchedWith": []}
            "#;
    let input: Value = serde_json::from_str(data).unwrap();

    let received = wordstat_rs::get_report::parse_report_entry(&jm(&input));

    assert_eq!(
        received,
        Err(wordstat_rs::ErrorKind::MalformedResponse { reason: "GeoID is not an integer" })
    );
}

#[test]
fn region_with_bad_parent_is_error() {
    let data = r#"
                {"RegionName":"Europe","RegionID":111,"ParentID":"root"}
            "#;
    let input: Value = serde_json::from_str(data).unwrap();

    let received = wordstat_rs::region::parse_region(&jm(&input));

    assert_eq!(
        received,
        Err(wordstat_rs::ErrorKind::MalformedResponse {
            reason: "ParentID field is not null and not a number"
        })
    );
}

#[test]
fn bogus_status_text_is_unrecognized() {
    let data = r#"
                {"ReportID":7,"StatusReport":"Bogus"}
            "#;
    let input: Value = serde_json::from_str(data).unwrap();

    let received = wordstat_rs::report_list::parse_report(&jm(&input)).unwrap();

    assert_eq!(received, ReportStatus { report_id: 7, status: StatusCode::Unrecognized });
}

#[test]
fn report_status_not_a_string_is_error() {
    let data = r#"
                {"ReportID":7,"StatusReport":9}
            "#;
    let input: Value = serde_json::from_str(data).unwrap();

    let received = wordstat_rs::report_list::parse_report(&jm(&input));

    assert_eq!(
        received,
        Err(wordstat_rs::ErrorKind::MalformedResponse {
            reason: "StatusReport field is not a string"
        })
    );
}

#[test]
fn response_data_not_an_array_is_error() {
    let data = r#"{"data": 5}"#;
    let input: Value = serde_json::from_str(data).unwrap();

    let received = report_list_from_response(&jm(&input));

    assert_eq!(
        received,
        Err(wordstat_rs::ErrorKind::MalformedResponse { reason: "Data field is not an array" })
    );
}

#[test]
fn error_envelope_stops_decoding() {
    let data = r#"{"error_code": 31, "data": []}"#;
    let input: Value = serde_json::from_str(data).unwrap();

    let received = regions_from_response(&jm(&input));

    assert_eq!(received, Err(wordstat_rs::ErrorKind::ReportQueueFull));
}

#[test]
fn get_reposts_list() {
    let data = r#"
                {"data" :
                [
                    {"ReportID":54312,"StatusReport":"Done"},
                    {"ReportID":542,"StatusReport":"Pending"},
                    {"ReportID":5423,"StatusReport":"Failed"},
                    {"ReportID":5424,"StatusReport":"what"}
                ]}
            "#;
    let return_value: Value = serde_json::from_str(data).unwrap();

    let received = report_list_from_response(&jm(&return_value)).unwrap();

    let expected = vec![
        ReportStatus { report_id: 54312, status: StatusCode::Done },
        ReportStatus { report_id: 542, status: StatusCode::Pending },
        ReportStatus { report_id: 5423, status: StatusCode::Failed },
        ReportStatus { report_id: 5424, status: StatusCode::Unrecognized },
    ];

    assert_eq!(received, expected)
}
