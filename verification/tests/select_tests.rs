use nexrad_volumetric::error::Error;
use nexrad_volumetric::select::{parse_identifier_seconds, select_nearest_scan};

fn ids(v: &[&str]) -> Vec<String> {
    v.iter().map(|s| s.to_string()).collect()
}

#[test]
fn parses_embedded_time() {
    assert_eq!(
        parse_identifier_seconds(&"KDMX20220305_233000_V06".to_string()),
        Some(23 * 3600 + 30 * 60)
    );
    assert_eq!(parse_identifier_seconds(&"X_000000_Y".to_string()), Some(0));
    assert_eq!(
        parse_identifier_seconds(&"X_235959".to_string()),
        Some(86_399)
    );
}

#[test]
fn rejects_malformed_identifiers() {
    assert_eq!(parse_identifier_seconds(&"nounderscore".to_string()), None);
    assert_eq!(parse_identifier_seconds(&"X_12300_Y".to_string()), None);
    assert_eq!(parse_identifier_seconds(&"X_12300a_Y".to_string()), None);
    assert_eq!(parse_identifier_seconds(&"X_240000_Y".to_string()), None);
    assert_eq!(parse_identifier_seconds(&"X_126000_Y".to_string()), None);
    assert_eq!(parse_identifier_seconds(&"X_120060_Y".to_string()), None);
    assert_eq!(parse_identifier_seconds(&"X__Y".to_string()), None);
}

#[test]
fn empty_list_is_refused() {
    let list = ids(&[]);
    assert_eq!(select_nearest_scan(&list, 0), Err(Error::NoCandidates));
}

#[test]
fn malformed_candidate_is_fatal() {
    let list = ids(&["KDMX20220305_233000_V06", "KDMX20220305_badtime_V06"]);
    assert_eq!(
        select_nearest_scan(&list, 84_600),
        Err(Error::MalformedIdentifier)
    );
}

#[test]
fn returns_an_element_of_the_input() {
    let list = ids(&[
        "KDMX20220305_120000_V06",
        "KDMX20220305_233000_V06",
        "KDMX20220305_060000_V06",
    ]);
    let chosen = select_nearest_scan(&list, 84_600).unwrap();
    assert!(list.iter().any(|id| id == chosen));
}

#[test]
fn exact_match_wins() {
    let list = ids(&["KDMX20220305_120000_V06", "KDMX20220305_233000_V06"]);
    let chosen = select_nearest_scan(&list, 23 * 3600 + 30 * 60).unwrap();
    assert_eq!(chosen, "KDMX20220305_233000_V06");
}

#[test]
fn signed_policy_prefers_later_capture() {
    // target - candidate is minimized algebraically, so a capture after the
    // target (negative difference) beats one just before it.
    let list = ids(&["KDMX20220305_100000_V06", "KDMX20220305_120000_V06"]);
    let target = 11 * 3600; // 110000, one hour from both
    let chosen = select_nearest_scan(&list, target).unwrap();
    assert_eq!(chosen, "KDMX20220305_120000_V06");
}

#[test]
fn tie_keeps_earliest_candidate() {
    let list = ids(&["A_120000_1", "B_120000_2"]);
    let chosen = select_nearest_scan(&list, 0).unwrap();
    assert_eq!(chosen, "A_120000_1");
}
