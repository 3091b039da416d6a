use italo_api::{
    build_stations, extract_between, station_regions, ExtractError, Station, StationCode,
    StationLabel,
};

#[test]
fn extract_between_returns_the_text_between_markers() {
    let r = extract_between("var a = [1, 2]; var b = 3;", "var a = ", "var b").unwrap();
    assert_eq!(r, "[1, 2]");
    let exact = extract_between("<A>inner<B>tail<B>", "<A>", "<B>").unwrap();
    assert_eq!(exact, "inner");
}

#[test]
fn extract_between_takes_first_markers() {
    let r = extract_between("xAoneBtwoAthreeB", "A", "B").unwrap();
    assert_eq!(r, "one");
}

#[test]
fn extract_between_trims_one_terminator() {
    assert_eq!(extract_between("A[1];; \n\tB", "A", "B").unwrap(), "[1];");
    assert_eq!(extract_between("A  B", "A", "B").unwrap(), "");
    assert_eq!(extract_between("AB", "A", "B").unwrap(), "");
}

#[test]
fn extract_between_reports_missing_start() {
    match extract_between("no markers here", "START", "END") {
        Err(ExtractError::MarkerNotFound(m)) => assert_eq!(m, "START"),
        other => panic!("unexpected {:?}", other),
    }
}

#[test]
fn extract_between_reports_missing_end_after_start() {
    match extract_between("B comes first, then A", "A", "B") {
        Err(ExtractError::MarkerNotFound(m)) => assert_eq!(m, "B"),
        other => panic!("unexpected {:?}", other),
    }
}

fn labels_from_json(text: &str) -> Vec<StationLabel> {
    let v: serde_json::Value = serde_json::from_str(text).unwrap();
    v.as_array()
        .unwrap()
        .iter()
        .map(|e| {
            StationLabel::new(
                e.get("label").unwrap().as_str().unwrap().to_string(),
                e.get("value").unwrap().as_str().unwrap().to_string(),
            )
        })
        .collect()
}

fn codes_from_json(text: &str) -> Vec<StationCode> {
    let v: serde_json::Value = serde_json::from_str(text).unwrap();
    v.as_array()
        .unwrap()
        .iter()
        .map(|e| {
            StationCode::new(
                e.get("code").unwrap().as_str().unwrap().to_string(),
                e.get("urlCoding").unwrap().as_str().unwrap().to_string(),
            )
        })
        .collect()
}

#[test]
fn catalog_from_station_page() {
    let doc = "<script>stationList = [{\"value\":\"MC_\",\"label\":\"Milano Centrale\"}];\n\
               stationCoding = [{\"code\":\"MC_\",\"urlCoding\":\"milano-centrale\"}];\n\
               localization = {};</script>";
    let (labels, codes) = station_regions(doc).unwrap();
    assert_eq!(labels, "[{\"value\":\"MC_\",\"label\":\"Milano Centrale\"}]");
    let stations = build_stations(&labels_from_json(&labels), &codes_from_json(&codes));
    assert_eq!(stations.len(), 1);
    assert_eq!(stations[0].code(), "MC_");
    assert_eq!(stations[0].url_coding(), "milano-centrale");
    assert_eq!(stations[0].name(), "Milano Centrale");
}

#[test]
fn station_regions_report_missing_markers() {
    match station_regions("stationList = [];") {
        Err(ExtractError::MarkerNotFound(m)) => {
            assert_eq!(m, "stationCoding = ")
        }
        other => panic!("unexpected {:?}", other),
    }
    let no_end = "stationList = [];stationCoding = [];";
    match station_regions(no_end) {
        Err(ExtractError::MarkerNotFound(m)) => assert_eq!(m, "localization"),
        other => panic!("unexpected {:?}", other),
    }
}

#[test]
fn catalog_drops_unnamed_and_keeps_code_order() {
    let labels = vec![
        StationLabel::new("Roma Termini".to_string(), "RMT".to_string()),
        StationLabel::new("Napoli Centrale".to_string(), "NAC".to_string()),
        StationLabel::new("".to_string(), "BO_".to_string()),
    ];
    let codes = vec![
        StationCode::new("NAC".to_string(), "napoli-centrale".to_string()),
        StationCode::new("XXX".to_string(), "nowhere".to_string()),
        StationCode::new("BO_".to_string(), "bologna".to_string()),
        StationCode::new("RMT".to_string(), "roma-termini".to_string()),
    ];
    let stations: Vec<Station> = build_stations(&labels, &codes);
    let names: Vec<&str> = stations.iter().map(|s| s.name().as_str()).collect();
    assert_eq!(names, vec!["Napoli Centrale", "Roma Termini"]);
    assert!(stations.iter().all(|s| !s.name().is_empty()));
}

#[test]
fn catalog_last_label_wins() {
    let labels = vec![
        StationLabel::new("Old Name".to_string(), "MC_".to_string()),
        StationLabel::new("Milano Centrale".to_string(), "MC_".to_string()),
    ];
    let codes = vec![StationCode::new("MC_".to_string(), "milano-centrale".to_string())];
    let stations = build_stations(&labels, &codes);
    assert_eq!(stations.len(), 1);
    assert_eq!(stations[0].name(), "Milano Centrale");
}

#[test]
fn catalog_of_nothing_is_empty() {
    assert!(build_stations(&vec![], &vec![]).is_empty());
}

fn catalog_of(doc: &str) -> Result<Vec<Station>, ExtractError> {
    let (labels, codes) = station_regions(doc)?;
    Ok(build_stations(&labels_from_json(&labels), &codes_from_json(&codes)))
}

#[test]
fn catalog_scenario_without_terminators() {
    let doc = r#"stationList = [{"value":"MC_","label":"Milano Centrale"}] stationCoding = [{"code":"MC_","urlCoding":"milano-centrale"}] localization"#;
    let s = catalog_of(doc).unwrap();
    assert_eq!(s.len(), 1);
    assert_eq!((s[0].code().as_str(), s[0].url_coding().as_str(), s[0].name().as_str()), ("MC_", "milano-centrale", "Milano Centrale"));
}

#[test]
fn catalog_follows_code_list_order() {
    let doc = r#"stationList = [{"value":"MC_","label":"Milano Centrale"},{"value":"NAC","label":"Napoli Centrale"}]; stationCoding = [{"code":"NAC","urlCoding":"napoli-centrale"},{"code":"MC_","urlCoding":"milano-centrale"}]; localization"#;
    let s = catalog_of(doc).unwrap();
    let codes: Vec<&str> = s.iter().map(|x| x.code().as_str()).collect();
    assert_eq!(codes, vec!["NAC", "MC_"]);
    assert_eq!(s[0].name(), "Napoli Centrale");
}

#[test]
fn catalog_skips_coding_marker_before_list_marker() {
    let doc = r#"stationCoding = junk stationList = [{"value":"MC_","label":"Milano Centrale"}]; stationCoding = [{"code":"MC_","urlCoding":"milano-centrale"}]; localization"#;
    let s = catalog_of(doc).unwrap();
    assert_eq!(s.len(), 1);
    assert_eq!(s[0].name(), "Milano Centrale");
    let only_before = r#"stationCoding = [] stationList = [{"value":"MC_","label":"Milano Centrale"}]; localization"#;
    match station_regions(only_before) {
        Err(ExtractError::MarkerNotFound(m)) => assert_eq!(m, "stationCoding = "),
        other => panic!("unexpected {:?}", other),
    }
}

#[test]
fn station_regions_name_each_missing_marker() {
    match station_regions("stationCoding = []; localization") {
        Err(ExtractError::MarkerNotFound(m)) => assert_eq!(m, "stationList = "),
        other => panic!("unexpected {:?}", other),
    }
    match station_regions("stationList = []; stationCoding = [];") {
        Err(ExtractError::MarkerNotFound(m)) => assert_eq!(m, "localization"),
        other => panic!("unexpected {:?}", other),
    }
}

#[test]
fn catalog_last_label_wins_in_page() {
    let doc = r#"stationList = [{"value":"X_","label":"A"},{"value":"X_","label":"B"}]; stationCoding = [{"code":"X_","urlCoding":"x"}]; localization"#;
    let s = catalog_of(doc).unwrap();
    assert_eq!(s.len(), 1);
    assert_eq!(s[0].name(), "B");
}

#[test]
fn catalog_drops_unmatched_and_empty_labels_in_page() {
    let doc = r#"stationList = [{"value":"MC_","label":"Milano Centrale"},{"value":"ZZ_","label":""}]; stationCoding = [{"code":"YY_","urlCoding":"y"},{"code":"ZZ_","urlCoding":"z"},{"code":"MC_","urlCoding":"milano-centrale"}]; localization"#;
    let s = catalog_of(doc).unwrap();
    assert_eq!(s.len(), 1);
    assert_eq!(s[0].code(), "MC_");
}

#[test]
fn malformed_region_is_left_for_the_json_parser() {
    let (labels, _) = station_regions(r#"stationList = [{; stationCoding = []; localization"#).unwrap();
    assert_eq!(labels, "[{");
    assert!(serde_json::from_str::<serde_json::Value>(&labels).is_err());
}
