use metar_fetcher::cli::{parse_arguments, Settings};
use metar_fetcher::events::XmlEvent;
use metar_fetcher::record::Metar;
use metar_fetcher::scanner::{
    list_avalible_stations, list_station_events, search_events, search_xml_for_metar,
    set_field, station_listing, ScanError, SKY_PLACEHOLDER_BASE,
};
use metar_fetcher::text::{check_real, is_named, parse_int, starts_with};

fn report(id: &str, raw: &str, extra: &str) -> String {
    format!(
        "<METAR><raw_text>{raw}</raw_text><station_id>{id}</station_id>{extra}</METAR>"
    )
}

fn feed(records: &[String]) -> String {
    let mut s = String::from("<?xml version=\"1.0\"?>\n<response><data num_results=\"3\">\n");
    for r in records {
        s.push_str(r);
        s.push('\n');
    }
    s.push_str("</data></response>");
    s
}

const FULL_FIELDS: &str = "<observation_time>2021-03-01T10:20:00Z</observation_time>\
<latitude>59.35</latitude><longitude>17.93</longitude>\
<temp_c>-2.0</temp_c><dewpoint_c>-5.0</dewpoint_c>\
<wind_dir_degrees>240</wind_dir_degrees><wind_speed_kt>8</wind_speed_kt>\
<visibility_statute_mi>6.21</visibility_statute_mi><altim_in_hg>29.940945</altim_in_hg>\
<quality_control_flags><auto_station>TRUE</auto_station></quality_control_flags>\
<wx_string>-SN</wx_string>\
<sky_condition sky_cover=\"BKN\" cloud_base_ft_agl=\"1200\" />\
<flight_category>VFR</flight_category><metar_type>METAR</metar_type>\
<elevation_m>16.0</elevation_m>";

fn sample() -> String {
    feed(&[
        report("ESNU", "ESNU 011020Z 24005KT CAVOK M01/M04 Q1012", "<temp_c>-1.0</temp_c>"),
        report("ESSD", "ESSD 011020Z 24008KT 9999 -SN BKN012 M02/M05 Q1014", FULL_FIELDS),
        report("ESSA", "ESSA 011020Z 23010KT CAVOK M01/M03 Q1013", "<temp_c>-1.0</temp_c>"),
    ])
}

#[test]
fn search_finds_station_fields() {
    let m = search_xml_for_metar(&sample(), "ESSD").unwrap();
    assert!(!m.not_found());
    assert_eq!(m.raw_text, "ESSD 011020Z 24008KT 9999 -SN BKN012 M02/M05 Q1014");
    assert_eq!(m.station_id, "ESSD");
    assert_eq!(m.observation_time, "2021-03-01T10:20:00Z");
    assert_eq!(m.latitude, "59.35");
    assert_eq!(m.longitude, "17.93");
    assert_eq!(m.temperature, "-2.0");
    assert_eq!(m.dewpoint, "-5.0");
    assert_eq!(m.wind_dir_degrees, 240);
    assert_eq!(m.wind_speed_knots, 8);
    assert_eq!(m.visibility, "6.21");
    assert_eq!(m.altim_in_hg, "29.940945");
    assert_eq!(m.quality_control_flags, ("auto_station".to_string(), "TRUE".to_string()));
    assert_eq!(m.wx, "-SN");
    assert!(m.sky_condition.is_empty());
    assert_eq!(m.flight_category, "VFR");
    assert_eq!(m.metar_type, "METAR");
    assert_eq!(m.elevation_meters, "16.0");
}

#[test]
fn search_absent_station_gives_empty_record() {
    let m = search_xml_for_metar(&sample(), "KJFK").unwrap();
    assert!(m.not_found());
    assert_eq!(m, Metar::new());
}

#[test]
fn search_empty_document_gives_empty_record() {
    assert!(search_xml_for_metar("", "ESSD").unwrap().not_found());
}

#[test]
fn search_uppercases_the_target() {
    let m = search_xml_for_metar(&sample(), "essd").unwrap();
    assert_eq!(m.station_id, "ESSD");
}

#[test]
fn search_keeps_document_case() {
    let doc = feed(&[report("essd", "essd 011020Z", "")]);
    assert!(search_xml_for_metar(&doc, "ESSD").unwrap().not_found());
    assert!(search_xml_for_metar(&doc, "essd").unwrap().not_found());
}

#[test]
fn search_takes_first_match() {
    let doc = feed(&[
        report("ESSD", "ESSD first", "<wind_speed_kt>3</wind_speed_kt>"),
        report("ESSD", "ESSD second", "<wind_speed_kt>9</wind_speed_kt>"),
    ]);
    let m = search_xml_for_metar(&doc, "ESSD").unwrap();
    assert_eq!(m.raw_text, "ESSD first");
    assert_eq!(m.wind_speed_knots, 3);
}

#[test]
fn search_prefix_match_on_raw_text() {
    let m = search_xml_for_metar(&sample(), "ESS").unwrap();
    assert_eq!(m.station_id, "ESSD");
}

#[test]
fn search_unescapes_raw_text() {
    let doc = feed(&[report("ESSD", "ESSD A &amp; B", "")]);
    assert_eq!(search_xml_for_metar(&doc, "ESSD").unwrap().raw_text, "ESSD A & B");
}

#[test]
fn quality_flag_takes_first_nested_child() {
    let doc = feed(&[report(
        "ESSD",
        "ESSD x",
        "<quality_control_flags><auto_station>TRUE</auto_station><no_signal>TRUE</no_signal></quality_control_flags><wx_string>RA</wx_string>",
    )]);
    let m = search_xml_for_metar(&doc, "ESSD").unwrap();
    assert_eq!(m.quality_control_flags, ("auto_station".to_string(), "TRUE".to_string()));
    assert_eq!(m.wx, "RA");
}

#[test]
fn skipped_record_is_not_read() {
    let doc = feed(&[
        report("ESNU", "ESNU x", "<temp_c>N/A</temp_c><wind_dir_degrees>VRB</wind_dir_degrees>"),
        report("ESSD", "ESSD y", "<temp_c>3.5</temp_c>"),
    ]);
    let m = search_xml_for_metar(&doc, "ESSD").unwrap();
    assert_eq!(m.raw_text, "ESSD y");
    assert_eq!(m.temperature, "3.5");
    assert_eq!(m.station_id, "ESSD");
}

#[test]
fn listing_keeps_order_and_duplicates() {
    let doc = feed(&[
        report("ESSD", "ESSD a", ""),
        report("ESNU", "ESNU b", ""),
        report("ESSD", "ESSD c", ""),
    ]);
    let ids = list_avalible_stations(&doc).unwrap();
    assert_eq!(ids, vec!["ESSD".to_string(), "ESNU".to_string(), "ESSD".to_string()]);
    assert_eq!(station_listing(&ids), "ESSD, ESNU, ESSD, ");
}

#[test]
fn listing_of_empty_feed() {
    let ids = list_avalible_stations(&feed(&[])).unwrap();
    assert!(ids.is_empty());
    assert_eq!(station_listing(&ids), "");
}

#[test]
fn unterminated_record_is_an_error() {
    let doc = "<response><METAR><raw_text>ESSD x</raw_text><station_id>ESSD</station_id>";
    assert_eq!(search_xml_for_metar(doc, "ESSD"), Err(ScanError::Structure));
}

#[test]
fn mismatched_tags_are_an_error() {
    let doc = "<response><METAR><raw_text>ESSD x</raw_text><temp_c>1.0</wind></METAR></response>";
    assert_eq!(search_xml_for_metar(doc, "ESSD"), Err(ScanError::Structure));
    assert_eq!(list_avalible_stations("<a><station_id>X</b>"), Err(ScanError::Structure));
}

#[test]
fn non_numeric_temperature_is_a_coercion_error() {
    let doc = feed(&[report("ESSD", "ESSD x", "<temp_c>N/A</temp_c>")]);
    assert_eq!(search_xml_for_metar(&doc, "ESSD"), Err(ScanError::Coercion));
}

#[test]
fn non_numeric_wind_is_a_coercion_error() {
    let doc = feed(&[report("ESSD", "ESSD x", "<wind_dir_degrees>VRB</wind_dir_degrees>")]);
    assert_eq!(search_xml_for_metar(&doc, "ESSD"), Err(ScanError::Coercion));
}

#[test]
fn field_without_text_is_a_structure_error() {
    let doc = feed(&[report("ESSD", "ESSD x", "<temp_c><b>1</b></temp_c>")]);
    assert_eq!(search_xml_for_metar(&doc, "ESSD"), Err(ScanError::Structure));
}

#[test]
fn sky_condition_element_gets_placeholder() {
    let doc = feed(&[report("ESSD", "ESSD x", "<sky_condition>BKN</sky_condition><sky_condition></sky_condition>")]);
    let m = search_xml_for_metar(&doc, "ESSD").unwrap();
    assert_eq!(m.sky_condition.len(), 2);
    assert_eq!(m.sky_condition[0], ("HAIHAI".to_string(), SKY_PLACEHOLDER_BASE));
}

#[test]
fn unknown_fields_are_ignored() {
    let doc = feed(&[report("ESSD", "ESSD x", "<precip_in>0.01</precip_in><wind_speed_kt>5</wind_speed_kt>")]);
    assert_eq!(search_xml_for_metar(&doc, "ESSD").unwrap().wind_speed_knots, 5);
}

#[test]
fn search_over_events() {
    let evs = vec![
        XmlEvent::Start("METAR".to_string()),
        XmlEvent::Start("raw_text".to_string()),
        XmlEvent::Text("ESSD 1".to_string()),
        XmlEvent::End("raw_text".to_string()),
        XmlEvent::Start("temp_c".to_string()),
        XmlEvent::Text("4".to_string()),
        XmlEvent::End("temp_c".to_string()),
        XmlEvent::End("METAR".to_string()),
        XmlEvent::Eof,
    ];
    let m = search_events(&evs, "ESSD").unwrap();
    assert_eq!(m.raw_text, "ESSD 1");
    assert_eq!(m.temperature, "4");
    assert!(search_events(&evs, "essd").unwrap().not_found());
    let faulty = vec![XmlEvent::Start("x".to_string()), XmlEvent::Fault, XmlEvent::Eof];
    assert_eq!(search_events(&faulty, "ESSD"), Err(ScanError::Structure));
    assert_eq!(list_station_events(&faulty), Err(ScanError::Structure));
}

#[test]
fn set_field_coerces() {
    let mut m = Metar::new();
    assert_eq!(set_field(&mut m, "wind_speed_kt", "-12".to_string()), Ok(()));
    assert_eq!(m.wind_speed_knots, -12);
    assert_eq!(set_field(&mut m, "altim_in_hg", "3O.1".to_string()), Err(ScanError::Coercion));
    assert_eq!(m.altim_in_hg, "");
    assert_eq!(set_field(&mut m, "color", "blue".to_string()), Ok(()));
    assert_eq!(m, {
        let mut e = Metar::new();
        e.wind_speed_knots = -12;
        e
    });
}

#[test]
fn integer_text() {
    assert_eq!(parse_int("240"), Some(240));
    assert_eq!(parse_int("+7"), Some(7));
    assert_eq!(parse_int("-2147483648"), Some(i32::MIN));
    assert_eq!(parse_int("2147483647"), Some(i32::MAX));
    assert_eq!(parse_int("2147483648"), None);
    assert_eq!(parse_int(""), None);
    assert_eq!(parse_int("-"), None);
    assert_eq!(parse_int("VRB"), None);
    assert_eq!(parse_int("1 2"), None);
}

#[test]
fn decimal_text() {
    for ok in ["29.92", "-1.5e3", ".5", "5.", "10", "+0.0", "1E-2"] {
        assert!(check_real(ok), "{ok}");
    }
    for bad in ["", ".", "N/A", "1e", "1.2.3", "-", "10+", "e5"] {
        assert!(!check_real(bad), "{bad}");
    }
}

#[test]
fn prefixes_and_names() {
    assert!(starts_with("ESSD 01", "ESSD"));
    assert!(starts_with("ESSD", ""));
    assert!(!starts_with("ESS", "ESSD"));
    assert!(!starts_with("essd", "ESSD"));
    assert!(is_named("METAR", "METAR"));
    assert!(!is_named("METARS", "METAR"));
}

fn args(a: &[&str]) -> Vec<String> {
    a.iter().map(|s| s.to_string()).collect()
}

#[test]
fn command_line() {
    assert!(matches!(parse_arguments(args(&["m"])), Settings::Help));
    assert!(matches!(parse_arguments(args(&["m", "-h"])), Settings::Help));
    assert!(matches!(parse_arguments(args(&["m", "-list"])), Settings::List));
    assert!(matches!(parse_arguments(args(&["m", "-l"])), Settings::List));
    assert!(matches!(parse_arguments(args(&["m", "-t"])), Settings::GetTaf(ref s, false) if s.is_empty()));
    assert!(matches!(parse_arguments(args(&["m", "-x"])), Settings::Help));
    assert!(matches!(parse_arguments(args(&["m", "ESSD"])), Settings::GetMetar(ref s, false) if s == "ESSD"));
    assert!(matches!(parse_arguments(args(&["m", "ESSD", "-a"])), Settings::GetMetar(ref s, true) if s == "ESSD"));
    assert!(matches!(parse_arguments(args(&["m", "ESSD", "-b"])), Settings::Help));
    assert!(matches!(parse_arguments(args(&["m", "ESSD", "-a", "x"])), Settings::Help));
}
