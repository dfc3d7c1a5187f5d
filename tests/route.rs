use kml_to_fgfp::airport::{airport_decoder, Airport};
use kml_to_fgfp::output::{close_tree, write_airports, write_start_of_tree, Event};
use kml_to_fgfp::route::{
    apply_coordinates, begin_route, end_route, handle_characters_event, handle_end_event,
    handle_event, handle_start_event, write_ap_waypoint, write_waypoint, CoordinateTokens,
    DocumentEvent, Fix, LookingFor, ScanState, Step, TextOutcome, Waypoint,
};

/// One line per event: `<name a=v>`, `"text"` or `</name>`.
fn render(events: &[Event]) -> Vec<String> {
    events
        .iter()
        .map(|e| match e {
            Event::Open { name, attributes } => {
                let mut s = format!("<{name}");
                for a in attributes {
                    s.push_str(&format!(" {}={}", a.name, a.value));
                }
                s.push('>');
                s
            }
            Event::Text(t) => format!("\"{t}\""),
            Event::Close(name) => format!("</{name}>"),
        })
        .collect()
}

fn lines(expected: &[&str]) -> Vec<String> {
    expected.iter().map(|s| s.to_string()).collect()
}

fn airport(ident: &str, runway: Option<&str>) -> Airport {
    Airport { ident: ident.to_string(), runway: runway.map(|r| r.to_string()) }
}

fn basic_lines(number: Option<&str>, ident: &str, lon: &str, lat: &str, alt: &str) -> Vec<String> {
    let open = match number {
        Some(n) => format!("<wp n={n}>"),
        None => "<wp>".to_string(),
    };
    let mut v = vec![open];
    v.extend(lines(&[
        "<type type=string>",
        "\"basic\"",
        "</type>",
        "<alt-restrict type=string>",
        "\"at\"",
        "</alt-restrict>",
        "<altitude-ft type=double>",
    ]));
    v.push(format!("\"{alt}\""));
    v.push("</altitude-ft>".to_string());
    v.push("<ident type=string>".to_string());
    v.push(format!("\"{ident}\""));
    v.push("</ident>".to_string());
    v.push("<lon type=double>".to_string());
    v.push(format!("\"{lon}\""));
    v.push("</lon>".to_string());
    v.push("<lat type=double>".to_string());
    v.push(format!("\"{lat}\""));
    v.push("</lat>".to_string());
    v.push("</wp>".to_string());
    v
}

/// Feeds one placemark to the scanner. `fix` is what the caller decodes from
/// the coordinates, if the scanner asks for it.
fn placemark(
    scan: &mut ScanState,
    out: &mut Vec<Event>,
    name: &str,
    style: &str,
    coordinates: &str,
    fix: Result<Fix, String>,
) -> Vec<String> {
    let mut reports = Vec::new();
    handle_start_event(scan, "Placemark");
    handle_start_event(scan, "name");
    handle_characters_event(scan, name.to_string());
    handle_end_event(scan, "name", out);
    handle_start_event(scan, "styleUrl");
    handle_characters_event(scan, style.to_string());
    handle_end_event(scan, "styleUrl", out);
    handle_start_event(scan, "coordinates");
    match handle_characters_event(scan, coordinates.to_string()) {
        TextOutcome::Decode(_) => {
            if let Some(d) = apply_coordinates(scan, fix) {
                reports.push(format!("{}: {}", d.ident, d.reason));
            }
        }
        TextOutcome::Dropped(d) => reports.push(format!("{}: {}", d.ident, d.reason)),
        TextOutcome::Continue => {}
    }
    handle_end_event(scan, "coordinates", out);
    handle_end_event(scan, "Placemark", out);
    reports
}

fn fix(lon: &str, lat: &str, altitude: usize) -> Result<Fix, String> {
    Ok(Fix { lon: lon.to_string(), lat: lat.to_string(), altitude })
}

#[test]
fn one_fix_mark_placemark_becomes_one_basic_waypoint() {
    let mut out = Vec::new();
    let mut scan = begin_route(&mut out, None, None);
    let reports = placemark(
        &mut scan,
        &mut out,
        "EZE11",
        "#FixMark",
        "-58.594239,-34.811897,823",
        fix("-58.594239", "-34.811897", 2700),
    );
    end_route(&scan, &mut out);
    assert!(reports.is_empty());
    let mut expected = vec!["<route>".to_string()];
    expected.extend(basic_lines(None, "EZE11", "-58.594239", "-34.811897", "2700"));
    expected.push("</route>".to_string());
    assert_eq!(render(&out), expected);
}

#[test]
fn coordinates_are_split_and_trimmed_for_decoding() {
    let mut out = Vec::new();
    let mut scan = begin_route(&mut out, None, None);
    handle_start_event(&mut scan, "Placemark");
    handle_start_event(&mut scan, "name");
    handle_characters_event(&mut scan, "EZE11".to_string());
    handle_end_event(&mut scan, "name", &mut out);
    handle_start_event(&mut scan, "styleUrl");
    handle_characters_event(&mut scan, "#FixMark".to_string());
    handle_end_event(&mut scan, "styleUrl", &mut out);
    handle_start_event(&mut scan, "coordinates");
    assert_eq!(scan.current_search, LookingFor::ContentCoordinates);
    match handle_characters_event(&mut scan, " -58.594239 ,\t-34.811897, 823 ".to_string()) {
        TextOutcome::Decode(CoordinateTokens { lon, lat, altitude }) => {
            assert_eq!(lon, "-58.594239");
            assert_eq!(lat, "-34.811897");
            assert_eq!(altitude, "823");
        }
        _ => panic!("expected coordinates to decode"),
    }
    assert_eq!(scan.current_search, LookingFor::ClosingCoordinates);
}

#[test]
fn departure_airport_takes_slot_zero() {
    let mut out = Vec::new();
    let departure = Some(airport_decoder("SAEZ/11"));
    let mut scan = begin_route(&mut out, departure, None);
    assert_eq!(scan.wp, 1);
    end_route(&scan, &mut out);
    assert_eq!(
        render(&out),
        lines(&[
            "<route>",
            "<wp>",
            "<type type=string>",
            "\"runway\"",
            "</type>",
            "<departure type=bool>",
            "\"true\"",
            "</departure>",
            "<ident type=string>",
            "\"11\"",
            "</ident>",
            "<icao type=string>",
            "\"SAEZ\"",
            "</icao>",
            "</wp>",
            "</route>",
        ])
    );
}

#[test]
fn scanned_waypoints_follow_the_departure_airport() {
    let mut out = Vec::new();
    let mut scan = begin_route(&mut out, Some(airport("SAEZ", Some("11"))), None);
    let before = out.len();
    placemark(&mut scan, &mut out, "ASADA", "#FixMark", "-58.0,-34.0,100", fix("-58.000000", "-34.000000", 300));
    assert_eq!(render(&out[before..before + 1]), lines(&["<wp n=1>"]));
    assert_eq!(scan.wp, 2);
}

#[test]
fn destination_airport_takes_the_next_number() {
    let mut out = Vec::new();
    let mut scan = begin_route(&mut out, None, Some(airport("SABE", None)));
    placemark(&mut scan, &mut out, "A", "#FixMark", "1,2,3", fix("1.000000", "2.000000", 0));
    placemark(&mut scan, &mut out, "B", "#FixMark", "1,2,3", fix("1.000000", "2.000000", 0));
    let before = out.len();
    end_route(&scan, &mut out);
    assert_eq!(
        render(&out[before..]),
        lines(&[
            "<wp n=2>",
            "<type type=string>",
            "\"runway\"",
            "</type>",
            "<approach type=bool>",
            "\"true\"",
            "</approach>",
            "<icao type=string>",
            "\"SABE\"",
            "</icao>",
            "</wp>",
            "</route>",
        ])
    );
}

#[test]
fn numbers_have_no_gaps_across_dropped_placemarks() {
    let mut out = Vec::new();
    let mut scan = begin_route(&mut out, None, None);
    placemark(&mut scan, &mut out, "A", "#FixMark", "1,2,3", fix("1.000000", "2.000000", 0));
    placemark(&mut scan, &mut out, "X", "#RouteMark", "1,2,3", fix("1.000000", "2.000000", 0));
    placemark(&mut scan, &mut out, "Y", "#FixMark", "1,2", fix("1.000000", "2.000000", 0));
    placemark(&mut scan, &mut out, "B", "#FixMark", "1,2,3", fix("1.000000", "2.000000", 0));
    placemark(&mut scan, &mut out, "Z", "#FixMark", "1,2,x", Err("invalid float literal".to_string()));
    placemark(&mut scan, &mut out, "C", "#FixMark", "1,2,3", fix("1.000000", "2.000000", 0));
    let opens: Vec<String> =
        render(&out).into_iter().filter(|l| l.starts_with("<wp")).collect();
    assert_eq!(opens, lines(&["<wp>", "<wp n=1>", "<wp n=2>"]));
    assert_eq!(scan.wp, 3);
}

#[test]
fn placemark_not_styled_as_fix_is_dropped() {
    let mut out = Vec::new();
    let mut scan = begin_route(&mut out, None, None);
    handle_start_event(&mut scan, "Placemark");
    handle_start_event(&mut scan, "name");
    handle_characters_event(&mut scan, "TOC".to_string());
    handle_end_event(&mut scan, "name", &mut out);
    handle_start_event(&mut scan, "styleUrl");
    handle_characters_event(&mut scan, "#RouteMark".to_string());
    assert_eq!(scan.current_search, LookingFor::ClosingPlacemark);
    assert!(scan.drop);
    // Valid coordinates do not bring it back.
    handle_end_event(&mut scan, "styleUrl", &mut out);
    handle_start_event(&mut scan, "coordinates");
    assert!(matches!(
        handle_characters_event(&mut scan, "1,2,3".to_string()),
        TextOutcome::Continue
    ));
    handle_end_event(&mut scan, "coordinates", &mut out);
    handle_end_event(&mut scan, "Placemark", &mut out);
    end_route(&scan, &mut out);
    assert_eq!(render(&out), lines(&["<route>", "</route>"]));
    assert_eq!(scan.wp, 0);
}

#[test]
fn placemark_named_as_an_airport_is_dropped() {
    let mut out = Vec::new();
    let mut scan = begin_route(&mut out, Some(airport("SAEZ", Some("11"))), Some(airport("SABE", None)));
    let before = out.len();
    placemark(&mut scan, &mut out, "SAEZ", "#FixMark", "1,2,3", fix("1.000000", "2.000000", 0));
    placemark(&mut scan, &mut out, "SABE", "#FixMark", "1,2,3", fix("1.000000", "2.000000", 0));
    assert_eq!(out.len(), before);
    assert_eq!(scan.wp, 1);
    placemark(&mut scan, &mut out, "SAEZ1", "#FixMark", "1,2,3", fix("1.000000", "2.000000", 0));
    assert_eq!(scan.wp, 2);
}

#[test]
fn airport_name_stops_the_placemark_at_once() {
    let mut out = Vec::new();
    let mut scan = begin_route(&mut out, None, Some(airport("SABE", None)));
    handle_start_event(&mut scan, "Placemark");
    handle_start_event(&mut scan, "name");
    handle_characters_event(&mut scan, "SABE".to_string());
    assert_eq!(scan.current_search, LookingFor::ClosingPlacemark);
    assert!(scan.drop);
    assert_eq!(scan.waypoint.ident, "SABE");
}

#[test]
fn too_few_coordinates_drop_the_placemark_and_scanning_goes_on() {
    let mut out = Vec::new();
    let mut scan = begin_route(&mut out, None, None);
    let reports =
        placemark(&mut scan, &mut out, "BAD", "#FixMark", "-58.5,-34.8", fix("0", "0", 0));
    assert_eq!(
        reports,
        lines(&["BAD: expected longitude, latitude and altitude separated by commas"])
    );
    assert_eq!(scan.current_search, LookingFor::OpeningPlacemark);
    assert!(!scan.drop);
    let reports =
        placemark(&mut scan, &mut out, "GOOD", "#FixMark", "1,2,3", fix("1.000000", "2.000000", 0));
    assert!(reports.is_empty());
    end_route(&scan, &mut out);
    let mut expected = vec!["<route>".to_string()];
    expected.extend(basic_lines(None, "GOOD", "1.000000", "2.000000", "0"));
    expected.push("</route>".to_string());
    assert_eq!(render(&out), expected);
}

#[test]
fn failed_decoding_drops_the_placemark_with_its_reason() {
    let mut out = Vec::new();
    let mut scan = begin_route(&mut out, None, None);
    let reports = placemark(
        &mut scan,
        &mut out,
        "BAD",
        "#FixMark",
        "a,b,c",
        Err("invalid float literal".to_string()),
    );
    assert_eq!(reports, lines(&["BAD: invalid float literal"]));
    assert_eq!(out.len(), 1);
    assert_eq!(scan.wp, 0);
}

#[test]
fn decoding_outside_coordinates_changes_nothing() {
    let mut out = Vec::new();
    let mut scan = begin_route(&mut out, None, None);
    assert!(apply_coordinates(&mut scan, Err("late".to_string())).is_none());
    assert!(!scan.drop);
    assert_eq!(scan.current_search, LookingFor::OpeningPlacemark);
}

#[test]
fn unrelated_elements_and_text_are_ignored() {
    let mut out = Vec::new();
    let mut scan = begin_route(&mut out, None, None);
    handle_start_event(&mut scan, "Document");
    handle_characters_event(&mut scan, "Route".to_string());
    handle_start_event(&mut scan, "Placemark");
    handle_start_event(&mut scan, "description");
    assert_eq!(scan.current_search, LookingFor::OpeningName);
    handle_start_event(&mut scan, "name");
    handle_characters_event(&mut scan, "EZE11".to_string());
    handle_end_event(&mut scan, "description", &mut out);
    assert_eq!(scan.current_search, LookingFor::ClosingName);
    handle_end_event(&mut scan, "name", &mut out);
    assert_eq!(scan.current_search, LookingFor::OpeningStyleUrl);
}

#[test]
fn waypoint_zero_has_no_number_and_text_is_trimmed() {
    let mut out = Vec::new();
    let wp = Waypoint {
        number: 0,
        ident: "  EZE11\n".to_string(),
        lon: "-58.594239".to_string(),
        lat: "-34.811897".to_string(),
        altitude: 12500,
    };
    write_waypoint(&mut out, &wp);
    assert_eq!(render(&out), basic_lines(None, "EZE11", "-58.594239", "-34.811897", "12500"));
    let mut out = Vec::new();
    let wp = Waypoint { number: 17, ..wp };
    write_waypoint(&mut out, &wp);
    assert_eq!(render(&out)[0], "<wp n=17>");
}

#[test]
fn destination_runway_waypoint() {
    let mut out = Vec::new();
    write_ap_waypoint(&mut out, &airport("YSSY", Some("34L")), false, 4);
    assert_eq!(
        render(&out),
        lines(&[
            "<wp n=4>",
            "<type type=string>",
            "\"runway\"",
            "</type>",
            "<approach type=bool>",
            "\"true\"",
            "</approach>",
            "<ident type=string>",
            "\"34L\"",
            "</ident>",
            "<icao type=string>",
            "\"YSSY\"",
            "</icao>",
            "</wp>",
        ])
    );
}

#[test]
fn start_of_tree_airports_and_close() {
    let mut out = Vec::new();
    write_start_of_tree(&mut out);
    write_airports(&mut out, &Some(airport("SAEZ", Some("11"))), &Some(airport("SABE", None)));
    close_tree(&mut out);
    assert_eq!(
        render(&out),
        lines(&[
            "<PropertyList>",
            "<version type=int>",
            "\"2\"",
            "</version>",
            "<flight-rules type=string>",
            "\"V\"",
            "</flight-rules>",
            "<flight-type type=string>",
            "\"X\"",
            "</flight-type>",
            "<estimated-duration-minutes type=int>",
            "\"0\"",
            "</estimated-duration-minutes>",
            "<departure>",
            "<airport type=string>",
            "\"SAEZ\"",
            "</airport>",
            "<runway type=string>",
            "\"11\"",
            "</runway>",
            "</departure>",
            "<destination>",
            "<airport type=string>",
            "\"SABE\"",
            "</airport>",
            "</destination>",
            "</PropertyList>",
        ])
    );
}

#[test]
fn no_airports_write_nothing() {
    let mut out = Vec::new();
    write_airports(&mut out, &None, &None);
    assert!(out.is_empty());
}

#[test]
fn document_events_with_namespaces_drive_the_scanner() {
    let ns = "{http://www.opengis.net/kml/2.2}";
    let mut out = Vec::new();
    let mut scan = begin_route(&mut out, None, None);
    let mut feed = |scan: &mut ScanState, out: &mut Vec<Event>, e: DocumentEvent| -> Step {
        handle_event(scan, e, out)
    };
    for tag in ["Placemark", "name"] {
        feed(&mut scan, &mut out, DocumentEvent::Start(format!("{ns}{tag}")));
    }
    feed(&mut scan, &mut out, DocumentEvent::Text("EZE11".to_string()));
    feed(&mut scan, &mut out, DocumentEvent::End(format!("{ns}name")));
    feed(&mut scan, &mut out, DocumentEvent::Start(format!("{ns}styleUrl")));
    feed(&mut scan, &mut out, DocumentEvent::Text("#FixMark".to_string()));
    feed(&mut scan, &mut out, DocumentEvent::End(format!("{ns}styleUrl")));
    feed(&mut scan, &mut out, DocumentEvent::Start(format!("{ns}coordinates")));
    match feed(&mut scan, &mut out, DocumentEvent::Text("-58.594239,-34.811897,823".to_string())) {
        Step::Next(TextOutcome::Decode(t)) => {
            assert_eq!((t.lon.as_str(), t.lat.as_str(), t.altitude.as_str()), ("-58.594239", "-34.811897", "823"));
        }
        _ => panic!("expected coordinates to decode"),
    }
    assert!(apply_coordinates(&mut scan, fix("-58.594239", "-34.811897", 2700)).is_none());
    feed(&mut scan, &mut out, DocumentEvent::End(format!("{ns}coordinates")));
    feed(&mut scan, &mut out, DocumentEvent::End(format!("{ns}Placemark")));
    end_route(&scan, &mut out);
    let mut expected = vec!["<route>".to_string()];
    expected.extend(basic_lines(None, "EZE11", "-58.594239", "-34.811897", "2700"));
    expected.push("</route>".to_string());
    assert_eq!(render(&out), expected);
}

#[test]
fn read_error_stops_with_a_short_message_and_the_route_still_ends() {
    let mut out = Vec::new();
    let mut scan = begin_route(&mut out, None, Some(airport("SABE", Some("13"))));
    handle_event(&mut scan, DocumentEvent::Start("Placemark".to_string()), &mut out);
    let step = handle_event(
        &mut scan,
        DocumentEvent::ReadError("3:1 Unexpected end of {http://www.opengis.net/kml/2.2}Placemark".to_string()),
        &mut out,
    );
    match step {
        Step::Stop(m) => assert_eq!(m, "3:1 Unexpected end of Placemark "),
        _ => panic!("expected the pass to stop"),
    }
    assert_eq!(scan.current_search, LookingFor::OpeningName);
    end_route(&scan, &mut out);
    let r = render(&out);
    assert_eq!(r.first().map(String::as_str), Some("<route>"));
    assert_eq!(r[1], "<wp>");
    assert_eq!(r[5..8], lines(&["<approach type=bool>", "\"true\"", "</approach>"])[..]);
    assert_eq!(r.last().map(String::as_str), Some("</route>"));
}
