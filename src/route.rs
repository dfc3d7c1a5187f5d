//! The route: placemarks read from the document become numbered waypoints,
//! between optional runway waypoints for the departure and destination
//! airports.
//!
//! A placemark that belongs to the route looks like this:
//!
//! ```text
//! <Placemark>
//!    <name>EZE11</name>
//!    <styleUrl>#FixMark</styleUrl>
//!    <coordinates>-58.594239,-34.811897,823</coordinates>
//! </Placemark>
//! ```
//!
//! The scanner is driven by the document's events one at a time. The numbers
//! in the coordinates are read by the caller: when the scanner meets them it
//! hands back their text, and the caller returns the decoded values through
//! [`apply_coordinates`].
use vstd::prelude::*;
use vstd::string::*;

use crate::airport::Airport;
use crate::output::{
    events, field_events, push_close, push_event, push_field, push_open, runway_view, Attribute,
    Event, EventView,
};
use crate::text::{
    decimal, decimal_digits, fields, joined_local_names, local_name, simplify_message,
    simplify_name, split_fields, trim, trimmed, views, words,
};

verus! {

/// A waypoint of the route read from a placemark.
pub struct Waypoint {
    /// Position among the route's waypoints, counted from 0.
    pub number: usize,
    /// The placemark's name.
    pub ident: String,
    /// Longitude in decimal degrees, as it is written out.
    pub lon: String,
    /// Latitude in decimal degrees, as it is written out.
    pub lat: String,
    /// Altitude in feet.
    pub altitude: usize,
}

/// What the scanner waits for next inside the document.
#[derive(PartialEq, Eq, Structural, Clone, Copy, Debug)]
pub enum LookingFor {
    OpeningPlacemark,
    OpeningName,
    ContentName,
    ClosingName,
    OpeningStyleUrl,
    ContentStyleUrl,
    ClosingStyleUrl,
    OpeningCoordinates,
    ContentCoordinates,
    ClosingCoordinates,
    ClosingPlacemark,
}

/// The three values of a placemark's coordinates, as text.
pub struct CoordinateTokens {
    pub lon: String,
    pub lat: String,
    pub altitude: String,
}

/// Coordinates decoded by the caller: longitude and latitude as they are to
/// be written out, altitude in feet.
pub struct Fix {
    pub lon: String,
    pub lat: String,
    pub altitude: usize,
}

/// A placemark dropped for coordinates that could not be read.
pub struct Diagnostic {
    /// The placemark's name.
    pub ident: String,
    /// Why its coordinates could not be read.
    pub reason: String,
}

/// What a text event asks of the caller.
pub enum TextOutcome {
    /// Nothing.
    Continue,
    /// Decode these coordinates and hand the result to [`apply_coordinates`].
    Decode(CoordinateTokens),
    /// The placemark was dropped; report it.
    Dropped(Diagnostic),
}

/// One event of the document, with element names as the reader gives them
/// (possibly with a `{namespace-uri}` prefix).
pub enum DocumentEvent {
    Start(String),
    Text(String),
    End(String),
    /// The document could not be read further.
    ReadError(String),
}

/// What an event of the document asks of the caller.
pub enum Step {
    /// Go on with the next event, after doing what the text event asks.
    Next(TextOutcome),
    /// Stop reading and report this message; the route is still ended.
    Stop(String),
}

/// A waypoint that the scanner emitted, with the style its placemark had.
pub ghost struct Accepted {
    pub number: nat,
    pub ident: Seq<char>,
    pub style: Seq<char>,
}

/// The state of one pass over a document.
pub struct ScanState {
    /// The waypoint read from the current placemark.
    pub waypoint: Waypoint,
    pub current_search: LookingFor,
    /// Set once the current placemark is known not to become a waypoint.
    pub drop: bool,
    /// The number the next waypoint gets.
    pub wp: usize,
    pub departure: Option<Airport>,
    pub destination: Option<Airport>,
    /// The style text of the current placemark.
    pub style: Ghost<Seq<char>>,
    /// The waypoints emitted so far, in order.
    pub accepted: Ghost<Seq<Accepted>>,
}

/// The style of a placemark that is a fix of the route.
pub open spec fn fix_mark() -> Seq<char> {
    "#FixMark"@
}

/// Why coordinates with fewer than three values are refused.
pub open spec fn too_few_values() -> Seq<char> {
    "expected longitude, latitude and altitude separated by commas"@
}

/// Whether `airport` is given and has the code `name`.
pub open spec fn is_airport(name: Seq<char>, airport: Option<Airport>) -> bool {
    airport matches Some(a) && a.ident@ == name
}

/// The state after the opening of element `name`.
pub open spec fn after_open(s: LookingFor, name: Seq<char>) -> LookingFor {
    if s == LookingFor::OpeningPlacemark && name == "Placemark"@ {
        LookingFor::OpeningName
    } else if s == LookingFor::OpeningName && name == "name"@ {
        LookingFor::ContentName
    } else if s == LookingFor::OpeningStyleUrl && name == "styleUrl"@ {
        LookingFor::ContentStyleUrl
    } else if s == LookingFor::OpeningCoordinates && name == "coordinates"@ {
        LookingFor::ContentCoordinates
    } else {
        s
    }
}

/// The state after the closing of element `name`.
pub open spec fn after_close(s: LookingFor, name: Seq<char>) -> LookingFor {
    if s == LookingFor::ClosingName && name == "name"@ {
        LookingFor::OpeningStyleUrl
    } else if s == LookingFor::ClosingStyleUrl && name == "styleUrl"@ {
        LookingFor::OpeningCoordinates
    } else if s == LookingFor::ClosingCoordinates && name == "coordinates"@ {
        LookingFor::ClosingPlacemark
    } else if s == LookingFor::ClosingPlacemark && name == "Placemark"@ {
        LookingFor::OpeningPlacemark
    } else {
        s
    }
}

/// The opening of a waypoint element; waypoint 0 carries no number.
pub open spec fn wp_open(number: nat) -> EventView {
    EventView::Open(
        "wp"@,
        if number > 0 {
            seq![("n"@, decimal_digits(number))]
        } else {
            seq![]
        },
    )
}

/// A waypoint read from a placemark, as written out.
pub open spec fn basic_waypoint_events(
    number: nat,
    ident: Seq<char>,
    lon: Seq<char>,
    lat: Seq<char>,
    altitude: nat,
) -> Seq<EventView> {
    seq![wp_open(number)] + field_events("type"@, "string"@, "basic"@) + field_events(
        "alt-restrict"@,
        "string"@,
        "at"@,
    ) + field_events("altitude-ft"@, "double"@, decimal_digits(altitude)) + field_events(
        "ident"@,
        "string"@,
        trimmed(ident),
    ) + field_events("lon"@, "double"@, trimmed(lon)) + field_events(
        "lat"@,
        "double"@,
        trimmed(lat),
    ) + seq![EventView::Close("wp"@)]
}

/// The waypoint of a departure (or else destination) airport, as written out.
pub open spec fn runway_waypoint_events(
    number: nat,
    icao: Seq<char>,
    runway: Option<Seq<char>>,
    departure: bool,
) -> Seq<EventView> {
    seq![wp_open(number)] + field_events("type"@, "string"@, "runway"@) + (if departure {
        field_events("departure"@, "bool"@, "true"@)
    } else {
        field_events("approach"@, "bool"@, "true"@)
    }) + match runway {
        Some(r) => field_events("ident"@, "string"@, trimmed(r)),
        None => seq![],
    } + field_events("icao"@, "string"@, trimmed(icao)) + seq![EventView::Close("wp"@)]
}

/// The waypoint of `airport`, if one is given.
pub open spec fn airport_waypoint_events(
    number: nat,
    airport: Option<Airport>,
    departure: bool,
) -> Seq<EventView> {
    match airport {
        Some(a) => runway_waypoint_events(number, a.ident@, runway_view(a.runway), departure),
        None => seq![],
    }
}

/// The number of the first waypoint read from a placemark: 1 when the
/// departure airport's waypoint holds 0.
pub open spec fn first_number(departure: Option<Airport>) -> nat {
    if departure is Some {
        1
    } else {
        0
    }
}

/// What holds of the waypoints emitted, in order: they are numbered without
/// gaps from [`first_number`], each placemark was styled `#FixMark`, and none
/// had the code of the departure or destination airport as its name.
pub open spec fn emitted_ok(
    accepted: Seq<Accepted>,
    departure: Option<Airport>,
    destination: Option<Airport>,
) -> bool {
    forall|i: int|
        0 <= i < accepted.len() ==> {
            &&& (#[trigger] accepted[i]).number == first_number(departure) + i
            &&& accepted[i].style == fix_mark()
            &&& !is_airport(accepted[i].ident, departure)
            &&& !is_airport(accepted[i].ident, destination)
        }
}

impl ScanState {
    /// Whether `name` is the code of the departure or destination airport.
    pub open spec fn names_airport(&self, name: Seq<char>) -> bool {
        is_airport(name, self.departure) || is_airport(name, self.destination)
    }

    /// What the states of a placemark promise of it: a placemark past its
    /// name does not name an airport, one past its style is a fix, and one
    /// awaiting its closing is either both or dropped.
    pub open spec fn placemark_ok(&self) -> bool {
        let name_ok = !self.names_airport(self.waypoint.ident@);
        let style_ok = self.style@ == fix_mark();
        match self.current_search {
            LookingFor::ClosingName | LookingFor::OpeningStyleUrl | LookingFor::ContentStyleUrl => {
                name_ok
            },
            LookingFor::ClosingStyleUrl
            | LookingFor::OpeningCoordinates
            | LookingFor::ContentCoordinates
            | LookingFor::ClosingCoordinates => name_ok && style_ok,
            LookingFor::ClosingPlacemark => !self.drop ==> name_ok && style_ok,
            _ => true,
        }
    }

    /// The state's invariant.
    pub open spec fn wf(&self) -> bool {
        &&& self.wp == first_number(self.departure) + self.accepted@.len()
        &&& emitted_ok(self.accepted@, self.departure, self.destination)
        &&& self.placemark_ok()
    }

    /// `other` differs from `self` at most in the state, the drop flag and
    /// the current waypoint.
    pub open spec fn same_route(&self, other: ScanState) -> bool {
        &&& other.wp == self.wp
        &&& other.departure == self.departure
        &&& other.destination == self.destination
        &&& other.accepted == self.accepted
    }
}

/// How the opening of element `name` changes the scanner `pre` into `post`.
pub open spec fn opened(pre: ScanState, post: ScanState, name: Seq<char>) -> bool {
    &&& post.current_search == after_open(pre.current_search, name)
    &&& pre.same_route(post)
    &&& if pre.current_search == LookingFor::OpeningPlacemark && name == "Placemark"@ {
        &&& !post.drop
        &&& post.waypoint.ident@.len() == 0
        &&& post.waypoint.lon@.len() == 0
        &&& post.waypoint.lat@.len() == 0
        &&& post.waypoint.altitude == 0
    } else {
        &&& post.drop == pre.drop
        &&& post.waypoint == pre.waypoint
    }
}

/// How text `line` changes the scanner `pre` into `post`, and what it asks
/// of the caller.
pub open spec fn read_text(
    pre: ScanState,
    post: ScanState,
    line: Seq<char>,
    outcome: TextOutcome,
) -> bool {
    &&& pre.same_route(post)
    &&& post.waypoint.number == pre.waypoint.number
    &&& post.waypoint.lon == pre.waypoint.lon
    &&& post.waypoint.lat == pre.waypoint.lat
    &&& post.waypoint.altitude == pre.waypoint.altitude
    &&& pre.current_search != LookingFor::ContentName ==> post.waypoint.ident == pre.waypoint.ident
    &&& pre.current_search != LookingFor::ContentCoordinates ==> outcome is Continue
    &&& match pre.current_search {
        LookingFor::ContentName => {
            &&& post.waypoint.ident@ == line
            &&& if pre.names_airport(line) {
                post.current_search == LookingFor::ClosingPlacemark && post.drop
            } else {
                post.current_search == LookingFor::ClosingName && post.drop == pre.drop
            }
        },
        LookingFor::ContentStyleUrl => if line == fix_mark() {
            post.current_search == LookingFor::ClosingStyleUrl && post.drop == pre.drop
        } else {
            post.current_search == LookingFor::ClosingPlacemark && post.drop
        },
        LookingFor::ContentCoordinates => {
            let parts = fields(line, ',');
            &&& post.current_search == LookingFor::ClosingCoordinates
            &&& if parts.len() < 3 {
                &&& post.drop
                &&& outcome matches TextOutcome::Dropped(d) && d.ident@ == pre.waypoint.ident@
                    && d.reason@ == too_few_values()
            } else {
                &&& post.drop == pre.drop
                &&& outcome matches TextOutcome::Decode(t) && t.lon@ == trimmed(parts[0])
                    && t.lat@ == trimmed(parts[1]) && t.altitude@ == trimmed(parts[2])
            }
        },
        _ => {
            &&& post.current_search == pre.current_search
            &&& post.drop == pre.drop
        },
    }
}

/// How the closing of element `name` changes the scanner `pre` into `post`
/// and the events written from `before` to `after`.
pub open spec fn closed(
    pre: ScanState,
    post: ScanState,
    name: Seq<char>,
    before: Seq<EventView>,
    after: Seq<EventView>,
) -> bool {
    &&& post.current_search == after_close(pre.current_search, name)
    &&& post.departure == pre.departure
    &&& post.destination == pre.destination
    &&& if pre.current_search == LookingFor::ClosingPlacemark && name == "Placemark"@ {
        &&& !post.drop
        &&& if pre.drop {
            &&& after == before
            &&& post.wp == pre.wp
            &&& post.accepted == pre.accepted
        } else {
            &&& after == before + basic_waypoint_events(
                pre.wp as nat,
                pre.waypoint.ident@,
                pre.waypoint.lon@,
                pre.waypoint.lat@,
                pre.waypoint.altitude as nat,
            )
            &&& post.wp == pre.wp + 1
            &&& post.accepted@ == pre.accepted@.push(
                Accepted {
                    number: pre.wp as nat,
                    ident: pre.waypoint.ident@,
                    style: pre.style@,
                },
            )
        }
    } else {
        &&& after == before
        &&& pre.same_route(post)
        &&& post.drop == pre.drop
        &&& post.waypoint == pre.waypoint
    }
}

/// Writes a waypoint read from a placemark.
pub fn write_waypoint(out: &mut Vec<Event>, wp: &Waypoint)
    ensures
        events(final(out)@) == events(old(out)@) + basic_waypoint_events(
            wp.number as nat,
            wp.ident@,
            wp.lon@,
            wp.lat@,
            wp.altitude as nat,
        ),
{
    let ghost before = events(out@);
    write_wp_open(out, wp.number);
    push_field(out, "type", "string", "basic");
    push_field(out, "alt-restrict", "string", "at");
    let altitude = decimal(wp.altitude);
    push_field(out, "altitude-ft", "double", altitude.as_str());
    push_field(out, "ident", "string", trim(wp.ident.as_str()));
    push_field(out, "lon", "double", trim(wp.lon.as_str()));
    push_field(out, "lat", "double", trim(wp.lat.as_str()));
    push_close(out, "wp");
    assert(events(out@) =~= before + basic_waypoint_events(
        wp.number as nat,
        wp.ident@,
        wp.lon@,
        wp.lat@,
        wp.altitude as nat,
    ));
}

/// Writes the runway waypoint of the departure airport when `is_departure`,
/// else of the destination airport.
pub fn write_ap_waypoint(out: &mut Vec<Event>, airport: &Airport, is_departure: bool, wp_counter: usize)
    ensures
        events(final(out)@) == events(old(out)@) + runway_waypoint_events(
            wp_counter as nat,
            airport.ident@,
            runway_view(airport.runway),
            is_departure,
        ),
{
    let ghost before = events(out@);
    write_wp_open(out, wp_counter);
    push_field(out, "type", "string", "runway");
    if is_departure {
        push_field(out, "departure", "bool", "true");
    } else {
        push_field(out, "approach", "bool", "true");
    }
    if let Some(runway) = &airport.runway {
        push_field(out, "ident", "string", trim(runway.as_str()));
    }
    push_field(out, "icao", "string", trim(airport.ident.as_str()));
    push_close(out, "wp");
    assert(events(out@) =~= before + runway_waypoint_events(
        wp_counter as nat,
        airport.ident@,
        runway_view(airport.runway),
        is_departure,
    ));
}

fn write_wp_open(out: &mut Vec<Event>, number: usize)
    ensures
        events(final(out)@) == events(old(out)@).push(wp_open(number as nat)),
{
    let mut attributes: Vec<Attribute> = Vec::new();
    if number > 0 {
        attributes.push(Attribute { name: String::from_str("n"), value: decimal(number) });
    }
    let e = Event::Open { name: String::from_str("wp"), attributes };
    assert(e@ == wp_open(number as nat)) by {
        if number > 0 {
            assert(attributes@.map_values(|a: Attribute| (a.name@, a.value@)) =~= seq![
                ("n"@, decimal_digits(number as nat)),
            ]);
        } else {
            assert(attributes@.map_values(|a: Attribute| (a.name@, a.value@)) =~= seq![]);
        }
    }
    push_event(out, e);
}

fn blank_waypoint() -> (w: Waypoint)
    ensures
        w.number == 0,
        w.ident@.len() == 0,
        w.lon@.len() == 0,
        w.lat@.len() == 0,
        w.altitude == 0,
{
    Waypoint {
        number: 0,
        ident: String::new(),
        lon: String::new(),
        lat: String::new(),
        altitude: 0,
    }
}

/// Starts the route: opens its element, writes the departure airport's
/// waypoint as number 0 if one is given, and returns the state for a pass
/// over a document.
pub fn begin_route(out: &mut Vec<Event>, departure: Option<Airport>, destination: Option<Airport>) -> (scan: ScanState)
    ensures
        scan.wf(),
        scan.current_search == LookingFor::OpeningPlacemark,
        !scan.drop,
        scan.departure == departure,
        scan.destination == destination,
        scan.wp == first_number(departure),
        scan.accepted@.len() == 0,
        events(final(out)@) == events(old(out)@).push(EventView::Open("route"@, seq![]))
            + airport_waypoint_events(0, departure, true),
{
    let ghost before = events(out@);
    push_open(out, "route");
    let mut wp: usize = 0;
    if let Some(airport) = &departure {
        write_ap_waypoint(out, airport, true, 0);
        wp = 1;
    }
    assert(events(out@) =~= before.push(EventView::Open("route"@, seq![]))
        + airport_waypoint_events(0, departure, true));
    ScanState {
        waypoint: blank_waypoint(),
        current_search: LookingFor::OpeningPlacemark,
        drop: false,
        wp,
        departure,
        destination,
        style: Ghost(Seq::empty()),
        accepted: Ghost(Seq::empty()),
    }
}

/// Takes the opening of element `name` (without its namespace): it may move
/// the scanner on to the next part of a placemark. Opening a placemark
/// starts a fresh waypoint and clears the drop flag.
pub fn handle_start_event(scan: &mut ScanState, name: &str)
    requires
        old(scan).wf(),
    ensures
        final(scan).wf(),
        opened(*old(scan), *final(scan), name@),
{
    let placemark = String::from_str("Placemark");
    let name_tag = String::from_str("name");
    let style_tag = String::from_str("styleUrl");
    let coordinates = String::from_str("coordinates");
    let name = String::from_str(name);
    if scan.current_search == LookingFor::OpeningPlacemark && name == placemark {
        scan.waypoint = blank_waypoint();
        scan.drop = false;
        scan.current_search = LookingFor::OpeningName;
    } else if scan.current_search == LookingFor::OpeningName && name == name_tag {
        scan.current_search = LookingFor::ContentName;
    } else if scan.current_search == LookingFor::OpeningStyleUrl && name == style_tag {
        scan.current_search = LookingFor::ContentStyleUrl;
    } else if scan.current_search == LookingFor::OpeningCoordinates && name == coordinates {
        scan.current_search = LookingFor::ContentCoordinates;
    }
}

/// Whether `name` is the code of the departure or destination airport.
fn is_airport_name(scan: &ScanState, name: &String) -> (r: bool)
    ensures
        r == scan.names_airport(name@),
{
    let mut r = false;
    if let Some(airport) = &scan.departure {
        if *name == airport.ident {
            r = true;
        }
    }
    if let Some(airport) = &scan.destination {
        if *name == airport.ident {
            r = true;
        }
    }
    r
}

/// Takes a text event. The name of a placemark is kept, and the placemark
/// dropped if it is the code of the departure or destination airport; a
/// placemark whose style is not `#FixMark` is dropped; coordinates are split
/// at commas into three trimmed values for the caller to decode, and the
/// placemark dropped if there are fewer than three. Any other text is
/// ignored.
pub fn handle_characters_event(scan: &mut ScanState, line: String) -> (outcome: TextOutcome)
    requires
        old(scan).wf(),
    ensures
        final(scan).wf(),
        read_text(*old(scan), *final(scan), line@, outcome),
{
    match scan.current_search {
        LookingFor::ContentName => {
            let is_airport = is_airport_name(scan, &line);
            scan.waypoint.ident = line;
            if is_airport {
                scan.drop = true;
                scan.current_search = LookingFor::ClosingPlacemark;
            } else {
                scan.current_search = LookingFor::ClosingName;
            }
            TextOutcome::Continue
        },
        LookingFor::ContentStyleUrl => {
            let mark = String::from_str("#FixMark");
            if line == mark {
                scan.current_search = LookingFor::ClosingStyleUrl;
            } else {
                scan.drop = true;
                scan.current_search = LookingFor::ClosingPlacemark;
            }
            scan.style = Ghost(line@);
            TextOutcome::Continue
        },
        LookingFor::ContentCoordinates => {
            let parts = split_fields(line.as_str(), ',');
            scan.current_search = LookingFor::ClosingCoordinates;
            if parts.len() < 3 {
                scan.drop = true;
                TextOutcome::Dropped(
                    Diagnostic {
                        ident: scan.waypoint.ident.clone(),
                        reason: String::from_str(
                            "expected longitude, latitude and altitude separated by commas",
                        ),
                    },
                )
            } else {
                assert(parts@[0]@ == views(parts@)[0]);
                assert(parts@[1]@ == views(parts@)[1]);
                assert(parts@[2]@ == views(parts@)[2]);
                TextOutcome::Decode(
                    CoordinateTokens {
                        lon: String::from_str(trim(parts[0].as_str())),
                        lat: String::from_str(trim(parts[1].as_str())),
                        altitude: String::from_str(trim(parts[2].as_str())),
                    },
                )
            }
        },
        _ => TextOutcome::Continue,
    }
}

/// Takes the caller's decoding of the coordinates that the last text event
/// handed out. Decoded values go into the current waypoint; a failure drops
/// the placemark and is returned for the caller to report. Outside that
/// moment, when the scanner does not wait for the closing of the
/// coordinates, nothing changes.
pub fn apply_coordinates(scan: &mut ScanState, decoded: Result<Fix, String>) -> (dropped: Option<
    Diagnostic,
>)
    requires
        old(scan).wf(),
    ensures
        final(scan).wf(),
        old(scan).same_route(*final(scan)),
        final(scan).current_search == old(scan).current_search,
        final(scan).waypoint.ident == old(scan).waypoint.ident,
        final(scan).waypoint.number == old(scan).waypoint.number,
        if old(scan).current_search != LookingFor::ClosingCoordinates {
            &&& final(scan).waypoint == old(scan).waypoint
            &&& final(scan).drop == old(scan).drop
            &&& dropped is None
        } else {
            match decoded {
                Ok(fix) => {
                    &&& final(scan).waypoint.lon == fix.lon
                    &&& final(scan).waypoint.lat == fix.lat
                    &&& final(scan).waypoint.altitude == fix.altitude
                    &&& final(scan).drop == old(scan).drop
                    &&& dropped is None
                },
                Err(reason) => {
                    &&& final(scan).waypoint == old(scan).waypoint
                    &&& final(scan).drop
                    &&& dropped matches Some(d) && d.ident@ == old(scan).waypoint.ident@
                        && d.reason == reason
                },
            }
        },
{
    if scan.current_search != LookingFor::ClosingCoordinates {
        return None;
    }
    match decoded {
        Ok(fix) => {
            scan.waypoint.lon = fix.lon;
            scan.waypoint.lat = fix.lat;
            scan.waypoint.altitude = fix.altitude;
            None
        },
        Err(reason) => {
            scan.drop = true;
            Some(Diagnostic { ident: scan.waypoint.ident.clone(), reason })
        },
    }
}

/// Takes the closing of element `name` (without its namespace): it may move
/// the scanner on to the next part of a placemark. At the closing of a
/// placemark that was not dropped, its waypoint is written with the next
/// number.
pub fn handle_end_event(scan: &mut ScanState, name: &str, out: &mut Vec<Event>)
    requires
        old(scan).wf(),
        old(scan).wp < usize::MAX,
    ensures
        final(scan).wf(),
        closed(*old(scan), *final(scan), name@, events(old(out)@), events(final(out)@)),
{
    let placemark = String::from_str("Placemark");
    let name_tag = String::from_str("name");
    let style_tag = String::from_str("styleUrl");
    let coordinates = String::from_str("coordinates");
    let name = String::from_str(name);
    if scan.current_search == LookingFor::ClosingName && name == name_tag {
        scan.current_search = LookingFor::OpeningStyleUrl;
    } else if scan.current_search == LookingFor::ClosingStyleUrl && name == style_tag {
        scan.current_search = LookingFor::OpeningCoordinates;
    } else if scan.current_search == LookingFor::ClosingCoordinates && name == coordinates {
        scan.current_search = LookingFor::ClosingPlacemark;
    } else if scan.current_search == LookingFor::ClosingPlacemark && name == placemark {
        if !scan.drop {
            scan.waypoint.number = scan.wp;
            write_waypoint(out, &scan.waypoint);
            let ghost accepted = scan.accepted@;
            let ghost entry = Accepted {
                number: scan.wp as nat,
                ident: scan.waypoint.ident@,
                style: scan.style@,
            };
            scan.accepted = Ghost(accepted.push(entry));
            scan.wp = scan.wp + 1;
            assert(forall|i: int|
                0 <= i < accepted.len() ==> scan.accepted@[i] == #[trigger] accepted[i]);
        }
        scan.drop = false;
        scan.waypoint = blank_waypoint();
        scan.current_search = LookingFor::OpeningPlacemark;
    }
}

/// Takes one event of the document: element names lose their namespace
/// prefix and go to [`handle_start_event`] or [`handle_end_event`], text goes
/// to [`handle_characters_event`], and a read error stops the pass with the
/// error's message shortened by [`simplify_message`].
pub fn handle_event(scan: &mut ScanState, event: DocumentEvent, out: &mut Vec<Event>) -> (step: Step)
    requires
        old(scan).wf(),
        event is End ==> old(scan).wp < usize::MAX,
    ensures
        final(scan).wf(),
        match event {
            DocumentEvent::Start(name) => {
                &&& step matches Step::Next(TextOutcome::Continue)
                &&& opened(*old(scan), *final(scan), local_name(name@))
                &&& final(out)@ == old(out)@
            },
            DocumentEvent::Text(line) => {
                &&& step matches Step::Next(outcome) && read_text(
                    *old(scan),
                    *final(scan),
                    line@,
                    outcome,
                )
                &&& final(out)@ == old(out)@
            },
            DocumentEvent::End(name) => {
                &&& step matches Step::Next(TextOutcome::Continue)
                &&& closed(
                    *old(scan),
                    *final(scan),
                    local_name(name@),
                    events(old(out)@),
                    events(final(out)@),
                )
            },
            DocumentEvent::ReadError(message) => {
                &&& step matches Step::Stop(m) && m@ == joined_local_names(words(message@))
                &&& *final(scan) == *old(scan)
                &&& final(out)@ == old(out)@
            },
        },
{
    match event {
        DocumentEvent::Start(name) => {
            let local = simplify_name(name.as_str());
            handle_start_event(scan, local.as_str());
            Step::Next(TextOutcome::Continue)
        },
        DocumentEvent::Text(line) => Step::Next(handle_characters_event(scan, line)),
        DocumentEvent::End(name) => {
            let local = simplify_name(name.as_str());
            handle_end_event(scan, local.as_str(), out);
            Step::Next(TextOutcome::Continue)
        },
        DocumentEvent::ReadError(message) => Step::Stop(simplify_message(message.as_str())),
    }
}

/// Ends the route: writes the destination airport's waypoint with the next
/// number if one is given, and closes the route's element.
pub fn end_route(scan: &ScanState, out: &mut Vec<Event>)
    ensures
        events(final(out)@) == events(old(out)@) + airport_waypoint_events(
            scan.wp as nat,
            scan.destination,
            false,
        ).push(EventView::Close("route"@)),
{
    let ghost before = events(out@);
    if let Some(airport) = &scan.destination {
        write_ap_waypoint(out, airport, false, scan.wp);
    }
    push_close(out, "route");
    assert(events(out@) =~= before + airport_waypoint_events(
        scan.wp as nat,
        scan.destination,
        false,
    ).push(EventView::Close("route"@)));
}

/// The waypoints read from placemarks are numbered without gaps: from 1 when
/// a departure airport's waypoint holds number 0, from 0 otherwise, however
/// many placemarks were dropped in between; the next number follows the
/// last.
pub proof fn lemma_numbers_contiguous(scan: &ScanState)
    requires
        scan.wf(),
    ensures
        forall|i: int|
            0 <= i < scan.accepted@.len() ==> #[trigger] scan.accepted@[i].number == (if scan.departure
                is Some {
                1int
            } else {
                0int
            }) + i,
        scan.wp == (if scan.departure is Some {
            1int
        } else {
            0int
        }) + scan.accepted@.len(),
{
    assert forall|i: int| 0 <= i < scan.accepted@.len() implies #[trigger] scan.accepted@[i].number
        == (if scan.departure is Some {
        1int
    } else {
        0int
    }) + i by {}
}

/// A placemark whose style is not `#FixMark` never becomes a waypoint,
/// whatever its coordinates hold.
pub proof fn lemma_only_fix_marks_emitted(scan: &ScanState)
    requires
        scan.wf(),
    ensures
        forall|i: int|
            0 <= i < scan.accepted@.len() ==> #[trigger] scan.accepted@[i].style == fix_mark(),
{
    assert forall|i: int| 0 <= i < scan.accepted@.len() implies #[trigger] scan.accepted@[i].style
        == fix_mark() by {}
}

/// A placemark named with the code of the departure or destination airport
/// never becomes a waypoint: that airport's runway waypoint stands for it.
pub proof fn lemma_airports_not_emitted(scan: &ScanState)
    requires
        scan.wf(),
    ensures
        forall|i: int|
            0 <= i < scan.accepted@.len() ==> {
                &&& !is_airport(#[trigger] scan.accepted@[i].ident, scan.departure)
                &&& !is_airport(scan.accepted@[i].ident, scan.destination)
            },
{
    assert forall|i: int| 0 <= i < scan.accepted@.len() implies {
        &&& !is_airport(#[trigger] scan.accepted@[i].ident, scan.departure)
        &&& !is_airport(scan.accepted@[i].ident, scan.destination)
    } by {}
}

} // verus!
