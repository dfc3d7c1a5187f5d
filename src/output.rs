//! The flight plan as a list of markup events (open an element, write text,
//! close an element), built here and serialised by the caller.
use vstd::prelude::*;
use vstd::string::*;

use crate::airport::Airport;
use crate::text::{trim, trimmed};

verus! {

/// One `name="value"` attribute of an opening element.
pub struct Attribute {
    pub name: String,
    pub value: String,
}

/// One instruction for a markup writer.
pub enum Event {
    /// Opens element `name` with the given attributes.
    Open { name: String, attributes: Vec<Attribute> },
    /// Text content of the innermost open element.
    Text(String),
    /// Closes element `name`, the innermost one open.
    Close(String),
}

/// What an [`Event`] says, over character sequences.
pub enum EventView {
    Open(Seq<char>, Seq<(Seq<char>, Seq<char>)>),
    Text(Seq<char>),
    Close(Seq<char>),
}

impl View for Event {
    type V = EventView;

    open spec fn view(&self) -> EventView {
        match self {
            Event::Open { name, attributes } => EventView::Open(
                name@,
                attributes@.map_values(|a: Attribute| (a.name@, a.value@)),
            ),
            Event::Text(t) => EventView::Text(t@),
            Event::Close(name) => EventView::Close(name@),
        }
    }
}

/// The views of a sequence of events.
pub open spec fn events(v: Seq<Event>) -> Seq<EventView> {
    v.map_values(|e: Event| e@)
}

/// Element `name` with a `type` attribute `ty` and text `text`.
pub open spec fn field_events(name: Seq<char>, ty: Seq<char>, text: Seq<char>) -> Seq<EventView> {
    seq![
        EventView::Open(name, seq![("type"@, ty)]),
        EventView::Text(text),
        EventView::Close(name),
    ]
}

/// The opening of the flight plan: its root element and the plan's settings.
pub open spec fn start_of_tree_events() -> Seq<EventView> {
    seq![EventView::Open("PropertyList"@, seq![])] + field_events("version"@, "int"@, "2"@)
        + field_events("flight-rules"@, "string"@, "V"@) + field_events(
        "flight-type"@,
        "string"@,
        "X"@,
    ) + field_events("estimated-duration-minutes"@, "int"@, "0"@)
}

/// The runway of an airport, if it has one, over character sequences.
pub open spec fn runway_view(runway: Option<String>) -> Option<Seq<char>> {
    match runway {
        Some(r) => Some(r@),
        None => None,
    }
}

/// The code and the runway, if any, of an airport.
pub open spec fn airport_detail_events(ident: Seq<char>, runway: Option<Seq<char>>) -> Seq<
    EventView,
> {
    field_events("airport"@, "string"@, trimmed(ident)) + match runway {
        Some(r) => field_events("runway"@, "string"@, trimmed(r)),
        None => seq![],
    }
}

/// Element `role` holding the details of `airport`, or nothing without one.
pub open spec fn airport_events(role: Seq<char>, airport: Option<Airport>) -> Seq<EventView> {
    match airport {
        Some(a) => seq![EventView::Open(role, seq![])] + airport_detail_events(
            a.ident@,
            runway_view(a.runway),
        ) + seq![EventView::Close(role)],
        None => seq![],
    }
}

/// Appends `e` to `out`.
pub fn push_event(out: &mut Vec<Event>, e: Event)
    ensures
        events(final(out)@) == events(old(out)@).push(e@),
{
    let ghost before = out@;
    out.push(e);
    assert(events(out@) =~= events(before).push(e@));
}

/// Appends the opening of element `name`, without attributes.
pub fn push_open(out: &mut Vec<Event>, name: &str)
    ensures
        events(final(out)@) == events(old(out)@).push(EventView::Open(name@, seq![])),
{
    let attributes: Vec<Attribute> = Vec::new();
    let e = Event::Open { name: String::from_str(name), attributes };
    assert(e@ == EventView::Open(name@, seq![])) by {
        assert(attributes@.map_values(|a: Attribute| (a.name@, a.value@)) =~= seq![]);
    }
    push_event(out, e);
}

/// Appends the closing of element `name`.
pub fn push_close(out: &mut Vec<Event>, name: &str)
    ensures
        events(final(out)@) == events(old(out)@).push(EventView::Close(name@)),
{
    push_event(out, Event::Close(String::from_str(name)));
}

/// Appends element `name` with a `type` attribute `ty` and text `text`.
pub fn push_field(out: &mut Vec<Event>, name: &str, ty: &str, text: &str)
    ensures
        events(final(out)@) == events(old(out)@) + field_events(name@, ty@, text@),
{
    let ghost before = events(out@);
    let mut attributes: Vec<Attribute> = Vec::new();
    attributes.push(Attribute { name: String::from_str("type"), value: String::from_str(ty) });
    let e = Event::Open { name: String::from_str(name), attributes };
    assert(e@ == EventView::Open(name@, seq![("type"@, ty@)])) by {
        assert(attributes@.map_values(|a: Attribute| (a.name@, a.value@)) =~= seq![
            ("type"@, ty@),
        ]);
    }
    push_event(out, e);
    push_event(out, Event::Text(String::from_str(text)));
    push_event(out, Event::Close(String::from_str(name)));
    assert(events(out@) =~= before + field_events(name@, ty@, text@));
}

/// Writes the opening of the flight plan: the root element, the plan's
/// version, its flight rules and type, and an estimated duration of zero.
pub fn write_start_of_tree(out: &mut Vec<Event>)
    ensures
        events(final(out)@) == events(old(out)@) + start_of_tree_events(),
{
    let ghost before = events(out@);
    push_open(out, "PropertyList");
    push_field(out, "version", "int", "2");
    push_field(out, "flight-rules", "string", "V");
    push_field(out, "flight-type", "string", "X");
    push_field(out, "estimated-duration-minutes", "int", "0");
    assert(events(out@) =~= before + start_of_tree_events());
}

/// Writes the code of an airport and its runway, if it has one.
fn write_airport_details(out: &mut Vec<Event>, ident: &str, runway: &Option<String>)
    ensures
        events(final(out)@) == events(old(out)@) + airport_detail_events(
            ident@,
            runway_view(*runway),
        ),
{
    let ghost before = events(out@);
    push_field(out, "airport", "string", trim(ident));
    if let Some(r) = runway {
        push_field(out, "runway", "string", trim(r.as_str()));
    }
    assert(events(out@) =~= before + airport_detail_events(ident@, runway_view(*runway)));
}

/// Writes the departure and the destination airport of the plan, each only
/// where one is given.
pub fn write_airports(out: &mut Vec<Event>, departure: &Option<Airport>, destination: &Option<Airport>)
    ensures
        events(final(out)@) == events(old(out)@) + airport_events("departure"@, *departure)
            + airport_events("destination"@, *destination),
{
    let ghost before = events(out@);
    if let Some(airport) = departure {
        push_open(out, "departure");
        write_airport_details(out, airport.ident.as_str(), &airport.runway);
        push_close(out, "departure");
    }
    let ghost middle = events(out@);
    assert(middle =~= before + airport_events("departure"@, *departure));
    if let Some(airport) = destination {
        push_open(out, "destination");
        write_airport_details(out, airport.ident.as_str(), &airport.runway);
        push_close(out, "destination");
    }
    assert(events(out@) =~= middle + airport_events("destination"@, *destination));
}

/// Writes the end of the flight plan: the closing of its root element.
pub fn close_tree(out: &mut Vec<Event>)
    ensures
        events(final(out)@) == events(old(out)@).push(EventView::Close("PropertyList"@)),
{
    push_close(out, "PropertyList");
}

} // verus!
