//! Conversion of a route drawn as placemarks in a KML document into the
//! waypoint list of a FlightGear flight plan.
//!
//! - [`route`]: the scanner that turns the document's events into numbered
//!   waypoints, and the route's runway waypoints for the airports;
//! - [`output`]: the flight plan as markup events, and its fixed parts;
//! - [`airport`]: airports given as `ICAO` or `ICAO/RUNWAY`;
//! - [`config`]: the command line;
//! - [`text`]: splitting, trimming, element names and decimal numbers.
pub mod airport;
pub mod config;
pub mod output;
pub mod route;
pub mod text;
