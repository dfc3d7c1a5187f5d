//! Airports at the ends of a route, as given on the command line.
use vstd::prelude::*;
use vstd::string::*;

use crate::text::{fields, lemma_fields_not_empty, split_fields, trim, trimmed, views};

verus! {

/// An airport by its ICAO code, with the runway in use if one is given.
pub struct Airport {
    pub ident: String,
    pub runway: Option<String>,
}

/// The airport that `code` names: `ICAO/RUNWAY` gives the trimmed code
/// before the first `/` and the trimmed text after it, up to a second `/` if
/// any; a code without `/` is the ICAO code alone.
pub open spec fn decoded_ident(code: Seq<char>) -> Seq<char> {
    trimmed(fields(code, '/')[0])
}

/// The runway that `code` names, if any (see [`decoded_ident`]).
pub open spec fn decoded_runway(code: Seq<char>) -> Option<Seq<char>> {
    let parts = fields(code, '/');
    if parts.len() > 1 {
        Some(trimmed(parts[1]))
    } else {
        None
    }
}

/// Reads an airport given as `ICAO` or `ICAO/RUNWAY`, so that `SAEZ/11` is
/// the airport SAEZ with runway 11.
pub fn airport_decoder(code: &str) -> (airport: Airport)
    ensures
        airport.ident@ == decoded_ident(code@),
        match airport.runway {
            Some(r) => decoded_runway(code@) == Some(r@),
            None => decoded_runway(code@) is None,
        },
{
    let parts = split_fields(code, '/');
    proof {
        lemma_fields_not_empty(code@, '/');
    }
    assert(parts@[0]@ == views(parts@)[0]);
    let ident = String::from_str(trim(parts[0].as_str()));
    let runway = if parts.len() > 1 {
        assert(parts@[1]@ == views(parts@)[1]);
        Some(String::from_str(trim(parts[1].as_str())))
    } else {
        None
    };
    Airport { ident, runway }
}

} // verus!
