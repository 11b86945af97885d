//! Nearby transit stops: what is asked of the transit service, and what is
//! made of its answer.
//!
//! The caller sends the request and reports what came back. Whatever goes
//! wrong on the way, the outcome is a list of stops, possibly empty, and a
//! status that tells an empty neighbourhood from a failed attempt.

use vstd::prelude::*;
use crate::position::{Position, Scalar};

verus! {

/// A transit stop as the service describes it.
#[derive(Clone, Debug, PartialEq, Eq)]
pub struct Stop {
    pub name: String,
    pub code: String,
    /// The distance from the position that was asked about.
    pub distance: Scalar,
}

/// The value of one query parameter.
pub enum ParameterValue {
    Text(String),
    Real(Scalar),
    Count(u32),
}

/// One query parameter of the request.
pub struct Parameter {
    pub name: String,
    pub value: ParameterValue,
}

/// One request for the stops around a position.
pub struct StopRequest {
    pub credential: String,
    pub position: Position,
    pub max_results: u32,
}

/// Whether `parameters` is the query of `request`: the credential as `key`,
/// the latitude as `lat`, the longitude as `lon` and the number of stops
/// wanted as `count`, in that order.
pub open spec fn is_query_of(parameters: Seq<Parameter>, request: StopRequest) -> bool {
    &&& parameters.len() == 4
    &&& parameters[0].name@ == "key"@
    &&& parameters[0].value == ParameterValue::Text(request.credential)
    &&& parameters[1].name@ == "lat"@
    &&& parameters[1].value == ParameterValue::Real(request.position.latitude)
    &&& parameters[2].name@ == "lon"@
    &&& parameters[2].value == ParameterValue::Real(request.position.longitude)
    &&& parameters[3].name@ == "count"@
    &&& parameters[3].value == ParameterValue::Count(request.max_results)
}

/// The request to make with `credential`, if there is one to make.
pub open spec fn planned_request(
    credential: Option<String>,
    position: Position,
    max_results: u32,
) -> Option<StopRequest> {
    match credential {
        Some(credential) => Some(StopRequest { credential, position, max_results }),
        None => None,
    }
}

/// Plans the request for the stops around `position`. Without a credential
/// there is nothing to send, and the caller is left with no stops.
pub fn plan_request(credential: Option<String>, position: Position, max_results: u32) -> (request:
    Option<StopRequest>)
    ensures
        request == planned_request(credential, position, max_results),
{
    match credential {
        Some(credential) => Some(StopRequest { credential, position, max_results }),
        None => None,
    }
}

impl StopRequest {
    /// The query parameters that the request carries.
    pub fn parameters(&self) -> (parameters: Vec<Parameter>)
        ensures
            is_query_of(parameters@, *self),
    {
        let mut parameters: Vec<Parameter> = Vec::new();
        parameters.push(
            Parameter {
                name: String::from_str("key"),
                value: ParameterValue::Text(self.credential.clone()),
            },
        );
        parameters.push(
            Parameter {
                name: String::from_str("lat"),
                value: ParameterValue::Real(self.position.latitude),
            },
        );
        parameters.push(
            Parameter {
                name: String::from_str("lon"),
                value: ParameterValue::Real(self.position.longitude),
            },
        );
        parameters.push(
            Parameter {
                name: String::from_str("count"),
                value: ParameterValue::Count(self.max_results),
            },
        );
        parameters
    }
}

/// What came of one attempt to ask the service.
pub enum Fetch {
    /// No client could be set up.
    ClientUnavailable,
    /// The request was not answered.
    RequestFailed,
    /// The service answered with `status`; `body` holds the stops of the
    /// answer where it could be decoded.
    Replied { status: u16, body: Option<Vec<Stop>> },
}

/// Why a listing holds the stops it holds.
#[derive(Clone, Copy, Debug, PartialEq, Eq, Structural)]
pub enum StopStatus {
    /// The service answered, and these are its stops.
    Served,
    /// No credential was at hand, so nothing was asked.
    CredentialMissing,
    ClientUnavailable,
    RequestFailed,
    /// The service answered with a status that is no success.
    Rejected { status: u16 },
    /// The service answered, and the answer could not be decoded.
    Undecodable,
}

/// The stops around a position, in the order the service gave them.
pub struct StopListing {
    pub stops: Vec<Stop>,
    pub status: StopStatus,
}

/// Whether an answer's status is a success: one of the 2xx.
pub open spec fn is_success(status: u16) -> bool {
    200 <= status <= 299
}

/// The status of the listing made of `fetch`.
pub open spec fn fetch_status(fetch: Fetch) -> StopStatus {
    match fetch {
        Fetch::ClientUnavailable => StopStatus::ClientUnavailable,
        Fetch::RequestFailed => StopStatus::RequestFailed,
        Fetch::Replied { status, body } => if !is_success(status) {
            StopStatus::Rejected { status }
        } else if body is None {
            StopStatus::Undecodable
        } else {
            StopStatus::Served
        },
    }
}

/// The stops of the listing made of `fetch`: those of a decoded answer with
/// a success status, as they came; none otherwise.
pub open spec fn fetch_stops(fetch: Fetch) -> Seq<Stop> {
    match fetch {
        Fetch::Replied { status, body: Some(stops) } => if is_success(status) {
            stops@
        } else {
            Seq::empty()
        },
        _ => Seq::empty(),
    }
}

/// The listing for a position that could not be asked about for want of a
/// credential: no stops.
pub fn without_credential() -> (listing: StopListing)
    ensures
        listing.stops@ == Seq::<Stop>::empty(),
        listing.status == StopStatus::CredentialMissing,
{
    StopListing { stops: Vec::new(), status: StopStatus::CredentialMissing }
}

/// Settles one attempt. The stops of a decoded, successful answer are kept
/// as they are, neither sorted nor thinned out; every other outcome gives an
/// empty list. No outcome is an error.
pub fn settle(fetch: Fetch) -> (listing: StopListing)
    ensures
        listing.stops@ == fetch_stops(fetch),
        listing.status == fetch_status(fetch),
        listing.status != StopStatus::Served ==> listing.stops@.len() == 0,
{
    match fetch {
        Fetch::ClientUnavailable => StopListing {
            stops: Vec::new(),
            status: StopStatus::ClientUnavailable,
        },
        Fetch::RequestFailed => StopListing { stops: Vec::new(), status: StopStatus::RequestFailed },
        Fetch::Replied { status, body } => {
            if status < 200 || status > 299 {
                StopListing { stops: Vec::new(), status: StopStatus::Rejected { status } }
            } else {
                match body {
                    Some(stops) => StopListing { stops, status: StopStatus::Served },
                    None => StopListing { stops: Vec::new(), status: StopStatus::Undecodable },
                }
            }
        },
    }
}

} // verus!
