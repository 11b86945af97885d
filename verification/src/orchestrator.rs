//! The long-lived state shown to the user, and the pipeline that fills it.
//!
//! A resolution runs in three stages, each waiting for one report from the
//! caller: the discovered address, the record found for it, the answer of
//! the transit service. The stages are types, so the order cannot be
//! mistaken. A refresh runs the same three stages again and replaces what
//! they produce, the stops included; the destination is the user's and is
//! left alone.

use vstd::prelude::*;
use crate::address::{Address, resolve, resolved_address};
use crate::geo_locator::{
    GeoRecord,
    joined,
    locate,
    located_labels,
    located_position,
    lookup_view,
    render_labels,
};
use crate::position::Position;
use crate::stop_finder::{
    Fetch,
    Stop,
    StopRequest,
    StopStatus,
    fetch_status,
    fetch_stops,
    plan_request,
    planned_request,
    settle,
    without_credential,
};

verus! {

/// What a resolution is run with.
pub struct Settings {
    /// The access credential of the transit service, if one is configured.
    pub credential: Option<String>,
    /// How many stops to ask for.
    pub max_results: u32,
}

/// Which results of a resolution are substitutes for what could not be had.
#[derive(Clone, Copy, Debug, PartialEq, Eq, Structural)]
pub struct Diagnostics {
    /// The address is the sentinel, because discovery failed.
    pub address_substituted: bool,
    /// The lookup found a record for the address.
    pub record_found: bool,
    /// Why the stops are what they are.
    pub stops: StopStatus,
}

/// What one run of the pipeline produced.
pub struct Resolution {
    pub address: Address,
    pub position: Position,
    /// The place description, rendered as one line.
    pub place: String,
    pub stops: Vec<Stop>,
    pub diagnostics: Diagnostics,
}

/// First stage: the address is being discovered.
pub struct Discovering {
    pub settings: Settings,
}

/// Second stage: the address is known and is being looked up.
pub struct Locating {
    pub settings: Settings,
    pub address: Address,
    pub address_substituted: bool,
}

/// Third stage: the place is known and the stops around it are being asked for.
pub struct Fetching {
    pub request: StopRequest,
    pub address: Address,
    pub address_substituted: bool,
    pub record_found: bool,
    pub place: String,
}

/// What follows the lookup: a request to send, or, without a credential,
/// the finished resolution.
pub enum Located {
    Fetching(Fetching),
    Finished(Resolution),
}

/// Why the offline database cannot be used.
#[derive(Clone, Copy, Debug, PartialEq, Eq, Structural)]
pub enum DatabaseFault {
    /// There is no readable file at the configured path.
    NotFound,
    /// The file is there and is not a database.
    Corrupt,
}

/// Why the pipeline cannot be set up at all. Nothing else is ever reported
/// to the user as a failure.
#[derive(Clone, Copy, Debug, PartialEq, Eq, Structural)]
pub enum InitError {
    DatabaseNotFound,
    DatabaseCorrupt,
}

/// The message shown for an initialization error.
pub open spec fn init_error_text(error: InitError) -> Seq<char> {
    match error {
        InitError::DatabaseNotFound => "geo database not found"@,
        InitError::DatabaseCorrupt => "geo database is corrupt"@,
    }
}

impl InitError {
    /// The message to show to the user.
    pub fn message(&self) -> (text: String)
        ensures
            text@ == init_error_text(*self),
    {
        match self {
            InitError::DatabaseNotFound => String::from_str("geo database not found"),
            InitError::DatabaseCorrupt => String::from_str("geo database is corrupt"),
        }
    }
}

/// Sets the pipeline up at startup. `database` says what opening the offline
/// database came to: `None` when it is open. A database that cannot be used
/// stops the pipeline here, before any stage runs.
pub fn initialize(settings: Settings, database: Option<DatabaseFault>) -> (outcome: Result<
    Discovering,
    InitError,
>)
    ensures
        match database {
            None => outcome matches Ok(stage) && stage.settings == settings,
            Some(DatabaseFault::NotFound) => outcome matches Err(error) && error
                == InitError::DatabaseNotFound,
            Some(DatabaseFault::Corrupt) => outcome matches Err(error) && error
                == InitError::DatabaseCorrupt,
        },
{
    match database {
        None => Ok(start(settings)),
        Some(DatabaseFault::NotFound) => Err(InitError::DatabaseNotFound),
        Some(DatabaseFault::Corrupt) => Err(InitError::DatabaseCorrupt),
    }
}

/// Starts a resolution over a database that is open.
pub fn start(settings: Settings) -> (stage: Discovering)
    ensures
        stage.settings == settings,
{
    Discovering { settings }
}

impl Discovering {
    /// Takes the outcome of address discovery, `None` where it failed, and
    /// moves on to the lookup of the resolved address.
    pub fn discovered(self, outcome: Option<Address>) -> (next: Locating)
        ensures
            next.settings == self.settings,
            next.address == resolved_address(outcome),
            next.address_substituted == (outcome is None),
    {
        let address_substituted = outcome.is_none();
        Locating { settings: self.settings, address: resolve(outcome), address_substituted }
    }
}

/// Whether `next` is what follows the stage `stage` when the lookup reports `lookup`.
pub open spec fn follows_lookup(stage: Locating, lookup: Option<GeoRecord>, next: Located) -> bool {
    let position = located_position(lookup_view(lookup));
    let line = joined(located_labels(lookup_view(lookup)));
    match planned_request(stage.settings.credential, position, stage.settings.max_results) {
        Some(request) => {
            &&& next matches Located::Fetching(fetching)
            &&& fetching.request == request
            &&& fetching.address == stage.address
            &&& fetching.address_substituted == stage.address_substituted
            &&& fetching.record_found == (lookup is Some)
            &&& fetching.place@ == line
        },
        None => {
            &&& next matches Located::Finished(resolution)
            &&& resolution.address == stage.address
            &&& resolution.position == position
            &&& resolution.place@ == line
            &&& resolution.stops@ == Seq::<Stop>::empty()
            &&& resolution.diagnostics == (Diagnostics {
                address_substituted: stage.address_substituted,
                record_found: lookup is Some,
                stops: StopStatus::CredentialMissing,
            })
        },
    }
}

impl Locating {
    /// Takes the outcome of the lookup, `None` for a miss or a record that
    /// could not be decoded, and derives position and place from it. With a
    /// credential the stops are asked for next; without one the resolution
    /// is finished, with no stops.
    pub fn located(self, lookup: Option<GeoRecord>) -> (next: Located)
        ensures
            follows_lookup(self, lookup, next),
    {
        let place = locate(&lookup);
        let line = render_labels(&place.labels);
        let record_found = lookup.is_some();
        match plan_request(self.settings.credential, place.position, self.settings.max_results) {
            Some(request) => Located::Fetching(
                Fetching {
                    request,
                    address: self.address,
                    address_substituted: self.address_substituted,
                    record_found,
                    place: line,
                },
            ),
            None => {
                let listing = without_credential();
                Located::Finished(
                    Resolution {
                        address: self.address,
                        position: place.position,
                        place: line,
                        stops: listing.stops,
                        diagnostics: Diagnostics {
                            address_substituted: self.address_substituted,
                            record_found,
                            stops: listing.status,
                        },
                    },
                )
            },
        }
    }
}

impl Fetching {
    /// Takes the outcome of the request and finishes the resolution.
    pub fn fetched(self, fetch: Fetch) -> (resolution: Resolution)
        ensures
            resolution.address == self.address,
            resolution.position == self.request.position,
            resolution.place == self.place,
            resolution.stops@ == fetch_stops(fetch),
            resolution.diagnostics == (Diagnostics {
                address_substituted: self.address_substituted,
                record_found: self.record_found,
                stops: fetch_status(fetch),
            }),
    {
        let listing = settle(fetch);
        Resolution {
            address: self.address,
            position: self.request.position,
            place: self.place,
            stops: listing.stops,
            diagnostics: Diagnostics {
                address_substituted: self.address_substituted,
                record_found: self.record_found,
                stops: listing.status,
            },
        }
    }
}

/// The state that the presentation layer shows.
pub struct ResolutionState {
    pub address: Address,
    /// The place description, rendered as one line.
    pub place: String,
    pub position: Position,
    /// Where the user wants to go: free text, stored as typed.
    pub destination: String,
    pub stops: Vec<Stop>,
}

/// One update of the state. Each replaces one field and leaves the others.
pub enum Event {
    AddressChanged(Address),
    PlaceChanged(String),
    PositionChanged(Position),
    DestinationChanged(String),
    StopsChanged(Vec<Stop>),
}

/// The state after `event`.
pub open spec fn applied(state: ResolutionState, event: Event) -> ResolutionState {
    match event {
        Event::AddressChanged(address) => ResolutionState { address, ..state },
        Event::PlaceChanged(place) => ResolutionState { place, ..state },
        Event::PositionChanged(position) => ResolutionState { position, ..state },
        Event::DestinationChanged(destination) => ResolutionState { destination, ..state },
        Event::StopsChanged(stops) => ResolutionState { stops, ..state },
    }
}

/// The state after a refresh that produced `resolution`.
pub open spec fn refreshed(state: ResolutionState, resolution: Resolution) -> ResolutionState {
    applied(
        applied(
            applied(
                applied(state, Event::AddressChanged(resolution.address)),
                Event::PlaceChanged(resolution.place),
            ),
            Event::PositionChanged(resolution.position),
        ),
        Event::StopsChanged(resolution.stops),
    )
}

impl ResolutionState {
    /// The state at startup: what the first resolution produced, and a
    /// destination of one space.
    pub fn new(resolution: Resolution) -> (state: ResolutionState)
        ensures
            state.address == resolution.address,
            state.place == resolution.place,
            state.position == resolution.position,
            state.destination@ == " "@,
            state.stops == resolution.stops,
    {
        ResolutionState {
            address: resolution.address,
            place: resolution.place,
            position: resolution.position,
            destination: String::from_str(" "),
            stops: resolution.stops,
        }
    }

    /// Applies one update. The payload is stored as it is: nothing is
    /// checked against the other fields, and nothing is turned away.
    pub fn apply(&mut self, event: Event)
        ensures
            *final(self) == applied(*old(self), event),
    {
        match event {
            Event::AddressChanged(address) => {
                self.address = address;
            },
            Event::PlaceChanged(place) => {
                self.place = place;
            },
            Event::PositionChanged(position) => {
                self.position = position;
            },
            Event::DestinationChanged(destination) => {
                self.destination = destination;
            },
            Event::StopsChanged(stops) => {
                self.stops = stops;
            },
        }
    }

    /// Replaces what a resolution produces by the results of a new one:
    /// address, place, position and stops. The destination stays.
    pub fn refresh(&mut self, resolution: Resolution)
        ensures
            *final(self) == refreshed(*old(self), resolution),
            final(self).destination == old(self).destination,
    {
        self.apply(Event::AddressChanged(resolution.address));
        self.apply(Event::PlaceChanged(resolution.place));
        self.apply(Event::PositionChanged(resolution.position));
        self.apply(Event::StopsChanged(resolution.stops));
    }
}

} // verus!
