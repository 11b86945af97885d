//! What holds of the pipeline whatever the inputs, stated over the
//! functions that the contracts speak of.

use vstd::prelude::*;
use crate::address::{resolved_address, sentinel_address};
use crate::geo_locator::{
    GeoRecord,
    GeoRecordView,
    Location,
    joined,
    labels_of,
    located_labels,
    located_position,
    position_of,
    preferred_name,
    subdivision_labels,
    texts,
};
use crate::orchestrator::{InitError, Located, Locating, follows_lookup, init_error_text};
use crate::position::{Position, Scalar, unknown_position};
use crate::stop_finder::{Fetch, Stop, StopStatus, fetch_stops, is_success};

verus! {

/// A record whose location has both coordinates is at exactly those
/// coordinates.
pub proof fn lemma_position_of_located(record: GeoRecordView, latitude: Scalar, longitude: Scalar)
    requires
        record.location == Some(
            Location { latitude: Some(latitude), longitude: Some(longitude) },
        ),
    ensures
        position_of(record) == (Position { latitude, longitude }),
{
}

/// A record without a location, or with a location that lacks a coordinate,
/// is at the unknown position.
pub proof fn lemma_position_of_unlocated(record: GeoRecordView)
    requires
        record.location matches Some(location) ==> location.latitude is None
            || location.longitude is None,
    ensures
        position_of(record) == unknown_position(),
{
}

/// Subdivisions that all have a preferred name are labelled by those names,
/// in their own order.
pub proof fn lemma_subdivisions_in_order(
    subdivisions: Seq<Map<Seq<char>, Seq<char>>>,
    names: Seq<Seq<char>>,
)
    requires
        names.len() == subdivisions.len(),
        forall|i: int|
            0 <= i < subdivisions.len() ==> preferred_name(#[trigger] subdivisions[i]) == Some(
                names[i],
            ),
    ensures
        subdivision_labels(subdivisions) == names,
    decreases subdivisions.len(),
{
    if subdivisions.len() > 0 {
        lemma_subdivisions_in_order(subdivisions.drop_last(), names.drop_last());
    }
}

/// A record with a city, subdivisions and a postal code, each city and
/// subdivision with a preferred name, is labelled by the city, then the
/// subdivisions in the record's order, then the postal code.
pub proof fn lemma_labels_in_order(
    record: GeoRecordView,
    city: Seq<char>,
    subdivisions: Seq<Seq<char>>,
    postal: Seq<char>,
)
    requires
        record.city matches Some(names) && preferred_name(names) == Some(city),
        subdivisions.len() == record.subdivisions.len(),
        forall|i: int|
            0 <= i < record.subdivisions.len() ==> preferred_name(
                #[trigger] record.subdivisions[i],
            ) == Some(subdivisions[i]),
        record.postal == Some(postal),
    ensures
        labels_of(record) == seq![city] + subdivisions + seq![postal],
{
    lemma_subdivisions_in_order(record.subdivisions, subdivisions);
}

/// A record with no city, no subdivision and no postal code has no labels,
/// and no labels render as the empty line.
pub proof fn lemma_no_parts_no_labels(record: GeoRecordView)
    requires
        record.city is None,
        record.subdivisions.len() == 0,
        record.postal is None,
    ensures
        labels_of(record) == Seq::<Seq<char>>::empty(),
        joined(labels_of(record)) == Seq::<char>::empty(),
{
}

/// An answer that is no success, or whose body could not be decoded, leaves
/// no stops, as does an attempt that got no answer.
pub proof fn lemma_failed_fetch_is_empty(fetch: Fetch)
    requires
        fetch matches Fetch::Replied { status, body } ==> !is_success(status) || body is None,
    ensures
        fetch_stops(fetch) == Seq::<Stop>::empty(),
{
}

/// An answer with a success status and a decoded body leaves the stops of
/// that body, in the order of the body.
pub proof fn lemma_served_fetch_is_kept(status: u16, stops: Vec<Stop>)
    requires
        is_success(status),
    ensures
        fetch_stops(Fetch::Replied { status, body: Some(stops) }) == stops@,
{
}

/// When discovery fails the address is the sentinel, and when the lookup of
/// an address misses, the position is unknown, there are no labels, and the
/// place renders as the empty line.
pub proof fn lemma_failure_degrades()
    ensures
        resolved_address(None) == sentinel_address(),
        located_position(None) == unknown_position(),
        located_labels(None) == Seq::<Seq<char>>::empty(),
        joined(located_labels(None)) == Seq::<char>::empty(),
{
}

/// Whatever the address and the settings, a lookup that misses leaves the
/// run with the unknown position and an empty place; the run goes on.
pub proof fn lemma_miss_shows_nothing(stage: Locating, next: Located)
    requires
        follows_lookup(stage, None, next),
    ensures
        match next {
            Located::Fetching(fetching) => {
                &&& fetching.request.position == unknown_position()
                &&& fetching.place@ == Seq::<char>::empty()
                &&& fetching.address == stage.address
            },
            Located::Finished(resolution) => {
                &&& resolution.position == unknown_position()
                &&& resolution.place@ == Seq::<char>::empty()
                &&& resolution.address == stage.address
            },
        },
{
}

/// Without a credential a run ends at the lookup, with no stops and with a
/// status that says why; it never fails.
pub proof fn lemma_no_credential_no_stops(stage: Locating, lookup: Option<GeoRecord>, next: Located)
    requires
        stage.settings.credential is None,
        follows_lookup(stage, lookup, next),
    ensures
        next matches Located::Finished(resolution) && resolution.stops@ == Seq::<Stop>::empty()
            && resolution.diagnostics.stops == StopStatus::CredentialMissing,
{
}

/// The two initialization errors are told apart by their messages.
pub proof fn lemma_init_errors_are_told_apart(a: InitError, b: InitError)
    requires
        a != b,
    ensures
        init_error_text(a) != init_error_text(b),
{
    reveal_strlit("geo database not found");
    reveal_strlit("geo database is corrupt");
    assert("geo database not found"@.len() != "geo database is corrupt"@.len());
}

/// Position and labels are functions of the record: two derivations from
/// one record agree.
pub proof fn lemma_derivation_repeats(
    record: GeoRecord,
    first_position: Position,
    second_position: Position,
    first_labels: Seq<String>,
    second_labels: Seq<String>,
)
    requires
        first_position == position_of(record@),
        second_position == position_of(record@),
        texts(first_labels) == labels_of(record@),
        texts(second_labels) == labels_of(record@),
    ensures
        first_position == second_position,
        texts(first_labels) == texts(second_labels),
        joined(texts(first_labels)) == joined(texts(second_labels)),
{
}

} // verus!
