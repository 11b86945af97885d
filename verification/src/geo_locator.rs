//! From a geo record to a position and a place description.
//!
//! The offline database is read by the caller, who hands over what a lookup
//! found as a [`GeoRecord`]. Everything here is a function of that record.

use vstd::prelude::*;
use crate::names::NameSet;
use crate::position::{Position, Scalar, unknown_position};

verus! {

/// The coordinates of a record; either may be missing.
#[derive(Clone, Copy, Debug, PartialEq, Eq, Structural)]
pub struct Location {
    pub latitude: Option<Scalar>,
    pub longitude: Option<Scalar>,
}

/// What a lookup of one address found. Every part is optional.
pub struct GeoRecord {
    /// The names of the city.
    pub city: Option<NameSet>,
    /// The names of the subdivisions, the coarsest first.
    pub subdivisions: Vec<NameSet>,
    /// The postal code.
    pub postal: Option<String>,
    /// The coordinates.
    pub location: Option<Location>,
}

/// A [`GeoRecord`] as a mathematical value.
pub struct GeoRecordView {
    pub city: Option<Map<Seq<char>, Seq<char>>>,
    pub subdivisions: Seq<Map<Seq<char>, Seq<char>>>,
    pub postal: Option<Seq<char>>,
    pub location: Option<Location>,
}

impl View for GeoRecord {
    type V = GeoRecordView;

    open spec fn view(&self) -> GeoRecordView {
        GeoRecordView {
            city: match self.city {
                Some(names) => Some(names@),
                None => None,
            },
            subdivisions: self.subdivisions@.map_values(|names: NameSet| names@),
            postal: match self.postal {
                Some(code) => Some(code@),
                None => None,
            },
            location: self.location,
        }
    }
}

/// The view of a lookup's outcome: of the record, where one was found.
pub open spec fn lookup_view(lookup: Option<GeoRecord>) -> Option<GeoRecordView> {
    match lookup {
        Some(record) => Some(record@),
        None => None,
    }
}

/// The locale whose names are shown: `en`.
pub open spec fn default_locale() -> Seq<char> {
    "en"@
}

/// What stands between two labels of a rendered place: a comma and a space.
pub open spec fn separator() -> Seq<char> {
    ", "@
}

/// The name shown for a name set: the one under the default locale. A set
/// without that locale shows nothing, whatever other names it holds.
pub open spec fn preferred_name(names: Map<Seq<char>, Seq<char>>) -> Option<Seq<char>> {
    if names.contains_key(default_locale()) {
        Some(names[default_locale()])
    } else {
        None
    }
}

/// No label or one.
pub open spec fn optional_label(label: Option<Seq<char>>) -> Seq<Seq<char>> {
    match label {
        Some(text) => seq![text],
        None => Seq::empty(),
    }
}

/// The label of the city, if the record has a city with a preferred name.
pub open spec fn city_label(city: Option<Map<Seq<char>, Seq<char>>>) -> Seq<Seq<char>> {
    match city {
        Some(names) => optional_label(preferred_name(names)),
        None => Seq::empty(),
    }
}

/// The preferred names of the subdivisions, in the order of the subdivisions;
/// one without a preferred name is passed over.
pub open spec fn subdivision_labels(subdivisions: Seq<Map<Seq<char>, Seq<char>>>) -> Seq<Seq<char>>
    decreases subdivisions.len(),
{
    if subdivisions.len() == 0 {
        Seq::empty()
    } else {
        subdivision_labels(subdivisions.drop_last())
            + optional_label(preferred_name(subdivisions.last()))
    }
}

/// The labels of a record: the city, then the subdivisions, then the postal code.
pub open spec fn labels_of(record: GeoRecordView) -> Seq<Seq<char>> {
    city_label(record.city) + subdivision_labels(record.subdivisions) + optional_label(
        record.postal,
    )
}

/// The position of a record: its coordinates where it has both, else unknown.
pub open spec fn position_of(record: GeoRecordView) -> Position {
    match record.location {
        Some(Location { latitude: Some(latitude), longitude: Some(longitude) }) => Position {
            latitude,
            longitude,
        },
        _ => unknown_position(),
    }
}

/// The position that a lookup's outcome stands for; a miss is unknown.
pub open spec fn located_position(lookup: Option<GeoRecordView>) -> Position {
    match lookup {
        Some(record) => position_of(record),
        None => unknown_position(),
    }
}

/// The labels that a lookup's outcome stands for; a miss has none.
pub open spec fn located_labels(lookup: Option<GeoRecordView>) -> Seq<Seq<char>> {
    match lookup {
        Some(record) => labels_of(record),
        None => Seq::empty(),
    }
}

/// The text of each string of a sequence.
pub open spec fn texts(strings: Seq<String>) -> Seq<Seq<char>> {
    strings.map_values(|s: String| s@)
}

/// The labels joined into one line, the separator between each two.
pub open spec fn joined(labels: Seq<Seq<char>>) -> Seq<char>
    decreases labels.len(),
{
    if labels.len() == 0 {
        Seq::empty()
    } else if labels.len() == 1 {
        labels[0]
    } else {
        joined(labels.drop_last()) + separator() + labels.last()
    }
}

/// The position of `record`: its coordinates if it has a location with both,
/// else `(0, 0)`.
pub fn derive_position(record: &GeoRecord) -> (position: Position)
    ensures
        position == position_of(record@),
{
    match record.location {
        Some(location) => match (location.latitude, location.longitude) {
            (Some(latitude), Some(longitude)) => Position { latitude, longitude },
            _ => Position::unknown(),
        },
        None => Position::unknown(),
    }
}

/// Appends the preferred name of `names` to `labels`, if there is one.
fn push_preferred(labels: &mut Vec<String>, names: &NameSet)
    ensures
        texts(final(labels)@) == texts(old(labels)@) + optional_label(preferred_name(names@)),
{
    proof {
        reveal_strlit("en");
    }
    if let Some(name) = names.get("en") {
        labels.push(name.clone());
    }
}

/// The labels of `record`: the preferred name of the city, then that of each
/// subdivision in the record's order, then the postal code. A part that is
/// missing contributes nothing.
pub fn derive_labels(record: &GeoRecord) -> (labels: Vec<String>)
    ensures
        texts(labels@) == labels_of(record@),
{
    let mut labels: Vec<String> = Vec::new();
    if let Some(names) = &record.city {
        push_preferred(&mut labels, names);
    }
    let mut k: usize = 0;
    while k < record.subdivisions.len()
        invariant
            k <= record.subdivisions.len(),
            texts(labels@) == city_label(record@.city) + subdivision_labels(
                record@.subdivisions.take(k as int),
            ),
        decreases record.subdivisions.len() - k,
    {
        push_preferred(&mut labels, &record.subdivisions[k]);
        assert(record@.subdivisions.take(k + 1).drop_last() =~= record@.subdivisions.take(
            k as int,
        ));
        k += 1;
    }
    assert(record@.subdivisions.take(k as int) =~= record@.subdivisions);
    if let Some(code) = &record.postal {
        labels.push(code.clone());
    }
    labels
}

/// Renders labels as one line: the labels in their order, `", "` between each
/// two. No labels give the empty line.
pub fn render_labels(labels: &Vec<String>) -> (line: String)
    ensures
        line@ == joined(texts(labels@)),
{
    let mut line = String::new();
    let mut i: usize = 0;
    while i < labels.len()
        invariant
            i <= labels.len(),
            line@ == joined(texts(labels@).take(i as int)),
        decreases labels.len() - i,
    {
        if i > 0 {
            line.append(", ");
        }
        line.append(labels[i].as_str());
        assert(texts(labels@).take(i + 1).drop_last() =~= texts(labels@).take(i as int));
        i += 1;
    }
    assert(texts(labels@).take(i as int) =~= texts(labels@));
    line
}

/// A located place: where it is and what it is called.
pub struct Place {
    pub position: Position,
    pub labels: Vec<String>,
}

/// Settles the outcome of one lookup. A record gives its position and labels;
/// a miss, or a record that could not be decoded, gives the unknown position
/// and no labels.
pub fn locate(lookup: &Option<GeoRecord>) -> (place: Place)
    ensures
        place.position == located_position(lookup_view(*lookup)),
        texts(place.labels@) == located_labels(lookup_view(*lookup)),
{
    match lookup {
        Some(record) => Place {
            position: derive_position(record),
            labels: derive_labels(record),
        },
        None => Place { position: Position::unknown(), labels: Vec::new() },
    }
}

} // verus!
