//! Locale-keyed display names.

use vstd::prelude::*;

verus! {

/// One display name and the locale it is written in.
struct LocalizedName {
    locale: String,
    name: String,
}

/// The display names of one place: a mapping from locale key to name.
///
/// The names are kept in the order they were inserted; a later name for a
/// locale replaces an earlier one. Nothing of that order shows in the view,
/// which is the mapping itself.
pub struct NameSet {
    entries: Vec<LocalizedName>,
}

/// The mapping that a run of insertions builds, the first insertion first.
spec fn name_map(entries: Seq<LocalizedName>) -> Map<Seq<char>, Seq<char>>
    decreases entries.len(),
{
    if entries.len() == 0 {
        Map::empty()
    } else {
        name_map(entries.drop_last()).insert(entries.last().locale@, entries.last().name@)
    }
}

/// A locale that no entry names is not in the mapping.
proof fn lemma_name_map_absent(entries: Seq<LocalizedName>, locale: Seq<char>)
    requires
        forall|j: int| 0 <= j < entries.len() ==> entries[j].locale@ != locale,
    ensures
        !name_map(entries).contains_key(locale),
    decreases entries.len(),
{
    if entries.len() > 0 {
        lemma_name_map_absent(entries.drop_last(), locale);
    }
}

/// The last entry for a locale is the one the mapping holds.
proof fn lemma_name_map_last_wins(entries: Seq<LocalizedName>, locale: Seq<char>, i: int)
    requires
        0 <= i < entries.len(),
        entries[i].locale@ == locale,
        forall|j: int| i < j < entries.len() ==> entries[j].locale@ != locale,
    ensures
        name_map(entries).contains_key(locale),
        name_map(entries)[locale] == entries[i].name@,
    decreases entries.len(),
{
    if i < entries.len() - 1 {
        lemma_name_map_last_wins(entries.drop_last(), locale, i);
    }
}

impl View for NameSet {
    type V = Map<Seq<char>, Seq<char>>;

    closed spec fn view(&self) -> Map<Seq<char>, Seq<char>> {
        name_map(self.entries@)
    }
}

impl NameSet {
    /// The name set with no names.
    pub fn new() -> (names: NameSet)
        ensures
            names@ == Map::<Seq<char>, Seq<char>>::empty(),
    {
        NameSet { entries: Vec::new() }
    }

    /// Records `name` as the display name for `locale`, in place of any name
    /// recorded for that locale before.
    pub fn insert(&mut self, locale: &str, name: &str)
        ensures
            final(self)@ == old(self)@.insert(locale@, name@),
    {
        let entry = LocalizedName { locale: String::from_str(locale), name: String::from_str(name) };
        self.entries.push(entry);
        proof {
            assert(self.entries@.drop_last() == old(self).entries@);
        }
    }

    /// The display name for `locale`, if the set has one.
    pub fn get(&self, locale: &str) -> (found: Option<&String>)
        ensures
            found is Some <==> self@.contains_key(locale@),
            found is Some ==> found->0@ == self@[locale@],
    {
        let wanted = String::from_str(locale);
        let mut i: usize = self.entries.len();
        while i > 0
            invariant
                i <= self.entries.len(),
                wanted@ == locale@,
                forall|j: int| i <= j < self.entries.len() ==> self.entries[j].locale@ != locale@,
            decreases i,
        {
            i -= 1;
            if self.entries[i].locale == wanted {
                proof {
                    lemma_name_map_last_wins(self.entries@, locale@, i as int);
                }
                return Some(&self.entries[i].name);
            }
        }
        proof {
            lemma_name_map_absent(self.entries@, locale@);
        }
        None
    }
}

} // verus!
