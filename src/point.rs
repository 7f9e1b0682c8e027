use vstd::prelude::*;

verus! {

/// A name table of a database record: pairs of language code and name.
pub type NameTable = Vec<(String, String)>;

/// A resolved location.
///
/// The coordinates are the IEEE-754 bit patterns of the database's
/// double-precision degrees, so that they pass through the library unchanged.
#[derive(Debug)]
pub struct GeoPoint {
    pub latitude_bits: u64,
    pub longitude_bits: u64,
    pub city: Option<String>,
    pub country: Option<String>,
}

/// The coordinates section of a decoded record.
#[derive(Debug)]
pub struct LocationRecord {
    pub latitude_bits: Option<u64>,
    pub longitude_bits: Option<u64>,
}

/// The parts of a decoded city record that a lookup reads.
#[derive(Debug)]
pub struct CityRecord {
    pub location: Option<LocationRecord>,
    pub city_names: Option<NameTable>,
    pub country_names: Option<NameTable>,
}

/// The language code under which names are read.
pub open spec fn english() -> Seq<char> {
    seq!['e', 'n']
}

/// The name stored under `lang` in a table: the first entry with that code.
pub open spec fn name_in(table: Seq<(String, String)>, lang: Seq<char>) -> Option<Seq<char>>
    decreases table.len(),
{
    if table.len() == 0 {
        None
    } else if table[0].0@ == lang {
        Some(table[0].1@)
    } else {
        name_in(table.drop_first(), lang)
    }
}

/// The English name held by an optional name table.
pub open spec fn english_name(names: Option<NameTable>) -> Option<Seq<char>> {
    match names {
        Some(t) => name_in(t@, english()),
        None => None,
    }
}

/// The view of an optional string.
pub open spec fn opt_view(s: Option<String>) -> Option<Seq<char>> {
    match s {
        Some(v) => Some(v@),
        None => None,
    }
}

/// Whether a record carries both coordinates.
pub open spec fn has_coordinates(r: CityRecord) -> bool {
    r.location is Some && r.location->0.latitude_bits is Some
        && r.location->0.longitude_bits is Some
}

/// Whether `p` is the point that record `r` describes: its coordinates, and
/// its English city and country names, each independently of the other.
pub open spec fn describes(p: GeoPoint, r: CityRecord) -> bool {
    &&& has_coordinates(r)
    &&& p.latitude_bits == r.location->0.latitude_bits->0
    &&& p.longitude_bits == r.location->0.longitude_bits->0
    &&& opt_view(p.city) == english_name(r.city_names)
    &&& opt_view(p.country) == english_name(r.country_names)
}

/// A copy of an optional string.
pub fn copy_name(s: &Option<String>) -> (r: Option<String>)
    ensures
        r == *s,
{
    match s {
        Some(v) => Some(v.clone()),
        None => None,
    }
}

impl GeoPoint {
    /// A copy of this point.
    pub fn copy(&self) -> (r: GeoPoint)
        ensures
            r == *self,
    {
        GeoPoint {
            latitude_bits: self.latitude_bits,
            longitude_bits: self.longitude_bits,
            city: copy_name(&self.city),
            country: copy_name(&self.country),
        }
    }
}

/// A copy of an optional point.
pub fn copy_outcome(o: &Option<GeoPoint>) -> (r: Option<GeoPoint>)
    ensures
        r == *o,
{
    match o {
        Some(p) => Some(p.copy()),
        None => None,
    }
}

/// The name stored under the English language code, if any.
pub fn english_name_of(names: &Option<NameTable>) -> (r: Option<String>)
    ensures
        opt_view(r) == english_name(*names),
{
    match names {
        Some(table) => english_entry(table),
        None => None,
    }
}

/// The name stored under the English language code in a table.
pub fn english_entry(table: &NameTable) -> (r: Option<String>)
    ensures
        opt_view(r) == name_in(table@, english()),
{
    let en = String::from_str("en");
    proof {
        reveal_strlit("en");
        assert(en@ =~= english());
        assert(table@.subrange(0, table@.len() as int) =~= table@);
    }
    let mut i: usize = 0;
    while i < table.len()
        invariant
            i <= table@.len(),
            en@ == english(),
            name_in(table@, english()) == name_in(table@.subrange(i as int, table@.len() as int), english()),
        decreases table.len() - i,
    {
        proof {
            let rest = table@.subrange(i as int, table@.len() as int);
            assert(rest.drop_first() =~= table@.subrange(i + 1, table@.len() as int));
            assert(rest[0] == table@[i as int]);
        }
        if table[i].0 == en {
            let name = table[i].1.clone();
            proof {
                let rest = table@.subrange(i as int, table@.len() as int);
                assert(rest.len() > 0 && rest[0].0@ == english());
                assert(name_in(rest, english()) == Some(rest[0].1@));
            }
            return Some(name);
        }
        i = i + 1;
    }
    None
}

/// The point a decoded record describes, or `None` when the record lacks a
/// location section, a latitude or a longitude.
pub fn extract_point(record: &CityRecord) -> (r: Option<GeoPoint>)
    ensures
        r is Some <==> has_coordinates(*record),
        r matches Some(p) ==> describes(p, *record),
{
    let location = match &record.location {
        Some(l) => l,
        None => return None,
    };
    let latitude_bits = match location.latitude_bits {
        Some(v) => v,
        None => return None,
    };
    let longitude_bits = match location.longitude_bits {
        Some(v) => v,
        None => return None,
    };
    let city = english_name_of(&record.city_names);
    let country = english_name_of(&record.country_names);
    Some(GeoPoint { latitude_bits, longitude_bits, city, country })
}

} // verus!
