//! The geographic record served to callers, and the cache entry that tags one
//! with the database generation that produced it.

use vstd::prelude::*;

verus! {

/// One geographic answer. Every field is independently optional: the database
/// may know any subset of them for an address. The coordinates are carried as
/// the raw bit patterns of the database's 64-bit values, so that the record
/// itself holds only plain integers; callers that want numbers reassemble
/// them outside the library.
#[derive(Clone, Debug)]
pub struct GeoData {
    pub country: Option<String>,
    pub city: Option<String>,
    pub latitude_bits: Option<u64>,
    pub longitude_bits: Option<u64>,
    pub timezone: Option<String>,
}

fn clone_opt_string(o: &Option<String>) -> (r: Option<String>)
    ensures
        r == *o,
{
    match o {
        None => None,
        Some(s) => Some(s.clone()),
    }
}

impl GeoData {
    /// An equal copy: the record again, field by field.
    pub fn duplicate(&self) -> (r: GeoData)
        ensures
            r == *self,
    {
        GeoData {
            country: clone_opt_string(&self.country),
            city: clone_opt_string(&self.city),
            latitude_bits: self.latitude_bits,
            longitude_bits: self.longitude_bits,
            timezone: clone_opt_string(&self.timezone),
        }
    }
}

/// A cached answer, tagged with the generation of the database snapshot that
/// produced it. An entry whose generation is older than the currently
/// published one is logically absent: the lookup path never returns it.
#[derive(Clone, Debug)]
pub struct CacheEntry {
    pub generation: u64,
    pub data: GeoData,
}

} // verus!
