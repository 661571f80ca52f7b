//! The database handle and the single-lookup path. A handle is an immutable
//! binding to one loaded database snapshot; the probe into it is the
//! `maxminddb` crate's and is trusted, so everything this module promises is
//! about what happens around the probe: malformed addresses are rejected
//! before it, and its outcome is mapped to the caller's result exactly.

use vstd::prelude::*;
use crate::ip::{parse_ip, spec_parse_ip};
use crate::record::GeoData;

verus! {

/// One loaded database snapshot: the `maxminddb` crate's reader over the
/// snapshot's bytes. Verus sees a value of this type only as an opaque
/// binding; the reader type itself cannot be declared to Verus, its generic
/// parameter being bound by a conversion trait Verus does not know.
#[verifier::external_body]
pub struct DbReader {
    inner: maxminddb::Reader<Vec<u8>>,
}

/// Relies on maxminddb::Reader::from_source: parses the given bytes as a
/// database snapshot, yielding a handle exactly when they carry one that is
/// well formed. Whether they do is the database format's own affair, so
/// nothing more is promised; both outcomes are handled by every caller.
#[verifier::external_body]
pub fn load_db(bytes: Vec<u8>) -> (r: Option<DbReader>) {
    match maxminddb::Reader::from_source(bytes) {
        Ok(inner) => Some(DbReader { inner }),
        Err(_) => None,
    }
}

/// Why a lookup returned no record: the request's text is not an IP
/// address, the database has no record for the address, or the probe into
/// the database failed.
#[derive(Clone, Copy, PartialEq, Eq, Structural, Debug)]
pub enum LookupError {
    InvalidInput,
    NotFound,
    Internal,
}

/// What one probe into the database yielded, as plain values.
pub enum ResolveOutcome {
    Found(GeoData),
    NotFound,
    Failed,
}

/// The result owed for each probe outcome: a found record is returned, a
/// missing record is `NotFound`, a failed probe is `Internal`. Never
/// `InvalidInput`: that is decided before any probe.
pub open spec fn spec_outcome_result(o: ResolveOutcome) -> Result<GeoData, LookupError> {
    match o {
        ResolveOutcome::Found(d) => Ok(d),
        ResolveOutcome::NotFound => Err(LookupError::NotFound),
        ResolveOutcome::Failed => Err(LookupError::Internal),
    }
}

pub fn outcome_to_result(o: ResolveOutcome) -> (r: Result<GeoData, LookupError>)
    ensures
        r == spec_outcome_result(o),
{
    match o {
        ResolveOutcome::Found(d) => Ok(d),
        ResolveOutcome::NotFound => Err(LookupError::NotFound),
        ResolveOutcome::Failed => Err(LookupError::Internal),
    }
}

/// An immutable binding to one loaded database snapshot. Lookups borrow it;
/// a refresh never touches an existing handle, it only publishes a new one.
pub struct GeoLocator {
    reader: DbReader,
}

impl GeoLocator {
    /// Wrap an already-loaded database. Reading the snapshot's bytes off
    /// disk is the caller's: it is the one step of a handle's life that
    /// touches the filesystem.
    pub fn new(reader: DbReader) -> (r: GeoLocator) {
        GeoLocator { reader }
    }

    /// Relies on maxminddb::Reader::lookup and LookupResult::decode: walks
    /// the database's search tree for the address and decodes the record
    /// found there, if any. The outcome depends on the loaded database
    /// bytes, so nothing is promised of it; str::parse re-reads the address
    /// text, which the verified caller has already checked.
    #[verifier::external_body]
    pub(crate) fn probe(&self, ip: &str) -> (r: ResolveOutcome) {
        let Ok(addr) = ip.parse() else { return ResolveOutcome::Failed };
        let Ok(res) = self.reader.inner.lookup(addr) else { return ResolveOutcome::Failed };
        match res.decode::<maxminddb::geoip2::City>() {
            Ok(Some(c)) => ResolveOutcome::Found(GeoData {
                country: c.country.names.english.map(|s| s.to_string()),
                city: c.city.names.english.map(|s| s.to_string()),
                latitude_bits: c.location.latitude.map(|v| v.to_bits()),
                longitude_bits: c.location.longitude.map(|v| v.to_bits()),
                timezone: c.location.time_zone.map(|s| s.to_string()),
            }),
            Ok(None) => ResolveOutcome::NotFound,
            Err(_) => ResolveOutcome::Failed,
        }
    }

    /// One uncached lookup: reject text that is not an IP address, then
    /// probe the database and hand back exactly what the probe's outcome
    /// owes. `InvalidInput` comes exactly on malformed text, before any
    /// probe.
    pub fn lookup(&self, ip: &str) -> (r: Result<GeoData, LookupError>)
        ensures
            (spec_parse_ip(ip@) is None) <==> r == Err::<GeoData, LookupError>(
                LookupError::InvalidInput,
            ),
    {
        match parse_ip(ip) {
            None => Err(LookupError::InvalidInput),
            Some(_) => outcome_to_result(self.probe(ip)),
        }
    }
}

} // verus!
