use vstd::prelude::*;

use crate::unpack::{
    archive_payload, raw_payload, result_view, unpack_archive, unpack_raw, AcquireError,
};

verus! {

/// How a source's body holds the database.
#[derive(Debug, PartialEq, Eq, Structural, Clone, Copy)]
pub enum SourceKind {
    /// The database file itself, gzip-compressed where the URL ends in `.gz`.
    RawFile,
    /// A gzip-compressed tar archive with the database among its entries.
    Archive,
}

/// A place to download the database from.
#[derive(Debug)]
pub struct Source {
    pub url: String,
    pub kind: SourceKind,
}

/// The settings that decide where the database is downloaded from.
#[derive(Debug)]
pub struct AcquireConfig {
    /// A direct download URL, tried first.
    pub download_url: Option<String>,
    /// A vendor license key, tried second.
    pub license_key: Option<String>,
    /// The vendor's edition identifier, used with the license key.
    pub edition_id: String,
    /// A public URL tried last; a default test database where unset.
    pub fallback_url: Option<String>,
}

/// The next step of acquiring the database.
#[derive(Debug)]
pub enum Action {
    /// The database file is in place.
    Done,
    /// Download from this source, then report whether it succeeded.
    Fetch(Source),
    /// Acquisition has failed.
    Fail(AcquireError),
}

/// The longest a single download may take, in milliseconds.
pub const MAX_FETCH_TIMEOUT_MS: u64 = 5000;

/// The timeout of each download: the configured one, capped.
pub fn capped_timeout_ms(configured_ms: u64) -> (r: u64)
    ensures
        r == if configured_ms < MAX_FETCH_TIMEOUT_MS { configured_ms } else { MAX_FETCH_TIMEOUT_MS },
{
    if configured_ms < MAX_FETCH_TIMEOUT_MS {
        configured_ms
    } else {
        MAX_FETCH_TIMEOUT_MS
    }
}

/// The vendor download endpoint, up to the edition identifier.
pub open spec fn vendor_prefix() -> Seq<char> {
    "https://download.maxmind.com/app/geoip_download?edition_id="@
}

/// The query parameter that carries the license key.
pub open spec fn key_param() -> Seq<char> {
    "&license_key="@
}

/// The query parameter that asks for a compressed archive.
pub open spec fn suffix_param() -> Seq<char> {
    "&suffix=tar.gz"@
}

/// The public test database used where no fallback URL is configured.
pub open spec fn default_fallback() -> Seq<char> {
    "https://raw.githubusercontent.com/maxmind/MaxMind-DB/main/test-data/GeoLite2-City-Test.mmdb"@
}

/// The vendor download URL for an edition and a license key.
pub open spec fn vendor_url(edition: Seq<char>, key: Seq<char>) -> Seq<char> {
    vendor_prefix() + edition + key_param() + key + suffix_param()
}

/// What a source is, as values.
pub open spec fn source_view(s: Source) -> (Seq<char>, SourceKind) {
    (s.url@, s.kind)
}

/// The sources to try, in order: the direct URL where set, the vendor where
/// a license key is set, and always the fallback last.
pub open spec fn planned(c: AcquireConfig) -> Seq<(Seq<char>, SourceKind)> {
    let custom = match c.download_url {
        Some(u) => seq![(u@, SourceKind::RawFile)],
        None => Seq::empty(),
    };
    let vendor = match c.license_key {
        Some(k) => seq![(vendor_url(c.edition_id@, k@), SourceKind::Archive)],
        None => Seq::empty(),
    };
    let fallback = match c.fallback_url {
        Some(u) => u@,
        None => default_fallback(),
    };
    custom + vendor + seq![(fallback, SourceKind::RawFile)]
}

/// The database bytes that a body downloaded from a source holds.
pub open spec fn payload_of(s: (Seq<char>, SourceKind), body: Seq<u8>) -> Result<Seq<u8>, AcquireError> {
    match s.1 {
        SourceKind::RawFile => raw_payload(s.0, body),
        SourceKind::Archive => archive_payload(body),
    }
}

/// The vendor download URL for an edition and a license key.
pub fn build_vendor_url(edition: &str, key: &str) -> (r: String)
    ensures
        r@ == vendor_url(edition@, key@),
{
    let mut url = String::from_str("https://download.maxmind.com/app/geoip_download?edition_id=");
    url.append(edition);
    url.append("&license_key=");
    url.append(key);
    url.append("&suffix=tar.gz");
    proof {
        assert(url@ =~= vendor_url(edition@, key@));
    }
    url
}

/// A copy of a source.
fn copy_source(s: &Source) -> (r: Source)
    ensures
        source_view(r) == source_view(*s),
{
    Source { url: s.url.clone(), kind: s.kind }
}

/// The sources to try, in order.
pub fn plan_sources(config: &AcquireConfig) -> (r: Vec<Source>)
    ensures
        r@.map_values(|s: Source| source_view(s)) == planned(*config),
{
    let mut v: Vec<Source> = Vec::new();
    match &config.download_url {
        Some(u) => v.push(Source { url: u.clone(), kind: SourceKind::RawFile }),
        None => {},
    }
    match &config.license_key {
        Some(k) => v.push(Source { url: build_vendor_url(config.edition_id.as_str(), k.as_str()), kind: SourceKind::Archive }),
        None => {},
    }
    let fallback = match &config.fallback_url {
        Some(u) => u.clone(),
        None => String::from_str("https://raw.githubusercontent.com/maxmind/MaxMind-DB/main/test-data/GeoLite2-City-Test.mmdb"),
    };
    v.push(Source { url: fallback, kind: SourceKind::RawFile });
    proof {
        assert(v@.map_values(|s: Source| source_view(s)) =~= planned(*config));
    }
    v
}

/// The database bytes in a body downloaded from `source`.
pub fn prepare_payload(source: &Source, body: Vec<u8>) -> (r: Result<Vec<u8>, AcquireError>)
    ensures
        result_view(r) == payload_of(source_view(*source), body@),
{
    match source.kind {
        SourceKind::RawFile => unpack_raw(source.url.as_str(), body),
        SourceKind::Archive => unpack_archive(&body),
    }
}

/// The progress of trying the sources in order.
pub struct Acquisition {
    sources: Vec<Source>,
    current: usize,
}

impl Acquisition {
    /// The sources to try, as values.
    pub closed spec fn plan(&self) -> Seq<(Seq<char>, SourceKind)> {
        self.sources@.map_values(|s: Source| source_view(s))
    }

    /// The index of the source being tried.
    pub closed spec fn cursor(&self) -> int {
        self.current as int
    }

    /// The action that tries the source at the cursor, or fails where none is left.
    pub open spec fn attempt(&self, a: Action) -> bool {
        if self.cursor() < self.plan().len() {
            a matches Action::Fetch(s) && source_view(s) == self.plan()[self.cursor()]
        } else {
            a == Action::Fail(AcquireError::Exhausted)
        }
    }

    /// An acquisition over the configured sources, before any is tried.
    pub fn new(config: &AcquireConfig) -> (r: Acquisition)
        ensures
            r.plan() == planned(*config),
            r.cursor() == 0,
    {
        Acquisition { sources: plan_sources(config), current: 0 }
    }

    /// The action for the source at the cursor.
    fn try_current(&self) -> (r: Action)
        ensures
            self.attempt(r),
    {
        if self.current < self.sources.len() {
            Action::Fetch(copy_source(&self.sources[self.current]))
        } else {
            Action::Fail(AcquireError::Exhausted)
        }
    }

    /// The first step: nothing where the database file already exists, else
    /// a download from the first source.
    pub fn begin(&mut self, file_exists: bool) -> (r: Action)
        ensures
            final(self).plan() == old(self).plan(),
            file_exists ==> r == Action::Done && final(self).cursor() == old(self).cursor(),
            !file_exists ==> final(self).cursor() == 0 && final(self).attempt(r),
    {
        if file_exists {
            return Action::Done;
        }
        self.current = 0;
        self.try_current()
    }

    /// The step after the download from the current source: done where it
    /// succeeded, else a download from the next source, or failure where
    /// every source has been tried.
    pub fn on_fetch_result(&mut self, succeeded: bool) -> (r: Action)
        ensures
            final(self).plan() == old(self).plan(),
            succeeded ==> r == Action::Done && final(self).cursor() == old(self).cursor(),
            !succeeded && old(self).cursor() < old(self).plan().len() ==> final(self).cursor() == old(self).cursor() + 1
                && final(self).attempt(r),
            !succeeded && old(self).cursor() >= old(self).plan().len() ==> r == Action::Fail(AcquireError::Exhausted)
                && final(self).cursor() == old(self).cursor(),
    {
        if succeeded {
            return Action::Done;
        }
        if self.current < self.sources.len() {
            self.current = self.current + 1;
        }
        self.try_current()
    }
}

} // verus!
