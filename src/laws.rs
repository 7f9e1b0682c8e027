use vstd::prelude::*;

use crate::point::GeoPoint;
use crate::service::{completes, probe_of, Completion, DecodeEvent, GeoIpService, Probe};

verus! {

/// Once a lookup of a non-empty address has completed, probing the same
/// address again hits the cache and yields the identical outcome, so the
/// address is not decoded a second time.
pub proof fn lemma_repeat_lookup_hits_cache(
    before: GeoIpService,
    after: GeoIpService,
    address: Seq<char>,
    event: DecodeEvent,
    c: Completion,
)
    requires
        address.len() > 0,
        completes(before, after, address, event, c),
    ensures
        probe_of(after@, address) == Probe::Hit(c.outcome),
{
}

/// The empty address is never looked up: its probe is skipped, and
/// completing it yields `None` and leaves the cache as it was, so no entry
/// under the empty key is ever added.
pub proof fn lemma_empty_address_not_cached(
    before: GeoIpService,
    after: GeoIpService,
    event: DecodeEvent,
    c: Completion,
)
    requires
        completes(before, after, Seq::<char>::empty(), event, c),
    ensures
        probe_of(before@, Seq::<char>::empty()) == Probe::Skip,
        probe_of(after@, Seq::<char>::empty()) == Probe::Skip,
        c.outcome is None,
        after@ == before@,
        !before@.contains_key(Seq::<char>::empty()) ==> !after@.contains_key(Seq::<char>::empty()),
{
}

/// A text that is not an address yields `None`, and that outcome is cached,
/// so a later probe answers without parsing again.
pub proof fn lemma_invalid_address_cached(
    before: GeoIpService,
    after: GeoIpService,
    address: Seq<char>,
    c: Completion,
)
    requires
        address.len() > 0,
        completes(before, after, address, DecodeEvent::InvalidAddress, c),
    ensures
        c.outcome is None,
        probe_of(after@, address) == Probe::Hit(None::<GeoPoint>),
{
}

/// An address absent from the database yields `None` and leaves the
/// decode-failure latch as it was, without a report.
pub proof fn lemma_not_found_is_silent(
    before: GeoIpService,
    after: GeoIpService,
    address: Seq<char>,
    c: Completion,
)
    requires
        completes(before, after, address, DecodeEvent::NotFound, c),
    ensures
        c.outcome is None,
        !c.warn_decode_error,
        after.error_logged() == before.error_logged(),
{
}

/// A decode failure yields `None`; the first one the service sees is
/// reported, and after it no later completion of any lookup is reported.
pub proof fn lemma_decode_failure_reported_once(
    s0: GeoIpService,
    s1: GeoIpService,
    s2: GeoIpService,
    a: Seq<char>,
    b: Seq<char>,
    event: DecodeEvent,
    c1: Completion,
    c2: Completion,
)
    requires
        a.len() > 0,
        !s0.error_logged(),
        completes(s0, s1, a, DecodeEvent::Failed, c1),
        completes(s1, s2, b, event, c2),
    ensures
        c1.outcome is None,
        c1.warn_decode_error,
        s1.error_logged(),
        !c2.warn_decode_error,
        s2.error_logged(),
{
}

/// Without a loaded database every lookup of an address yields `None`, and
/// the outcome is still cached.
pub proof fn lemma_no_decoder_yields_none(
    before: GeoIpService,
    after: GeoIpService,
    address: Seq<char>,
    c: Completion,
)
    requires
        address.len() > 0,
        completes(before, after, address, DecodeEvent::NoDecoder, c),
    ensures
        c.outcome is None,
        probe_of(after@, address) == Probe::Hit(None::<GeoPoint>),
{
}

} // verus!
