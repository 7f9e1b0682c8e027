use vstd::prelude::*;

use crate::point::{copy_outcome, describes, extract_point, has_coordinates, CityRecord, GeoPoint};

verus! {

/// What the decoder reported for an address that was not cached yet.
#[derive(Debug)]
pub enum DecodeEvent {
    /// The text is not an IP address.
    InvalidAddress,
    /// No database is loaded.
    NoDecoder,
    /// The address is valid but absent from the database.
    NotFound,
    /// The database could not be read for this address.
    Failed,
    /// The database holds this record for the address.
    Found(CityRecord),
}

/// The answer of a cache probe.
#[derive(Debug)]
pub enum Probe {
    /// The empty address: no lookup is made, the answer is `None`.
    Skip,
    /// The address is cached with this outcome.
    Hit(Option<GeoPoint>),
    /// The address has not been seen: decode it, then call `complete`.
    Miss,
}

/// The result of completing a lookup.
#[derive(Debug)]
pub struct Completion {
    pub outcome: Option<GeoPoint>,
    /// Set on the first decode failure the service sees, and on no other.
    pub warn_decode_error: bool,
}

/// Lookup outcomes by address, and the latch that lets one decode failure be
/// reported.
pub struct GeoIpService {
    entries: Vec<(String, Option<GeoPoint>)>,
    model: Ghost<Map<Seq<char>, Option<GeoPoint>>>,
    lookup_error_logged: bool,
}

/// The map that a list of pairs describes, later pairs replacing earlier ones.
pub open spec fn pairs_map(pairs: Seq<(String, Option<GeoPoint>)>) -> Map<Seq<char>, Option<GeoPoint>>
    decreases pairs.len(),
{
    if pairs.len() == 0 {
        Map::empty()
    } else {
        pairs_map(pairs.drop_last()).insert(pairs.last().0@, pairs.last().1)
    }
}

/// Whether `o` is what a lookup yields after the decoder reported `event`.
pub open spec fn outcome_for(event: DecodeEvent, o: Option<GeoPoint>) -> bool {
    match event {
        DecodeEvent::Found(r) => (o is Some <==> has_coordinates(r)) && (o matches Some(p) ==> describes(p, r)),
        _ => o is None,
    }
}

/// The answer a probe of `address` gives on a cache `m`.
pub open spec fn probe_of(m: Map<Seq<char>, Option<GeoPoint>>, address: Seq<char>) -> Probe {
    if address.len() == 0 {
        Probe::Skip
    } else if m.contains_key(address) {
        Probe::Hit(m[address])
    } else {
        Probe::Miss
    }
}

impl View for GeoIpService {
    type V = Map<Seq<char>, Option<GeoPoint>>;

    closed spec fn view(&self) -> Map<Seq<char>, Option<GeoPoint>> {
        self.model@
    }
}

/// Whether `after` and `c` are the state and result of completing a lookup of
/// `address` on `before`, with `event` reported by the decoder.
pub open spec fn completes(
    before: GeoIpService,
    after: GeoIpService,
    address: Seq<char>,
    event: DecodeEvent,
    c: Completion,
) -> bool {
    &&& after.wf()
    &&& address.len() > 0 ==> outcome_for(event, c.outcome)
    &&& address.len() == 0 ==> c.outcome is None && after@ == before@
    &&& address.len() > 0 ==> after@ == before@.insert(address, c.outcome)
    &&& c.warn_decode_error == (address.len() > 0 && event is Failed && !before.error_logged())
    &&& after.error_logged() == (before.error_logged() || (address.len() > 0 && event is Failed))
}

impl GeoIpService {
    /// The internal consistency of the service: cached keys are unique, and
    /// the list and the map hold the same pairs.
    pub closed spec fn wf(&self) -> bool {
        &&& forall|i: int, j: int|
            0 <= i < j < self.entries@.len() ==> self.entries@[i].0@ != self.entries@[j].0@
        &&& forall|i: int|
            0 <= i < self.entries@.len() ==> #[trigger] self.model@.contains_key(self.entries@[i].0@)
                && self.model@[self.entries@[i].0@] == self.entries@[i].1
        &&& forall|k: Seq<char>|
            #[trigger] self.model@.contains_key(k) ==> exists|i: int|
                0 <= i < self.entries@.len() && self.entries@[i].0@ == k
    }

    /// Whether a decode failure has already been reported.
    pub closed spec fn error_logged(&self) -> bool {
        self.lookup_error_logged
    }

    /// A service with an empty cache.
    pub fn new() -> (r: GeoIpService)
        ensures
            r.wf(),
            r@ == Map::<Seq<char>, Option<GeoPoint>>::empty(),
            !r.error_logged(),
    {
        GeoIpService { entries: Vec::new(), model: Ghost(Map::empty()), lookup_error_logged: false }
    }

    /// A service whose cache starts with the given pairs.
    pub fn from_static(pairs: Vec<(String, Option<GeoPoint>)>) -> (r: GeoIpService)
        ensures
            r.wf(),
            r@ == pairs_map(pairs@),
            !r.error_logged(),
    {
        let mut s = GeoIpService::new();
        let mut i: usize = 0;
        while i < pairs.len()
            invariant
                i <= pairs@.len(),
                s.wf(),
                !s.error_logged(),
                s@ == pairs_map(pairs@.subrange(0, i as int)),
            decreases pairs.len() - i,
        {
            proof {
                assert(pairs@.subrange(0, i + 1).drop_last() =~= pairs@.subrange(0, i as int));
            }
            let v = copy_outcome(&pairs[i].1);
            s.store(pairs[i].0.as_str(), v);
            i = i + 1;
        }
        proof {
            assert(pairs@.subrange(0, pairs@.len() as int) =~= pairs@);
        }
        s
    }

    /// The position of `key` in the cache list, if it is cached.
    fn position(&self, key: &str) -> (r: Option<usize>)
        requires
            self.wf(),
        ensures
            r is None <==> !self@.contains_key(key@),
            r matches Some(i) ==> i < self.entries@.len() && self.entries@[i as int].0@ == key@,
    {
        let k = String::from_str(key);
        let mut i: usize = 0;
        while i < self.entries.len()
            invariant
                self.wf(),
                k@ == key@,
                i <= self.entries@.len(),
                forall|j: int| 0 <= j < i ==> self.entries@[j].0@ != key@,
            decreases self.entries.len() - i,
        {
            if self.entries[i].0 == k {
                return Some(i);
            }
            i = i + 1;
        }
        None
    }

    /// Stores `value` under `key`, replacing what was there.
    pub fn store(&mut self, key: &str, value: Option<GeoPoint>)
        requires
            old(self).wf(),
        ensures
            final(self).wf(),
            final(self)@ == old(self)@.insert(key@, value),
            final(self).error_logged() == old(self).error_logged(),
    {
        let ghost v = value;
        match self.position(key) {
            Some(i) => {
                let k = String::from_str(key);
                self.entries.set(i, (k, value));
            },
            None => {
                let k = String::from_str(key);
                self.entries.push((k, value));
            },
        }
        self.model = Ghost(self.model@.insert(key@, v));
        proof {
            let e = self.entries@;
            assert forall|k: Seq<char>| #[trigger] self.model@.contains_key(k) implies exists|i: int|
                0 <= i < e.len() && e[i].0@ == k by {
                if k != key@ {
                    let j = choose|j: int| 0 <= j < old(self).entries@.len() && old(self).entries@[j].0@ == k;
                    assert(e[j].0@ == k);
                } else {
                    let j = if old(self)@.contains_key(key@) {
                        choose|j: int| 0 <= j < old(self).entries@.len() && old(self).entries@[j].0@ == key@
                    } else {
                        old(self).entries@.len() as int
                    };
                    assert(e[j].0@ == k);
                }
            }
        }
    }

    /// The cache's answer for `address`.
    pub fn probe(&self, address: &str) -> (r: Probe)
        requires
            self.wf(),
        ensures
            r == probe_of(self@, address@),
    {
        if address.is_empty() {
            return Probe::Skip;
        }
        match self.position(address) {
            Some(i) => Probe::Hit(copy_outcome(&self.entries[i].1)),
            None => Probe::Miss,
        }
    }

    /// Sets the latch; returns whether it was clear, that is whether this
    /// failure is the one to report.
    fn note_decode_error(&mut self) -> (r: bool)
        ensures
            r == !old(self).error_logged(),
            final(self).error_logged(),
            final(self).entries == old(self).entries,
            final(self).model == old(self).model,
    {
        let was = self.lookup_error_logged;
        self.lookup_error_logged = true;
        !was
    }

    /// Finishes the lookup of `address` that missed the cache: decides the
    /// outcome from what the decoder reported, caches it, and says whether a
    /// decode failure is to be reported. The empty address is never cached.
    pub fn complete(&mut self, address: &str, event: DecodeEvent) -> (c: Completion)
        requires
            old(self).wf(),
        ensures
            completes(*old(self), *final(self), address@, event, c),
    {
        if address.is_empty() {
            return Completion { outcome: None, warn_decode_error: false };
        }
        let mut warn = false;
        let outcome = match event {
            DecodeEvent::Found(record) => extract_point(&record),
            DecodeEvent::Failed => {
                warn = self.note_decode_error();
                None
            },
            _ => None,
        };
        let stored = copy_outcome(&outcome);
        self.store(address, stored);
        Completion { outcome, warn_decode_error: warn }
    }
}

} // verus!
