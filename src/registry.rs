use vstd::prelude::*;
use chashmap::CHashMap;
use crate::addr::PeerAddr;

verus! {

#[verifier::external_type_specification]
#[verifier::external_body]
#[verifier::reject_recursive_types(K)]
#[verifier::reject_recursive_types(V)]
pub struct ExCHashMap<K, V>(CHashMap<K, V>);

/// The concurrent map that holds the sessions.
pub type PeerMap = CHashMap<PeerAddr, bool>;

/// What a session map holds: for each peer address seen, whether the
/// session key of that peer has been derived.
pub uninterp spec fn session_map(m: PeerMap) -> Map<PeerAddr, bool>;

/// The table of a server that has seen no peer.
pub open spec fn no_sessions() -> Map<PeerAddr, bool> {
    Map::empty()
}

/// Largest capacity hint passed on to the map: the map allocates a fixed
/// multiple of its hint up front, which must not overflow.
pub const MAX_CAPACITY_HINT: usize = 65536;

/// Relies on `CHashMap::with_capacity`: a new map holds no entry.
#[verifier::external_body]
fn map_with_capacity(cap: usize) -> (r: PeerMap)
    requires
        cap <= MAX_CAPACITY_HINT,
    ensures
        session_map(r) == no_sessions(),
{
    CHashMap::with_capacity(cap)
}

/// Relies on `CHashMap::get`: the value stored under the key, if any, read
/// through the guard it returns.
#[verifier::external_body]
fn map_get(m: &PeerMap, a: &PeerAddr) -> (r: Option<bool>)
    ensures
        r == (if session_map(*m).contains_key(*a) { Some(session_map(*m)[*a]) } else { None }),
{
    m.get(a).map(|g| *g)
}

/// Relies on `CHashMap::insert`: replaces the entry for the key, or adds one.
#[verifier::external_body]
fn map_insert(m: &mut PeerMap, a: PeerAddr, v: bool)
    ensures
        session_map(*final(m)) == session_map(*old(m)).insert(a, v),
{
    m.insert(a, v);
}

/// Relies on `CHashMap::len`: the number of entries.
#[verifier::external_body]
fn map_len(m: &PeerMap) -> (r: usize)
    ensures
        r == session_map(*m).len(),
{
    m.len()
}

/// The table after a datagram from `a` has been looked up: unchanged if `a`
/// is known, else with a fresh session for `a`, its key not yet derived.
pub open spec fn after_get_or_create(s: Map<PeerAddr, bool>, a: PeerAddr) -> Map<PeerAddr, bool> {
    if s.contains_key(a) {
        s
    } else {
        s.insert(a, false)
    }
}

/// The table after datagrams from each address of `addrs`, in order, have
/// been looked up.
pub open spec fn after_all(s: Map<PeerAddr, bool>, addrs: Seq<PeerAddr>) -> Map<PeerAddr, bool>
    decreases addrs.len(),
{
    if addrs.len() == 0 {
        s
    } else {
        after_get_or_create(after_all(s, addrs.drop_last()), addrs.last())
    }
}

/// Two datagrams from one address that has not been seen before leave
/// exactly one new session, for that address: the second lookup finds the
/// session that the first created.
pub proof fn lemma_one_session_per_new_address(s: Map<PeerAddr, bool>, a: PeerAddr)
    requires
        s.dom().finite(),
        !s.contains_key(a),
    ensures
        after_get_or_create(after_get_or_create(s, a), a) == after_get_or_create(s, a),
        after_get_or_create(s, a).dom() == s.dom().insert(a),
        after_get_or_create(s, a).len() == s.len() + 1,
        after_get_or_create(s, a)[a] == false,
{
}

/// Datagrams from `n` distinct addresses, none of them seen before, leave
/// exactly `n` new sessions, one for each of those addresses.
pub proof fn lemma_distinct_addresses_distinct_sessions(s: Map<PeerAddr, bool>, addrs: Seq<PeerAddr>)
    requires
        s.dom().finite(),
        addrs.no_duplicates(),
        forall|k: int| 0 <= k < addrs.len() ==> !s.contains_key(#[trigger] addrs[k]),
    ensures
        after_all(s, addrs).dom() == s.dom() + addrs.to_set(),
        after_all(s, addrs).dom().finite(),
        after_all(s, addrs).len() == s.len() + addrs.len(),
    decreases addrs.len(),
{
    if addrs.len() == 0 {
        assert(addrs.to_set() =~= Set::<PeerAddr>::empty());
        assert(s.dom() + addrs.to_set() =~= s.dom());
    } else {
        let init = addrs.drop_last();
        let last = addrs.last();
        assert(init.no_duplicates()) by {
            assert forall|i: int, j: int| 0 <= i < init.len() && 0 <= j < init.len() && i != j
                implies init[i] != init[j] by {
                assert(addrs[i] == init[i] && addrs[j] == init[j]);
            }
        }
        assert forall|k: int| 0 <= k < init.len() implies !s.contains_key(#[trigger] init[k]) by {
            assert(addrs[k] == init[k]);
        }
        lemma_distinct_addresses_distinct_sessions(s, init);
        let mid = after_all(s, init);
        assert(!s.contains_key(addrs[addrs.len() - 1]));
        assert(!init.to_set().contains(last)) by {
            if init.contains(last) {
                let i = choose|i: int| 0 <= i < init.len() && init[i] == last;
                assert(addrs[i] == addrs[addrs.len() - 1]);
            }
        }
        assert(!mid.contains_key(last));
        assert(addrs.to_set() =~= init.to_set().insert(last)) by {
            assert forall|b: PeerAddr| addrs.to_set().contains(b) <==> init.to_set().contains(b) || b == last by {
                if addrs.contains(b) && b != last {
                    let i = choose|i: int| 0 <= i < addrs.len() && addrs[i] == b;
                    assert(init[i] == b);
                }
                if init.contains(b) {
                    let i = choose|i: int| 0 <= i < init.len() && init[i] == b;
                    assert(addrs[i] == b);
                }
                assert(addrs[addrs.len() - 1] == last);
            }
        }
        assert(after_all(s, addrs).dom() =~= s.dom() + addrs.to_set());
    }
}

/// The table of peer sessions, keyed by address. Sessions are never
/// removed.
pub struct SessionRegistry {
    map: PeerMap,
}

impl View for SessionRegistry {
    type V = Map<PeerAddr, bool>;

    closed spec fn view(&self) -> Map<PeerAddr, bool> {
        session_map(self.map)
    }
}

impl SessionRegistry {
    pub open spec fn wf(&self) -> bool {
        self@.dom().finite()
    }

    /// An empty table sized for `capacity` peers, or for
    /// `MAX_CAPACITY_HINT` if that is less; it grows as needed.
    pub fn with_capacity(capacity: usize) -> (r: SessionRegistry)
        ensures
            r@ == no_sessions(),
            r.wf(),
    {
        let hint = if capacity <= MAX_CAPACITY_HINT { capacity } else { MAX_CAPACITY_HINT };
        SessionRegistry { map: map_with_capacity(hint) }
    }

    /// The number of sessions.
    pub fn len(&self) -> (r: usize)
        ensures
            r == self@.len(),
    {
        map_len(&self.map)
    }

    /// Whether the session key of `a` has been derived, if `a` has a
    /// session.
    pub fn lookup(&self, a: PeerAddr) -> (r: Option<bool>)
        ensures
            r == (if self@.contains_key(a) { Some(self@[a]) } else { None }),
    {
        map_get(&self.map, &a)
    }

    /// Makes a session for `a` unless it has one; the result tells whether
    /// one was made.
    pub fn get_or_create(&mut self, a: PeerAddr) -> (created: bool)
        requires
            old(self).wf(),
        ensures
            final(self).wf(),
            final(self)@ == after_get_or_create(old(self)@, a),
            created == !old(self)@.contains_key(a),
    {
        match map_get(&self.map, &a) {
            Some(_) => false,
            None => {
                map_insert(&mut self.map, a, false);
                true
            },
        }
    }

    /// Records that the session key of `a` has been derived; a no-op for an
    /// address without a session.
    pub fn mark_key_derived(&mut self, a: PeerAddr)
        requires
            old(self).wf(),
        ensures
            final(self).wf(),
            final(self)@ == (if old(self)@.contains_key(a) { old(self)@.insert(a, true) } else { old(self)@ }),
    {
        if map_get(&self.map, &a).is_some() {
            map_insert(&mut self.map, a, true);
        }
    }
}

} // verus!
