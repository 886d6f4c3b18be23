use vstd::prelude::*;

use crate::model::ip_state::{age_at, is_fresh, marks_blocked, records, records_first, IpState};
use crate::parser::ParsedEvent;

verus! {

/// No key occurs twice.
pub open spec fn keys_unique(keys: Seq<String>) -> bool {
    forall|i: int, j: int|
        0 <= i < keys.len() && 0 <= j < keys.len() && i != j ==> keys[i]@ != keys[j]@
}

/// `k` is one of `keys`.
pub open spec fn has_key(keys: Seq<String>, k: Seq<char>) -> bool {
    exists|i: int| 0 <= i < keys.len() && keys[i]@ == k
}

/// The map from each key to the state at the same position.
pub open spec fn map_of(keys: Seq<String>, vals: Seq<IpState>) -> Map<Seq<char>, IpState> {
    Map::new(
        |k: Seq<char>| has_key(keys, k),
        |k: Seq<char>| vals[choose|i: int| 0 <= i < keys.len() && keys[i]@ == k],
    )
}

/// The entry at position `i` is what the map holds for its key.
proof fn lemma_entry(keys: Seq<String>, vals: Seq<IpState>, i: int)
    requires
        keys_unique(keys),
        0 <= i < keys.len(),
    ensures
        map_of(keys, vals).contains_key(keys[i]@),
        map_of(keys, vals)[keys[i]@] == vals[i],
{
    let k = keys[i]@;
    assert(has_key(keys, k));
    let j = choose|j: int| 0 <= j < keys.len() && keys[j]@ == k;
    assert(j == i);
}

/// Replacing the state at position `i` replaces the value of its key.
proof fn lemma_set(keys: Seq<String>, vals: Seq<IpState>, i: int, v: IpState)
    requires
        keys_unique(keys),
        keys.len() == vals.len(),
        0 <= i < keys.len(),
    ensures
        map_of(keys, vals.update(i, v)) == map_of(keys, vals).insert(keys[i]@, v),
{
    let m1 = map_of(keys, vals.update(i, v));
    let m2 = map_of(keys, vals).insert(keys[i]@, v);
    assert forall|k: Seq<char>| #[trigger] m1.contains_key(k) implies m2.contains_key(k) && m1[k] == m2[k] by {
        let j = choose|j: int| 0 <= j < keys.len() && keys[j]@ == k;
        lemma_entry(keys, vals.update(i, v), j);
        lemma_entry(keys, vals, j);
    }
    assert forall|k: Seq<char>| #[trigger] m2.contains_key(k) implies m1.contains_key(k) by {
        if k != keys[i]@ {
            let j = choose|j: int| 0 <= j < keys.len() && keys[j]@ == k;
            assert(keys[j]@ == k);
        } else {
            assert(keys[i]@ == k);
        }
    }
    assert(m1 =~= m2);
}

/// Appending a new key adds it to the map.
proof fn lemma_push(keys: Seq<String>, vals: Seq<IpState>, key: String, v: IpState)
    requires
        keys_unique(keys),
        keys.len() == vals.len(),
        !has_key(keys, key@),
    ensures
        keys_unique(keys.push(key)),
        map_of(keys.push(key), vals.push(v)) == map_of(keys, vals).insert(key@, v),
{
    let ks = keys.push(key);
    let vs = vals.push(v);
    assert forall|i: int, j: int|
        0 <= i < ks.len() && 0 <= j < ks.len() && i != j implies ks[i]@ != ks[j]@ by {
        if i < keys.len() && j < keys.len() {
        } else if i < keys.len() {
            assert(keys[i]@ == ks[i]@);
        } else {
            assert(keys[j]@ == ks[j]@);
        }
    }
    let m1 = map_of(ks, vs);
    let m2 = map_of(keys, vals).insert(key@, v);
    assert forall|k: Seq<char>| #[trigger] m1.contains_key(k) implies m2.contains_key(k) && m1[k] == m2[k] by {
        let j = choose|j: int| 0 <= j < ks.len() && ks[j]@ == k;
        lemma_entry(ks, vs, j);
        if j < keys.len() {
            assert(keys[j]@ == k);
            lemma_entry(keys, vals, j);
        }
    }
    assert forall|k: Seq<char>| #[trigger] m2.contains_key(k) implies m1.contains_key(k) by {
        if k != key@ {
            let j = choose|j: int| 0 <= j < keys.len() && keys[j]@ == k;
            assert(ks[j]@ == k);
        } else {
            assert(ks[keys.len() as int]@ == k);
        }
    }
    assert(m1 =~= m2);
}

/// With unique keys the map has one entry per position.
proof fn lemma_len(keys: Seq<String>, vals: Seq<IpState>)
    requires
        keys_unique(keys),
    ensures
        map_of(keys, vals).dom().finite(),
        map_of(keys, vals).dom().len() == keys.len(),
    decreases keys.len(),
{
    if keys.len() == 0 {
        assert(map_of(keys, vals).dom() =~= Set::empty());
    } else {
        let ks = keys.drop_last();
        let last = keys[keys.len() - 1]@;
        assert(keys_unique(ks));
        lemma_len(ks, vals);
        assert forall|k: Seq<char>| #[trigger] has_key(keys, k) == (has_key(ks, k) || k == last) by {
            if has_key(keys, k) {
                let j = choose|j: int| 0 <= j < keys.len() && keys[j]@ == k;
                if j < ks.len() {
                    assert(ks[j]@ == k);
                }
            }
            if has_key(ks, k) {
                let j = choose|j: int| 0 <= j < ks.len() && ks[j]@ == k;
                assert(keys[j]@ == k);
            }
            if k == last {
                assert(keys[keys.len() - 1]@ == k);
            }
        }
        assert(!has_key(ks, last)) by {
            if has_key(ks, last) {
                let j = choose|j: int| 0 <= j < ks.len() && ks[j]@ == last;
                assert(keys[j]@ == keys[keys.len() - 1]@);
            }
        }
        assert(map_of(keys, vals).dom() =~= map_of(ks, vals).dom().insert(last));
    }
}

/// `after` is `before` once `ev` is recorded, and `r` is the new state of the
/// event's address: its earlier state with the event recorded, or, for an address
/// not tracked, a state that holds this one event alone.
pub open spec fn updated_by(
    before: Map<Seq<char>, IpState>,
    ev: ParsedEvent,
    after: Map<Seq<char>, IpState>,
    r: IpState,
) -> bool {
    &&& after == before.insert(ev.ip@, r)
    &&& before.contains_key(ev.ip@) ==> records(before[ev.ip@], ev, r)
    &&& !before.contains_key(ev.ip@) ==> records_first(ev, r)
}

/// `after` holds exactly the entries of `before` whose address was last seen at
/// most `ttl` before `now`, with their states unchanged.
pub open spec fn evicted(
    before: Map<Seq<char>, IpState>,
    now: u64,
    ttl: u64,
    after: Map<Seq<char>, IpState>,
) -> bool {
    &&& forall|k: Seq<char>|
        #[trigger] after.contains_key(k) <==> (before.contains_key(k) && age_at(before[k], now) <= ttl)
    &&& forall|k: Seq<char>| #[trigger] after.contains_key(k) ==> after[k] == before[k]
}

/// The number of requests recorded for `k` in `m`, zero when it is not tracked.
pub open spec fn requests_in(m: Map<Seq<char>, IpState>, k: Seq<char>) -> int {
    if m.contains_key(k) { m[k].request_count as int } else { 0 }
}

/// Two updates for one address add exactly two requests, each strictly raising
/// the count, and leave the first-seen time where it was.
pub proof fn lemma_update_twice(
    m0: Map<Seq<char>, IpState>,
    m1: Map<Seq<char>, IpState>,
    m2: Map<Seq<char>, IpState>,
    e1: ParsedEvent,
    e2: ParsedEvent,
    r1: IpState,
    r2: IpState,
)
    requires
        updated_by(m0, e1, m1, r1),
        updated_by(m1, e2, m2, r2),
        e1.ip@ == e2.ip@,
        requests_in(m0, e1.ip@) + 2 <= u64::MAX,
    ensures
        r2.request_count == requests_in(m0, e1.ip@) + 2,
        requests_in(m0, e1.ip@) < r1.request_count < r2.request_count,
        m2.contains_key(e1.ip@) && m2[e1.ip@] == r2,
        r2.first_seen == r1.first_seen,
        m0.contains_key(e1.ip@) ==> r1.first_seen == m0[e1.ip@].first_seen,
{
    assert(m1.contains_key(e2.ip@) && m1[e2.ip@] == r1);
}

/// After an eviction sweep, an address idle for longer than the time-to-live is
/// gone, and one seen within it is still there with its state.
pub proof fn lemma_eviction(
    m0: Map<Seq<char>, IpState>,
    m1: Map<Seq<char>, IpState>,
    now: u64,
    ttl: u64,
    k: Seq<char>,
)
    requires
        evicted(m0, now, ttl, m1),
    ensures
        m0.contains_key(k) && age_at(m0[k], now) > ttl ==> !m1.contains_key(k),
        m0.contains_key(k) && age_at(m0[k], now) <= ttl ==> m1.contains_key(k) && m1[k] == m0[k],
        !m0.contains_key(k) ==> !m1.contains_key(k),
{
}

/// An address that reappears after its state was evicted starts from nothing:
/// its new state holds the one new event alone.
pub proof fn lemma_reappearance_resets(
    m0: Map<Seq<char>, IpState>,
    m1: Map<Seq<char>, IpState>,
    m2: Map<Seq<char>, IpState>,
    now: u64,
    ttl: u64,
    ev: ParsedEvent,
    r: IpState,
)
    requires
        m0.contains_key(ev.ip@),
        age_at(m0[ev.ip@], now) > ttl,
        evicted(m0, now, ttl, m1),
        updated_by(m1, ev, m2, r),
    ensures
        records_first(ev, r),
        r.request_count == 1,
        r.error_count == (if ev.status >= 400 { 1int } else { 0int }),
        r.first_seen == ev.timestamp,
{
    assert(!m1.contains_key(ev.ip@));
}

/// The states of the addresses seen within the time-to-live, one per address.
#[derive(Debug)]
pub struct StateStore {
    keys: Vec<String>,
    states: Vec<IpState>,
    ttl: u64,
}

impl View for StateStore {
    type V = Map<Seq<char>, IpState>;

    closed spec fn view(&self) -> Map<Seq<char>, IpState> {
        map_of(self.keys@, self.states@)
    }
}

impl StateStore {
    /// One state per key, each address held once.
    pub closed spec fn wf(&self) -> bool {
        &&& self.keys@.len() == self.states@.len()
        &&& keys_unique(self.keys@)
    }

    /// Each tracked state carries its own address and has its timestamps in
    /// order.
    pub open spec fn entries_sound(&self) -> bool {
        forall|k: Seq<char>| #[trigger] self@.contains_key(k) ==> self@[k].ip@ == k && self@[k].wf()
    }

    /// The time-to-live, in seconds.
    pub closed spec fn ttl(&self) -> u64 {
        self.ttl
    }

    /// An empty store whose entries live `ttl_seconds` past their last event.
    pub fn new(ttl_seconds: u64) -> (r: Self)
        ensures
            r.wf(),
            r.entries_sound(),
            r@ == Map::<Seq<char>, IpState>::empty(),
            r.ttl() == ttl_seconds,
    {
        let r = StateStore { keys: Vec::new(), states: Vec::new(), ttl: ttl_seconds };
        assert(r@ =~= Map::<Seq<char>, IpState>::empty());
        r
    }

    /// The position of `key`, if it is tracked.
    fn find(&self, key: &String) -> (r: Option<usize>)
        requires
            self.wf(),
        ensures
            match r {
                Some(i) => i < self.keys@.len() && self.keys@[i as int]@ == key@,
                None => !has_key(self.keys@, key@),
            },
    {
        let mut i: usize = 0;
        while i < self.keys.len()
            invariant
                self.wf(),
                i <= self.keys@.len(),
                forall|j: int| 0 <= j < i ==> self.keys@[j]@ != key@,
            decreases self.keys@.len() - i,
        {
            if self.keys[i] == *key {
                return Some(i);
            }
            i = i + 1;
        }
        None
    }

    /// The state of `ip`, creating a fresh one at `now` if it is not tracked.
    pub fn get_or_create(&mut self, ip: &str, now: u64) -> (r: &mut IpState)
        requires
            old(self).wf(),
        ensures
            final(self).wf(),
            final(self).ttl() == old(self).ttl(),
            old(self)@.contains_key(ip@) ==> *r == old(self)@[ip@],
            !old(self)@.contains_key(ip@) ==> is_fresh(*r, ip@, now),
            final(self)@ == old(self)@.insert(ip@, *final(r)),
            old(self).entries_sound() ==> r.ip@ == ip@ && r.wf(),
            old(self).entries_sound() && final(r).ip@ == ip@ && final(r).wf() ==> final(self).entries_sound(),
    {
        let key = ip.to_owned();
        let i = match self.find(&key) {
            Some(i) => {
                proof {
                    lemma_entry(self.keys@, self.states@, i as int);
                }
                i
            },
            None => {
                let fresh = IpState::new(ip.to_owned(), now);
                proof {
                    lemma_push(self.keys@, self.states@, key, fresh);
                }
                self.keys.push(key);
                self.states.push(fresh);
                proof {
                    lemma_entry(self.keys@, self.states@, self.keys@.len() - 1);
                }
                self.states.len() - 1
            },
        };
        proof {
            assert forall|v: IpState|
                map_of(self.keys@, #[trigger] self.states@.update(i as int, v))
                    == map_of(self.keys@, self.states@).insert(ip@, v) by {
                lemma_set(self.keys@, self.states@, i as int, v);
            }
        }
        &mut self.states[i]
    }

    /// The state of `ip`, if it is tracked.
    pub fn get(&self, ip: &str) -> (r: Option<&IpState>)
        requires
            self.wf(),
        ensures
            match r {
                Some(s) => self@.contains_key(ip@) && *s == self@[ip@],
                None => !self@.contains_key(ip@),
            },
    {
        let key = ip.to_owned();
        match self.find(&key) {
            Some(i) => {
                proof {
                    lemma_entry(self.keys@, self.states@, i as int);
                }
                Some(&self.states[i])
            },
            None => None,
        }
    }

    /// Number of tracked addresses.
    pub fn len(&self) -> (r: usize)
        requires
            self.wf(),
        ensures
            r == self@.dom().len(),
            self@.dom().finite(),
    {
        proof {
            lemma_len(self.keys@, self.states@);
        }
        self.keys.len()
    }

    /// No address is tracked.
    pub fn is_empty(&self) -> (r: bool)
        requires
            self.wf(),
        ensures
            r == (self@.dom().len() == 0),
            self@.dom().finite(),
    {
        proof {
            lemma_len(self.keys@, self.states@);
        }
        self.keys.len() == 0
    }
    /// Records `event` against its address, creating the address's state on first
    /// sight, and returns a copy of the updated state.
    pub fn update(&mut self, event: &ParsedEvent) -> (r: IpState)
        requires
            old(self).wf(),
        ensures
            final(self).wf(),
            final(self).ttl() == old(self).ttl(),
            updated_by(old(self)@, *event, final(self)@, r),
            old(self).entries_sound() ==> final(self).entries_sound() && r.ip@ == event.ip@ && r.wf(),
    {
        let ghost before = self@;
        let i = match self.find(&event.ip) {
            Some(i) => {
                proof {
                    lemma_entry(self.keys@, self.states@, i as int);
                }
                i
            },
            None => {
                let fresh = IpState::new(event.ip.clone(), event.timestamp);
                proof {
                    lemma_push(self.keys@, self.states@, event.ip, fresh);
                }
                self.keys.push(event.ip.clone());
                self.states.push(fresh);
                proof {
                    lemma_entry(self.keys@, self.states@, self.keys@.len() - 1);
                }
                self.states.len() - 1
            },
        };
        let mut st = self.states[i].snapshot();
        st.record(event);
        let r = st.snapshot();
        proof {
            lemma_set(self.keys@, self.states@, i as int, st);
        }
        self.states.set(i, st);
        assert(self@ == before.insert(event.ip@, r));
        assert(before.contains_key(event.ip@) ==> records(before[event.ip@], *event, r));
        assert(!before.contains_key(event.ip@) ==> records_first(*event, r));
        r
    }

    /// Sets the blocked flag of `ip` if it is tracked; otherwise changes nothing.
    pub fn mark_blocked(&mut self, ip: &str)
        requires
            old(self).wf(),
        ensures
            final(self).wf(),
            final(self).ttl() == old(self).ttl(),
            old(self)@.contains_key(ip@) ==> final(self)@ == old(self)@.insert(ip@, final(self)@[ip@])
                && marks_blocked(old(self)@[ip@], final(self)@[ip@]),
            !old(self)@.contains_key(ip@) ==> final(self)@ == old(self)@,
            old(self).entries_sound() ==> final(self).entries_sound(),
    {
        let key = ip.to_owned();
        if let Some(i) = self.find(&key) {
            proof {
                lemma_entry(self.keys@, self.states@, i as int);
            }
            let mut st = self.states[i].snapshot();
            st.mark_blocked();
            proof {
                lemma_set(self.keys@, self.states@, i as int, st);
                lemma_entry(self.keys@, self.states@.update(i as int, st), i as int);
            }
            self.states.set(i, st);
        }
    }

    /// Removes every address last seen more than the time-to-live before `now`.
    /// The others keep their state.
    pub fn evict_expired(&mut self, now: u64)
        requires
            old(self).wf(),
        ensures
            final(self).wf(),
            final(self).ttl() == old(self).ttl(),
            evicted(old(self)@, now, old(self).ttl(), final(self)@),
            old(self).entries_sound() ==> final(self).entries_sound(),
    {
        let ghost ok = self.keys@;
        let ghost os = self.states@;
        let ghost ttl = self.ttl;
        let ghost mut src: Seq<int> = Seq::empty();
        let mut old_keys: Vec<String> = Vec::new();
        let mut old_states: Vec<IpState> = Vec::new();
        std::mem::swap(&mut self.keys, &mut old_keys);
        std::mem::swap(&mut self.states, &mut old_states);
        assert(old_keys@ == ok.take(ok.len() as int));
        assert(old_states@ == os.take(os.len() as int));
        while old_keys.len() > 0
            invariant
                ok.len() == os.len(),
                keys_unique(ok),
                old_keys@.len() <= ok.len(),
                old_keys@ == ok.take(old_keys@.len() as int),
                old_states@ == os.take(old_keys@.len() as int),
                self.ttl == ttl,
                self.keys@.len() == self.states@.len(),
                src.len() == self.keys@.len(),
                keys_unique(self.keys@),
                forall|j: int|
                    0 <= j < src.len() ==> old_keys@.len() <= #[trigger] src[j] < ok.len()
                        && self.keys@[j]@ == ok[src[j]]@ && self.states@[j] == os[src[j]]
                        && age_at(os[src[j]], now) <= ttl,
                forall|i: int|
                    old_keys@.len() <= i < ok.len() && age_at(os[i], now) <= ttl ==> #[trigger] has_key(
                        self.keys@,
                        ok[i]@,
                    ),
            decreases old_keys@.len(),
        {
            let ghost n = old_keys@.len() as int;
            let k = old_keys.pop().unwrap();
            let s = old_states.pop().unwrap();
            assert(k == ok[n - 1]);
            assert(s == os[n - 1]);
            assert(old_keys@ == ok.take(n - 1));
            assert(old_states@ == os.take(n - 1));
            if s.age(now) <= self.ttl {
                proof {
                    assert(!has_key(self.keys@, k@)) by {
                        if has_key(self.keys@, k@) {
                            let j = choose|j: int| 0 <= j < self.keys@.len() && self.keys@[j]@ == k@;
                            assert(ok[src[j]]@ == ok[n - 1]@);
                        }
                    }
                    lemma_push(self.keys@, self.states@, k, s);
                }
                let ghost pk = self.keys@;
                let ghost ps = self.states@;
                self.keys.push(k);
                self.states.push(s);
                proof {
                    src = src.push(n - 1);
                    assert forall|j: int| 0 <= j < src.len() implies n - 1 <= #[trigger] src[j] < ok.len()
                        && self.keys@[j]@ == ok[src[j]]@ && self.states@[j] == os[src[j]]
                        && age_at(os[src[j]], now) <= ttl by {
                        if j < pk.len() {
                            assert(self.keys@[j] == pk[j]);
                            assert(self.states@[j] == ps[j]);
                        }
                    }
                    assert forall|i: int|
                        n - 1 <= i < ok.len() && age_at(os[i], now) <= ttl implies #[trigger] has_key(
                            self.keys@,
                            ok[i]@,
                        ) by {
                        if i == n - 1 {
                            assert(self.keys@[pk.len() as int]@ == ok[i]@);
                        } else {
                            assert(has_key(pk, ok[i]@));
                            let j = choose|j: int| 0 <= j < pk.len() && pk[j]@ == ok[i]@;
                            assert(self.keys@[j] == pk[j]);
                        }
                    }
                }
            }
        }
        proof {
            let m = map_of(ok, os);
            assert forall|k: Seq<char>| #[trigger] self@.contains_key(k) implies m.contains_key(k)
                && age_at(m[k], now) <= ttl && self@[k] == m[k] by {
                let j = choose|j: int| 0 <= j < self.keys@.len() && self.keys@[j]@ == k;
                let i = src[j];
                lemma_entry(ok, os, i);
                lemma_entry(self.keys@, self.states@, j);
            }
            assert forall|k: Seq<char>|
                #[trigger] m.contains_key(k) && age_at(m[k], now) <= ttl implies self@.contains_key(k) by {
                let i = choose|i: int| 0 <= i < ok.len() && ok[i]@ == k;
                lemma_entry(ok, os, i);
                assert(has_key(self.keys@, ok[i]@));
            }
        }
    }
}

} // verus!
