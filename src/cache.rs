use vstd::prelude::*;

verus! {

/// The entries of `m` that are still live at time `now`: those whose expiry
/// lies strictly after `now`.
pub open spec fn live_at(m: Map<Seq<char>, u64>, now: u64) -> Map<Seq<char>, u64> {
    Map::new(|k: Seq<char>| m.contains_key(k) && now < m[k], |k: Seq<char>| m[k])
}

/// What `get` answers for `key` at `now` on a cache whose contents are `m`.
pub open spec fn lookup(m: Map<Seq<char>, u64>, key: Seq<char>, now: u64) -> Option<u64> {
    if m.contains_key(key) && now < m[key] {
        Some(m[key])
    } else {
        None
    }
}

/// The contents after a `get` of `key` at `now`: an expired or missing key
/// is dropped from storage, a live one stays.
pub open spec fn after_lookup(m: Map<Seq<char>, u64>, key: Seq<char>, now: u64) -> Map<
    Seq<char>,
    u64,
> {
    if m.contains_key(key) && now < m[key] {
        m
    } else {
        m.remove(key)
    }
}

/// After `set(k, t0, ttl)`, a read of `k` at any time before `t0 + ttl`
/// returns that expiry, and a read at or after it returns nothing.
pub proof fn lemma_set_then_get(m: Map<Seq<char>, u64>, k: Seq<char>, t0: u64, ttl: u64, now: u64)
    requires
        t0 + ttl <= u64::MAX,
    ensures
        now < t0 + ttl ==> lookup(m.insert(k, (t0 + ttl) as u64), k, now) == Some((t0 + ttl) as u64),
        now >= t0 + ttl ==> lookup(m.insert(k, (t0 + ttl) as u64), k, now) is None,
{
}

/// A read that finds `k` expired removes it, so every later read of `k`
/// returns nothing, at any time, without a sweep in between.
pub proof fn lemma_expired_read_stays_missing(
    m: Map<Seq<char>, u64>,
    k: Seq<char>,
    now: u64,
    later: u64,
)
    requires
        lookup(m, k, now) is None,
    ensures
        lookup(after_lookup(m, k, now), k, later) is None,
        !after_lookup(m, k, now).contains_key(k),
{
}

/// A sweep at any time at or past a key's expiry removes the key from storage.
pub proof fn lemma_sweep_removes_expired(m: Map<Seq<char>, u64>, k: Seq<char>, now: u64)
    requires
        m.contains_key(k),
        m[k] <= now,
    ensures
        !live_at(m, now).contains_key(k),
{
}

/// An in-memory map from string keys to expiry times, with lazy expiry on
/// read and an explicit sweep. Times are plain integers on one clock.
pub struct Cache {
    entries: Vec<(String, u64)>,
    contents: Ghost<Map<Seq<char>, u64>>,
}

impl View for Cache {
    type V = Map<Seq<char>, u64>;

    closed spec fn view(&self) -> Map<Seq<char>, u64> {
        self.contents@
    }
}

impl Cache {
    /// Keys are stored once each, and the stored pairs are exactly the contents.
    pub closed spec fn wf(&self) -> bool {
        &&& forall|i: int, j: int|
            0 <= i < self.entries@.len() && 0 <= j < self.entries@.len() && i != j
                ==> #[trigger] self.entries@[i].0@ != #[trigger] self.entries@[j].0@
        &&& forall|i: int|
            0 <= i < self.entries@.len() ==> self.contents@.contains_key(
                #[trigger] self.entries@[i].0@,
            ) && self.contents@[self.entries@[i].0@] == self.entries@[i].1
        &&& forall|k: Seq<char>| #[trigger]
            self.contents@.contains_key(k) ==> exists|i: int|
                0 <= i < self.entries@.len() && #[trigger] self.entries@[i].0@ == k
    }

    pub fn new() -> (r: Cache)
        ensures
            r.wf(),
            r@ == Map::<Seq<char>, u64>::empty(),
    {
        Cache { entries: Vec::new(), contents: Ghost(Map::empty()) }
    }

    /// The index at which `key` is stored, if it is.
    fn position(&self, key: &String) -> (r: Option<usize>)
        requires
            self.wf(),
        ensures
            match r {
                Some(i) => i < self.entries@.len() && self.entries@[i as int].0@ == key@,
                None => !self@.contains_key(key@),
            },
    {
        let mut i: usize = 0;
        while i < self.entries.len()
            invariant
                self.wf(),
                i <= self.entries@.len(),
                forall|j: int| 0 <= j < i ==> self.entries@[j].0@ != key@,
            decreases self.entries@.len() - i,
        {
            if self.entries[i].0 == *key {
                return Some(i);
            }
            i = i + 1;
        }
        None
    }

    /// Removes the pair stored at index `i`.
    fn remove_at(&mut self, i: usize)
        requires
            old(self).wf(),
            i < old(self).entries@.len(),
        ensures
            final(self).wf(),
            final(self)@ == old(self)@.remove(old(self).entries@[i as int].0@),
    {
        let ghost k = self.entries@[i as int].0@;
        let ghost old_entries = self.entries@;
        self.entries.remove(i);
        self.contents = Ghost(self.contents@.remove(k));
        assert forall|k2: Seq<char>| #[trigger] self.contents@.contains_key(k2) implies exists|
            j: int,
        | 0 <= j < self.entries@.len() && #[trigger] self.entries@[j].0@ == k2 by {
            let j0 = choose|j: int| 0 <= j < old_entries.len() && #[trigger] old_entries[j].0@ == k2;
            if j0 < i {
                assert(self.entries@[j0].0@ == k2);
            } else {
                assert(self.entries@[j0 - 1].0@ == k2);
            }
        }
        assert forall|j: int| 0 <= j < self.entries@.len() implies self.contents@.contains_key(
            #[trigger] self.entries@[j].0@,
        ) && self.contents@[self.entries@[j].0@] == self.entries@[j].1 by {
            if j < i {
                assert(old_entries[j] == self.entries@[j]);
            } else {
                assert(old_entries[j + 1] == self.entries@[j]);
            }
        }
        assert forall|a: int, b: int|
            0 <= a < self.entries@.len() && 0 <= b < self.entries@.len() && a != b
                implies #[trigger] self.entries@[a].0@ != #[trigger] self.entries@[b].0@ by {
            let oa = if a < i { a } else { a + 1 };
            let ob = if b < i { b } else { b + 1 };
            assert(old_entries[oa] == self.entries@[a]);
            assert(old_entries[ob] == self.entries@[b]);
        }
    }

    /// The expiry stored for `key` if it is still live at `now`. A key that
    /// has expired, or is absent, reads as a miss and is dropped from storage.
    pub fn get(&mut self, key: &str, now: u64) -> (r: Option<u64>)
        requires
            old(self).wf(),
        ensures
            final(self).wf(),
            r == lookup(old(self)@, key@, now),
            final(self)@ == after_lookup(old(self)@, key@, now),
    {
        let k = key.to_string();
        proof {
            broadcast use vstd::string::to_string_from_display_ensures_for_str;
        }
        match self.position(&k) {
            Some(i) => {
                let expiry = self.entries[i].1;
                if now < expiry {
                    Some(expiry)
                } else {
                    self.remove_at(i);
                    None
                }
            },
            None => {
                assert(self@.remove(key@) =~= self@);
                None
            },
        }
    }

    /// Stores `value + ttl` as the expiry of `key`, replacing any earlier entry.
    pub fn set(&mut self, key: &str, value: u64, ttl: u64)
        requires
            old(self).wf(),
            value + ttl <= u64::MAX,
        ensures
            final(self).wf(),
            final(self)@ == old(self)@.insert(key@, (value + ttl) as u64),
    {
        let expire_time = value + ttl;
        let k = key.to_string();
        proof {
            broadcast use vstd::string::to_string_from_display_ensures_for_str;
        }
        match self.position(&k) {
            Some(i) => {
                self.remove_at(i);
            },
            None => {
                assert(self@.remove(key@) =~= self@);
            },
        }
        let ghost before = self.entries@;
        self.entries.push((k, expire_time));
        self.contents = Ghost(self.contents@.insert(key@, expire_time));
        assert forall|k2: Seq<char>| #[trigger] self.contents@.contains_key(k2) implies exists|
            j: int,
        | 0 <= j < self.entries@.len() && #[trigger] self.entries@[j].0@ == k2 by {
            if k2 == key@ {
                assert(self.entries@[before.len() as int].0@ == k2);
            } else {
                let j0 = choose|j: int| 0 <= j < before.len() && #[trigger] before[j].0@ == k2;
                assert(self.entries@[j0].0@ == k2);
            }
        }
        assert forall|j: int| 0 <= j < self.entries@.len() implies self.contents@.contains_key(
            #[trigger] self.entries@[j].0@,
        ) && self.contents@[self.entries@[j].0@] == self.entries@[j].1 by {
            if j < before.len() {
                assert(before[j] == self.entries@[j]);
            }
        }
        assert forall|a: int, b: int|
            0 <= a < self.entries@.len() && 0 <= b < self.entries@.len() && a != b
                implies #[trigger] self.entries@[a].0@ != #[trigger] self.entries@[b].0@ by {
            if a < before.len() {
                assert(before[a] == self.entries@[a]);
            }
            if b < before.len() {
                assert(before[b] == self.entries@[b]);
            }
        }
    }

    /// Removes `key`; nothing happens if it is absent.
    pub fn delete(&mut self, key: &str)
        requires
            old(self).wf(),
        ensures
            final(self).wf(),
            final(self)@ == old(self)@.remove(key@),
    {
        let k = key.to_string();
        proof {
            broadcast use vstd::string::to_string_from_display_ensures_for_str;
        }
        match self.position(&k) {
            Some(i) => {
                self.remove_at(i);
            },
            None => {
                assert(self@.remove(key@) =~= self@);
            },
        }
    }

    /// Whether `key` is held in storage, live or not.
    pub fn contains_key(&self, key: &str) -> (r: bool)
        requires
            self.wf(),
        ensures
            r == self@.contains_key(key@),
    {
        let k = key.to_string();
        proof {
            broadcast use vstd::string::to_string_from_display_ensures_for_str;
        }
        self.position(&k).is_some()
    }

    /// One tick of the sweep: removes every entry whose expiry is at or
    /// before `now`.
    pub fn cleanup(&mut self, now: u64)
        requires
            old(self).wf(),
        ensures
            final(self).wf(),
            final(self)@ == live_at(old(self)@, now),
    {
        let ghost m = self@;
        let ghost target = live_at(m, now);
        let mut kept: Vec<(String, u64)> = Vec::new();
        let ghost mut part: Map<Seq<char>, u64> = Map::empty();
        let mut i: usize = 0;
        while i < self.entries.len()
            invariant
                self.wf(),
                self@ == m,
                target == live_at(m, now),
                i <= self.entries@.len(),
                forall|a: int, b: int|
                    0 <= a < kept@.len() && 0 <= b < kept@.len() && a != b
                        ==> #[trigger] kept@[a].0@ != #[trigger] kept@[b].0@,
                forall|a: int|
                    0 <= a < kept@.len() ==> part.contains_key(#[trigger] kept@[a].0@)
                        && part[kept@[a].0@] == kept@[a].1,
                forall|k: Seq<char>| #[trigger]
                    part.contains_key(k) ==> exists|a: int|
                        0 <= a < kept@.len() && #[trigger] kept@[a].0@ == k,
                forall|k: Seq<char>|
                    #[trigger] part.contains_key(k) <==> (target.contains_key(k) && exists|
                        j: int,
                    | 0 <= j < i && #[trigger] self.entries@[j].0@ == k),
                forall|k: Seq<char>| #[trigger] part.contains_key(k) ==> part[k] == m[k],
            decreases self.entries@.len() - i,
        {
            let key = self.entries[i].0.clone();
            let expiry = self.entries[i].1;
            let ghost ki = key@;
            proof {
                assert(m.contains_key(self.entries@[i as int].0@));
                assert(m[ki] == expiry);
                if now < expiry {
                    assert(target.dom().contains(ki));
                } else {
                    assert(!target.dom().contains(ki));
                }
                assert forall|j: int| 0 <= j < i implies #[trigger] self.entries@[j].0@ != ki by {
                    assert(self.entries@[j].0@ != self.entries@[i as int].0@);
                }
                assert(!part.contains_key(ki));
            }
            let ghost part_before = part;
            if now < expiry {
                let ghost before = kept@;
                assert forall|a: int| 0 <= a < before.len() implies before[a].0@ != ki by {
                    let j = choose|j: int| 0 <= j < i && #[trigger] self.entries@[j].0@ == before[a].0@;
                    assert(self.entries@[j].0@ != self.entries@[i as int].0@);
                }
                kept.push((key, expiry));
                proof {
                    part = part.insert(ki, expiry);
                }
                assert forall|k: Seq<char>| #[trigger] part.contains_key(k) implies exists|a: int|
                    0 <= a < kept@.len() && #[trigger] kept@[a].0@ == k by {
                    if k == ki {
                        assert(kept@[before.len() as int].0@ == k);
                    } else {
                        let a0 = choose|a: int| 0 <= a < before.len() && #[trigger] before[a].0@ == k;
                        assert(kept@[a0].0@ == k);
                    }
                }
                assert forall|a: int| 0 <= a < kept@.len() implies part.contains_key(
                    #[trigger] kept@[a].0@,
                ) && part[kept@[a].0@] == kept@[a].1 by {
                    if a < before.len() {
                        assert(before[a] == kept@[a]);
                    }
                }
                assert forall|a: int, b: int|
                    0 <= a < kept@.len() && 0 <= b < kept@.len() && a != b
                        implies #[trigger] kept@[a].0@ != #[trigger] kept@[b].0@ by {
                    if a < before.len() {
                        assert(before[a] == kept@[a]);
                    }
                    if b < before.len() {
                        assert(before[b] == kept@[b]);
                    }
                }
            }
            assert forall|k: Seq<char>|
                #[trigger] part.contains_key(k) <==> (target.contains_key(k) && exists|j: int|
                    0 <= j < i + 1 && #[trigger] self.entries@[j].0@ == k) by {
                if k == ki {
                    assert(self.entries@[i as int].0@ == k);
                } else {
                    assert(part.contains_key(k) == part_before.contains_key(k));
                    if exists|j: int| 0 <= j < i + 1 && #[trigger] self.entries@[j].0@ == k {
                        let j = choose|j: int| 0 <= j < i + 1 && #[trigger] self.entries@[j].0@ == k;
                        assert(j != i);
                        assert(0 <= j < i && self.entries@[j].0@ == k);
                    }
                }
            }
            i = i + 1;
        }
        assert(part =~= target) by {
            assert forall|k: Seq<char>| target.contains_key(k) implies #[trigger] part.contains_key(
                k,
            ) by {
                let j = choose|j: int| 0 <= j < self.entries@.len() && #[trigger] self.entries@[j].0@ == k;
            }
        }
        self.entries = kept;
        self.contents = Ghost(part);
    }
}

} // verus!
