use vstd::prelude::*;

verus! {

/// How long a session record stays live after login, in seconds (48 hours).
pub const SESSION_TTL_SECS: u64 = 172800;

/// One session record: the exact token string and the time (seconds since
/// the Unix epoch) at which the record lapses.
pub struct SessionRecord {
    pub token: String,
    pub expires_at: u64,
}

/// An in-process session store: a record per token, each with its own
/// time-to-live. A token is live while its record exists and has not lapsed.
pub struct SessionTable {
    pub records: Vec<SessionRecord>,
}

pub open spec fn tokens_unique(records: Seq<SessionRecord>) -> bool {
    forall|i: int, j: int|
        0 <= i < records.len() && 0 <= j < records.len() && i != j ==> (#[trigger] records[i]).token@
            != (#[trigger] records[j]).token@
}

pub open spec fn holds_token(records: Seq<SessionRecord>, t: Seq<char>) -> bool {
    exists|i: int| 0 <= i < records.len() && (#[trigger] records[i]).token@ == t
}

/// The records as a map from token to lapse time.
pub open spec fn records_map(records: Seq<SessionRecord>) -> Map<Seq<char>, u64> {
    Map::new(
        |t: Seq<char>| holds_token(records, t),
        |t: Seq<char>|
            records[choose|i: int| 0 <= i < records.len() && (#[trigger] records[i]).token@ == t].expires_at,
    )
}

proof fn lemma_record_at(records: Seq<SessionRecord>, i: int)
    requires
        tokens_unique(records),
        0 <= i < records.len(),
    ensures
        records_map(records).contains_key(records[i].token@),
        records_map(records)[records[i].token@] == records[i].expires_at,
{
    let t = records[i].token@;
    assert(holds_token(records, t));
    let k = choose|k: int| 0 <= k < records.len() && (#[trigger] records[k]).token@ == t;
    assert(records[k].token@ == t);
}

impl View for SessionTable {
    type V = Map<Seq<char>, u64>;

    open spec fn view(&self) -> Map<Seq<char>, u64> {
        records_map(self.records@)
    }
}

/// Whether a record lapsing at `expires_at` is still live at `now`.
pub open spec fn live_at(expires_at: u64, now: u64) -> bool {
    now < expires_at
}

/// The lapse time of a record written at `now` with time-to-live `ttl`.
pub open spec fn lapse_time(now: u64, ttl: u64) -> u64 {
    if now + ttl <= u64::MAX {
        (now + ttl) as u64
    } else {
        u64::MAX
    }
}

/// Whether the store `m` holds a live record of `token` at `now`.
pub open spec fn is_live_in(m: Map<Seq<char>, u64>, token: Seq<char>, now: u64) -> bool {
    m.contains_key(token) && live_at(m[token], now)
}

impl SessionTable {
    pub open spec fn wf(&self) -> bool {
        tokens_unique(self.records@)
    }

    /// An empty store.
    pub fn new() -> (r: Self)
        ensures
            r.wf(),
            r@ == Map::<Seq<char>, u64>::empty(),
    {
        let r = SessionTable { records: Vec::new() };
        assert(r@ =~= Map::<Seq<char>, u64>::empty());
        r
    }

    fn position(&self, token: &str) -> (r: Option<usize>)
        ensures
            r is None <==> !holds_token(self.records@, token@),
            r matches Some(i) ==> i < self.records@.len() && self.records@[i as int].token@
                == token@,
    {
        let mut i: usize = 0;
        while i < self.records.len()
            invariant
                i <= self.records@.len(),
                forall|j: int| 0 <= j < i ==> (#[trigger] self.records@[j]).token@ != token@,
            decreases self.records@.len() - i,
        {
            if crate::text::equal(self.records[i].token.as_str(), token) {
                return Some(i);
            }
            i = i + 1;
        }
        None
    }

    /// Records `token` as live from `now` for `ttl_secs` seconds, replacing
    /// any earlier record of it.
    pub fn register(&mut self, token: String, ttl_secs: u64, now: u64)
        requires
            old(self).wf(),
        ensures
            final(self).wf(),
            final(self)@ == old(self)@.insert(token@, lapse_time(now, ttl_secs)),
    {
        let expires_at = now.saturating_add(ttl_secs);
        let ghost t = token@;
        let ghost before = self.records@;
        let rec = SessionRecord { token, expires_at };
        match self.position(rec.token.as_str()) {
            Some(i) => {
                self.records.set(i, rec);
                assert forall|a: int, b: int|
                    0 <= a < self.records@.len() && 0 <= b < self.records@.len() && a != b implies (
                    #[trigger] self.records@[a]).token@ != (#[trigger] self.records@[b]).token@ by {
                    assert(before[i as int].token@ == t);
                }
                assert forall|k: Seq<char>| #[trigger]
                    self@.contains_key(k) == old(self)@.insert(t, expires_at).contains_key(k) && (
                    self@.contains_key(k) ==> self@[k] == old(self)@.insert(t, expires_at)[k]) by {
                    if holds_token(self.records@, k) {
                        let j = choose|j: int|
                            0 <= j < self.records@.len() && (#[trigger] self.records@[j]).token@ == k;
                        lemma_record_at(self.records@, j);
                        if j != i {
                            assert(before[j] == self.records@[j]);
                            lemma_record_at(before, j);
                        }
                    }
                    if holds_token(before, k) {
                        let j = choose|j: int| 0 <= j < before.len() && (#[trigger] before[j]).token@ == k;
                        if j != i {
                            assert(before[j] == self.records@[j]);
                        } else {
                            lemma_record_at(self.records@, j);
                        }
                    }
                    if k == t {
                        lemma_record_at(self.records@, i as int);
                    }
                }
                assert(self@ =~= old(self)@.insert(t, expires_at));
            },
            None => {
                self.records.push(rec);
                let ghost n = before.len() as int;
                assert forall|a: int, b: int|
                    0 <= a < self.records@.len() && 0 <= b < self.records@.len() && a != b implies (
                    #[trigger] self.records@[a]).token@ != (#[trigger] self.records@[b]).token@ by {
                    if a < n && b < n {
                        assert(before[a] == self.records@[a] && before[b] == self.records@[b]);
                    } else if a < n {
                        assert(before[a] == self.records@[a]);
                    } else {
                        assert(before[b] == self.records@[b]);
                    }
                }
                assert forall|k: Seq<char>| #[trigger]
                    self@.contains_key(k) == old(self)@.insert(t, expires_at).contains_key(k) && (
                    self@.contains_key(k) ==> self@[k] == old(self)@.insert(t, expires_at)[k]) by {
                    if holds_token(self.records@, k) {
                        let j = choose|j: int|
                            0 <= j < self.records@.len() && (#[trigger] self.records@[j]).token@ == k;
                        lemma_record_at(self.records@, j);
                        if j < n {
                            assert(before[j] == self.records@[j]);
                            lemma_record_at(before, j);
                        }
                    }
                    if holds_token(before, k) {
                        let j = choose|j: int| 0 <= j < before.len() && (#[trigger] before[j]).token@ == k;
                        assert(before[j] == self.records@[j]);
                    }
                    if k == t {
                        lemma_record_at(self.records@, n);
                    }
                }
                assert(self@ =~= old(self)@.insert(t, expires_at));
            },
        }
    }

    /// Whether `token` has a record that is still live at `now`.
    pub fn is_live(&self, token: &str, now: u64) -> (r: bool)
        requires
            self.wf(),
        ensures
            r == is_live_in(self@, token@, now),
    {
        match self.position(token) {
            None => false,
            Some(i) => {
                proof {
                    lemma_record_at(self.records@, i as int);
                }
                now < self.records[i].expires_at
            },
        }
    }

    /// Deletes the record of `token`, if any: the token is no longer live.
    pub fn revoke(&mut self, token: &str)
        requires
            old(self).wf(),
        ensures
            final(self).wf(),
            final(self)@ == old(self)@.remove(token@),
    {
        let ghost before = self.records@;
        match self.position(token) {
            None => {
                assert(self@ =~= old(self)@.remove(token@));
            },
            Some(i) => {
                self.records.remove(i);
                let ghost after = self.records@;
                assert forall|j: int| 0 <= j < after.len() implies #[trigger] after[j] == (if j < i {
                    before[j]
                } else {
                    before[j + 1]
                }) by {}
                assert forall|a: int, b: int|
                    0 <= a < after.len() && 0 <= b < after.len() && a != b implies (
                    #[trigger] after[a]).token@ != (#[trigger] after[b]).token@ by {
                    let a2 = if a < i { a } else { a + 1 };
                    let b2 = if b < i { b } else { b + 1 };
                    assert(after[a] == before[a2] && after[b] == before[b2]);
                }
                assert forall|k: Seq<char>| #[trigger]
                    self@.contains_key(k) == old(self)@.remove(token@).contains_key(k) && (
                    self@.contains_key(k) ==> self@[k] == old(self)@.remove(token@)[k]) by {
                    if holds_token(after, k) {
                        let j = choose|j: int| 0 <= j < after.len() && (#[trigger] after[j]).token@ == k;
                        let j2 = if j < i { j } else { j + 1 };
                        assert(after[j] == before[j2]);
                        lemma_record_at(after, j);
                        lemma_record_at(before, j2);
                    }
                    if holds_token(before, k) && k != token@ {
                        let j = choose|j: int| 0 <= j < before.len() && (#[trigger] before[j]).token@ == k;
                        assert(j != i);
                        let j1 = if j < i { j } else { j - 1 };
                        assert(after[j1] == before[j]);
                    }
                }
                assert(self@ =~= old(self)@.remove(token@));
            },
        }
    }
}

} // verus!
