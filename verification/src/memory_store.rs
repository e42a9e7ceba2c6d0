//! The nonce store that keeps its records in this process's memory.
//!
//! Records are found through a hash map. An expired record counts as
//! absent from the moment it expires; its memory is given back by `prune`,
//! which looks at a bounded number of records in each call, so that a
//! periodic sweep never keeps the store for long.

use std::collections::VecDeque;
use vstd::hash_map::StringHashMap;
use vstd::prelude::*;
use vstd::std_specs::vecdeque::*;
use vstd::string::*;

use crate::nonce::{
    expiry_after, lemma_nonce_key_injective, live_at, nonce_key, nonce_key_of, NonceOutcome, NonceRecord,
    NonceRecords, NonceStore, StoreUnavailable,
};

verus! {

/// A nonce store in memory.
pub struct MemoryNonceStore {
    /// The expiry of each record, under the text that `nonce_key` gives its
    /// namespace and nonce.
    index: StringHashMap<u64>,
    /// The texts of all records, in the order in which `prune` will look at
    /// them.
    queue: VecDeque<String>,
}

/// Whether `key` is one of the texts in `queue`.
pub open spec fn queued(queue: Seq<String>, key: Seq<char>) -> bool {
    exists|i: int| 0 <= i < queue.len() && (#[trigger] queue[i])@ == key
}

/// Whether `key` is among the first `limit` texts of `line`.
pub open spec fn reached(line: Seq<Seq<char>>, limit: int, key: Seq<char>) -> bool {
    exists|i: int| 0 <= i < limit && i < line.len() && #[trigger] line[i] == key
}

/// How many texts of `line` a call with this limit looks at.
pub open spec fn reach(line: Seq<Seq<char>>, limit: int) -> int {
    if limit < line.len() {
        limit
    } else {
        line.len() as int
    }
}

/// Those of the first `n` texts of `line` whose record is live at `now`,
/// in their order.
pub open spec fn survivors(line: Seq<Seq<char>>, expiry: Map<Seq<char>, u64>, now: u64, n: int)
    -> Seq<Seq<char>>
    decreases n,
{
    if n <= 0 {
        seq![]
    } else {
        let before = survivors(line, expiry, now, n - 1);
        if live_at(expiry[line[n - 1]], now) {
            before.push(line[n - 1])
        } else {
            before
        }
    }
}

/// Whether no text stands twice in `queue`.
pub open spec fn distinct(queue: Seq<String>) -> bool {
    forall|i: int, j: int|
        0 <= i < j < queue.len() ==> (#[trigger] queue[i])@ != (#[trigger] queue[j])@
}

impl MemoryNonceStore {
    /// How many records the store holds in memory, expired ones included.
    pub open spec fn stored(&self) -> nat {
        self.records_by_text().len()
    }

    /// The line for `prune`: the texts under which the records are filed,
    /// in the order in which `prune` will look at them.
    pub closed spec fn line(&self) -> Seq<Seq<char>> {
        Seq::new(self.queue@.len(), |i: int| self.queue@[i]@)
    }

    /// The expiry of each record by the text under which it is filed.
    pub closed spec fn records_by_text(&self) -> Map<Seq<char>, u64> {
        self.index@
    }

    /// How many texts are in line for `prune`.
    pub open spec fn pending(&self) -> nat {
        self.line().len()
    }

    /// The records by namespace and nonce are the records by text, each
    /// found under the text that `nonce_key` gives its namespace and nonce.
    pub proof fn lemma_records_by_text(&self, namespace: Seq<char>, nonce: Seq<char>)
        requires
            namespace.len() <= u64::MAX,
        ensures
            self.records().contains_key((namespace, nonce))
                == self.records_by_text().contains_key(nonce_key(namespace, nonce)),
            self.records().contains_key((namespace, nonce)) ==> self.records()[(namespace, nonce)]
                == self.records_by_text()[nonce_key(namespace, nonce)],
    {
    }

    /// A well-formed store has as many texts in line as it holds records,
    /// so the line never outgrows the records.
    pub proof fn lemma_backlog_is_len(&self)
        requires
            self.well_formed(),
        ensures
            self.pending() == self.stored(),
    {
        let keys = Seq::new(self.queue@.len(), |i: int| self.queue@[i]@);
        assert(keys.no_duplicates());
        keys.unique_seq_to_set();
        assert forall|key: Seq<char>| keys.to_set().contains(key) <==> self.index@.dom().contains(
            key,
        ) by {
            if keys.to_set().contains(key) {
                let i = choose|i: int| 0 <= i < keys.len() && keys[i] == key;
                assert(self.queue@[i]@ == key);
                assert(queued(self.queue@, key));
            }
            if self.index@.contains_key(key) {
                let i = choose|i: int|
                    0 <= i < self.queue@.len() && (#[trigger] self.queue@[i])@ == key;
                assert(keys[i] == key);
            }
        }
        assert(keys.to_set() =~= self.index@.dom());
    }

    /// A store with nothing on record.
    pub fn new() -> (store: MemoryNonceStore)
        ensures
            store.records() == NonceRecords::empty(),
            store.records_by_text() == Map::<Seq<char>, u64>::empty(),
            store.line() == Seq::<Seq<char>>::empty(),
            store.well_formed(),
    {
        let store = MemoryNonceStore { index: StringHashMap::new(), queue: VecDeque::new() };
        assert(store.records() =~= NonceRecords::empty());
        assert(store.line() =~= Seq::<Seq<char>>::empty());
        store
    }

    /// The number of records held in memory, expired ones included.
    pub fn len(&self) -> (count: usize)
        ensures
            count == self.stored(),
    {
        broadcast use vstd::hash_map::group_hash_map_axioms;

        self.index.len()
    }

    /// The number of texts in line for `prune`. A call of `prune` with at
    /// least this limit looks at every record.
    pub fn backlog(&self) -> (count: usize)
        ensures
            count == self.pending(),
    {
        self.queue.len()
    }

    /// Gives back the memory of records that have expired by `now`. The
    /// call looks at the first `limit` texts of the line, so it is over
    /// after a bounded amount of work: an expired record among them is
    /// given back, a live one goes to the end of the line, and what was not
    /// reached stays in front for the next call. No live record is touched,
    /// and a limit of at least `backlog()` leaves no expired record behind.
    /// Returns how many records were given back.
    pub fn prune(&mut self, now: u64, limit: usize) -> (reclaimed: usize)
        ensures
            old(self).well_formed() ==> final(self).well_formed(),
            final(self).records().submap_of(old(self).records()),
            forall|pair: (Seq<char>, Seq<char>)| #[trigger]
                final(self).records().contains_key(pair) <==> old(self).records().contains_key(pair)
                    && (live_at(old(self).records()[pair], now) || !reached(
                    old(self).line(),
                    limit as int,
                    nonce_key(pair.0, pair.1),
                )),
            final(self).records_by_text().submap_of(old(self).records_by_text()),
            forall|key: Seq<char>| #[trigger]
                final(self).records_by_text().contains_key(key) <==> old(
                    self,
                ).records_by_text().contains_key(key) && (live_at(
                    old(self).records_by_text()[key],
                    now,
                ) || !reached(old(self).line(), limit as int, key)),
            reclaimed <= limit,
            old(self).well_formed() ==> final(self).stored() + reclaimed == old(self).stored(),
            old(self).well_formed() ==> final(self).line() == old(self).line().skip(
                reach(old(self).line(), limit as int),
            ) + survivors(
                old(self).line(),
                old(self).records_by_text(),
                now,
                reach(old(self).line(), limit as int),
            ),
            final(self).pending() <= old(self).pending(),
            old(self).well_formed() && limit >= old(self).pending() ==> forall|
                pair: (Seq<char>, Seq<char>),
            | #[trigger]
                final(self).records().contains_key(pair) ==> live_at(
                    final(self).records()[pair],
                    now,
                ),
    {
        let ghost index0 = self.index@;
        let ghost queue0 = self.queue@;
        let ghost line0 = self.line();
        let ghost sound = self.well_formed();
        let total: usize = self.queue.len();
        let rounds: usize = if limit < total {
            limit
        } else {
            total
        };
        let mut done: usize = 0;
        let mut reclaimed: usize = 0;
        assert(self.queue@.subrange(0, total as int) =~= self.queue@);
        assert(self.line() =~= line0.skip(0) + survivors(line0, index0, now, 0));
        while done < rounds
            invariant
                done <= rounds <= total,
                rounds <= limit,
                total == queue0.len(),
                line0 == Seq::new(queue0.len(), |i: int| queue0[i]@),
                reclaimed <= done,
                self.index@.submap_of(index0),
                forall|key: Seq<char>|
                    index0.contains_key(key) && !(#[trigger] self.index@.contains_key(key))
                        ==> !live_at(index0[key], now) && reached(line0, done as int, key),
                forall|key: Seq<char>|
                    reached(line0, done as int, key) && index0.contains_key(key) && !live_at(
                        index0[key],
                        now,
                    ) ==> !(#[trigger] self.index@.contains_key(key)),
                sound ==> self.index@.dom().finite(),
                sound ==> self.index@.len() + reclaimed == index0.len(),
                total - done <= self.queue@.len() <= total,
                self.queue@.subrange(0, total - done) == queue0.subrange(done as int, total as int),
                sound ==> forall|key: Seq<char>| #[trigger]
                    self.index@.contains_key(key) <==> queued(self.queue@, key),
                sound ==> distinct(self.queue@),
                sound ==> distinct(queue0),
                sound ==> forall|key: Seq<char>| #[trigger]
                    index0.contains_key(key) <==> queued(queue0, key),
                sound ==> self.line() == line0.skip(done as int) + survivors(
                    line0,
                    index0,
                    now,
                    done as int,
                ),
                sound ==> forall|key: Seq<char>| #[trigger]
                    self.index@.contains_key(key) ==> live_at(self.index@[key], now) || queued(
                        self.queue@.subrange(0, total - done),
                        key,
                    ),
            decreases rounds - done,
        {
            let ghost index1 = self.index@;
            let ghost queue1 = self.queue@;
            let ghost line1 = self.line();
            let front = self.queue.pop_front();
            match front {
                Some(text) => {
                    let held: Option<u64> = match self.index.get(text.as_str()) {
                        Some(expires_at) => Some(*expires_at),
                        None => None,
                    };
                    let ghost pushed = false;
                    match held {
                        Some(until) => {
                            if until <= now {
                                self.index.remove(text.as_str());
                                reclaimed = reclaimed + 1;
                            } else {
                                proof {
                                    pushed = true;
                                }
                                self.queue.push_back(text);
                            }
                        },
                        None => {},
                    }
                    proof {
                        let rest = total - done - 1;
                        assert(text@ == line0[done as int]) by {
                            assert(queue1.subrange(0, total - done)[0] == queue0.subrange(
                                done as int,
                                total as int,
                            )[0]);
                        }
                        assert(self.queue@.subrange(0, rest) =~= queue0.subrange(
                            done + 1,
                            total as int,
                        )) by {
                            assert forall|i: int| 0 <= i < rest implies self.queue@[i] == queue0[done
                                + 1 + i] by {
                                assert(queue1.subrange(0, total - done)[i + 1] == queue0.subrange(
                                    done as int,
                                    total as int,
                                )[i + 1]);
                            }
                        }
                        assert forall|key: Seq<char>|
                            index0.contains_key(key) && !(#[trigger] self.index@.contains_key(
                                key,
                            )) implies !live_at(index0[key], now) && reached(
                            line0,
                            done + 1,
                            key,
                        ) by {
                            if index1.contains_key(key) {
                                assert(key == text@);
                                assert(line0[done as int] == key);
                            } else {
                                let i = choose|i: int|
                                    0 <= i < done && i < line0.len() && #[trigger] line0[i] == key;
                                assert(line0[i] == key);
                            }
                        }
                        assert forall|key: Seq<char>|
                            reached(line0, done + 1, key) && index0.contains_key(key) && !live_at(
                                index0[key],
                                now,
                            ) implies !(#[trigger] self.index@.contains_key(key)) by {
                            let i = choose|i: int|
                                0 <= i < done + 1 && i < line0.len() && #[trigger] line0[i] == key;
                            if i < done {
                                assert(reached(line0, done as int, key));
                            } else {
                                assert(key == text@);
                                if index1.contains_key(key) {
                                    assert(index1[key] == index0[key]);
                                }
                            }
                        }
                        if sound {
                            assert(queued(queue1, text@)) by {
                                assert(queue1[0]@ == text@);
                            }
                            assert(held is Some);
                            assert(queued(queue0, text@)) by {
                                assert(queue0[done as int]@ == text@);
                            }
                            assert(index0.contains_key(text@));
                            assert(index1[text@] == index0[text@]);
                            assert forall|key: Seq<char>| #[trigger]
                                self.index@.contains_key(key) implies queued(self.queue@, key) by {
                                assert(index1.contains_key(key));
                                let i = choose|i: int|
                                    0 <= i < queue1.len() && (#[trigger] queue1[i])@ == key;
                                if i == 0 {
                                    assert(pushed);
                                    assert(self.queue@[self.queue@.len() - 1]@ == key);
                                } else {
                                    assert(self.queue@[i - 1]@ == key);
                                }
                            }
                            assert forall|key: Seq<char>| queued(self.queue@, key) implies #[trigger]
                                self.index@.contains_key(key) by {
                                let i = choose|i: int|
                                    0 <= i < self.queue@.len() && (#[trigger] self.queue@[i])@ == key;
                                if i < queue1.len() - 1 {
                                    assert(queue1[i + 1]@ == key);
                                    assert(queue1[0]@ != queue1[i + 1]@);
                                    assert(queued(queue1, key));
                                } else {
                                    assert(pushed);
                                }
                            }
                            assert(distinct(self.queue@)) by {
                                assert forall|i: int, j: int|
                                    0 <= i < j < self.queue@.len() implies (
                                #[trigger] self.queue@[i])@ != (#[trigger] self.queue@[j])@ by {
                                    if j < queue1.len() - 1 {
                                        assert(queue1[i + 1]@ != queue1[j + 1]@);
                                    } else {
                                        assert(queue1[0]@ != queue1[i + 1]@);
                                    }
                                }
                            }
                            assert(self.line() =~= line0.skip(done + 1) + survivors(
                                line0,
                                index0,
                                now,
                                done + 1,
                            )) by {
                                let kept = survivors(line0, index0, now, done as int);
                                assert(line1 == line0.skip(done as int) + kept);
                                assert(line0.skip(done as int).len() > 0);
                                assert(line1.drop_first() =~= line0.skip(done + 1) + kept);
                                if pushed {
                                    assert(self.line() =~= line1.drop_first().push(text@));
                                } else {
                                    assert(self.line() =~= line1.drop_first());
                                }
                            }
                            assert forall|key: Seq<char>| #[trigger]
                                self.index@.contains_key(key) implies live_at(self.index@[key], now)
                                || queued(self.queue@.subrange(0, rest), key) by {
                                assert(index1.contains_key(key));
                                if !live_at(self.index@[key], now) {
                                    let front1 = queue1.subrange(0, total - done);
                                    let i = choose|i: int|
                                        0 <= i < front1.len() && (#[trigger] front1[i])@ == key;
                                    assert(i != 0);
                                    assert(self.queue@.subrange(0, rest)[i - 1]@ == key);
                                }
                            }
                        }
                    }
                },
                None => {},
            }
            done = done + 1;
        }
        proof {
            assert(self.records().submap_of(old(self).records()));
            assert(done as int == reach(line0, limit as int));
            assert forall|key: Seq<char>| #[trigger]
                self.index@.contains_key(key) <==> index0.contains_key(key) && (live_at(
                    index0[key],
                    now,
                ) || !reached(line0, limit as int, key)) by {
                if reached(line0, limit as int, key) {
                    let i = choose|i: int|
                        0 <= i < limit && i < line0.len() && #[trigger] line0[i] == key;
                    assert(line0[i] == key);
                    assert(reached(line0, done as int, key));
                }
                if reached(line0, done as int, key) {
                    let i = choose|i: int|
                        0 <= i < done && i < line0.len() && #[trigger] line0[i] == key;
                    assert(line0[i] == key);
                    assert(reached(line0, limit as int, key));
                }
                if self.index@.contains_key(key) {
                    assert(self.index@.dom().contains(key));
                }
            }
            assert forall|pair: (Seq<char>, Seq<char>)| #[trigger]
                self.records().contains_key(pair) <==> old(self).records().contains_key(pair) && (
                live_at(old(self).records()[pair], now) || !reached(
                    line0,
                    limit as int,
                    nonce_key(pair.0, pair.1),
                )) by {
                let key = nonce_key(pair.0, pair.1);
                if reached(line0, limit as int, key) {
                    let i = choose|i: int|
                        0 <= i < limit && i < line0.len() && #[trigger] line0[i] == key;
                    assert(line0[i] == key);
                    assert(reached(line0, done as int, key));
                }
                if reached(line0, done as int, key) {
                    let i = choose|i: int|
                        0 <= i < done && i < line0.len() && #[trigger] line0[i] == key;
                    assert(line0[i] == key);
                    assert(reached(line0, limit as int, key));
                }
            }
            if sound && limit >= old(self).pending() {
                assert(done == total);
                assert forall|pair: (Seq<char>, Seq<char>)| #[trigger]
                    self.records().contains_key(pair) implies live_at(self.records()[pair], now) by {
                    let key = nonce_key(pair.0, pair.1);
                    assert(self.index@.contains_key(key));
                    if !live_at(self.index@[key], now) {
                        assert(queued(self.queue@.subrange(0, 0), key));
                    }
                }
            }
        }
        reclaimed
    }

    /// The record of the nonce under the namespace, if the store holds one,
    /// expired or not.
    pub fn record(&self, namespace: &str, nonce: &str) -> (found: Option<NonceRecord>)
        ensures
            match found {
                Some(record) => {
                    &&& self.records().contains_key((namespace@, nonce@))
                    &&& record.namespace@ == namespace@
                    &&& record.value@ == nonce@
                    &&& record.expires_at == self.records()[(namespace@, nonce@)]
                },
                None => !self.records().contains_key((namespace@, nonce@)),
            },
    {
        let key = nonce_key_of(namespace, nonce);
        match self.index.get(key.as_str()) {
            Some(expires_at) => Some(
                NonceRecord {
                    namespace: String::from_str(namespace),
                    value: String::from_str(nonce),
                    expires_at: *expires_at,
                },
            ),
            None => None,
        }
    }
}

impl NonceStore for MemoryNonceStore {
    closed spec fn records(&self) -> NonceRecords {
        Map::new(
            |pair: (Seq<char>, Seq<char>)|
                pair.0.len() <= u64::MAX && self.index@.contains_key(nonce_key(pair.0, pair.1)),
            |pair: (Seq<char>, Seq<char>)| self.index@[nonce_key(pair.0, pair.1)],
        )
    }

    /// The texts in line for `prune` are those of the records, each once.
    closed spec fn well_formed(&self) -> bool {
        &&& self.index@.dom().finite()
        &&& forall|key: Seq<char>| #[trigger]
            self.index@.contains_key(key) <==> queued(self.queue@, key)
        &&& distinct(self.queue@)
    }

    open spec fn dependable(&self) -> bool {
        true
    }

    fn check_and_set(&mut self, namespace: &str, nonce: &str, ttl: u64, now: u64) -> (reply: Result<
        NonceOutcome,
        StoreUnavailable,
    >)
        ensures
            final(self).records_by_text() == if reply == Ok::<NonceOutcome, StoreUnavailable>(
                NonceOutcome::Fresh,
            ) {
                old(self).records_by_text().insert(
                    nonce_key(namespace@, nonce@),
                    expiry_after(now, ttl),
                )
            } else {
                old(self).records_by_text()
            },
            final(self).line() == if old(self).records_by_text().contains_key(
                nonce_key(namespace@, nonce@),
            ) {
                old(self).line()
            } else {
                old(self).line().push(nonce_key(namespace@, nonce@))
            },
            old(self).well_formed() ==> final(self).stored() == if old(self).records().contains_key(
                (namespace@, nonce@),
            ) {
                old(self).stored()
            } else {
                old(self).stored() + 1
            },
    {
        let key = nonce_key_of(namespace, nonce);
        let held: Option<u64> = match self.index.get(key.as_str()) {
            Some(expires_at) => Some(*expires_at),
            None => None,
        };
        let expires_at: u64 = if ttl > u64::MAX - now {
            u64::MAX
        } else {
            now + ttl
        };
        match held {
            Some(until) => {
                if now < until {
                    return Ok(NonceOutcome::Replay);
                }
                self.index.insert(key, expires_at);
            },
            None => {
                self.queue.push_back(key.clone());
                self.index.insert(key, expires_at);
            },
        }
        proof {
            if old(self).well_formed() {
                let before = old(self).queue@;
                assert forall|other: Seq<char>| #[trigger]
                    self.index@.contains_key(other) implies queued(self.queue@, other) by {
                    if other == key@ && held is None {
                        assert(self.queue@[self.queue@.len() - 1]@ == other);
                    } else {
                        assert(old(self).index@.contains_key(other));
                        let i = choose|i: int| 0 <= i < before.len() && (#[trigger] before[i])@ == other;
                        assert(self.queue@[i]@ == other);
                    }
                }
                assert forall|other: Seq<char>| queued(self.queue@, other) implies #[trigger]
                    self.index@.contains_key(other) by {
                    let i = choose|i: int|
                        0 <= i < self.queue@.len() && (#[trigger] self.queue@[i])@ == other;
                    if i < before.len() {
                        assert(before[i]@ == other);
                        assert(queued(before, other));
                    }
                }
                assert(distinct(self.queue@)) by {
                    assert forall|i: int, j: int| 0 <= i < j < self.queue@.len() implies (
                    #[trigger] self.queue@[i])@ != (#[trigger] self.queue@[j])@ by {
                        if j < before.len() {
                            assert(before[i]@ != before[j]@);
                        } else {
                            assert(before[i]@ == self.queue@[i]@);
                            if before[i]@ == key@ {
                                assert(queued(before, key@));
                            }
                        }
                    }
                }
            }
            assert(self.line() =~= if old(self).index@.contains_key(key@) {
                old(self).line()
            } else {
                old(self).line().push(key@)
            });
            let after = old(self).records().insert((namespace@, nonce@), expires_at);
            assert forall|pair: (Seq<char>, Seq<char>)|
                pair != (namespace@, nonce@) && pair.0.len() <= u64::MAX implies #[trigger] nonce_key(
                    pair.0,
                    pair.1,
                ) != key@ by {
                if nonce_key(pair.0, pair.1) == key@ {
                    lemma_nonce_key_injective(pair.0, pair.1, namespace@, nonce@);
                }
            }
            assert(self.records().dom() =~= after.dom());
            assert(self.records() =~= after);
        }
        Ok(NonceOutcome::Fresh)
    }
}

} // verus!
