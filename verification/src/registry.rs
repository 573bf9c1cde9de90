//! The link registry: owns the persisted lifecycle of link records and
//! enforces the passphrase check on every mutation.
//!
//! The registry is modelled as a map from id to record model; the store
//! keeps exactly one record per id, every stored link is a canonical
//! absolute URL, and a record's target changes only when the supplied
//! passphrase equals the stored one.

use vstd::prelude::*;

use crate::links::is_canonical;
use crate::links::parse_link;
use crate::links::url_parse_of;
use crate::text::uuid_text;

verus! {

/// One stored link: the sole persisted entity.
#[derive(Debug)]
pub struct LinkRecord {
    /// Opaque unique identifier, generated at creation, immutable.
    pub id: u128,
    /// Validated absolute URL, mutable only via an authorized update.
    pub link: String,
    /// Secret set once at creation, never returned after the creation
    /// response.
    pub passphrase: String,
    /// Set at creation, immutable.
    pub created_at: i64,
    /// Absent until the first successful update.
    pub modified_at: Option<i64>,
}

/// The mathematical content of a `LinkRecord`.
pub ghost struct LinkModel {
    pub id: u128,
    pub link: Seq<char>,
    pub passphrase: Seq<char>,
    pub created_at: int,
    pub modified_at: Option<int>,
}

impl View for LinkRecord {
    type V = LinkModel;

    open spec fn view(&self) -> LinkModel {
        LinkModel {
            id: self.id,
            link: self.link@,
            passphrase: self.passphrase@,
            created_at: self.created_at as int,
            modified_at: match self.modified_at {
                Some(t) => Some(t as int),
                None => None,
            },
        }
    }
}

impl LinkRecord {
    /// A field-for-field copy, written out so the copy is known to carry
    /// the same model.
    pub fn duplicate(&self) -> (r: LinkRecord)
        ensures
            r@ == self@,
    {
        LinkRecord {
            id: self.id,
            link: self.link.clone(),
            passphrase: self.passphrase.clone(),
            created_at: self.created_at,
            modified_at: self.modified_at,
        }
    }
}

/// Why a creation request was refused.
#[derive(Clone, Copy, Debug, PartialEq, Eq, Structural)]
pub enum CreateError {
    /// The supplied target is not a well-formed absolute URL; nothing was
    /// stored.
    Validation,
    /// The freshly drawn id is already taken; nothing was stored.
    Storage,
}

/// No two records share an id.
pub open spec fn ids_unique(s: Seq<LinkRecord>) -> bool {
    forall|i: int, j: int| 0 <= i < j < s.len() ==> s[i].id != s[j].id
}

/// Every stored link is a canonical absolute URL.
pub open spec fn links_canonical(s: Seq<LinkRecord>) -> bool {
    forall|i: int| 0 <= i < s.len() ==> is_canonical(#[trigger] s[i].link@)
}

/// The map that a sequence of records stands for.
pub open spec fn map_of(s: Seq<LinkRecord>) -> Map<u128, LinkModel>
    decreases s.len(),
{
    if s.len() == 0 {
        Map::empty()
    } else {
        map_of(s.drop_last()).insert(s.last().id, s.last()@)
    }
}

proof fn lemma_map_of_contains(s: Seq<LinkRecord>, id: u128)
    ensures
        map_of(s).contains_key(id) <==> exists|i: int| 0 <= i < s.len() && s[i].id == id,
    decreases s.len(),
{
    if s.len() > 0 {
        lemma_map_of_contains(s.drop_last(), id);
        if map_of(s).contains_key(id) {
            if id == s.last().id {
                assert(s[s.len() - 1].id == id);
            } else {
                let i = choose|i: int| 0 <= i < s.drop_last().len() && s.drop_last()[i].id == id;
                assert(s[i].id == id);
            }
        }
        if exists|i: int| 0 <= i < s.len() && s[i].id == id {
            let i = choose|i: int| 0 <= i < s.len() && s[i].id == id;
            if i < s.len() - 1 {
                assert(s.drop_last()[i].id == id);
            }
        }
    }
}

proof fn lemma_map_of_index(s: Seq<LinkRecord>, i: int)
    requires
        ids_unique(s),
        0 <= i < s.len(),
    ensures
        map_of(s).contains_key(s[i].id),
        map_of(s)[s[i].id] == s[i]@,
    decreases s.len(),
{
    if i == s.len() - 1 {
    } else {
        assert(ids_unique(s.drop_last()));
        assert(s.drop_last()[i] == s[i]);
        lemma_map_of_index(s.drop_last(), i);
        assert(s[i].id != s.last().id);
    }
}

proof fn lemma_map_of_push(s: Seq<LinkRecord>, r: LinkRecord)
    ensures
        map_of(s.push(r)) == map_of(s).insert(r.id, r@),
{
    assert(s.push(r).drop_last() =~= s);
    assert(s.push(r).last() == r);
}

proof fn lemma_map_of_update(s: Seq<LinkRecord>, i: int, r: LinkRecord)
    requires
        ids_unique(s),
        0 <= i < s.len(),
        r.id == s[i].id,
    ensures
        map_of(s.update(i, r)) == map_of(s).insert(r.id, r@),
        ids_unique(s.update(i, r)),
    decreases s.len(),
{
    let su = s.update(i, r);
    assert(ids_unique(su));
    if i == s.len() - 1 {
        assert(su.drop_last() =~= s.drop_last());
        assert(su.last() == r);
        assert(map_of(s.drop_last()).insert(s.last().id, s.last()@).insert(r.id, r@) =~= map_of(
            s.drop_last(),
        ).insert(r.id, r@));
    } else {
        assert(ids_unique(s.drop_last()));
        assert(s.drop_last()[i] == s[i]);
        lemma_map_of_update(s.drop_last(), i, r);
        assert(su.drop_last() =~= s.drop_last().update(i, r));
        assert(su.last() == s.last());
        assert(r.id != s.last().id);
        assert(map_of(s.drop_last()).insert(r.id, r@).insert(s.last().id, s.last()@) =~= map_of(
            s.drop_last(),
        ).insert(s.last().id, s.last()@).insert(r.id, r@));
    }
}

proof fn lemma_map_of_remove(s: Seq<LinkRecord>, i: int)
    requires
        ids_unique(s),
        0 <= i < s.len(),
    ensures
        map_of(s.remove(i)) == map_of(s).remove(s[i].id),
        ids_unique(s.remove(i)),
    decreases s.len(),
{
    let sr = s.remove(i);
    assert forall|a: int, b: int| 0 <= a < b < sr.len() implies sr[a].id != sr[b].id by {
        assert(sr[a] == (if a < i {
            s[a]
        } else {
            s[a + 1]
        }));
        assert(sr[b] == (if b < i {
            s[b]
        } else {
            s[b + 1]
        }));
    }
    if i == s.len() - 1 {
        assert(sr =~= s.drop_last());
        lemma_map_of_contains(s.drop_last(), s[i].id);
        assert(forall|j: int|
            0 <= j < s.drop_last().len() ==> s.drop_last()[j] == s[j] && s[j].id != s[i].id);
        assert(!map_of(s.drop_last()).contains_key(s[i].id));
        assert(map_of(s.drop_last()).insert(s.last().id, s.last()@).remove(s[i].id) =~= map_of(
            s.drop_last(),
        ));
    } else {
        assert(ids_unique(s.drop_last()));
        assert(s.drop_last()[i] == s[i]);
        lemma_map_of_remove(s.drop_last(), i);
        assert(sr.drop_last() =~= s.drop_last().remove(i));
        assert(sr.last() == s.last());
        assert(s[i].id != s.last().id);
        assert(map_of(s.drop_last()).remove(s[i].id).insert(s.last().id, s.last()@) =~= map_of(
            s.drop_last(),
        ).insert(s.last().id, s.last()@).remove(s[i].id));
    }
}

/// Relies on `uuid::Uuid::new_v4` and `uuid::Uuid::as_u128`: a freshly
/// drawn random 128-bit identifier. Nothing is promised of the value.
#[verifier::external_body]
fn fresh_id() -> u128 {
    uuid::Uuid::new_v4().as_u128()
}

/// Relies on `chrono::Utc::now` and `chrono::DateTime::timestamp_millis`:
/// the current time in milliseconds since the epoch. Nothing is promised
/// of the value.
#[verifier::external_body]
pub(crate) fn now_millis() -> i64 {
    chrono::Utc::now().timestamp_millis()
}

/// The modification stamp a successful update writes: the supplied time,
/// but never below the stamp already stored.
pub open spec fn next_stamp(prev: Option<int>, now: int) -> int {
    match prev {
        Some(t) => if t > now {
            t
        } else {
            now
        },
        None => now,
    }
}

/// Law: the modification time never decreases. The stamp an update
/// writes is at least the supplied time and at least the stamp already
/// stored, even if the clock steps back between two updates.
pub proof fn lemma_next_stamp_monotonic(prev: Option<int>, now: int)
    ensures
        next_stamp(prev, now) >= now,
        prev matches Some(t) ==> next_stamp(prev, now) >= t,
{
}

/// The link registry, backed by an in-process store that keeps exactly one
/// record per id.
pub struct QrCodeDatabase {
    records: Vec<LinkRecord>,
}

impl View for QrCodeDatabase {
    type V = Map<u128, LinkModel>;

    closed spec fn view(&self) -> Map<u128, LinkModel> {
        map_of(self.records@)
    }
}

impl QrCodeDatabase {
    #[verifier::type_invariant]
    closed spec fn inv(self) -> bool {
        ids_unique(self.records@) && links_canonical(self.records@)
    }

    /// An empty registry.
    pub fn new() -> (r: QrCodeDatabase)
        ensures
            r@ == Map::<u128, LinkModel>::empty(),
    {
        QrCodeDatabase { records: Vec::new() }
    }

    fn find_index(&self, id: u128) -> (r: Option<usize>)
        ensures
            match r {
                Some(i) => i < self.records@.len() && self.records@[i as int].id == id,
                None => forall|j: int| 0 <= j < self.records@.len() ==> self.records@[j].id != id,
            },
    {
        let mut k: usize = 0;
        while k < self.records.len()
            invariant
                0 <= k <= self.records@.len(),
                forall|j: int| 0 <= j < k ==> self.records@[j].id != id,
            decreases self.records@.len() - k,
        {
            if self.records[k].id == id {
                return Some(k);
            }
            k += 1;
        }
        None
    }

    /// Pure read; returns the record stored under `id`, if any. A stored
    /// link is always canonical: it parses as an absolute URL and is its
    /// own serialization.
    pub fn get(&self, id: u128) -> (r: Option<LinkRecord>)
        ensures
            match r {
                Some(rec) => self@.contains_key(id) && rec@ == self@[id] && rec.id == id
                    && is_canonical(rec.link@),
                None => !self@.contains_key(id),
            },
    {
        proof {
            use_type_invariant(self);
        }
        match self.find_index(id) {
            Some(i) => {
                proof {
                    lemma_map_of_index(self.records@, i as int);
                }
                Some(self.records[i].duplicate())
            },
            None => {
                proof {
                    lemma_map_of_contains(self.records@, id);
                }
                None
            },
        }
    }

    /// Inserts a new record built from the given parts, after validating
    /// the target link. Nothing is stored unless `Ok` is returned.
    pub fn create_with(&mut self, link: &str, id: u128, passphrase: String, now: i64) -> (r: Result<
        LinkRecord,
        CreateError,
    >)
        ensures
            match r {
                Ok(rec) => {
                    &&& url_parse_of(link@) == Some(rec.link@)
                    &&& is_canonical(rec.link@)
                    &&& rec.id == id
                    &&& rec.passphrase@ == passphrase@
                    &&& rec.created_at == now
                    &&& rec.modified_at is None
                    &&& !old(self)@.contains_key(id)
                    &&& final(self)@ == old(self)@.insert(id, rec@)
                },
                Err(CreateError::Validation) => url_parse_of(link@) is None && final(self)@ == old(
                    self,
                )@,
                Err(CreateError::Storage) => url_parse_of(link@) is Some && old(
                    self,
                )@.contains_key(id) && final(self)@ == old(self)@,
            },
    {
        proof {
            use_type_invariant(&*self);
        }
        let stored = match parse_link(link) {
            Some(t) => t,
            None => {
                return Err(CreateError::Validation);
            },
        };
        match self.find_index(id) {
            Some(i) => {
                proof {
                    lemma_map_of_index(self.records@, i as int);
                }
                Err(CreateError::Storage)
            },
            None => {
                proof {
                    lemma_map_of_contains(self.records@, id);
                }
                let rec = LinkRecord {
                    id,
                    link: stored,
                    passphrase,
                    created_at: now,
                    modified_at: None,
                };
                let out = rec.duplicate();
                let mut recs: Vec<LinkRecord> = Vec::new();
                core::mem::swap(&mut recs, &mut self.records);
                let ghost s0 = recs@;
                recs.push(rec);
                proof {
                    lemma_map_of_push(s0, rec);
                    assert(ids_unique(s0.push(rec)));
                    assert forall|j: int| 0 <= j < s0.push(rec).len() implies is_canonical(
                        #[trigger] s0.push(rec)[j].link@,
                    ) by {
                        if j < s0.len() {
                            assert(s0.push(rec)[j] == s0[j]);
                        } else {
                            assert(s0.push(rec)[j] == rec);
                        }
                    }
                }
                core::mem::swap(&mut recs, &mut self.records);
                Ok(out)
            },
        }
    }

    /// Validates the target link, mints a fresh id and passphrase, and
    /// stores a new record stamped with the current time. The returned
    /// record is the only response that ever carries the passphrase.
    pub fn create(&mut self, link: &str) -> (r: Result<LinkRecord, CreateError>)
        ensures
            match r {
                Ok(rec) => {
                    &&& url_parse_of(link@) == Some(rec.link@)
                    &&& is_canonical(rec.link@)
                    &&& rec.modified_at is None
                    &&& !old(self)@.contains_key(rec.id)
                    &&& final(self)@ == old(self)@.insert(rec.id, rec@)
                },
                Err(CreateError::Validation) => url_parse_of(link@) is None && final(self)@ == old(
                    self,
                )@,
                Err(CreateError::Storage) => url_parse_of(link@) is Some && final(self)@ == old(
                    self,
                )@,
            },
    {
        let id = fresh_id();
        let passphrase = uuid_text(fresh_id());
        let now = now_millis();
        self.create_with(link, id, passphrase, now)
    }

    /// Replaces the stored target of `id` and stamps the modification
    /// time, provided the supplied passphrase equals the stored one.
    /// The stamp never goes below the one already stored, so the
    /// modification time is non-decreasing even across a backward clock
    /// step. An unknown id and a wrong passphrase yield the same `None`,
    /// and then nothing changes.
    pub fn update(&mut self, id: u128, passphrase: String, link: String, now: i64) -> (r: Option<
        LinkRecord,
    >)
        requires
            is_canonical(link@),
        ensures
            match r {
                Some(rec) => {
                    &&& old(self)@.contains_key(id)
                    &&& old(self)@[id].passphrase == passphrase@
                    &&& rec@ == (LinkModel {
                        link: link@,
                        modified_at: Some(
                            next_stamp(old(self)@[id].modified_at, now as int),
                        ),
                        ..old(self)@[id]
                    })
                    &&& rec.id == id
                    &&& final(self)@ == old(self)@.insert(id, rec@)
                },
                None => {
                    &&& !old(self)@.contains_key(id) || old(self)@[id].passphrase != passphrase@
                    &&& final(self)@ == old(self)@
                },
            },
    {
        proof {
            use_type_invariant(&*self);
        }
        let i = match self.find_index(id) {
            Some(i) => i,
            None => {
                proof {
                    lemma_map_of_contains(self.records@, id);
                }
                return None;
            },
        };
        proof {
            lemma_map_of_index(self.records@, i as int);
        }
        if self.records[i].passphrase != passphrase {
            return None;
        }
        let mut recs: Vec<LinkRecord> = Vec::new();
        core::mem::swap(&mut recs, &mut self.records);
        let ghost s0 = recs@;
        let old_rec = recs.remove(i);
        let stamp: i64 = match old_rec.modified_at {
            Some(t) => if t > now {
                t
            } else {
                now
            },
            None => now,
        };
        let rec = LinkRecord {
            id: old_rec.id,
            link,
            passphrase: old_rec.passphrase,
            created_at: old_rec.created_at,
            modified_at: Some(stamp),
        };
        let out = rec.duplicate();
        recs.insert(i, rec);
        proof {
            assert(s0.remove(i as int).insert(i as int, rec) =~= s0.update(i as int, rec));
            lemma_map_of_update(s0, i as int, rec);
            assert forall|j: int| 0 <= j < s0.update(i as int, rec).len() implies is_canonical(
                #[trigger] s0.update(i as int, rec)[j].link@,
            ) by {
                if j != i as int {
                    assert(s0.update(i as int, rec)[j] == s0[j]);
                }
            }
        }
        core::mem::swap(&mut recs, &mut self.records);
        Some(out)
    }

    /// Removes the record stored under `id` and returns it as it stood,
    /// provided the supplied passphrase equals the stored one. An unknown
    /// id and a wrong passphrase yield the same `None`, and then nothing
    /// changes.
    pub fn delete(&mut self, id: u128, passphrase: String) -> (r: Option<LinkRecord>)
        ensures
            match r {
                Some(rec) => {
                    &&& old(self)@.contains_key(id)
                    &&& old(self)@[id].passphrase == passphrase@
                    &&& rec@ == old(self)@[id]
                    &&& final(self)@ == old(self)@.remove(id)
                },
                None => {
                    &&& !old(self)@.contains_key(id) || old(self)@[id].passphrase != passphrase@
                    &&& final(self)@ == old(self)@
                },
            },
    {
        proof {
            use_type_invariant(&*self);
        }
        let i = match self.find_index(id) {
            Some(i) => i,
            None => {
                proof {
                    lemma_map_of_contains(self.records@, id);
                }
                return None;
            },
        };
        proof {
            lemma_map_of_index(self.records@, i as int);
        }
        if self.records[i].passphrase != passphrase {
            return None;
        }
        let mut recs: Vec<LinkRecord> = Vec::new();
        core::mem::swap(&mut recs, &mut self.records);
        let ghost s0 = recs@;
        let rec = recs.remove(i);
        proof {
            lemma_map_of_remove(s0, i as int);
            assert forall|j: int| 0 <= j < s0.remove(i as int).len() implies is_canonical(
                #[trigger] s0.remove(i as int)[j].link@,
            ) by {
                assert(s0.remove(i as int)[j] == (if j < i as int {
                    s0[j]
                } else {
                    s0[j + 1]
                }));
            }
        }
        core::mem::swap(&mut recs, &mut self.records);
        Some(rec)
    }
}

/// Law: a record created from a canonical URL is read back, under the id
/// the creation returned, with exactly that URL as its stored link.
///
/// `pre` is the registry model before the creation, `rec` the model of
/// the record that a successful creation from input `u` returned, so the
/// registry model after the creation is `pre.insert(rec.id, rec)` and a
/// read of `rec.id` returns that map's entry.
pub proof fn lemma_create_then_get(pre: Map<u128, LinkModel>, rec: LinkModel, u: Seq<char>)
    requires
        url_parse_of(u) == Some(rec.link),
        !pre.contains_key(rec.id),
    ensures
        pre.insert(rec.id, rec).contains_key(rec.id),
        pre.insert(rec.id, rec)[rec.id] == rec,
        is_canonical(u) ==> pre.insert(rec.id, rec)[rec.id].link == u,
{
}

} // verus!
