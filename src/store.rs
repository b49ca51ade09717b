//! The two tables the service works on, as queries and answers, and an
//! in-memory implementation of them that keeps both uniqueness constraints.
use vstd::prelude::*;
use crate::model::{ApiKey, UrlDb, UrlDbInsert, opt_view, clone_opt};
use crate::text::str_eq;

verus! {

/// One operation on the tables; each request runs at most three of them.
pub enum Query {
    /// The row of `urls` with this id, if any.
    FindUrl { id: String },
    /// Insert a row into `urls`; its id must not be in use.
    InsertUrl { row: UrlDbInsert },
    /// Delete the row of `urls` with this id, if any.
    DeleteUrl { id: String },
    /// All rows of `api_keys`.
    ListKeys,
    /// Insert a row into `api_keys`; its key must not be in use.
    InsertKey { key: String, description: Option<String> },
    /// The row of `api_keys` with this key, if any.
    FindKey { key: String },
    /// Delete the row of `api_keys` with this key, if any.
    DeleteKey { key: String },
}

/// What a successful query returns.
#[derive(Debug)]
pub enum Answer {
    Urls(Vec<UrlDb>),
    Keys(Vec<ApiKey>),
    /// The number of rows inserted or deleted.
    Affected(usize),
}

/// Why a query failed.
#[derive(Debug)]
pub enum StoreError {
    /// A uniqueness constraint refused the row.
    AlreadyExists,
    /// Any other error that the database reported.
    Database(String),
    /// The database could not be reached, or the driver failed.
    Connection(String),
}

/// An `api_keys` row as a value: id, key, description.
pub type KeyRecord = (int, Seq<char>, Option<Seq<char>>);

pub open spec fn key_record(k: ApiKey) -> KeyRecord {
    (k.id as int, k.key@, opt_view(k.description))
}

pub open spec fn key_records(v: Seq<ApiKey>) -> Seq<KeyRecord> {
    v.map_values(|k: ApiKey| key_record(k))
}

pub open spec fn has_key(rows: Seq<KeyRecord>, key: Seq<char>) -> bool {
    exists|i: int| 0 <= i < rows.len() && (#[trigger] rows[i]).1 == key
}

/// The largest row id the key table hands out.
pub const MAX_ROW_ID: i64 = 0x7fff_ffff_ffff_ffff;

/// The message of a table that can take no more rows.
pub open spec fn full_message() -> Seq<char> {
    "database or disk is full"@
}

/// The two tables held in memory.
pub struct Store {
    urls: Vec<UrlDb>,
    keys: Vec<ApiKey>,
    next_id: i64,
    url_map: Ghost<Map<Seq<char>, Seq<char>>>,
}

impl Store {
    /// The `urls` table: each id and the address it stands for.
    pub closed spec fn urls_view(&self) -> Map<Seq<char>, Seq<char>> {
        self.url_map@
    }

    /// The `api_keys` table, in the order the rows were inserted.
    pub closed spec fn keys_view(&self) -> Seq<KeyRecord> {
        key_records(self.keys@)
    }

    /// The id that the next inserted key gets.
    pub closed spec fn next_id_view(&self) -> int {
        self.next_id as int
    }

    pub closed spec fn wf(&self) -> bool {
        &&& forall|i: int, j: int|
            0 <= i < j < self.urls@.len() ==> self.urls@[i].id@ != self.urls@[j].id@
        &&& forall|id: Seq<char>|
            #![trigger self.url_map@.contains_key(id)]
            self.url_map@.contains_key(id) <==> exists|i: int|
                0 <= i < self.urls@.len() && (#[trigger] self.urls@[i]).id@ == id
        &&& forall|i: int|
            0 <= i < self.urls@.len() ==> self.url_map@[(#[trigger] self.urls@[i]).id@]
                == self.urls@[i].url@
        &&& forall|i: int, j: int|
            0 <= i < j < self.keys@.len() ==> self.keys@[i].key@ != self.keys@[j].key@
        &&& forall|i: int| 0 <= i < self.keys@.len() ==> (#[trigger] self.keys@[i]).id < self.next_id
        &&& 1 <= self.next_id
    }

    /// Two empty tables.
    pub fn new() -> (r: Store)
        ensures
            r.wf(),
            r.urls_view() == Map::<Seq<char>, Seq<char>>::empty(),
            r.keys_view() == Seq::<KeyRecord>::empty(),
    {
        let r = Store { urls: Vec::new(), keys: Vec::new(), next_id: 1, url_map: Ghost(Map::empty()) };
        assert(r.keys_view() =~= Seq::<KeyRecord>::empty());
        r
    }

    fn url_position(&self, id: &str) -> (r: Option<usize>)
        requires
            self.wf(),
        ensures
            match r {
                Some(i) => i < self.urls@.len() && self.urls@[i as int].id@ == id@,
                None => !self.urls_view().contains_key(id@),
            },
    {
        let mut i: usize = 0;
        while i < self.urls.len()
            invariant
                i <= self.urls@.len(),
                forall|j: int| 0 <= j < i ==> self.urls@[j].id@ != id@,
            decreases self.urls@.len() - i,
        {
            if str_eq(self.urls[i].id.as_str(), id) {
                return Some(i);
            }
            i = i + 1;
        }
        None
    }

    fn key_position(&self, key: &str) -> (r: Option<usize>)
        requires
            self.wf(),
        ensures
            match r {
                Some(i) => i < self.keys@.len() && self.keys_view()[i as int].1 == key@,
                None => !has_key(self.keys_view(), key@),
            },
    {
        let mut i: usize = 0;
        while i < self.keys.len()
            invariant
                i <= self.keys@.len(),
                forall|j: int| 0 <= j < i ==> self.keys@[j].key@ != key@,
            decreases self.keys@.len() - i,
        {
            if str_eq(self.keys[i].key.as_str(), key) {
                return Some(i);
            }
            i = i + 1;
        }
        None
    }
}


pub open spec fn url_rows_match(v: Seq<UrlDb>, m: Map<Seq<char>, Seq<char>>, id: Seq<char>) -> bool {
    if m.contains_key(id) {
        v.len() == 1 && v[0].id@ == id && v[0].url@ == m[id]
    } else {
        v.len() == 0
    }
}

pub open spec fn key_rows_match(v: Seq<ApiKey>, rows: Seq<KeyRecord>, key: Seq<char>) -> bool {
    if has_key(rows, key) {
        v.len() == 1 && v[0].key@ == key && rows.contains(key_record(v[0]))
    } else {
        v.len() == 0
    }
}

/// The index of the row with this key, where there is one.
pub open spec fn key_index(rows: Seq<KeyRecord>, key: Seq<char>) -> int {
    choose|i: int| 0 <= i < rows.len() && (#[trigger] rows[i]).1 == key
}

pub open spec fn same_tables(a: Store, b: Store) -> bool {
    &&& b.urls_view() == a.urls_view()
    &&& b.keys_view() == a.keys_view()
    &&& b.next_id_view() == a.next_id_view()
}

pub open spec fn same_keys(a: Store, b: Store) -> bool {
    &&& b.keys_view() == a.keys_view()
    &&& b.next_id_view() == a.next_id_view()
}

/// What running `q` on the tables `s` answers, and the tables `t` it leaves.
pub open spec fn run_spec(s: Store, q: Query, t: Store, r: Result<Answer, StoreError>) -> bool {
    match q {
        Query::FindUrl { id } => same_tables(s, t) && match r {
            Ok(Answer::Urls(v)) => url_rows_match(v@, s.urls_view(), id@),
            _ => false,
        },
        Query::InsertUrl { row } => if s.urls_view().contains_key(row.id@) {
            same_tables(s, t) && r == Err::<Answer, StoreError>(StoreError::AlreadyExists)
        } else {
            &&& r == Ok::<Answer, StoreError>(Answer::Affected(1))
            &&& t.urls_view() == s.urls_view().insert(row.id@, row.url@)
            &&& same_keys(s, t)
        },
        Query::DeleteUrl { id } => {
            &&& r == Ok::<Answer, StoreError>(
                Answer::Affected(if s.urls_view().contains_key(id@) { 1 } else { 0 }),
            )
            &&& t.urls_view() == s.urls_view().remove(id@)
            &&& same_keys(s, t)
        },
        Query::ListKeys => same_tables(s, t) && match r {
            Ok(Answer::Keys(v)) => key_records(v@) == s.keys_view(),
            _ => false,
        },
        Query::InsertKey { key, description } => if has_key(s.keys_view(), key@) {
            same_tables(s, t) && r == Err::<Answer, StoreError>(StoreError::AlreadyExists)
        } else if s.next_id_view() == MAX_ROW_ID {
            same_tables(s, t) && match r {
                Err(StoreError::Database(m)) => m@ == full_message(),
                _ => false,
            }
        } else {
            &&& r == Ok::<Answer, StoreError>(Answer::Affected(1))
            &&& t.keys_view() == s.keys_view().push(
                (s.next_id_view(), key@, opt_view(description)),
            )
            &&& t.next_id_view() == s.next_id_view() + 1
            &&& t.urls_view() == s.urls_view()
        },
        Query::FindKey { key } => same_tables(s, t) && match r {
            Ok(Answer::Keys(v)) => key_rows_match(v@, s.keys_view(), key@),
            _ => false,
        },
        Query::DeleteKey { key } => {
            &&& t.urls_view() == s.urls_view()
            &&& t.next_id_view() == s.next_id_view()
            &&& if has_key(s.keys_view(), key@) {
                &&& r == Ok::<Answer, StoreError>(Answer::Affected(1))
                &&& t.keys_view() == s.keys_view().remove(key_index(s.keys_view(), key@))
            } else {
                &&& r == Ok::<Answer, StoreError>(Answer::Affected(0))
                &&& t.keys_view() == s.keys_view()
            }
        },
    }
}

impl Store {
    /// Runs one query on the tables.
    pub fn run(&mut self, q: &Query) -> (r: Result<Answer, StoreError>)
        requires
            old(self).wf(),
        ensures
            final(self).wf(),
            run_spec(*old(self), *q, *final(self), r),
    {
        match q {
            Query::FindUrl { id } => {
                let mut v: Vec<UrlDb> = Vec::new();
                match self.url_position(id.as_str()) {
                    Some(i) => {
                        v.push(self.urls[i].duplicate());
                    },
                    None => {},
                }
                Ok(Answer::Urls(v))
            },
            Query::InsertUrl { row } => {
                match self.url_position(row.id.as_str()) {
                    Some(_) => Err(StoreError::AlreadyExists),
                    None => {
                        let ghost old_urls = self.urls@;
                        let ghost m = self.url_map@;
                        self.urls.push(UrlDb { id: row.id.clone(), url: row.url.clone() });
                        self.url_map = Ghost(m.insert(row.id@, row.url@));
                        assert forall|id: Seq<char>| #[trigger] self.url_map@.contains_key(id)
                            <==> exists|i: int| 0 <= i < self.urls@.len()
                                && (#[trigger] self.urls@[i]).id@ == id by {
                            if id != row.id@ && m.contains_key(id) {
                                let i = choose|i: int| 0 <= i < old_urls.len() && (#[trigger] old_urls[i]).id@ == id;
                                assert(self.urls@[i] == old_urls[i]);
                            }
                            if id == row.id@ {
                                assert(self.urls@[old_urls.len() as int].id@ == id);
                            }
                            if exists|i: int| 0 <= i < self.urls@.len() && (#[trigger] self.urls@[i]).id@ == id {
                                let i = choose|i: int| 0 <= i < self.urls@.len() && (#[trigger] self.urls@[i]).id@ == id;
                                if i < old_urls.len() {
                                    assert(old_urls[i] == self.urls@[i]);
                                }
                            }
                        }
                        assert forall|i: int| 0 <= i < self.urls@.len() implies
                            self.url_map@[(#[trigger] self.urls@[i]).id@] == self.urls@[i].url@ by {
                            if i < old_urls.len() {
                                assert(old_urls[i] == self.urls@[i]);
                                assert(m.contains_key(old_urls[i].id@));
                            }
                        }
                        Ok(Answer::Affected(1))
                    },
                }
            },
            Query::DeleteUrl { id } => {
                match self.url_position(id.as_str()) {
                    Some(i) => {
                        let ghost old_urls = self.urls@;
                        let ghost m = self.url_map@;
                        self.urls.remove(i);
                        self.url_map = Ghost(m.remove(id@));
                        assert forall|k: Seq<char>| #[trigger] self.url_map@.contains_key(k)
                            <==> exists|j: int| 0 <= j < self.urls@.len()
                                && (#[trigger] self.urls@[j]).id@ == k by {
                            if k != id@ && m.contains_key(k) {
                                let j = choose|j: int| 0 <= j < old_urls.len() && (#[trigger] old_urls[j]).id@ == k;
                                if j < i {
                                    assert(self.urls@[j] == old_urls[j]);
                                } else {
                                    assert(self.urls@[j - 1] == old_urls[j]);
                                }
                            }
                            if exists|j: int| 0 <= j < self.urls@.len() && (#[trigger] self.urls@[j]).id@ == k {
                                let j = choose|j: int| 0 <= j < self.urls@.len() && (#[trigger] self.urls@[j]).id@ == k;
                                if j < i {
                                    assert(old_urls[j] == self.urls@[j]);
                                } else {
                                    assert(old_urls[j + 1] == self.urls@[j]);
                                }
                            }
                        }
                        assert forall|j: int| 0 <= j < self.urls@.len() implies
                            self.url_map@[(#[trigger] self.urls@[j]).id@] == self.urls@[j].url@ by {
                            if j < i {
                                assert(old_urls[j] == self.urls@[j]);
                            } else {
                                assert(old_urls[j + 1] == self.urls@[j]);
                            }
                        }
                        assert forall|a: int, b: int| 0 <= a < b < self.urls@.len() implies
                            self.urls@[a].id@ != self.urls@[b].id@ by {
                            let a0 = if a < i { a } else { a + 1 };
                            let b0 = if b < i { b } else { b + 1 };
                            assert(self.urls@[a] == old_urls[a0]);
                            assert(self.urls@[b] == old_urls[b0]);
                        }
                        Ok(Answer::Affected(1))
                    },
                    None => {
                        assert(self.url_map@.remove(id@) =~= self.url_map@);
                        Ok(Answer::Affected(0))
                    },
                }
            },
            Query::ListKeys => {
                let mut v: Vec<ApiKey> = Vec::new();
                let mut i: usize = 0;
                while i < self.keys.len()
                    invariant
                        i <= self.keys@.len(),
                        v@.len() == i,
                        forall|j: int| 0 <= j < i ==> key_record(#[trigger] v@[j]) == key_record(self.keys@[j]),
                    decreases self.keys@.len() - i,
                {
                    v.push(self.keys[i].duplicate());
                    i = i + 1;
                }
                assert(key_records(v@) =~= self.keys_view());
                Ok(Answer::Keys(v))
            },
            Query::InsertKey { key, description } => {
                match self.key_position(key.as_str()) {
                    Some(_) => Err(StoreError::AlreadyExists),
                    None => {
                        if self.next_id == MAX_ROW_ID {
                            Err(StoreError::Database("database or disk is full".to_owned()))
                        } else {
                            let ghost old_keys = self.keys@;
                            let row = ApiKey { id: self.next_id, key: key.clone(), description: clone_opt(description) };
                            self.keys.push(row);
                            self.next_id = self.next_id + 1;
                            assert(key_records(self.keys@) =~= key_records(old_keys).push(
                                (self.next_id - 1, key@, opt_view(*description))));
                            assert forall|a: int, b: int| 0 <= a < b < self.keys@.len() implies
                                self.keys@[a].key@ != self.keys@[b].key@ by {
                                if b == old_keys.len() {
                                    assert(key_records(old_keys)[a].1 == old_keys[a].key@);
                                }
                            }
                            Ok(Answer::Affected(1))
                        }
                    },
                }
            },
            Query::FindKey { key } => {
                let mut v: Vec<ApiKey> = Vec::new();
                match self.key_position(key.as_str()) {
                    Some(i) => {
                        let row = self.keys[i].duplicate();
                        assert(self.keys_view()[i as int] == key_record(row));
                        v.push(row);
                    },
                    None => {},
                }
                Ok(Answer::Keys(v))
            },
            Query::DeleteKey { key } => {
                match self.key_position(key.as_str()) {
                    Some(i) => {
                        let ghost old_keys = self.keys@;
                        let ghost rows = self.keys_view();
                        let ghost k = key_index(rows, key@);
                        assert(rows[i as int].1 == key@);
                        assert(k == i) by {
                            assert(rows[k].1 == key@);
                            assert(rows[k].1 == old_keys[k].key@);
                            assert(rows[i as int].1 == old_keys[i as int].key@);
                        }
                        self.keys.remove(i);
                        assert(key_records(self.keys@) =~= rows.remove(i as int));
                        assert forall|a: int, b: int| 0 <= a < b < self.keys@.len() implies
                            self.keys@[a].key@ != self.keys@[b].key@ by {
                            let a0 = if a < i { a } else { a + 1 };
                            let b0 = if b < i { b } else { b + 1 };
                            assert(self.keys@[a] == old_keys[a0]);
                            assert(self.keys@[b] == old_keys[b0]);
                        }
                        assert forall|j: int| 0 <= j < self.keys@.len() implies
                            (#[trigger] self.keys@[j]).id < self.next_id by {
                            let j0 = if j < i { j } else { j + 1 };
                            assert(self.keys@[j] == old_keys[j0]);
                        }
                        Ok(Answer::Affected(1))
                    },
                    None => Ok(Answer::Affected(0)),
                }
            },
        }
    }
}


impl Store {
    /// No two rows of the key table share a key.
    pub proof fn lemma_keys_unique(&self)
        requires
            self.wf(),
        ensures
            forall|i: int, j: int|
                0 <= i < self.keys_view().len() && 0 <= j < self.keys_view().len() && i != j
                    ==> (#[trigger] self.keys_view()[i]).1 != (#[trigger] self.keys_view()[j]).1,
    {
        assert forall|i: int, j: int|
            0 <= i < self.keys_view().len() && 0 <= j < self.keys_view().len() && i != j
                implies (#[trigger] self.keys_view()[i]).1 != (#[trigger] self.keys_view()[j]).1 by {
            if i < j {
                assert(self.keys@[i].key@ != self.keys@[j].key@);
            } else {
                assert(self.keys@[j].key@ != self.keys@[i].key@);
            }
        }
    }
}

} // verus!
