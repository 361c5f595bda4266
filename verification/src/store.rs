use crate::bytes::{bytes_eq, copy_bytes};
use vstd::prelude::*;

verus! {

/// One persisted link record: an identifier and the target URL it was
/// issued for. Mirrors one row of the backing table.
pub struct Record {
    pub id: Vec<u8>,
    pub url: Vec<u8>,
}

/// The identifier store: an append-only sequence of link records, in
/// insertion order, with no uniqueness constraint on either column.
pub struct Store {
    records: Vec<Record>,
}

impl View for Store {
    type V = Seq<(Seq<u8>, Seq<u8>)>;

    /// The store's model: the rows in insertion order, each as an
    /// (identifier, URL) pair of byte sequences.
    closed spec fn view(&self) -> Seq<(Seq<u8>, Seq<u8>)> {
        self.records@.map_values(|r: Record| (r.id@, r.url@))
    }
}

/// The URL of the first record whose identifier is `id`, if any: the row an
/// exact-match query by identifier returns.
pub open spec fn lookup_id_spec(rows: Seq<(Seq<u8>, Seq<u8>)>, id: Seq<u8>) -> Option<Seq<u8>>
    decreases rows.len(),
{
    if rows.len() == 0 {
        None
    } else if rows[0].0 == id {
        Some(rows[0].1)
    } else {
        lookup_id_spec(rows.drop_first(), id)
    }
}

/// The identifier of the first record whose URL is `url`, if any: the row an
/// exact-match query by URL returns.
pub open spec fn lookup_url_spec(rows: Seq<(Seq<u8>, Seq<u8>)>, url: Seq<u8>) -> Option<Seq<u8>>
    decreases rows.len(),
{
    if rows.len() == 0 {
        None
    } else if rows[0].1 == url {
        Some(rows[0].0)
    } else {
        lookup_url_spec(rows.drop_first(), url)
    }
}

/// A lookup by identifier finds the first matching row.
proof fn lemma_lookup_id_first_match(rows: Seq<(Seq<u8>, Seq<u8>)>, id: Seq<u8>, i: int)
    requires
        0 <= i < rows.len(),
        forall|j: int| 0 <= j < i ==> (#[trigger] rows[j]).0 != id,
        rows[i].0 == id,
    ensures
        lookup_id_spec(rows, id) == Some(rows[i].1),
    decreases i,
{
    if i > 0 {
        lemma_lookup_id_first_match(rows.drop_first(), id, i - 1);
    }
}

/// A lookup by identifier on rows without that identifier finds nothing.
proof fn lemma_lookup_id_no_match(rows: Seq<(Seq<u8>, Seq<u8>)>, id: Seq<u8>)
    requires
        forall|j: int| 0 <= j < rows.len() ==> (#[trigger] rows[j]).0 != id,
    ensures
        lookup_id_spec(rows, id) is None,
    decreases rows.len(),
{
    if rows.len() > 0 {
        lemma_lookup_id_no_match(rows.drop_first(), id);
    }
}

/// A lookup by URL finds the first matching row.
proof fn lemma_lookup_url_first_match(rows: Seq<(Seq<u8>, Seq<u8>)>, url: Seq<u8>, i: int)
    requires
        0 <= i < rows.len(),
        forall|j: int| 0 <= j < i ==> (#[trigger] rows[j]).1 != url,
        rows[i].1 == url,
    ensures
        lookup_url_spec(rows, url) == Some(rows[i].0),
    decreases i,
{
    if i > 0 {
        lemma_lookup_url_first_match(rows.drop_first(), url, i - 1);
    }
}

/// A lookup by URL on rows without that URL finds nothing.
proof fn lemma_lookup_url_no_match(rows: Seq<(Seq<u8>, Seq<u8>)>, url: Seq<u8>)
    requires
        forall|j: int| 0 <= j < rows.len() ==> (#[trigger] rows[j]).1 != url,
    ensures
        lookup_url_spec(rows, url) is None,
    decreases rows.len(),
{
    if rows.len() > 0 {
        lemma_lookup_url_no_match(rows.drop_first(), url);
    }
}

impl Store {
    /// An empty store: what a fresh backing table holds.
    pub fn new() -> (s: Store)
        ensures
            s@ == Seq::<(Seq<u8>, Seq<u8>)>::empty(),
    {
        let s = Store { records: Vec::new() };
        proof {
            assert(s@ =~= Seq::<(Seq<u8>, Seq<u8>)>::empty());
        }
        s
    }

    /// How many records the store holds.
    pub fn len(&self) -> (n: usize)
        ensures
            n == self@.len(),
    {
        self.records.len()
    }

    /// Appends a new record. No existence check is made: collision
    /// avoidance, where wanted, is the caller's concern.
    pub fn insert(&mut self, id: Vec<u8>, url: Vec<u8>)
        ensures
            final(self)@ == old(self)@.push((id@, url@)),
    {
        let ghost pre = self@;
        let ghost pid = id@;
        let ghost purl = url@;
        self.records.push(Record { id, url });
        proof {
            assert(self@ =~= pre.push((pid, purl)));
        }
    }

    /// Exact-match lookup by identifier: the URL of the first record whose
    /// identifier equals `id`, or nothing when no record matches.
    pub fn lookup_by_id(&self, id: &Vec<u8>) -> (r: Option<Vec<u8>>)
        ensures
            (match r {
                Some(url) => lookup_id_spec(self@, id@) == Some(url@),
                None => lookup_id_spec(self@, id@) is None,
            }),
    {
        let n = self.records.len();
        let mut i: usize = 0;
        while i < n
            invariant
                i <= n,
                n == self.records@.len(),
                forall|j: int| 0 <= j < i ==> (#[trigger] self@[j]).0 != id@,
            decreases n - i,
        {
            if bytes_eq(&self.records[i].id, id) {
                let url = copy_bytes(&self.records[i].url);
                proof {
                    lemma_lookup_id_first_match(self@, id@, i as int);
                }
                return Some(url);
            }
            i += 1;
        }
        proof {
            lemma_lookup_id_no_match(self@, id@);
        }
        None
    }

    /// Exact-match lookup by URL: the identifier of the first record whose
    /// URL equals `url`, or nothing when no record matches.
    pub fn lookup_by_url(&self, url: &Vec<u8>) -> (r: Option<Vec<u8>>)
        ensures
            (match r {
                Some(id) => lookup_url_spec(self@, url@) == Some(id@),
                None => lookup_url_spec(self@, url@) is None,
            }),
    {
        let n = self.records.len();
        let mut i: usize = 0;
        while i < n
            invariant
                i <= n,
                n == self.records@.len(),
                forall|j: int| 0 <= j < i ==> (#[trigger] self@[j]).1 != url@,
            decreases n - i,
        {
            if bytes_eq(&self.records[i].url, url) {
                let id = copy_bytes(&self.records[i].id);
                proof {
                    lemma_lookup_url_first_match(self@, url@, i as int);
                }
                return Some(id);
            }
            i += 1;
        }
        proof {
            lemma_lookup_url_no_match(self@, url@);
        }
        None
    }
}

} // verus!
