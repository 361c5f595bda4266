use crate::store::{lookup_id_spec, lookup_url_spec};
use vstd::prelude::*;

verus! {

/// No two records of `rows` share an identifier: the store's intended
/// invariant, which only a collision between two minted identifiers breaks.
pub open spec fn unique_ids(rows: Seq<(Seq<u8>, Seq<u8>)>) -> bool {
    forall|i: int, j: int|
        #![trigger rows[i], rows[j]]
        0 <= i < rows.len() && 0 <= j < rows.len() && i != j ==> rows[i].0 != rows[j].0
}

/// A creation that mints a fresh identifier resolves to its URL: when no
/// record holds `id`, a resolve lookup against the store with `(id, url)`
/// appended returns exactly `url`.
pub proof fn lemma_created_id_resolves(rows: Seq<(Seq<u8>, Seq<u8>)>, id: Seq<u8>, url: Seq<u8>)
    requires
        lookup_id_spec(rows, id) is None,
    ensures
        lookup_id_spec(rows.push((id, url)), id) == Some(url),
    decreases rows.len(),
{
    let grown = rows.push((id, url));
    if rows.len() == 0 {
        assert(grown[0] == (id, url));
    } else {
        lemma_created_id_resolves(rows.drop_first(), id, url);
        assert(grown.drop_first() =~= rows.drop_first().push((id, url)));
    }
}

/// A lookup by URL that answers an identifier found it on a record holding
/// that URL: the matched record stands in the store.
proof fn lemma_url_hit_is_present(rows: Seq<(Seq<u8>, Seq<u8>)>, url: Seq<u8>, id: Seq<u8>)
    requires
        lookup_url_spec(rows, url) == Some(id),
    ensures
        exists|k: int| 0 <= k < rows.len() && (#[trigger] rows[k]).0 == id && rows[k].1 == url,
    decreases rows.len(),
{
    if rows.len() > 0 && rows[0].1 != url {
        lemma_url_hit_is_present(rows.drop_first(), url, id);
        let k = choose|k: int|
            0 <= k < rows.drop_first().len() && (#[trigger] rows.drop_first()[k]).0 == id
                && rows.drop_first()[k].1 == url;
        assert(rows[k + 1] == rows.drop_first()[k]);
    }
}

/// A creation that reuses a deduplicated identifier resolves to its URL:
/// while no two records share an identifier, the identifier a lookup by
/// `url` answers resolves back to exactly `url`.
pub proof fn lemma_reused_id_resolves(rows: Seq<(Seq<u8>, Seq<u8>)>, url: Seq<u8>, id: Seq<u8>)
    requires
        unique_ids(rows),
        lookup_url_spec(rows, url) == Some(id),
    ensures
        lookup_id_spec(rows, id) == Some(url),
    decreases rows.len(),
{
    if rows.len() > 0 && rows[0].1 != url {
        let rest = rows.drop_first();
        assert forall|i: int, j: int|
            #![trigger rest[i], rest[j]]
            0 <= i < rest.len() && 0 <= j < rest.len() && i != j implies rest[i].0 != rest[j].0 by {
            assert(rest[i] == rows[i + 1]);
            assert(rest[j] == rows[j + 1]);
        }
        lemma_url_hit_is_present(rest, url, id);
        let k = choose|k: int|
            0 <= k < rest.len() && (#[trigger] rest[k]).0 == id && rest[k].1 == url;
        assert(rest[k] == rows[k + 1]);
        assert(rows[0].0 != id);
        lemma_reused_id_resolves(rest, url, id);
    }
}

/// An identifier never issued resolves to not-found: when no record holds
/// `id`, a resolve lookup answers nothing.
pub proof fn lemma_unissued_id_not_found(rows: Seq<(Seq<u8>, Seq<u8>)>, id: Seq<u8>)
    requires
        forall|k: int| 0 <= k < rows.len() ==> (#[trigger] rows[k]).0 != id,
    ensures
        lookup_id_spec(rows, id) is None,
    decreases rows.len(),
{
    if rows.len() > 0 {
        lemma_unissued_id_not_found(rows.drop_first(), id);
    }
}

/// Deduplicated creation is idempotent: once a creation for `url` has
/// minted `minted` and appended its record to a store with no record for
/// `url`, a second lookup by `url` answers exactly `minted` — so a second
/// creation returns the same identifier and appends nothing.
pub proof fn lemma_dedup_second_create_reuses(
    rows: Seq<(Seq<u8>, Seq<u8>)>,
    url: Seq<u8>,
    minted: Seq<u8>,
)
    requires
        lookup_url_spec(rows, url) is None,
    ensures
        lookup_url_spec(rows.push((minted, url)), url) == Some(minted),
        rows.push((minted, url)).len() == rows.len() + 1,
    decreases rows.len(),
{
    let grown = rows.push((minted, url));
    if rows.len() == 0 {
        assert(grown[0] == (minted, url));
    } else {
        lemma_dedup_second_create_reuses(rows.drop_first(), url, minted);
        assert(grown.drop_first() =~= rows.drop_first().push((minted, url)));
    }
}

/// Creation without deduplication always appends: two creations for the
/// same `url`, minting `first` and then `second`, leave two new records,
/// one per minted identifier, after the untouched original rows.
pub proof fn lemma_plain_create_appends_twice(
    rows: Seq<(Seq<u8>, Seq<u8>)>,
    url: Seq<u8>,
    first: Seq<u8>,
    second: Seq<u8>,
)
    ensures
        ({
            let grown = rows.push((first, url)).push((second, url));
            &&& grown.len() == rows.len() + 2
            &&& grown[rows.len() as int] == (first, url)
            &&& grown[rows.len() as int + 1] == (second, url)
            &&& forall|k: int| 0 <= k < rows.len() ==> grown[k] == rows[k]
        }),
{
}

} // verus!
