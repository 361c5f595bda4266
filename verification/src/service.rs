use crate::bytes::copy_bytes;
use crate::idgen::{generate_id, is_valid_id};
use crate::store::{lookup_id_spec, lookup_url_spec, Store};
use crate::validate::{contains_url_pattern, validate_url};
use vstd::prelude::*;

verus! {

/// Why a create request was rejected before touching the store.
#[derive(Debug)]
pub enum CreateError {
    /// The submitted URL fails the accepted-pattern check.
    InvalidUrl,
}

/// What a lookup against the backing store came back with, kept tagged so a
/// caller can tell an absent record from a store that failed to answer.
pub enum LookupOutcome {
    /// A record matched; the payload is the matched column's value.
    Found(Vec<u8>),
    /// No record matched.
    Absent,
    /// The store could not answer (connection or query failure).
    StoreFailed,
}

/// The response a resolve request ends in.
pub enum ResolveResponse {
    /// Redirect the client, with temporary-redirect semantics, to the
    /// carried target URL.
    Redirect(Vec<u8>),
    /// No record for the identifier: report not-found.
    NotFound,
}

/// The path a create request takes after the deduplication lookup.
pub enum CreatePath {
    /// An identifier already bound to the URL: reuse it, insert nothing.
    Reuse(Vec<u8>),
    /// No identifier found: mint a fresh one and insert the record.
    Mint,
}

/// The shortening service: the store it drives, the base URL short links
/// are composed under, and the two policy switches that distinguish the
/// service's variants.
pub struct Shortener {
    pub store: Store,
    pub base: Vec<u8>,
    /// Reject URLs that fail the accepted-pattern check.
    pub validates: bool,
    /// Reuse an existing identifier when the same URL is submitted again.
    pub dedups: bool,
}

impl Shortener {
    /// A service over an empty store, under the given base URL and policy.
    pub fn new(base: Vec<u8>, validates: bool, dedups: bool) -> (s: Shortener)
        ensures
            s.store@ == Seq::<(Seq<u8>, Seq<u8>)>::empty(),
            s.base@ == base@,
            s.validates == validates,
            s.dedups == dedups,
    {
        Shortener { store: Store::new(), base, validates, dedups }
    }

    /// Shortens `url`: rejects it when validation is on and the pattern does
    /// not occur; otherwise reuses the identifier already bound to `url`
    /// when deduplication is on and one exists; otherwise mints a fresh
    /// six-byte identifier and appends the new record.
    pub fn create_shorten(&mut self, url: &Vec<u8>) -> (r: Result<Vec<u8>, CreateError>)
        ensures
            final(self).base@ == old(self).base@,
            final(self).validates == old(self).validates,
            final(self).dedups == old(self).dedups,
            (match r {
                Err(e) => {
                    &&& e == CreateError::InvalidUrl
                    &&& old(self).validates
                    &&& !contains_url_pattern(url@)
                    &&& final(self).store@ == old(self).store@
                },
                Ok(id) => {
                    &&& (old(self).validates ==> contains_url_pattern(url@))
                    &&& (match lookup_url_spec(old(self).store@, url@) {
                        Some(existing) => if old(self).dedups {
                            final(self).store@ == old(self).store@ && id@ == existing
                        } else {
                            is_valid_id(id@) && final(self).store@ == old(self).store@.push(
                                (id@, url@))
                        },
                        None => is_valid_id(id@) && final(self).store@ == old(self).store@.push(
                            (id@, url@)),
                    })
                },
            }),
    {
        if self.validates && !validate_url(url) {
            return Err(CreateError::InvalidUrl);
        }
        if self.dedups {
            match self.store.lookup_by_url(url) {
                Some(id) => {
                    return Ok(id);
                },
                None => {},
            }
        }
        let id = generate_id();
        let id_row = copy_bytes(&id);
        let url_row = copy_bytes(url);
        self.store.insert(id_row, url_row);
        Ok(id)
    }

    /// Resolves an identifier: the URL of the first record bound to `id`,
    /// or nothing when no record matches.
    pub fn resolve(&self, id: &Vec<u8>) -> (r: Option<Vec<u8>>)
        ensures
            (match r {
                Some(url) => lookup_id_spec(self.store@, id@) == Some(url@),
                None => lookup_id_spec(self.store@, id@) is None,
            }),
    {
        self.store.lookup_by_id(id)
    }
}

/// Turns a tagged resolve lookup into the response the client sees: a found
/// record becomes a temporary redirect to its URL, and both an absent record
/// and a failed store answer collapse to not-found.
pub fn resolve_response(outcome: LookupOutcome) -> (r: ResolveResponse)
    ensures
        (match outcome {
            LookupOutcome::Found(url) => r == ResolveResponse::Redirect(url),
            LookupOutcome::Absent => r == ResolveResponse::NotFound,
            LookupOutcome::StoreFailed => r == ResolveResponse::NotFound,
        }),
{
    match outcome {
        LookupOutcome::Found(url) => ResolveResponse::Redirect(url),
        LookupOutcome::Absent => ResolveResponse::NotFound,
        LookupOutcome::StoreFailed => ResolveResponse::NotFound,
    }
}

/// Decides the create path from the deduplication lookup: a found identifier
/// is reused, while an absent record and a failed lookup are treated alike
/// and lead to minting a fresh identifier.
pub fn create_path(outcome: LookupOutcome) -> (r: CreatePath)
    ensures
        (match outcome {
            LookupOutcome::Found(id) => r == CreatePath::Reuse(id),
            LookupOutcome::Absent => r == CreatePath::Mint,
            LookupOutcome::StoreFailed => r == CreatePath::Mint,
        }),
{
    match outcome {
        LookupOutcome::Found(id) => CreatePath::Reuse(id),
        LookupOutcome::Absent => CreatePath::Mint,
        LookupOutcome::StoreFailed => CreatePath::Mint,
    }
}

} // verus!
