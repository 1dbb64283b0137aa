use vstd::prelude::*;

verus! {

#[verifier::external_type_specification]
#[verifier::external_body]
pub struct ExDb(sled::Db);

/// The entries a cache database holds: each cached word's response body.
pub uninterp spec fn db_entries(db: sled::Db) -> Map<Seq<char>, Seq<char>>;

/// A persistent word-to-response cache, backed by an embedded on-disk store.
/// Keys are the raw word bytes, unnormalized; an entry, once written, is
/// never updated or removed.
pub struct Cache {
    pub(crate) db: sled::Db,
}

impl View for Cache {
    type V = Map<Seq<char>, Seq<char>>;

    closed spec fn view(&self) -> Map<Seq<char>, Seq<char>> {
        db_entries(self.db)
    }
}

/// What a cache holds is exactly what its database holds.
pub(crate) proof fn lemma_cache_view(c: &Cache)
    ensures
        c@ == db_entries(c.db),
{
}

impl Cache {
    /// Relies on `sled::open`: opens (or creates) the database at the path,
    /// with whatever entries it already holds. An open fault is fatal to
    /// bootstrap, so nothing finer than failure is reported.
    #[verifier::external_body]
    pub fn open(path: &str) -> (r: Result<Cache, ()>) {
        match sled::open(path) {
            Ok(db) => Ok(Cache { db }),
            Err(_) => Err(()),
        }
    }

    /// Relies on `sled::Tree::get`: looks the word up; `Ok(None)` means the
    /// word has no entry. A storage-layer fault, or an entry that is not
    /// text, is reported as a read fault.
    #[verifier::external_body]
    pub(crate) fn get(&self, word: &str) -> (r: Result<Option<String>, ()>)
        ensures
            (match r {
                Ok(Some(body)) => db_entries(self.db).contains_key(word@)
                    && body@ == db_entries(self.db)[word@],
                Ok(None) => !db_entries(self.db).contains_key(word@),
                Err(()) => true,
            }),
    {
        match self.db.get(word.as_bytes()) {
            Ok(Some(raw)) => match String::from_utf8(raw.to_vec()) {
                Ok(body) => Ok(Some(body)),
                Err(_) => Err(()),
            },
            Ok(None) => Ok(None),
            Err(_) => Err(()),
        }
    }

    /// Relies on `sled::Tree::insert`: stores the body under the word,
    /// overwriting any previous entry, atomically per key. On a fault the
    /// entry may or may not have been written.
    #[verifier::external_body]
    pub(crate) fn put(&mut self, word: &str, body: &str) -> (r: Result<(), ()>)
        ensures
            r is Ok ==> db_entries(final(self).db) == db_entries(old(self).db).insert(word@, body@),
            db_entries(final(self).db) == db_entries(old(self).db).insert(word@, body@)
                || db_entries(final(self).db) == db_entries(old(self).db),
    {
        match self.db.insert(word.as_bytes(), body.as_bytes()) {
            Ok(_) => Ok(()),
            Err(_) => Err(()),
        }
    }
}

} // verus!
