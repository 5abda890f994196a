//! The storage capability: blob contents and metadata by path, the error
//! kinds every backend reports, and an in-memory model implementation
//! with commit-once blob semantics.
//!
//! Every consumer (router, manifest planning, uploader) is verified
//! against the trait's contracts, so it behaves correctly over any
//! backend that honours them; the in-memory container both executes the
//! model and serves as the stand-in backend in tests.

use vstd::prelude::*;

use crate::kvlist::{
    assoc_map, distinct_keys, lemma_assoc_contains, lemma_assoc_get, lemma_assoc_push,
    lemma_assoc_update,
};

verus! {

/// How a storage operation failed.
#[derive(Debug, Clone, PartialEq, Eq)]
pub enum StorageError {
    /// The file or directory is not found.
    NotFound,
    /// The credential or signature was rejected.
    AuthenticationError,
    /// A transport failure, with its description.
    HttpError(String),
    /// Any other underlying failure, with its description.
    Other(String),
}

impl StorageError {
    /// A short description of the error kind, suitable for logging.
    pub fn message(&self) -> (r: String)
        ensures
            *self is NotFound ==> r@ == "The file or directory is not found!"@,
            *self is AuthenticationError ==> r@ == "Authentication error!"@,
            *self is HttpError ==> r@ == "HTTP error"@,
            *self is Other ==> r@ == "Other error"@,
    {
        match self {
            StorageError::NotFound => "The file or directory is not found!".to_owned(),
            StorageError::AuthenticationError => "Authentication error!".to_owned(),
            StorageError::HttpError(_) => "HTTP error".to_owned(),
            StorageError::Other(_) => "Other error".to_owned(),
        }
    }
}

/// A blob store after committing `v` at `k`: blobs are immutable once
/// committed, so a commit to an occupied path changes nothing.
pub open spec fn spec_commit(
    m: Map<Seq<char>, Seq<u8>>,
    k: Seq<char>,
    v: Seq<u8>,
) -> Map<Seq<char>, Seq<u8>> {
    if m.contains_key(k) {
        m
    } else {
        m.insert(k, v)
    }
}

/// The store after a whole sequence of commits, applied in order.
pub open spec fn spec_commit_all(
    m: Map<Seq<char>, Seq<u8>>,
    writes: Seq<(Seq<char>, Seq<u8>)>,
) -> Map<Seq<char>, Seq<u8>>
    decreases writes.len(),
{
    if writes.len() == 0 {
        m
    } else {
        spec_commit_all(spec_commit(m, writes.first().0, writes.first().1), writes.drop_first())
    }
}

/// Segment immutability law: once a path holds committed bytes, no later
/// sequence of commits changes them — every future read of that path
/// yields the identical bytes.
pub proof fn lemma_commit_immutable(
    m: Map<Seq<char>, Seq<u8>>,
    k: Seq<char>,
    writes: Seq<(Seq<char>, Seq<u8>)>,
)
    requires
        m.contains_key(k),
    ensures
        spec_commit_all(m, writes).contains_key(k),
        spec_commit_all(m, writes)[k] == m[k],
    decreases writes.len(),
{
    if writes.len() > 0 {
        lemma_commit_immutable(spec_commit(m, writes.first().0, writes.first().1), k,
            writes.drop_first());
    }
}

/// The storage capability consumed by the router and the worker: blob
/// bytes and a metadata string per path, an existence check, and
/// commit-once writes.
pub trait StorageContainer: Sized {
    /// Whatever consistency the implementation needs internally;
    /// constructors establish it and every operation preserves it.
    spec fn inv(&self) -> bool;

    /// The committed blob bytes, by path.
    spec fn spec_entries(&self) -> Map<Seq<char>, Seq<u8>>;

    /// The metadata strings, by path.
    spec fn spec_metadata(&self) -> Map<Seq<char>, Seq<char>>;

    /// Whether a blob is committed at `path`.
    fn blob_exists(&self, path: &str) -> (r: bool)
        requires
            self.inv(),
        ensures
            r == self.spec_entries().contains_key(path@),
    ;

    /// The committed bytes at `path`; `NotFound` exactly when nothing is
    /// committed there. Reading never changes the store, so repeated
    /// reads of a committed path are byte-identical.
    fn get_content(&self, path: &str) -> (r: Result<Vec<u8>, StorageError>)
        requires
            self.inv(),
        ensures
            r is Ok <==> self.spec_entries().contains_key(path@),
            r matches Ok(bytes) ==> bytes@ == self.spec_entries()[path@],
            r is Err ==> r == Err::<Vec<u8>, StorageError>(StorageError::NotFound),
    ;

    /// The metadata string at `path`; `NotFound` exactly when none was
    /// ever set.
    fn get_metadata(&self, path: &str) -> (r: Result<String, StorageError>)
        requires
            self.inv(),
        ensures
            r is Ok <==> self.spec_metadata().contains_key(path@),
            r matches Ok(m) ==> m@ == self.spec_metadata()[path@],
            r is Err ==> r == Err::<String, StorageError>(StorageError::NotFound),
    ;

    /// Commits `content` at `path` with commit-once semantics: an
    /// occupied path keeps its original bytes. Metadata is untouched.
    fn set_content(&mut self, path: &str, content: Vec<u8>) -> (r: Result<(), StorageError>)
        requires
            old(self).inv(),
        ensures
            final(self).inv(),
            r is Ok ==> final(self).spec_entries() == spec_commit(
                old(self).spec_entries(),
                path@,
                content@,
            ),
            r is Err ==> final(self).spec_entries() == old(self).spec_entries(),
            final(self).spec_metadata() == old(self).spec_metadata(),
    ;

    /// Sets the metadata string at `path`, replacing any previous value.
    /// Blob contents are untouched.
    fn set_metadata(&mut self, path: &str, metadata: String) -> (r: Result<(), StorageError>)
        requires
            old(self).inv(),
        ensures
            final(self).inv(),
            r is Ok ==> final(self).spec_metadata() == old(self).spec_metadata().insert(
                path@,
                metadata@,
            ),
            r is Err ==> final(self).spec_metadata() == old(self).spec_metadata(),
            final(self).spec_entries() == old(self).spec_entries(),
    ;
}

/// The in-memory storage backend: the model store itself, also used as
/// the stand-in backend when exercising the router without a network.
pub struct MemoryContainer {
    files: Vec<(String, Vec<u8>)>,
    meta: Vec<(String, String)>,
}

impl MemoryContainer {
    spec fn file_pairs(&self) -> Seq<(Seq<char>, Seq<u8>)> {
        self.files@.map(|i: int, p: (String, Vec<u8>)| (p.0@, p.1@))
    }

    spec fn meta_pairs(&self) -> Seq<(Seq<char>, Seq<char>)> {
        self.meta@.map(|i: int, p: (String, String)| (p.0@, p.1@))
    }

    /// An empty store.
    pub fn new() -> (r: MemoryContainer)
        ensures
            r.inv(),
            r.spec_entries() == Map::<Seq<char>, Seq<u8>>::empty(),
            r.spec_metadata() == Map::<Seq<char>, Seq<char>>::empty(),
    {
        let r = MemoryContainer { files: Vec::new(), meta: Vec::new() };
        proof {
            assert(r.file_pairs() =~= Seq::<(Seq<char>, Seq<u8>)>::empty());
            assert(r.meta_pairs() =~= Seq::<(Seq<char>, Seq<char>)>::empty());
        }
        r
    }

    fn find_file(&self, path: &str) -> (r: Option<usize>)
        requires
            self.inv(),
        ensures
            match r {
                Option::Some(i) => i < self.files@.len() && self.file_pairs()[i as int].0 == path@
                    && self.spec_entries().contains_key(path@)
                    && self.spec_entries()[path@] == self.file_pairs()[i as int].1,
                Option::None => !self.spec_entries().contains_key(path@),
            },
    {
        let n = self.files.len();
        let mut i: usize = 0;
        while i < n
            invariant
                self.inv(),
                n == self.files@.len(),
                0 <= i <= n,
                forall|j: int| 0 <= j < i ==> (#[trigger] self.file_pairs()[j]).0 != path@,
            decreases n - i,
        {
            if crate::strnum::str_eq(self.files[i].0.as_str(), path) {
                proof {
                    lemma_assoc_get(self.file_pairs(), i as int);
                }
                return Some(i);
            }
            i += 1;
        }
        proof {
            lemma_assoc_contains(self.file_pairs(), path@);
        }
        None
    }

    fn find_meta(&self, path: &str) -> (r: Option<usize>)
        requires
            self.inv(),
        ensures
            match r {
                Option::Some(i) => i < self.meta@.len() && self.meta_pairs()[i as int].0 == path@
                    && self.spec_metadata().contains_key(path@)
                    && self.spec_metadata()[path@] == self.meta_pairs()[i as int].1,
                Option::None => !self.spec_metadata().contains_key(path@),
            },
    {
        let n = self.meta.len();
        let mut i: usize = 0;
        while i < n
            invariant
                self.inv(),
                n == self.meta@.len(),
                0 <= i <= n,
                forall|j: int| 0 <= j < i ==> (#[trigger] self.meta_pairs()[j]).0 != path@,
            decreases n - i,
        {
            if crate::strnum::str_eq(self.meta[i].0.as_str(), path) {
                proof {
                    lemma_assoc_get(self.meta_pairs(), i as int);
                }
                return Some(i);
            }
            i += 1;
        }
        proof {
            lemma_assoc_contains(self.meta_pairs(), path@);
        }
        None
    }
}

impl StorageContainer for MemoryContainer {
    closed spec fn inv(&self) -> bool {
        distinct_keys(self.file_pairs()) && distinct_keys(self.meta_pairs())
    }

    closed spec fn spec_entries(&self) -> Map<Seq<char>, Seq<u8>> {
        assoc_map(self.file_pairs())
    }

    closed spec fn spec_metadata(&self) -> Map<Seq<char>, Seq<char>> {
        assoc_map(self.meta_pairs())
    }

    fn blob_exists(&self, path: &str) -> (r: bool) {
        self.find_file(path).is_some()
    }

    fn get_content(&self, path: &str) -> (r: Result<Vec<u8>, StorageError>) {
        match self.find_file(path) {
            Option::Some(i) => {
                let bytes = self.files[i].1.clone();
                proof {
                    assert(bytes@ =~= self.file_pairs()[i as int].1);
                }
                Ok(bytes)
            },
            Option::None => Err(StorageError::NotFound),
        }
    }

    fn get_metadata(&self, path: &str) -> (r: Result<String, StorageError>) {
        match self.find_meta(path) {
            Option::Some(i) => Ok(self.meta[i].1.clone()),
            Option::None => Err(StorageError::NotFound),
        }
    }

    fn set_content(&mut self, path: &str, content: Vec<u8>) -> (r: Result<(), StorageError>) {
        match self.find_file(path) {
            Option::Some(_) => Ok(()),
            Option::None => {
                let ghost old_pairs = self.file_pairs();
                self.files.push((path.to_owned(), content));
                proof {
                    assert(self.file_pairs() =~~= old_pairs.push((path@, content@)));
                    lemma_assoc_push(old_pairs, path@, content@);
                    assert(self.meta_pairs() =~~= old(self).meta_pairs());
                }
                Ok(())
            },
        }
    }

    fn set_metadata(&mut self, path: &str, metadata: String) -> (r: Result<(), StorageError>) {
        match self.find_meta(path) {
            Option::Some(i) => {
                let ghost old_pairs = self.meta_pairs();
                self.meta.set(i, (path.to_owned(), metadata));
                proof {
                    assert(self.meta_pairs() =~~= old_pairs.update(i as int, (path@, metadata@)));
                    lemma_assoc_update(old_pairs, i as int, metadata@);
                    assert(self.file_pairs() =~~= old(self).file_pairs());
                }
                Ok(())
            },
            Option::None => {
                let ghost old_pairs = self.meta_pairs();
                self.meta.push((path.to_owned(), metadata));
                proof {
                    assert(self.meta_pairs() =~~= old_pairs.push((path@, metadata@)));
                    lemma_assoc_push(old_pairs, path@, metadata@);
                    assert(self.file_pairs() =~~= old(self).file_pairs());
                }
                Ok(())
            },
        }
    }
}

} // verus!
