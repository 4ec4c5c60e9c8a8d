use vstd::prelude::*;
use crate::entries::NamedEntries;
use crate::error::Error;

verus! {

/// The registry of live pools, one per database identifier. An identifier is
/// the connection string itself, compared verbatim. Entries are added by
/// `load` and taken out by `close`, so that an identifier that was closed
/// reads as not loaded.
pub struct DbInstances<P> {
    pools: NamedEntries<P>,
}

impl<P> DbInstances<P> {
    /// The pool registered under each identifier.
    pub closed spec fn view(&self) -> Map<Seq<char>, P> {
        self.pools@
    }

    pub closed spec fn wf(&self) -> bool {
        self.pools.wf()
    }

    /// A registry with no pools.
    pub fn new() -> (r: Self)
        ensures
            r.wf(),
            r@ == Map::<Seq<char>, P>::empty(),
    {
        DbInstances { pools: NamedEntries::new() }
    }

    /// Registers `pool` under `db`. A pool already registered there is
    /// replaced and handed back, for the caller to close.
    pub fn load(&mut self, db: String, pool: P) -> (r: Option<P>)
        requires
            old(self).wf(),
        ensures
            final(self).wf(),
            final(self)@ == old(self)@.insert(db@, pool),
            match r {
                Some(p) => old(self)@.contains_key(db@) && p == old(self)@[db@],
                None => !old(self)@.contains_key(db@),
            },
    {
        self.pools.insert(db, pool)
    }

    /// Completes a `load` of `db` with the outcome of connecting to it: a
    /// pool is registered as `load` does, handing back the pool it replaces;
    /// a failure (`InvalidDbUrl` before any connection is tried, or the
    /// driver's error) is handed back with the registry unchanged.
    pub fn register(&mut self, db: String, connected: Result<P, Error>) -> (r: Result<Option<P>, Error>)
        requires
            old(self).wf(),
        ensures
            final(self).wf(),
            match connected {
                Ok(pool) => {
                    &&& final(self)@ == old(self)@.insert(db@, pool)
                    &&& r matches Ok(replaced) && match replaced {
                        Some(p) => old(self)@.contains_key(db@) && p == old(self)@[db@],
                        None => !old(self)@.contains_key(db@),
                    }
                },
                Err(e) => final(self)@ == old(self)@ && r == Err::<Option<P>, Error>(e),
            },
    {
        match connected {
            Ok(pool) => Ok(self.load(db, pool)),
            Err(e) => Err(e),
        }
    }

    /// The pool that `execute` and `select` on `db` go to; `DatabaseNotLoaded`
    /// carrying `db` where none is registered.
    pub fn pool(&self, db: &str) -> (r: Result<&P, Error>)
        requires
            self.wf(),
        ensures
            match r {
                Ok(p) => self@.contains_key(db@) && *p == self@[db@],
                Err(e) => !self@.contains_key(db@) && (e matches Error::DatabaseNotLoaded(m)
                    && m@ == db@),
            },
    {
        match self.pools.get(db) {
            Some(p) => Ok(p),
            None => Err(Error::DatabaseNotLoaded(db.to_owned())),
        }
    }

    /// Whether a pool is registered under `db`.
    pub fn is_loaded(&self, db: &str) -> (r: bool)
        requires
            self.wf(),
        ensures
            r == self@.contains_key(db@),
    {
        self.pools.contains(db)
    }

    /// The number of registered pools.
    pub fn len(&self) -> (r: usize)
        requires
            self.wf(),
        ensures
            r == self@.len(),
    {
        self.pools.len()
    }

    /// Takes the pool of `db` out of the registry, or every pool where `db`
    /// is None, and hands them back with their identifiers for the caller to
    /// close. A named identifier that is not loaded fails with
    /// `DatabaseNotLoaded` and leaves the registry as it was.
    pub fn close(&mut self, db: Option<String>) -> (r: Result<Vec<(String, P)>, Error>)
        requires
            old(self).wf(),
        ensures
            final(self).wf(),
            match db {
                Some(name) => if old(self)@.contains_key(name@) {
                    &&& final(self)@ == old(self)@.remove(name@)
                    &&& r matches Ok(ps) && ps@.len() == 1 && ps@[0].0@ == name@ && ps@[0].1
                        == old(self)@[name@]
                } else {
                    &&& final(self)@ == old(self)@
                    &&& r matches Err(Error::DatabaseNotLoaded(m)) && m@ == name@
                },
                None => {
                    &&& final(self)@ == Map::<Seq<char>, P>::empty()
                    &&& r matches Ok(ps) && lists_exactly(old(self)@, ps@)
                },
            },
    {
        match db {
            Some(name) => {
                match self.pools.remove(name.as_str()) {
                    Some(p) => Ok(vec![(name, p)]),
                    None => Err(Error::DatabaseNotLoaded(name)),
                }
            },
            None => Ok(self.pools.take_all()),
        }
    }
}

/// Whether `ps` holds each entry of `m` once, as an (identifier, pool) pair.
pub open spec fn lists_exactly<P>(m: Map<Seq<char>, P>, ps: Seq<(String, P)>) -> bool {
    &&& forall|i: int, j: int| 0 <= i < j < ps.len() ==> #[trigger] ps[i].0@ != #[trigger] ps[j].0@
    &&& forall|i: int| 0 <= i < ps.len() ==> m.contains_key(#[trigger] ps[i].0@) && m[ps[i].0@] == ps[i].1
    &&& forall|k: Seq<char>| m.contains_key(k) ==> exists|i: int| 0 <= i < ps.len() && #[trigger] ps[i].0@ == k
}

} // verus!
