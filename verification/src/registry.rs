//! The regions of one process by logical name, and the manifest that lets
//! other processes find them.

use crate::error::{MemioError, MemioResult};
use crate::region::{SharedMemoryFactory, SharedMemoryRegion, SharedStateInfo};
use crate::table::NameTable;
use vstd::prelude::*;
use vstd::string::*;

verus! {

/// A region and the path of its backing, empty where it has none.
pub struct RegistryEntry<R> {
    pub path: String,
    pub region: R,
}

/// Regions by logical name, with the factory that makes them and the path
/// of the manifest that lists them.
pub struct SharedRegistry<F: SharedMemoryFactory> {
    factory: F,
    manifest_path: String,
    entries: NameTable<RegistryEntry<F::Region>>,
}

/// The manifest's line for one region: name, `=`, path, newline.
pub open spec fn spec_manifest_line(name: Seq<char>, path: Seq<char>) -> Seq<char> {
    name + "="@ + path + "\n"@
}

/// The manifest of the regions `names` with backing `paths`: one line each,
/// in order.
pub open spec fn spec_manifest(names: Seq<Seq<char>>, paths: Seq<Seq<char>>) -> Seq<char>
    decreases names.len(),
{
    if names.len() == 0 {
        Seq::empty()
    } else {
        spec_manifest(names.drop_last(), paths.drop_last()) + spec_manifest_line(
            names.last(),
            paths.last(),
        )
    }
}

/// The path a region is listed with: the one it reports, or the empty path
/// where it reports none or cannot tell.
pub open spec fn spec_entry_path(info: Result<SharedStateInfo, MemioError>) -> Seq<char> {
    match info {
        Ok(info) => match info.path {
            Some(path) => path@,
            None => Seq::empty(),
        },
        Err(_) => Seq::empty(),
    }
}

/// The path a region is listed with, from what it reports of itself.
pub fn entry_path(info: Result<SharedStateInfo, MemioError>) -> (path: String)
    ensures
        path@ == spec_entry_path(info),
{
    match info {
        Ok(info) => match info.path {
            Some(path) => path,
            None => String::new(),
        },
        Err(_) => String::new(),
    }
}

impl<F: SharedMemoryFactory> SharedRegistry<F> {
    /// The factory.
    pub closed spec fn spec_factory(&self) -> F {
        self.factory
    }

    /// The path of the manifest.
    pub closed spec fn spec_path(&self) -> Seq<char> {
        self.manifest_path@
    }

    /// The logical names, in the order they were registered.
    pub closed spec fn names(&self) -> Seq<Seq<char>> {
        self.entries.names()
    }

    /// The regions, each at the index of its name.
    pub closed spec fn regions(&self) -> Seq<F::Region> {
        Seq::new(self.entries.values().len(), |i: int| self.entries.values()[i].region)
    }

    /// The paths of the backings, each at the index of its name.
    pub closed spec fn paths(&self) -> Seq<Seq<char>> {
        Seq::new(self.entries.values().len(), |i: int| self.entries.values()[i].path@)
    }

    /// No name occurs twice.
    pub closed spec fn wf(&self) -> bool {
        self.entries.wf()
    }

    /// Whether a region is registered under `name`.
    pub open spec fn has(&self, name: Seq<char>) -> bool {
        self.names().contains(name)
    }

    /// The region registered under `name`.
    pub open spec fn region_of(&self, name: Seq<char>) -> F::Region {
        self.regions()[self.names().index_of(name)]
    }

    /// The path listed for `name`.
    pub open spec fn path_of(&self, name: Seq<char>) -> Seq<char> {
        self.paths()[self.names().index_of(name)]
    }

    /// The lists of names, regions and paths run in parallel, and no name
    /// occurs twice.
    pub proof fn lemma_wf(&self)
        requires
            self.wf(),
        ensures
            self.regions().len() == self.names().len(),
            self.paths().len() == self.names().len(),
            forall|i: int, j: int|
                0 <= i < j < self.names().len() ==> self.names()[i] != self.names()[j],
    {
    }

    /// An empty registry over `factory` whose manifest lies at
    /// `manifest_path`.
    pub fn new(factory: F, manifest_path: String) -> (r: MemioResult<Self>)
        ensures
            r matches Ok(registry) && registry.wf() && registry.names().len() == 0
                && registry.spec_factory() == factory && registry.spec_path() == manifest_path@,
    {
        Ok(SharedRegistry { factory, manifest_path, entries: NameTable::new() })
    }

    /// Takes note that the manifest is to be written again. A path alone
    /// is not kept: only `create_buffer` and `register_region` add entries.
    pub fn register(&mut self, name: &str, path: &str) -> (r: MemioResult<()>)
        ensures
            r is Ok,
            *final(self) == *old(self),
    {
        Ok(())
    }

    /// The registry after `region` was registered under `name` with the path
    /// `path`: in place of the entry that was there under that name, or
    /// behind all others.
    pub open spec fn spec_registered(
        &self,
        after: &Self,
        name: Seq<char>,
        region: F::Region,
        path: Seq<char>,
    ) -> bool {
        &&& after.wf()
        &&& after.spec_factory() == self.spec_factory()
        &&& after.spec_path() == self.spec_path()
        &&& after.has(name)
        &&& after.region_of(name) == region
        &&& after.path_of(name) == path
        &&& self.has(name) ==> {
            &&& after.names() == self.names()
            &&& after.regions() == self.regions().update(self.names().index_of(name), region)
            &&& after.paths() == self.paths().update(self.names().index_of(name), path)
        }
        &&& !self.has(name) ==> {
            &&& after.names() == self.names().push(name)
            &&& after.regions() == self.regions().push(region)
            &&& after.paths() == self.paths().push(path)
        }
    }

    /// Nothing is registered that was not, and nothing gone.
    pub open spec fn spec_unchanged(&self, after: &Self) -> bool {
        &&& after.wf() == self.wf()
        &&& after.spec_factory() == self.spec_factory()
        &&& after.spec_path() == self.spec_path()
        &&& after.names() == self.names()
        &&& after.regions() == self.regions()
        &&& after.paths() == self.paths()
    }

    /// What `create_buffer` returns and leaves registered, given what the
    /// factory returned and what the new region reported of itself: the
    /// region is registered with the path it reports, or the factory's
    /// error is handed on and nothing changes.
    pub open spec fn spec_created(
        before: &Self,
        after: &Self,
        name: Seq<char>,
        created: Result<F::Region, MemioError>,
        info: Result<SharedStateInfo, MemioError>,
        r: Result<(), MemioError>,
    ) -> bool {
        match created {
            Ok(region) => r is Ok && before.spec_registered(
                after,
                name,
                region,
                spec_entry_path(info),
            ),
            Err(e) => r == Err::<(), MemioError>(e) && before.spec_unchanged(after),
        }
    }

    /// Registering under one name leaves every other entry as it was.
    pub proof fn lemma_registered_keeps(
        &self,
        after: &Self,
        name: Seq<char>,
        region: F::Region,
        path: Seq<char>,
        other: Seq<char>,
    )
        requires
            self.wf(),
            self.spec_registered(after, name, region, path),
            other != name,
            self.has(other),
        ensures
            after.has(other),
            after.region_of(other) == self.region_of(other),
            after.path_of(other) == self.path_of(other),
    {
        let k = self.names().index_of(other);
        after.entries.lemma_index_of(other, k);
    }

    /// Registers `region` under `name` with the path `path`, in place of the
    /// region that was registered under that name, if any.
    pub fn register_region(&mut self, name: &str, region: F::Region, path: String)
        requires
            old(self).wf(),
        ensures
            old(self).spec_registered(final(self), name@, region, path@),
    {
        self.entries.insert(name.to_owned(), RegistryEntry { path, region });
        proof {
            if old(self).has(name@) {
                let i = old(self).names().index_of(name@);
                assert(self.regions() =~= old(self).regions().update(i, region));
                assert(self.paths() =~= old(self).paths().update(i, path@));
            } else {
                assert(self.regions() =~= old(self).regions().push(region));
                assert(self.paths() =~= old(self).paths().push(path@));
            }
        }
    }

    /// Has the factory create a region of `capacity` bytes under `name` and
    /// registers it, with the path that the region reports. Where the
    /// factory refuses, its error is returned and nothing changes.
    pub fn create_buffer(&mut self, name: &str, capacity: usize) -> (r: Result<(), MemioError>)
        requires
            old(self).wf(),
        ensures
            final(self).wf(),
            exists|
                created: Result<F::Region, MemioError>,
                info: Result<SharedStateInfo, MemioError>,
            |
                {
                    &&& call_ensures(
                        F::create,
                        (&old(self).spec_factory(), name, capacity),
                        created,
                    )
                    &&& created matches Ok(region) ==> call_ensures(
                        <F::Region as SharedMemoryRegion>::info,
                        (&region,),
                        info,
                    )
                    &&& #[trigger] Self::spec_created(
                        old(self),
                        final(self),
                        name@,
                        created,
                        info,
                        r,
                    )
                },
    {
        let created = self.factory.create(name, capacity);
        let ghost created_as = created;
        match created {
            Ok(region) => {
                let info = region.info();
                let ghost info_as = info;
                let path = entry_path(info);
                self.register_region(name, region, path);
                assert(Self::spec_created(old(self), self, name@, created_as, info_as, Ok(())));
                Ok(())
            },
            Err(e) => {
                let ghost none: Result<SharedStateInfo, MemioError> = Err(
                    MemioError::InvalidHeader,
                );
                assert(Self::spec_created(old(self), self, name@, created_as, none, Err(e)));
                Err(e)
            },
        }
    }

    /// The region registered under `name`.
    pub fn get(&self, name: &str) -> (r: Option<&F::Region>)
        requires
            self.wf(),
        ensures
            match r {
                Some(region) => self.has(name@) && *region == self.region_of(name@),
                None => !self.has(name@),
            },
    {
        match self.entries.get(name) {
            Some(entry) => Some(&entry.region),
            None => None,
        }
    }

    /// The region registered under `name`, to be written to in place.
    pub fn get_mut(&mut self, name: &str) -> (r: Option<&mut F::Region>)
        requires
            old(self).wf(),
        ensures
            final(self).wf(),
            final(self).spec_factory() == old(self).spec_factory(),
            final(self).spec_path() == old(self).spec_path(),
            final(self).names() == old(self).names(),
            final(self).paths() == old(self).paths(),
            match r {
                Some(region) => {
                    &&& old(self).has(name@)
                    &&& *region == old(self).region_of(name@)
                    &&& final(self).regions() == old(self).regions().update(
                        old(self).names().index_of(name@),
                        *final(region),
                    )
                },
                None => !old(self).has(name@) && final(self).regions() == old(self).regions(),
            },
    {
        match self.entries.position(name) {
            Some(i) => {
                let entry = self.entries.value_at_mut(i);
                Some(&mut entry.region)
            },
            None => None,
        }
    }

    /// The logical names, in the order they were registered.
    pub fn list_names(&self) -> (names: Vec<String>)
        ensures
            names@.len() == self.names().len(),
            forall|i: int| 0 <= i < names@.len() ==> (#[trigger] names@[i])@ == self.names()[i],
    {
        self.entries.keys()
    }

    /// The path of the manifest.
    pub fn path(&self) -> (path: &str)
        ensures
            path@ == self.spec_path(),
    {
        self.manifest_path.as_str()
    }

    /// The factory that makes this registry's regions.
    pub fn factory(&self) -> (factory: &F)
        ensures
            *factory == self.spec_factory(),
    {
        &self.factory
    }

    /// The text of the manifest: for every region a line of name, `=` and
    /// path. It is written out anew after every change.
    pub fn manifest_text(&self) -> (text: String)
        ensures
            text@ == spec_manifest(self.names(), self.paths()),
    {
        let mut text = String::new();
        let count = self.entries.len();
        let mut i: usize = 0;
        while i < count
            invariant
                i <= count,
                count == self.entries.names().len(),
                count == self.entries.values().len(),
                text@ == spec_manifest(self.names().take(i as int), self.paths().take(i as int)),
            decreases count - i,
        {
            proof {
                assert(self.names().take(i + 1).drop_last() =~= self.names().take(i as int));
                assert(self.paths().take(i + 1).drop_last() =~= self.paths().take(i as int));
            }
            text.append(self.entries.name_at(i).as_str());
            text.append("=");
            text.append(self.entries.value_at(i).path.as_str());
            text.append("\n");
            i += 1;
        }
        proof {
            assert(self.names().take(self.names().len() as int) =~= self.names());
            assert(self.paths().take(self.paths().len() as int) =~= self.paths());
        }
        text
    }
}

} // verus!
