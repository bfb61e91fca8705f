//! A container that owns a value, counts its mutations, and keeps the last
//! serialization at hand; bound to a region, it publishes every mutation
//! there.

use crate::arena::{spec_bump, Arena};
use crate::error::{MemioError, MemioResult};
use crate::region::{SharedMemoryRegion, SharedStateInfo};
use crate::schema::{schema_json, spec_schema_json, MemioField, MemioSchema};
use vstd::prelude::*;
use vstd::string::*;

verus! {

/// What a region reports that has no name, no backing and no payload.
pub open spec fn spec_blank_info(info: SharedStateInfo) -> bool {
    &&& info.name@ == Seq::<char>::empty()
    &&& info.path is None
    &&& info.fd is None
    &&& info.version == 0
    &&& info.length == 0
    &&& info.capacity == 0
}

/// Stands in for the region of a container that is bound to none: it holds
/// nothing and accepts everything.
#[derive(Debug, Default)]
pub struct NoOpRegion;

impl SharedMemoryRegion for NoOpRegion {
    fn capacity(&self) -> (capacity: usize)
        ensures
            capacity == 0,
    {
        0
    }

    fn info(&self) -> (r: Result<SharedStateInfo, MemioError>)
        ensures
            r matches Ok(info) && spec_blank_info(info),
    {
        Ok(SharedStateInfo::default())
    }

    fn write(&mut self, version: u64, data: &[u8]) -> (r: Result<SharedStateInfo, MemioError>)
        ensures
            r matches Ok(info) && spec_blank_info(info),
            *final(self) == *old(self),
    {
        Ok(SharedStateInfo::default())
    }

    fn read(&self) -> (r: Result<Vec<u8>, MemioError>)
        ensures
            r matches Ok(data) && data@.len() == 0,
    {
        Ok(Vec::new())
    }

    fn data(&self) -> (payload: &[u8])
        ensures
            payload@.len() == 0,
    {
        proof {
            reveal_strlit("");
        }
        "".as_bytes()
    }
}

/// A value, the number of times it was mutated, the bytes it last
/// serialized to, and the region it is published in, if any.
pub struct MemioState<T, R: SharedMemoryRegion = NoOpRegion> {
    inner: T,
    version: u64,
    cache: Option<(u64, Vec<u8>)>,
    shared_region: Option<R>,
}

impl<T> MemioState<T, NoOpRegion> {
    /// A container for `value`, bound to no region.
    pub fn new(value: T) -> (state: MemioState<T, NoOpRegion>)
        ensures
            state.value() == value,
            state.spec_version() == 0,
            state.spec_cache() is None,
            state.region() is None,
    {
        MemioState { inner: value, version: 0, cache: None, shared_region: None }
    }

    /// The same container, from now on publishing in `region`.
    pub fn with_shared_memory<R: SharedMemoryRegion>(self, region: R) -> (state: MemioState<T, R>)
        ensures
            state.value() == self.value(),
            state.spec_version() == self.spec_version(),
            state.spec_cache() == self.spec_cache(),
            state.region() == Some(region),
    {
        MemioState {
            inner: self.inner,
            version: self.version,
            cache: self.cache,
            shared_region: Some(region),
        }
    }
}

impl<T, R: SharedMemoryRegion> MemioState<T, R> {
    /// The value that is held.
    pub closed spec fn value(&self) -> T {
        self.inner
    }

    /// The number of mutations so far, modulo 2^64.
    pub closed spec fn spec_version(&self) -> u64 {
        self.version
    }

    /// The last serialization and the version it was made at.
    pub closed spec fn spec_cache(&self) -> Option<(u64, Seq<u8>)> {
        match self.cache {
            Some((version, bytes)) => Some((version, bytes@)),
            None => None,
        }
    }

    /// The region that mutations are published in.
    pub closed spec fn region(&self) -> Option<R> {
        self.shared_region
    }

    /// The cached bytes, where they were made at the current version.
    pub open spec fn cached_bytes(&self) -> Option<Seq<u8>> {
        match self.spec_cache() {
            Some((version, bytes)) => if version == self.spec_version() {
                Some(bytes)
            } else {
                None
            },
            None => None,
        }
    }

    /// What one call of `to_bytes_cached` does to the container, as far as
    /// it does not depend on the serializer: valid cached bytes are returned
    /// as they are, and bytes that are returned are cached.
    pub open spec fn cached_step(
        before: &Self,
        after: &Self,
        r: MemioResult<(u64, Vec<u8>)>,
    ) -> bool {
        &&& after.value() == before.value()
        &&& after.spec_version() == before.spec_version()
        &&& after.region() == before.region()
        &&& before.cached_bytes() matches Some(bytes) ==> after.spec_cache() == before.spec_cache()
            && (r matches Ok((version, out)) && version == before.spec_version() && out@ == bytes)
        &&& r matches Ok((version, out)) ==> version == before.spec_version()
            && after.cached_bytes() == Some(out@)
        &&& r is Err ==> after.spec_cache() == before.spec_cache()
    }

    /// Two calls of `to_bytes_cached` with no mutation between them return
    /// the same version and the same bytes, whatever the serializer does.
    pub proof fn lemma_cached_bytes_stable(
        s0: &Self,
        s1: &Self,
        s2: &Self,
        r1: MemioResult<(u64, Vec<u8>)>,
        r2: MemioResult<(u64, Vec<u8>)>,
    )
        requires
            Self::cached_step(s0, s1, r1),
            Self::cached_step(s1, s2, r2),
            r1 is Ok,
        ensures
            match (r1, r2) {
                (Ok((first_version, first)), Ok((second_version, second))) => second_version
                    == first_version && second@ == first@,
                _ => false,
            },
    {
    }

    /// A container for `value` that publishes in `region`.
    pub fn new_with_region(value: T, region: R) -> (state: Self)
        ensures
            state.value() == value,
            state.spec_version() == 0,
            state.spec_cache() is None,
            state.region() == Some(region),
    {
        MemioState { inner: value, version: 0, cache: None, shared_region: Some(region) }
    }

    /// The value as `serialize` renders it. Nothing is cached.
    pub fn to_bytes<S: FnOnce(&T) -> MemioResult<Vec<u8>>>(&self, serialize: S) -> (r: MemioResult<
        Vec<u8>,
    >)
        requires
            call_requires(serialize, (&self.value(),)),
        ensures
            call_ensures(serialize, (&self.value(),), r),
    {
        serialize(&self.inner)
    }

    /// What `to_bytes_cached` returns without valid cached bytes, given what
    /// the serializer returned: its bytes, or its error.
    pub open spec fn spec_fresh(
        fresh: MemioResult<Vec<u8>>,
        r: MemioResult<(u64, Vec<u8>)>,
    ) -> bool {
        match fresh {
            Ok(bytes) => r matches Ok((_, out)) && out@ == bytes@,
            Err(e) => r == Err::<(u64, Vec<u8>), MemioError>(e),
        }
    }

    /// The current version and the value's bytes: the cached ones where
    /// they were made at this version, else fresh ones from `serialize`,
    /// which are then cached.
    pub fn to_bytes_cached<S: FnOnce(&T) -> MemioResult<Vec<u8>>>(&mut self, serialize: S) -> (r:
        MemioResult<(u64, Vec<u8>)>)
        requires
            call_requires(serialize, (&old(self).value(),)),
        ensures
            Self::cached_step(old(self), final(self), r),
            old(self).cached_bytes() is None ==> exists|fresh: MemioResult<Vec<u8>>|
                {
                    &&& call_ensures(serialize, (&old(self).value(),), fresh)
                    &&& #[trigger] Self::spec_fresh(fresh, r)
                },
    {
        let current_version = self.version;
        match &self.cache {
            Some((cached_version, cached_bytes)) => {
                if *cached_version == current_version {
                    return Ok((current_version, cached_bytes.clone()));
                }
            },
            None => {},
        }
        let fresh = serialize(&self.inner);
        let ghost witness = fresh;
        let r = match fresh {
            Ok(bytes) => {
                let out = bytes.clone();
                self.cache = Some((current_version, bytes));
                Ok((current_version, out))
            },
            Err(e) => Err(e),
        };
        assert(Self::spec_fresh(witness, r));
        r
    }

    /// What `serialize_into` returns and leaves in the arena, given what the
    /// serializer returned: an error is handed on; bytes are copied into a
    /// fresh allocation aligned to eight, or refused where they do not fit.
    pub open spec fn spec_serialize_into(
        before: &Arena,
        after: &Arena,
        fresh: MemioResult<Vec<u8>>,
        r: MemioResult<(usize, usize)>,
    ) -> bool {
        match fresh {
            Err(e) => {
                &&& r == Err::<(usize, usize), MemioError>(e)
                &&& after.bytes() == before.bytes()
                &&& after.spec_used() == before.spec_used()
            },
            Ok(bytes) => match spec_bump(
                before.spec_used(),
                bytes@.len(),
                8,
                before.spec_capacity(),
            ) {
                Some((start, end)) => {
                    &&& r matches Ok((at, len)) && at == start && len == bytes@.len()
                    &&& after.spec_used() == end
                    &&& after.bytes() == before.bytes().subrange(0, start as int) + bytes@
                        + before.bytes().subrange(end as int, before.spec_capacity() as int)
                },
                None => {
                    &&& r matches Err(MemioError::ArenaFull { requested, available })
                        && requested == bytes@.len() && available == before.spec_capacity()
                        - before.spec_used()
                    &&& after.bytes() == before.bytes()
                    &&& after.spec_used() == before.spec_used()
                },
            },
        }
    }

    /// Serializes the value and copies the bytes into a fresh allocation of
    /// `arena`, aligned to eight. Returns the allocation's offset in the
    /// slab and its length.
    pub fn serialize_into<S: FnOnce(&T) -> MemioResult<Vec<u8>>>(
        &self,
        arena: &mut Arena,
        serialize: S,
    ) -> (r: MemioResult<(usize, usize)>)
        requires
            old(arena).wf(),
            call_requires(serialize, (&self.value(),)),
        ensures
            final(arena).wf(),
            final(arena).spec_capacity() == old(arena).spec_capacity(),
            exists|fresh: MemioResult<Vec<u8>>|
                {
                    &&& call_ensures(serialize, (&self.value(),), fresh)
                    &&& #[trigger] Self::spec_serialize_into(old(arena), final(arena), fresh, r)
                },
    {
        let fresh = serialize(&self.inner);
        let ghost witness = fresh;
        let r = match fresh {
            Err(e) => Err(e),
            Ok(bytes) => {
                let len = bytes.len();
                match arena.allocate(len, 8) {
                    Some(start) => {
                        arena.store(start, bytes.as_slice());
                        Ok((start, len))
                    },
                    None => Err(
                        MemioError::ArenaFull {
                            requested: len,
                            available: arena.capacity() - arena.used(),
                        },
                    ),
                }
            },
        };
        assert(Self::spec_serialize_into(old(arena), arena, witness, r));
        r
    }

    /// Calls `f` on the value and returns what it returns.
    pub fn read<F: FnOnce(&T) -> R2, R2>(&self, f: F) -> (r: MemioResult<R2>)
        requires
            call_requires(f, (&self.value(),)),
        ensures
            r matches Ok(out) && call_ensures(f, (&self.value(),), out),
    {
        Ok(f(&self.inner))
    }

    /// What a mutation of a bound container leaves behind and returns,
    /// given what the serializer returned for the new value and what the
    /// region answered when it was asked to publish the bytes: a value that
    /// cannot be serialized leaves cache and region alone; bytes are cached,
    /// and the region's refusal is the result.
    pub open spec fn spec_published<R2>(
        before: &Self,
        after: &Self,
        fresh: MemioResult<Vec<u8>>,
        published: Result<SharedStateInfo, MemioError>,
        r: MemioResult<R2>,
    ) -> bool {
        match fresh {
            Ok(bytes) => {
                &&& after.spec_cache() == Some((after.spec_version(), bytes@))
                &&& match published {
                    Ok(_) => r is Ok,
                    Err(e) => r == Err::<R2, MemioError>(e),
                }
            },
            Err(e) => {
                &&& r == Err::<R2, MemioError>(e)
                &&& after.spec_cache() == before.spec_cache()
                &&& after.region() == before.region()
            },
        }
    }

    /// Lets `f` mutate the value, counts the mutation, and, where a region
    /// is bound, serializes the new value, caches the bytes and publishes
    /// them under the new version. Without a region the cache is dropped.
    /// What `f` returned is handed on only where all of that succeeded; the
    /// value stays mutated and counted either way.
    pub fn write<F: FnOnce(&mut T) -> R2, S: FnOnce(&T) -> MemioResult<Vec<u8>>, R2>(
        &mut self,
        f: F,
        serialize: S,
    ) -> (r: MemioResult<R2>)
        requires
            forall|x: &mut T| *x == old(self).value() ==> call_requires(f, (x,)),
            forall|v: &T| call_requires(serialize, (v,)),
        ensures
            final(self).spec_version() == if old(self).spec_version() == u64::MAX {
                0
            } else {
                (old(self).spec_version() + 1) as u64
            },
            final(self).region() is Some <==> old(self).region() is Some,
            exists|x: &mut T, out: R2|
                {
                    &&& *x == old(self).value()
                    &&& *final(x) == final(self).value()
                    &&& #[trigger] call_ensures(f, (x,), out)
                    &&& r matches Ok(returned) ==> returned == out
                },
            old(self).region() is None ==> r is Ok && final(self).spec_cache() is None,
            old(self).region() is Some ==> exists|
                fresh: MemioResult<Vec<u8>>,
                published: Result<SharedStateInfo, MemioError>,
            |
                {
                    &&& call_ensures(serialize, (&final(self).value(),), fresh)
                    &&& #[trigger] Self::spec_published(old(self), final(self), fresh, published, r)
                    &&& fresh matches Ok(bytes) ==> exists|region: &mut R, data: &[u8]|
                        {
                            &&& old(self).region() == Some(*region)
                            &&& final(self).region() == Some(*final(region))
                            &&& data@ == bytes@
                            &&& #[trigger] call_ensures(
                                <R as SharedMemoryRegion>::write,
                                (region, final(self).spec_version(), data),
                                published,
                            )
                        }
                },
    {
        let out = f(&mut self.inner);
        self.version = self.version.wrapping_add(1);
        let version = self.version;
        let r = match &mut self.shared_region {
            Some(region) => {
                let fresh = serialize(&self.inner);
                let ghost witness = fresh;
                match fresh {
                    Ok(bytes) => {
                        let published = region.write(version, bytes.as_slice());
                        let ghost answer = published;
                        self.cache = Some((version, bytes));
                        let r = match published {
                            Ok(_) => Ok(out),
                            Err(e) => Err(e),
                        };
                        assert(Self::spec_published(old(self), self, witness, answer, r));
                        r
                    },
                    Err(e) => {
                        let r = Err(e);
                        let ghost none: Result<SharedStateInfo, MemioError> = Err(e);
                        assert(Self::spec_published(old(self), self, witness, none, r));
                        r
                    },
                }
            },
            None => {
                self.cache = None;
                Ok(out)
            },
        };
        r
    }

    /// The number of mutations so far.
    pub fn version(&self) -> (version: u64)
        ensures
            version == self.spec_version(),
    {
        self.version
    }

    /// What the bound region reports of itself; `None` where none is bound
    /// or the region cannot tell.
    pub fn shared_info(&self) -> (r: Option<SharedStateInfo>)
        ensures
            self.region() is None ==> r is None,
            self.region() matches Some(region) ==> exists|info: Result<SharedStateInfo, MemioError>|
                {
                    &&& #[trigger] call_ensures(
                        <R as SharedMemoryRegion>::info,
                        (&region,),
                        info,
                    )
                    &&& r == match info {
                        Ok(info) => Some(info),
                        Err(_) => None,
                    }
                },
    {
        match &self.shared_region {
            Some(region) => match region.info() {
                Ok(info) => Some(info),
                Err(_) => None,
            },
            None => None,
        }
    }

    /// The JSON document that describes the layout of the value's type.
    pub fn schema_json(&self) -> (out: String) where T: MemioSchema
        ensures
            exists|fields: &'static [MemioField]|
                {
                    &&& #[trigger] call_ensures(T::schema, (), fields)
                    &&& out@ == spec_schema_json(fields@)
                },
    {
        schema_json::<T>()
    }
}

impl<T: Default, R: SharedMemoryRegion> Default for MemioState<T, R> {
    /// A container for the default value, bound to no region.
    fn default() -> (state: Self)
        ensures
            state.spec_version() == 0,
            state.spec_cache() is None,
            state.region() is None,
    {
        MemioState { inner: T::default(), version: 0, cache: None, shared_region: None }
    }
}

} // verus!
