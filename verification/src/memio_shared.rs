//! A registry behind the few calls that most users need.

use crate::error::{MemioError, MemioResult};
use crate::region::{SharedMemoryFactory, SharedMemoryRegion, SharedStateInfo};
use crate::registry::SharedRegistry;
use vstd::prelude::*;
use vstd::string::*;

verus! {

/// Buffers by name, over a [`SharedRegistry`].
pub struct MemioShared<F: SharedMemoryFactory> {
    registry: SharedRegistry<F>,
}

/// How a buffer's creation ends, given what the registry returned: its
/// error is reported as an internal one, with its text.
pub open spec fn spec_create_outcome(created: Result<(), MemioError>, r: MemioResult<()>) -> bool {
    match created {
        Ok(_) => r is Ok,
        Err(e) => r matches Err(MemioError::Internal(m)) && m@ == e.spec_message(),
    }
}

/// How a buffer's creation ends, given what the registry returned.
pub fn create_outcome(created: Result<(), MemioError>) -> (r: MemioResult<()>)
    ensures
        spec_create_outcome(created, r),
{
    match created {
        Ok(_) => Ok(()),
        Err(e) => Err(MemioError::Internal(e.to_string())),
    }
}

impl<F: SharedMemoryFactory> MemioShared<F> {
    /// The registry underneath.
    pub closed spec fn view(&self) -> SharedRegistry<F> {
        self.registry
    }

    /// Buffers over `registry`.
    pub fn new(registry: SharedRegistry<F>) -> (shared: Self)
        ensures
            shared@ == registry,
    {
        MemioShared { registry }
    }

    /// The registry underneath, whose manifest the caller writes out after
    /// every change.
    pub fn registry(&self) -> (registry: &SharedRegistry<F>)
        ensures
            *registry == self@,
    {
        &self.registry
    }

    /// As [`SharedRegistry::register`].
    pub fn register(&mut self, name: &str, path: &str) -> (r: MemioResult<()>)
        ensures
            r is Ok,
            final(self)@ == old(self)@,
    {
        self.registry.register(name, path)
    }

    /// Creates a buffer of `capacity` bytes and registers it under `name`,
    /// as the registry does. A refusal is reported as an internal error
    /// that carries its text.
    pub fn create_buffer(&mut self, name: &str, capacity: usize) -> (r: MemioResult<()>)
        requires
            old(self)@.wf(),
        ensures
            final(self)@.wf(),
            exists|
                created: Result<F::Region, MemioError>,
                info: Result<SharedStateInfo, MemioError>,
                registered: Result<(), MemioError>,
            |
                {
                    &&& call_ensures(
                        F::create,
                        (&old(self)@.spec_factory(), name, capacity),
                        created,
                    )
                    &&& created matches Ok(region) ==> call_ensures(
                        <F::Region as SharedMemoryRegion>::info,
                        (&region,),
                        info,
                    )
                    &&& #[trigger] SharedRegistry::spec_created(
                        &old(self)@,
                        &final(self)@,
                        name@,
                        created,
                        info,
                        registered,
                    )
                    &&& spec_create_outcome(registered, r)
                },
    {
        let registered = self.registry.create_buffer(name, capacity);
        let ghost registered_as = registered;
        let r = create_outcome(registered);
        proof {
            let (created, info) = choose|
                created: Result<F::Region, MemioError>,
                info: Result<SharedStateInfo, MemioError>,
            |
                {
                    &&& call_ensures(
                        F::create,
                        (&old(self)@.spec_factory(), name, capacity),
                        created,
                    )
                    &&& created matches Ok(region) ==> call_ensures(
                        <F::Region as SharedMemoryRegion>::info,
                        (&region,),
                        info,
                    )
                    &&& #[trigger] SharedRegistry::spec_created(
                        &old(self).registry,
                        &self.registry,
                        name@,
                        created,
                        info,
                        registered_as,
                    )
                };
            assert(SharedRegistry::spec_created(
                &old(self)@,
                &self@,
                name@,
                created,
                info,
                registered_as,
            ));
        }
        r
    }

    /// The buffer under `name`, to be written to in place.
    pub fn get_buffer(&mut self, name: &str) -> (r: MemioResult<&mut F::Region>)
        requires
            old(self)@.wf(),
        ensures
            final(self)@.wf(),
            final(self)@.names() == old(self)@.names(),
            final(self)@.paths() == old(self)@.paths(),
            match r {
                Ok(region) => {
                    &&& old(self)@.has(name@)
                    &&& *region == old(self)@.region_of(name@)
                    &&& final(self)@.regions() == old(self)@.regions().update(
                        old(self)@.names().index_of(name@),
                        *final(region),
                    )
                },
                Err(e) => {
                    &&& !old(self)@.has(name@)
                    &&& e matches MemioError::Internal(m) && m@ == "Buffer not found: "@ + name@
                    &&& final(self)@.regions() == old(self)@.regions()
                },
            },
    {
        match self.registry.get_mut(name) {
            Some(region) => Ok(region),
            None => Err(MemioError::Internal("Buffer not found: ".to_owned().concat(name))),
        }
    }

    /// The path of the registry's manifest.
    pub fn registry_path(&self) -> (path: &str)
        ensures
            path@ == self@.spec_path(),
    {
        self.registry.path()
    }
}

} // verus!
