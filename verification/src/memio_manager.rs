//! One place to create, write, read and watch buffers by name.

use crate::error::MemioError;
use crate::region::{SharedMemoryFactory, SharedMemoryRegion, SharedStateInfo};
use crate::registry::SharedRegistry;
use vstd::prelude::*;
use vstd::string::*;

verus! {

/// What a write left in the header.
#[derive(Debug, Clone)]
pub struct WriteResult {
    pub version: u64,
    /// Bytes of payload that were written.
    pub length: usize,
}

/// A payload and the version it was read at.
#[derive(Debug, Clone)]
pub struct ReadResult {
    pub data: Vec<u8>,
    pub version: u64,
}

/// What to do next while waiting for a buffer to change.
#[derive(Debug, Clone, Copy, PartialEq, Eq)]
pub enum WaitStep {
    /// The version differs from the one last seen: read and return.
    Changed,
    /// The version is the same and the time is up: give up.
    TimedOut,
    /// The version is the same and time is left: sleep one interval and
    /// look again.
    Sleep,
}

/// How one round of waiting for a change ended.
#[derive(Debug, Clone)]
pub enum WaitOutcome {
    Changed(ReadResult),
    TimedOut,
    Pending,
}

/// The step that follows one look at the version, `elapsed` after the wait
/// began: a change is reported whenever it is seen, even past the timeout.
pub open spec fn spec_wait_step(
    current: u64,
    last_version: u64,
    elapsed: u128,
    timeout: u128,
) -> WaitStep {
    if current != last_version {
        WaitStep::Changed
    } else if elapsed >= timeout {
        WaitStep::TimedOut
    } else {
        WaitStep::Sleep
    }
}

/// Decides the step that follows one look at the version. `elapsed` and
/// `timeout` are in one unit, whichever the caller's clock has.
pub fn wait_step(current: u64, last_version: u64, elapsed: u128, timeout: u128) -> (step: WaitStep)
    ensures
        step == spec_wait_step(current, last_version, elapsed, timeout),
{
    if current != last_version {
        WaitStep::Changed
    } else if elapsed >= timeout {
        WaitStep::TimedOut
    } else {
        WaitStep::Sleep
    }
}

/// A wait never sleeps once the time is up, and never sleeps or gives up
/// on a version that differs from the one last seen.
pub proof fn lemma_wait_step(current: u64, last_version: u64, elapsed: u128, timeout: u128)
    ensures
        current != last_version <==> spec_wait_step(current, last_version, elapsed, timeout)
            == WaitStep::Changed,
        elapsed >= timeout ==> spec_wait_step(current, last_version, elapsed, timeout)
            != WaitStep::Sleep,
        spec_wait_step(current, last_version, elapsed, timeout) == WaitStep::TimedOut ==> current
            == last_version && elapsed >= timeout,
{
}

/// A wait that looks at the version once at its start and then once every
/// `interval`, and never sees a change, gives up at the first look at or
/// after the timeout: less than one interval late.
pub proof fn lemma_wait_bound(version: u64, timeout: u128, interval: u128, looks: nat)
    requires
        interval > 0,
        looks * interval <= u128::MAX,
        forall|k: nat|
            k < looks ==> #[trigger] spec_wait_step(
                version,
                version,
                (k * interval) as u128,
                timeout,
            ) == WaitStep::Sleep,
        spec_wait_step(version, version, (looks * interval) as u128, timeout)
            == WaitStep::TimedOut,
    ensures
        timeout <= looks * interval < timeout + interval,
{
    if looks > 0 {
        let before = (looks - 1) as nat;
        assert(before * interval == looks * interval - interval) by (nonlinear_arith)
            requires
                before == looks - 1,
        ;
        assert(spec_wait_step(version, version, (before * interval) as u128, timeout)
            == WaitStep::Sleep);
    }
}

/// The error for a name that no buffer is registered under.
pub fn not_found(name: &str) -> (e: MemioError)
    ensures
        e matches MemioError::NotFound(m) && m@ == name@,
{
    MemioError::NotFound(name.to_owned())
}

/// What a write reports, given what the region returned: version and length
/// as the region has them, or the region's error.
pub open spec fn spec_write_outcome(published: Result<SharedStateInfo, MemioError>) -> Result<
    WriteResult,
    MemioError,
> {
    match published {
        Ok(info) => Ok(WriteResult { version: info.version, length: info.length }),
        Err(e) => Err(e),
    }
}

/// What a read reports, given the region's info and payload: the payload
/// with the version of the info, or the first error of the two.
pub open spec fn spec_read_outcome(
    info: Result<SharedStateInfo, MemioError>,
    data: Result<Vec<u8>, MemioError>,
) -> Result<ReadResult, MemioError> {
    match info {
        Ok(info) => match data {
            Ok(data) => Ok(ReadResult { data, version: info.version }),
            Err(e) => Err(e),
        },
        Err(e) => Err(e),
    }
}

/// The version in what a region reports of itself, or the region's error.
pub open spec fn spec_version_outcome(info: Result<SharedStateInfo, MemioError>) -> Result<
    u64,
    MemioError,
> {
    match info {
        Ok(info) => Ok(info.version),
        Err(e) => Err(e),
    }
}

/// How one round of waiting ends, given what the region reported of itself
/// at the first look and, where the version had changed, what it then
/// reported and held.
pub open spec fn spec_wait_outcome(
    first: Result<SharedStateInfo, MemioError>,
    info: Result<SharedStateInfo, MemioError>,
    data: Result<Vec<u8>, MemioError>,
    last_version: u64,
    elapsed: u128,
    timeout: u128,
) -> Result<WaitOutcome, MemioError> {
    match first {
        Ok(seen) => match spec_wait_step(seen.version, last_version, elapsed, timeout) {
            WaitStep::Changed => match spec_read_outcome(info, data) {
                Ok(result) => Ok(WaitOutcome::Changed(result)),
                Err(e) => Err(e),
            },
            WaitStep::TimedOut => Ok(WaitOutcome::TimedOut),
            WaitStep::Sleep => Ok(WaitOutcome::Pending),
        },
        Err(e) => Err(e),
    }
}

/// What a write reports, given what the region returned.
pub fn write_outcome(published: Result<SharedStateInfo, MemioError>) -> (r: Result<
    WriteResult,
    MemioError,
>)
    ensures
        r == spec_write_outcome(published),
{
    match published {
        Ok(info) => Ok(WriteResult { version: info.version, length: info.length }),
        Err(e) => Err(e),
    }
}

/// What a read reports, given the region's info and payload.
pub fn read_outcome(
    info: Result<SharedStateInfo, MemioError>,
    data: Result<Vec<u8>, MemioError>,
) -> (r: Result<ReadResult, MemioError>)
    ensures
        r == spec_read_outcome(info, data),
{
    match info {
        Ok(info) => match data {
            Ok(data) => Ok(ReadResult { data, version: info.version }),
            Err(e) => Err(e),
        },
        Err(e) => Err(e),
    }
}

/// The version in what a region reports of itself.
pub fn version_outcome(info: Result<SharedStateInfo, MemioError>) -> (r: Result<u64, MemioError>)
    ensures
        r == spec_version_outcome(info),
{
    match info {
        Ok(info) => Ok(info.version),
        Err(e) => Err(e),
    }
}

/// Buffers by name over a registry: the front that applications use.
pub struct MemioManager<F: SharedMemoryFactory> {
    registry: SharedRegistry<F>,
}

impl<F: SharedMemoryFactory> MemioManager<F> {
    /// The registry underneath.
    pub closed spec fn view(&self) -> SharedRegistry<F> {
        self.registry
    }

    /// A manager over `registry`; a registry that could not be set up is
    /// reported as a failed creation that carries the text of its error.
    pub fn new(registry: Result<SharedRegistry<F>, MemioError>) -> (r: Result<Self, MemioError>)
        ensures
            match registry {
                Ok(registry) => r matches Ok(manager) && manager@ == registry,
                Err(e) => r matches Err(MemioError::CreateFailed(m)) && m@ == e.spec_message(),
            },
    {
        match registry {
            Ok(registry) => Ok(MemioManager { registry }),
            Err(e) => Err(MemioError::CreateFailed(e.to_string())),
        }
    }

    /// The registry underneath, whose manifest the caller writes out after
    /// every change.
    pub fn registry(&self) -> (registry: &SharedRegistry<F>)
        ensures
            *registry == self@,
    {
        &self.registry
    }

    /// Creates a buffer of `capacity` bytes and registers it under `name`:
    /// what the factory creates is registered with the path it reports;
    /// where the factory refuses, its error is returned and nothing
    /// changes.
    pub fn create_buffer(&mut self, name: &str, capacity: usize) -> (r: Result<(), MemioError>)
        requires
            old(self)@.wf(),
        ensures
            final(self)@.wf(),
            exists|
                created: Result<F::Region, MemioError>,
                info: Result<SharedStateInfo, MemioError>,
            |
                {
                    &&& call_ensures(
                        F::create,
                        (&old(self)@.spec_factory(), name, capacity),
                        created,
                    )
                    &&& created matches Ok(region) ==> call_ensures(
                        <F::Region as SharedMemoryRegion>::info,
                        (&region,),
                        info,
                    )
                    &&& #[trigger] SharedRegistry::spec_created(
                        &old(self)@,
                        &final(self)@,
                        name@,
                        created,
                        info,
                        r,
                    )
                },
    {
        let r = self.registry.create_buffer(name, capacity);
        proof {
            let (created, info) = choose|
                created: Result<F::Region, MemioError>,
                info: Result<SharedStateInfo, MemioError>,
            |
                {
                    &&& call_ensures(
                        F::create,
                        (&old(self)@.spec_factory(), name, capacity),
                        created,
                    )
                    &&& created matches Ok(region) ==> call_ensures(
                        <F::Region as SharedMemoryRegion>::info,
                        (&region,),
                        info,
                    )
                    &&& #[trigger] SharedRegistry::spec_created(
                        &old(self).registry,
                        &self.registry,
                        name@,
                        created,
                        info,
                        r,
                    )
                };
            assert(SharedRegistry::spec_created(&old(self)@, &self@, name@, created, info, r));
        }
        r
    }

    /// Publishes `data` as `version` in the buffer under `name`, and
    /// reports what the region then holds. An unknown name is refused and
    /// nothing changes.
    pub fn write(&mut self, name: &str, version: u64, data: &[u8]) -> (r: Result<
        WriteResult,
        MemioError,
    >)
        requires
            old(self)@.wf(),
        ensures
            final(self)@.wf(),
            final(self)@.spec_factory() == old(self)@.spec_factory(),
            final(self)@.spec_path() == old(self)@.spec_path(),
            final(self)@.names() == old(self)@.names(),
            final(self)@.paths() == old(self)@.paths(),
            !old(self)@.has(name@) ==> {
                &&& r matches Err(MemioError::NotFound(m)) && m@ == name@
                &&& final(self)@.regions() == old(self)@.regions()
            },
            old(self)@.has(name@) ==> {
                &&& final(self)@.regions() == old(self)@.regions().update(
                    old(self)@.names().index_of(name@),
                    final(self)@.region_of(name@),
                )
                &&& exists|region: &mut F::Region, published: Result<SharedStateInfo, MemioError>|
                    {
                        &&& *region == old(self)@.region_of(name@)
                        &&& *final(region) == final(self)@.region_of(name@)
                        &&& #[trigger] call_ensures(
                            <F::Region as SharedMemoryRegion>::write,
                            (region, version, data),
                            published,
                        )
                        &&& r == spec_write_outcome(published)
                    }
            },
    {
        let r = match self.registry.get_mut(name) {
            Some(region) => write_outcome(region.write(version, data)),
            None => Err(not_found(name)),
        };
        proof {
            old(self)@.lemma_wf();
        }
        r
    }

    /// The payload of the buffer under `name` and its version: the region
    /// is asked for its info and then, where it gave one, for its payload.
    pub fn read(&self, name: &str) -> (r: Result<ReadResult, MemioError>)
        requires
            self@.wf(),
        ensures
            !self@.has(name@) ==> (r matches Err(MemioError::NotFound(m)) && m@ == name@),
            self@.has(name@) ==> exists|
                info: Result<SharedStateInfo, MemioError>,
                data: Result<Vec<u8>, MemioError>,
            |
                {
                    &&& call_ensures(
                        <F::Region as SharedMemoryRegion>::info,
                        (&self@.region_of(name@),),
                        info,
                    )
                    &&& info is Ok ==> call_ensures(
                        <F::Region as SharedMemoryRegion>::read,
                        (&self@.region_of(name@),),
                        data,
                    )
                    &&& r == #[trigger] spec_read_outcome(info, data)
                },
    {
        match self.registry.get(name) {
            Some(region) => {
                let info = region.info();
                let ghost info_as = info;
                match info {
                    Ok(info) => read_outcome(Ok(info), region.read()),
                    Err(e) => {
                        let ghost none: Result<Vec<u8>, MemioError> = Err(e);
                        assert(Err::<ReadResult, MemioError>(e) == spec_read_outcome(
                            info_as,
                            none,
                        ));
                        Err(e)
                    },
                }
            },
            None => Err(not_found(name)),
        }
    }

    /// The version of the buffer under `name`, from what the region reports
    /// of itself.
    pub fn version(&self, name: &str) -> (r: Result<u64, MemioError>)
        requires
            self@.wf(),
        ensures
            !self@.has(name@) ==> (r matches Err(MemioError::NotFound(m)) && m@ == name@),
            self@.has(name@) ==> exists|info: Result<SharedStateInfo, MemioError>|
                {
                    &&& #[trigger] call_ensures(
                        <F::Region as SharedMemoryRegion>::info,
                        (&self@.region_of(name@),),
                        info,
                    )
                    &&& r == spec_version_outcome(info)
                },
    {
        match self.registry.get(name) {
            Some(region) => version_outcome(region.info()),
            None => Err(not_found(name)),
        }
    }

    /// What the buffer under `name` reports of itself.
    pub fn info(&self, name: &str) -> (r: Result<SharedStateInfo, MemioError>)
        requires
            self@.wf(),
        ensures
            !self@.has(name@) ==> (r matches Err(MemioError::NotFound(m)) && m@ == name@),
            self@.has(name@) ==> call_ensures(
                <F::Region as SharedMemoryRegion>::info,
                (&self@.region_of(name@),),
                r,
            ),
    {
        match self.registry.get(name) {
            Some(region) => region.info(),
            None => Err(not_found(name)),
        }
    }

    /// One round of waiting for the buffer under `name` to leave
    /// `last_version`: looks at the version and, where it changed, reads.
    /// The caller sleeps one poll interval on `Pending` and calls again
    /// with the time that has passed since it began.
    pub fn wait_for_change(
        &self,
        name: &str,
        last_version: u64,
        elapsed: u128,
        timeout: u128,
    ) -> (r: Result<WaitOutcome, MemioError>)
        requires
            self@.wf(),
        ensures
            !self@.has(name@) ==> (r matches Err(MemioError::NotFound(m)) && m@ == name@),
            r matches Ok(WaitOutcome::TimedOut) ==> elapsed >= timeout,
            r matches Ok(WaitOutcome::Pending) ==> elapsed < timeout,
            self@.has(name@) ==> exists|
                first: Result<SharedStateInfo, MemioError>,
                info: Result<SharedStateInfo, MemioError>,
                data: Result<Vec<u8>, MemioError>,
            |
                {
                    &&& call_ensures(
                        <F::Region as SharedMemoryRegion>::info,
                        (&self@.region_of(name@),),
                        first,
                    )
                    &&& r == #[trigger] spec_wait_outcome(
                        first,
                        info,
                        data,
                        last_version,
                        elapsed,
                        timeout,
                    )
                },
    {
        match self.registry.get(name) {
            Some(region) => {
                let first = region.info();
                let ghost first_as = first;
                let ghost no_info: Result<SharedStateInfo, MemioError> = Err(
                    MemioError::InvalidHeader,
                );
                let ghost no_data: Result<Vec<u8>, MemioError> = Err(MemioError::InvalidHeader);
                match version_outcome(first) {
                    Ok(current) => match wait_step(current, last_version, elapsed, timeout) {
                        WaitStep::Changed => {
                            let info = region.info();
                            let ghost info_as = info;
                            match info {
                                Ok(info) => {
                                    let data = region.read();
                                    let ghost data_as = data;
                                    let r = match read_outcome(Ok(info), data) {
                                        Ok(result) => Ok(WaitOutcome::Changed(result)),
                                        Err(e) => Err(e),
                                    };
                                    assert(r == spec_wait_outcome(
                                        first_as,
                                        info_as,
                                        data_as,
                                        last_version,
                                        elapsed,
                                        timeout,
                                    ));
                                    r
                                },
                                Err(e) => {
                                    assert(Err::<WaitOutcome, MemioError>(e) == spec_wait_outcome(
                                        first_as,
                                        info_as,
                                        no_data,
                                        last_version,
                                        elapsed,
                                        timeout,
                                    ));
                                    Err(e)
                                },
                            }
                        },
                        WaitStep::TimedOut => Ok(WaitOutcome::TimedOut),
                        WaitStep::Sleep => Ok(WaitOutcome::Pending),
                    },
                    Err(e) => {
                        assert(Err::<WaitOutcome, MemioError>(e) == spec_wait_outcome(
                            first_as,
                            no_info,
                            no_data,
                            last_version,
                            elapsed,
                            timeout,
                        ));
                        Err(e)
                    },
                }
            },
            None => Err(not_found(name)),
        }
    }

    /// Whether a buffer is registered under `name`.
    pub fn has_buffer(&self, name: &str) -> (found: bool)
        requires
            self@.wf(),
        ensures
            found == self@.has(name@),
    {
        self.registry.get(name).is_some()
    }

    /// The names of all buffers, in the order they were created.
    pub fn list_buffers(&self) -> (names: Vec<String>)
        ensures
            names@.len() == self@.names().len(),
            forall|i: int| 0 <= i < names@.len() ==> (#[trigger] names@[i])@ == self@.names()[i],
    {
        self.registry.list_names()
    }

    /// The path of the manifest that lists the buffers.
    pub fn get_registry_path(&self) -> (path: Option<String>)
        ensures
            path matches Some(p) && p@ == self@.spec_path(),
    {
        Some(self.registry.path().to_owned())
    }
}

} // verus!
