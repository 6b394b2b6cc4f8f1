//! The system interface as a consumer of the object model: the environment
//! that its imports run in, and the names under which each version of the
//! interface offers its functions.
use crate::context::{ArenaState, ContextId, ContextObjects};
use crate::export::VMFunction;
use crate::externals::{Extern, Function};
use crate::assoc::{is_last, last_wins, lemma_last_wins};
use crate::exports::contents_view;
use crate::imports::{with_namespace, ImportKey, Imports};
use crate::memory::{Memory, MemoryAccessError};
use vstd::prelude::*;
use vstd::std_specs::convert::FromSpecImpl;

verus! {

/// The identity of a thread of the system interface.
#[derive(Debug, Clone, Copy, PartialEq, Eq, Structural, Hash)]
pub struct WasiThreadId(pub u32);

impl From<u32> for WasiThreadId {
    fn from(id: u32) -> (r: Self) {
        WasiThreadId(id)
    }
}

impl FromSpecImpl<u32> for WasiThreadId {
    open spec fn obeys_from_spec() -> bool {
        true
    }

    open spec fn from_spec(id: u32) -> Self {
        WasiThreadId(id)
    }
}

impl From<WasiThreadId> for u32 {
    fn from(t: WasiThreadId) -> (r: u32) {
        t.0
    }
}

impl FromSpecImpl<WasiThreadId> for u32 {
    open spec fn obeys_from_spec() -> bool {
        true
    }

    open spec fn from_spec(t: WasiThreadId) -> u32 {
        t.0
    }
}

/// The identity of a sub-process.
#[derive(Debug, Clone, Copy, PartialEq, Eq, Structural, Hash)]
pub struct WasiBusProcessId(pub u32);

impl From<u32> for WasiBusProcessId {
    fn from(id: u32) -> (r: Self) {
        WasiBusProcessId(id)
    }
}

impl FromSpecImpl<u32> for WasiBusProcessId {
    open spec fn obeys_from_spec() -> bool {
        true
    }

    open spec fn from_spec(id: u32) -> Self {
        WasiBusProcessId(id)
    }
}

impl From<WasiBusProcessId> for u32 {
    fn from(id: WasiBusProcessId) -> (r: u32) {
        id.0
    }
}

impl FromSpecImpl<WasiBusProcessId> for u32 {
    open spec fn obeys_from_spec() -> bool {
        true
    }

    open spec fn from_spec(id: WasiBusProcessId) -> u32 {
        id.0
    }
}

/// What ends a run of the system interface.
#[derive(Debug, Clone, Copy, PartialEq, Eq, Structural, Hash)]
pub enum WasiError {
    /// The program exited with this code.
    Exit(u32),
    /// The version of the interface could not be determined.
    UnknownWasiVersion,
}

/// The versions of the system interface.
#[derive(Debug, Clone, Copy, PartialEq, Eq, Structural, Hash)]
pub enum WasiVersion {
    /// The first snapshot.
    Snapshot0,
    /// The second snapshot.
    Snapshot1,
    /// The extended interface with 32-bit addresses.
    Wasix32v1,
    /// The extended interface with 64-bit addresses.
    Wasix64v1,
    /// The latest snapshot.
    Latest,
}

/// Which implementation stands behind an imported function.
#[derive(Debug, Clone, Copy, PartialEq, Eq, Structural, Hash)]
pub enum SyscallFlavor {
    /// The implementation of the first snapshot, kept for old modules.
    Legacy,
    /// The current implementation with 32-bit addresses.
    Narrow,
    /// The current implementation with 64-bit addresses.
    Wide,
}

/// Errno: bad address.
pub const __WASI_EFAULT: u16 = 21;

/// Errno: invalid argument.
pub const __WASI_EINVAL: u16 = 28;

/// Errno: value too large to be stored in data type.
pub const __WASI_EOVERFLOW: u16 = 61;

/// Bus errno: the request was malformed.
pub const __BUS_EBADREQUEST: u32 = 12;

/// Bus errno: memory was accessed out of bounds.
pub const __BUS_EMEMVIOLATION: u32 = 18;

/// Bus errno: an unknown error.
pub const __BUS_EUNKNOWN: u32 = 19;

/// The errno that a failed memory access is reported as.
pub open spec fn spec_mem_error_to_wasi(err: MemoryAccessError) -> u16 {
    match err {
        MemoryAccessError::HeapOutOfBounds => __WASI_EFAULT,
        MemoryAccessError::Overflow => __WASI_EOVERFLOW,
        _ => __WASI_EINVAL,
    }
}

/// The errno that a failed memory access is reported as.
pub fn mem_error_to_wasi(err: MemoryAccessError) -> (r: u16)
    ensures
        r == spec_mem_error_to_wasi(err),
{
    match err {
        MemoryAccessError::HeapOutOfBounds => __WASI_EFAULT,
        MemoryAccessError::Overflow => __WASI_EOVERFLOW,
        MemoryAccessError::NonUtf8String => __WASI_EINVAL,
        _ => __WASI_EINVAL,
    }
}

/// The bus errno that a failed memory access is reported as.
pub open spec fn spec_mem_error_to_bus(err: MemoryAccessError) -> u32 {
    match err {
        MemoryAccessError::HeapOutOfBounds => __BUS_EMEMVIOLATION,
        MemoryAccessError::Overflow => __BUS_EMEMVIOLATION,
        MemoryAccessError::NonUtf8String => __BUS_EBADREQUEST,
        _ => __BUS_EUNKNOWN,
    }
}

/// The bus errno that a failed memory access is reported as.
pub fn mem_error_to_bus(err: MemoryAccessError) -> (r: u32)
    ensures
        r == spec_mem_error_to_bus(err),
{
    match err {
        MemoryAccessError::HeapOutOfBounds => __BUS_EMEMVIOLATION,
        MemoryAccessError::Overflow => __BUS_EMEMVIOLATION,
        MemoryAccessError::NonUtf8String => __BUS_EBADREQUEST,
        _ => __BUS_EUNKNOWN,
    }
}

/// What a sleeping thread does next.
#[derive(Debug, Clone, Copy, PartialEq, Eq, Structural, Hash)]
pub enum SleepStep {
    /// The time is up, or the clock went backwards: stop sleeping.
    Done,
    /// Wait for this many nanoseconds, yield, and look at the clock again.
    Wait(u64),
}

/// The longest single wait of a sleeping thread, in nanoseconds.
pub const SLEEP_SLICE_NANOS: u64 = 10_000_000;

/// What a thread that began to sleep for `duration` nanoseconds at time
/// `start` does at time `now`: it stops when the clock went backwards or
/// the duration has passed, and else waits for what remains, but for no
/// more than ten milliseconds at a time.
pub open spec fn spec_sleep_step(duration: u128, start: u128, now: u128) -> SleepStep {
    if now < start || now - start >= duration {
        SleepStep::Done
    } else {
        let remaining = ((duration - (now - start)) as u128) as u64;
        if remaining < SLEEP_SLICE_NANOS {
            SleepStep::Wait(remaining)
        } else {
            SleepStep::Wait(SLEEP_SLICE_NANOS)
        }
    }
}

/// Decides what a sleeping thread does next.
pub fn sleep_step(duration: u128, start: u128, now: u128) -> (r: SleepStep)
    ensures
        r == spec_sleep_step(duration, start, now),
{
    if now < start {
        return SleepStep::Done;
    }
    let delta: u128 = now - start;
    if delta >= duration {
        return SleepStep::Done;
    }
    let left: u128 = duration - delta;
    let remaining: u64 = #[verifier::truncate] (left as u64);
    if remaining < SLEEP_SLICE_NANOS {
        SleepStep::Wait(remaining)
    } else {
        SleepStep::Wait(SLEEP_SLICE_NANOS)
    }
}

/// A thread of the system interface.
#[derive(Debug, Clone, Copy, PartialEq, Eq, Structural, Hash)]
pub struct WasiThread {
    /// The identity of the thread.
    pub id: WasiThreadId,
}

/// The environment that the imports of the system interface run in.
#[derive(Debug, Clone, Copy, PartialEq, Eq)]
pub struct WasiEnv {
    id: WasiThreadId,
    memory: Option<Memory>,
    thread_seed: u32,
}

impl WasiEnv {
    /// The identity of the thread that the environment belongs to.
    pub closed spec fn spec_id(&self) -> WasiThreadId {
        self.id
    }

    /// The memory of the environment, once it was set.
    pub closed spec fn spec_memory(&self) -> Option<Memory> {
        self.memory
    }

    /// The identity given to the thread made last.
    pub closed spec fn spec_thread_seed(&self) -> u32 {
        self.thread_seed
    }

    /// The environment of the main thread, without a memory.
    pub fn new() -> (r: Self)
        ensures
            r.spec_id() == WasiThreadId(0),
            r.spec_memory() is None,
            r.spec_thread_seed() == 0,
    {
        WasiEnv { id: WasiThreadId(0), memory: None, thread_seed: 0 }
    }

    /// The identity of the thread that the environment belongs to.
    pub fn current_thread_id(&self) -> (r: WasiThreadId)
        ensures
            r == self.spec_id(),
    {
        self.id
    }

    /// The identity given to the thread made last; zero before the first.
    pub fn thread_seed(&self) -> (r: u32)
        ensures
            r == self.spec_thread_seed(),
    {
        self.thread_seed
    }

    /// Makes a new thread: its identity is one more than that of the thread
    /// made last.
    pub fn new_thread(&mut self) -> (r: WasiThread)
        requires
            old(self).spec_thread_seed() < u32::MAX,
        ensures
            r.id == WasiThreadId((old(self).spec_thread_seed() + 1) as u32),
            final(self).spec_thread_seed() == old(self).spec_thread_seed() + 1,
            final(self).spec_id() == old(self).spec_id(),
            final(self).spec_memory() == old(self).spec_memory(),
    {
        self.thread_seed = self.thread_seed + 1;
        WasiThread { id: WasiThreadId(self.thread_seed) }
    }

    /// A copy of the memory, if it was set.
    pub fn memory_clone(&self) -> (r: Option<Memory>)
        ensures
            r == self.spec_memory(),
    {
        self.memory
    }

    /// Whether the memory was set.
    pub fn has_memory(&self) -> (r: bool)
        ensures
            r == self.spec_memory().is_some(),
    {
        self.memory.is_some()
    }

    /// Sets the memory. It can be set once only.
    pub fn set_memory(&mut self, memory: Memory)
        requires
            old(self).spec_memory() is None,
        ensures
            final(self).spec_memory() == Some(memory),
            final(self).spec_id() == old(self).spec_id(),
            final(self).spec_thread_seed() == old(self).spec_thread_seed(),
    {
        self.memory = Some(memory);
    }

    /// The memory, which has to be set.
    pub fn memory(&self) -> (r: &Memory)
        requires
            self.spec_memory() is Some,
        ensures
            Some(*r) == self.spec_memory(),
    {
        self.memory.as_ref().unwrap()
    }

    /// The imports for the version of the interface that was found in a
    /// module; `UnknownWasiVersion` where none was found.
    pub fn import_object(
        &mut self,
        ctx: &mut ContextObjects,
        version: Option<WasiVersion>,
        callables: Vec<VMFunction>,
    ) -> (r: Result<Imports, WasiError>)
        requires
            version matches Some(v) ==> callables@.len() == spec_import_count(v),
        ensures
            *final(self) == *old(self),
            old(ctx)@.wf() ==> final(ctx)@.wf(),
            match version {
                None => r == Err::<Imports, WasiError>(WasiError::UnknownWasiVersion)
                    && final(ctx)@ == old(ctx)@,
                Some(v) => {
                    &&& r matches Ok(imports) && imports.wf() && imports@ == generated(
                        v,
                        old(ctx)@.id,
                        old(ctx)@.functions.len(),
                    )
                    &&& final(ctx)@ == with_functions(old(ctx)@, callables@)
                },
            },
    {
        match version {
            None => Err(WasiError::UnknownWasiVersion),
            Some(v) => Ok(generate_import_object_from_ctx(ctx, v, callables)),
        }
    }

    /// The imports of every version of the interface that was found in a
    /// module, generated one version after the other; `UnknownWasiVersion`
    /// where none was found. `callables` holds the functions of each version.
    pub fn import_object_for_all_wasi_versions(
        &mut self,
        ctx: &mut ContextObjects,
        versions: Option<Vec<WasiVersion>>,
        callables: Vec<Vec<VMFunction>>,
    ) -> (r: Result<Imports, WasiError>)
        requires
            versions matches Some(vs) ==> {
                &&& callables@.len() == vs@.len()
                &&& forall|k: int|
                    0 <= k < vs@.len() ==> (#[trigger] callables@[k])@.len() == spec_import_count(
                        vs@[k],
                    )
            },
        ensures
            *final(self) == *old(self),
            old(ctx)@.wf() ==> final(ctx)@.wf(),
            match versions {
                None => r == Err::<Imports, WasiError>(WasiError::UnknownWasiVersion)
                    && final(ctx)@ == old(ctx)@,
                Some(vs) => {
                    &&& r matches Ok(imports) && imports.wf() && imports@ == merged(
                        vs@,
                        old(ctx)@.id,
                        old(ctx)@.functions.len(),
                    )
                    &&& final(ctx)@ == with_all_functions(old(ctx)@, callables@)
                },
            },
    {
        match versions {
            None => Err(WasiError::UnknownWasiVersion),
            Some(vs) => Ok(import_objects_for_versions(ctx, &vs, &callables)),
        }
    }
}

/// The number of functions that the two snapshots offer.
pub const WASI_COUNT: usize = 45;

/// The names of the functions that the two snapshots offer, in the order in which they are offered.
pub const WASI_NAMES: [&'static str; 45] = [
    "args_get", "args_sizes_get", "clock_res_get", "clock_time_get", "environ_get",
    "environ_sizes_get", "fd_advise", "fd_allocate", "fd_close", "fd_datasync", "fd_fdstat_get",
    "fd_fdstat_set_flags", "fd_fdstat_set_rights", "fd_filestat_get", "fd_filestat_set_size",
    "fd_filestat_set_times", "fd_pread", "fd_prestat_get", "fd_prestat_dir_name", "fd_pwrite",
    "fd_read", "fd_readdir", "fd_renumber", "fd_seek", "fd_sync", "fd_tell", "fd_write",
    "path_create_directory", "path_filestat_get", "path_filestat_set_times", "path_link",
    "path_open", "path_readlink", "path_remove_directory", "path_rename", "path_symlink",
    "path_unlink_file", "poll_oneoff", "proc_exit", "proc_raise", "random_get", "sched_yield",
    "sock_recv", "sock_send", "sock_shutdown",
];

/// The name of the `i`-th of the functions that the two snapshots offer.
pub open spec fn spec_wasi_name(i: usize) -> Seq<char> {
    WASI_NAMES[i as int]@
}

/// The name of the `i`-th of the functions that the two snapshots offer.
pub fn wasi_name(i: usize) -> (r: &'static str)
    requires
        i < WASI_COUNT,
    ensures
        r@ == spec_wasi_name(i),
{
    WASI_NAMES[i]
}

/// The number of functions that the extended interface offers.
pub const WASIX_COUNT: usize = 107;

/// The names of the functions that the extended interface offers, in the order in which they are offered.
pub const WASIX_NAMES: [&'static str; 107] = [
    "args_get", "args_sizes_get", "clock_res_get", "clock_time_get", "environ_get",
    "environ_sizes_get", "fd_advise", "fd_allocate", "fd_close", "fd_datasync", "fd_fdstat_get",
    "fd_fdstat_set_flags", "fd_fdstat_set_rights", "fd_filestat_get", "fd_filestat_set_size",
    "fd_filestat_set_times", "fd_pread", "fd_prestat_get", "fd_prestat_dir_name", "fd_pwrite",
    "fd_read", "fd_readdir", "fd_renumber", "fd_dup", "fd_event", "fd_seek", "fd_sync",
    "fd_tell", "fd_write", "fd_pipe", "path_create_directory", "path_filestat_get",
    "path_filestat_set_times", "path_link", "path_open", "path_readlink",
    "path_remove_directory", "path_rename", "path_symlink", "path_unlink_file", "poll_oneoff",
    "proc_exit", "proc_raise", "random_get", "tty_get", "tty_set", "getcwd", "chdir",
    "thread_spawn", "thread_sleep", "thread_id", "thread_join", "thread_parallelism",
    "thread_exit", "sched_yield", "getpid", "process_spawn", "bus_open_local",
    "bus_open_remote", "bus_close", "bus_call", "bus_subcall", "bus_poll", "call_reply",
    "call_fault", "call_close", "ws_connect", "http_request", "http_status", "port_bridge",
    "port_unbridge", "port_dhcp_acquire", "port_addr_add", "port_addr_remove",
    "port_addr_clear", "port_addr_list", "port_mac", "port_gateway_set", "port_route_add",
    "port_route_remove", "port_route_clear", "port_route_list", "sock_status",
    "sock_addr_local", "sock_addr_peer", "sock_open", "sock_set_opt_flag", "sock_get_opt_flag",
    "sock_set_opt_time", "sock_get_opt_time", "sock_set_opt_size", "sock_get_opt_size",
    "sock_join_multicast_v4", "sock_leave_multicast_v4", "sock_join_multicast_v6",
    "sock_leave_multicast_v6", "sock_bind", "sock_listen", "sock_accept", "sock_connect",
    "sock_recv", "sock_recv_from", "sock_send", "sock_send_to", "sock_send_file",
    "sock_shutdown", "resolve",
];

/// The name of the `i`-th of the functions that the extended interface offers.
pub open spec fn spec_wasix_name(i: usize) -> Seq<char> {
    WASIX_NAMES[i as int]@
}

/// The name of the `i`-th of the functions that the extended interface offers.
pub fn wasix_name(i: usize) -> (r: &'static str)
    requires
        i < WASIX_COUNT,
    ensures
        r@ == spec_wasix_name(i),
{
    WASIX_NAMES[i]
}

/// The position of `fd_filestat_get` among the names of the snapshots.
pub const LEGACY_FD_FILESTAT_GET: usize = 13;

/// The position of `fd_seek` among the names of the snapshots.
pub const LEGACY_FD_SEEK: usize = 23;

/// The position of `path_filestat_get` among the names of the snapshots.
pub const LEGACY_PATH_FILESTAT_GET: usize = 28;

/// The position of `poll_oneoff` among the names of the snapshots.
pub const LEGACY_POLL_ONEOFF: usize = 37;

/// The namespace under which a version offers its functions.
pub open spec fn spec_namespace(version: WasiVersion) -> Seq<char> {
    match version {
        WasiVersion::Snapshot0 => "wasi_unstable"@,
        WasiVersion::Snapshot1 | WasiVersion::Latest => "wasi_snapshot_preview1"@,
        WasiVersion::Wasix32v1 => "wasix_32v1"@,
        WasiVersion::Wasix64v1 => "wasix_64v1"@,
    }
}

/// The namespace under which a version offers its functions.
pub fn namespace(version: WasiVersion) -> (r: &'static str)
    ensures
        r@ == spec_namespace(version),
{
    match version {
        WasiVersion::Snapshot0 => "wasi_unstable",
        WasiVersion::Snapshot1 | WasiVersion::Latest => "wasi_snapshot_preview1",
        WasiVersion::Wasix32v1 => "wasix_32v1",
        WasiVersion::Wasix64v1 => "wasix_64v1",
    }
}

/// Whether a version is one of the extended interface.
pub open spec fn is_wasix(version: WasiVersion) -> bool {
    version == WasiVersion::Wasix32v1 || version == WasiVersion::Wasix64v1
}

/// Whether a version is one of the extended interface.
pub fn is_wasix_version(version: WasiVersion) -> (r: bool)
    ensures
        r == is_wasix(version),
{
    match version {
        WasiVersion::Wasix32v1 | WasiVersion::Wasix64v1 => true,
        _ => false,
    }
}

/// The number of functions that a version offers.
pub open spec fn spec_import_count(version: WasiVersion) -> nat {
    if is_wasix(version) {
        WASIX_COUNT as nat
    } else {
        WASI_COUNT as nat
    }
}

/// The number of functions that a version offers.
pub fn import_count(version: WasiVersion) -> (r: usize)
    ensures
        r == spec_import_count(version),
{
    match version {
        WasiVersion::Wasix32v1 | WasiVersion::Wasix64v1 => WASIX_COUNT,
        _ => WASI_COUNT,
    }
}

/// The name of the `i`-th function that a version offers.
pub open spec fn spec_import_name(version: WasiVersion, i: usize) -> Seq<char> {
    if is_wasix(version) {
        spec_wasix_name(i)
    } else {
        spec_wasi_name(i)
    }
}

/// The name of the `i`-th function that a version offers.
pub fn import_name(version: WasiVersion, i: usize) -> (r: &'static str)
    requires
        i < spec_import_count(version),
    ensures
        r@ == spec_import_name(version, i),
{
    match version {
        WasiVersion::Wasix32v1 | WasiVersion::Wasix64v1 => wasix_name(i),
        _ => wasi_name(i),
    }
}

/// Which implementation stands behind the `i`-th function of a version.
/// The first snapshot keeps its own implementation of four functions whose
/// records changed shape afterwards.
pub open spec fn spec_import_flavor(version: WasiVersion, i: int) -> SyscallFlavor {
    match version {
        WasiVersion::Snapshot0 => if i == LEGACY_FD_FILESTAT_GET || i == LEGACY_FD_SEEK || i
            == LEGACY_PATH_FILESTAT_GET || i == LEGACY_POLL_ONEOFF {
            SyscallFlavor::Legacy
        } else {
            SyscallFlavor::Narrow
        },
        WasiVersion::Wasix64v1 => SyscallFlavor::Wide,
        _ => SyscallFlavor::Narrow,
    }
}

/// Which implementation stands behind the `i`-th function of a version.
pub fn import_flavor(version: WasiVersion, i: usize) -> (r: SyscallFlavor)
    ensures
        r == spec_import_flavor(version, i as int),
{
    match version {
        WasiVersion::Snapshot0 => if i == LEGACY_FD_FILESTAT_GET || i == LEGACY_FD_SEEK || i
            == LEGACY_PATH_FILESTAT_GET || i == LEGACY_POLL_ONEOFF {
            SyscallFlavor::Legacy
        } else {
            SyscallFlavor::Narrow
        },
        WasiVersion::Wasix64v1 => SyscallFlavor::Wide,
        _ => SyscallFlavor::Narrow,
    }
}

/// The names of a version, each paired with a function of the context of
/// identity `id`: the `i`-th name with the function at position `first + i`.
pub open spec fn offered(version: WasiVersion, id: ContextId, first: nat) -> Seq<
    (Seq<char>, Extern),
> {
    Seq::new(
        spec_import_count(version),
        |i: int|
            (
                spec_import_name(version, i as usize),
                Extern::Function(Function::spec_at(id, (first + i) as nat)),
            ),
    )
}

/// The imports of one version: each of its names defined in its namespace as
/// the function that `offered` pairs it with.
pub open spec fn generated(version: WasiVersion, id: ContextId, first: nat) -> Map<
    ImportKey,
    Extern,
> {
    with_namespace(
        Map::<ImportKey, Extern>::empty(),
        spec_namespace(version),
        last_wins(offered(version, id, first)),
    )
}

/// A name that does not occur again later among the names of a version is
/// defined as the function that stands at its position.
pub proof fn lemma_generated_last_wins(version: WasiVersion, id: ContextId, first: nat, i: int)
    requires
        is_last(offered(version, id, first), i),
    ensures
        generated(version, id, first).contains_key(
            (spec_namespace(version), spec_import_name(version, i as usize)),
        ),
        generated(version, id, first)[(
            spec_namespace(version),
            spec_import_name(version, i as usize),
        )] == Extern::Function(Function::spec_at(id, (first + i) as nat)),
{
    lemma_last_wins(offered(version, id, first), i);
}

/// The arena with `callables` added to its functions, in order.
pub open spec fn with_functions(arena: ArenaState, callables: Seq<VMFunction>) -> ArenaState {
    ArenaState {
        functions: arena.functions + Seq::new(callables.len(), |i: int| callables[i]@),
        ..arena
    }
}

/// The number of functions that `versions` offer together.
pub open spec fn total_count(versions: Seq<WasiVersion>) -> nat
    decreases versions.len(),
{
    if versions.len() == 0 {
        0
    } else {
        total_count(versions.drop_last()) + spec_import_count(versions.last())
    }
}

/// The imports of several versions together, generated one version after
/// the other: the functions of each version follow those of the versions
/// before it in the arena, and where two versions define one key, the later
/// one wins.
pub open spec fn merged(versions: Seq<WasiVersion>, id: ContextId, first: nat) -> Map<
    ImportKey,
    Extern,
>
    decreases versions.len(),
{
    if versions.len() == 0 {
        Map::empty()
    } else {
        with_namespace(
            merged(versions.drop_last(), id, first),
            spec_namespace(versions.last()),
            last_wins(offered(versions.last(), id, first + total_count(versions.drop_last()))),
        )
    }
}

/// The arena with the callables of every list added to its functions, list
/// after list.
pub open spec fn with_all_functions(arena: ArenaState, callables: Seq<Vec<VMFunction>>) -> ArenaState
    decreases callables.len(),
{
    if callables.len() == 0 {
        arena
    } else {
        with_functions(with_all_functions(arena, callables.drop_last()), callables.last()@)
    }
}

/// Stores `callables` in `ctx` as functions and pairs them with the names
/// of `version`, in order.
pub fn wasi_exports(ctx: &mut ContextObjects, version: WasiVersion, callables: &Vec<VMFunction>) -> (r:
    Vec<(String, Extern)>)
    requires
        callables@.len() == spec_import_count(version),
    ensures
        old(ctx)@.wf() ==> final(ctx)@.wf(),
        final(ctx)@ == with_functions(old(ctx)@, callables@),
        contents_view(r@) == offered(version, old(ctx)@.id, old(ctx)@.functions.len()),
{
    let count = import_count(version);
    let mut out: Vec<(String, Extern)> = Vec::new();
    let mut i: usize = 0;
    proof {
        assert(ctx@ =~= (ArenaState {
            functions: old(ctx)@.functions + Seq::new(0, |j: int| callables@[j]@),
            ..old(ctx)@
        }));
    }
    while i < count
        invariant
            i <= count,
            count == spec_import_count(version),
            callables@.len() == count,
            out@.len() == i,
            old(ctx)@.wf() ==> ctx@.wf(),
            ctx@ == (ArenaState {
                functions: old(ctx)@.functions + Seq::new(i as nat, |j: int| callables@[j]@),
                ..old(ctx)@
            }),
            forall|j: int|
                0 <= j < i ==> {
                    &&& (#[trigger] out@[j]).0@ == spec_import_name(version, j as usize)
                    &&& out@[j].1 == Extern::Function(
                        Function::spec_at(
                            old(ctx)@.id,
                            (old(ctx)@.functions.len() + j) as nat,
                        ),
                    )
                },
        decreases count - i,
    {
        let function = Function::from_vm_export(ctx, callables[i].clone());
        out.push((import_name(version, i).to_owned(), Extern::Function(function)));
        proof {
            Function::lemma_spec_at(function);
            assert(ctx@ =~= (ArenaState {
                functions: old(ctx)@.functions + Seq::new(
                    (i + 1) as nat,
                    |j: int| callables@[j]@,
                ),
                ..old(ctx)@
            }));
        }
        i += 1;
    }
    proof {
        assert(contents_view(out@) =~= offered(
            version,
            old(ctx)@.id,
            old(ctx)@.functions.len(),
        ));
    }
    out
}

/// The imports of one version of the system interface: every callable is
/// stored in `ctx` as a function, in the order given, and the `i`-th name of
/// the version is defined in the version's namespace as the `i`-th of them.
pub fn generate_import_object_from_ctx(
    ctx: &mut ContextObjects,
    version: WasiVersion,
    callables: Vec<VMFunction>,
) -> (r: Imports)
    requires
        callables@.len() == spec_import_count(version),
    ensures
        old(ctx)@.wf() ==> final(ctx)@.wf(),
        final(ctx)@ == with_functions(old(ctx)@, callables@),
        r.wf(),
        r@ == generated(version, old(ctx)@.id, old(ctx)@.functions.len()),
{
    let contents = wasi_exports(ctx, version, &callables);
    let mut imports = Imports::new();
    imports.register_namespace(namespace(version), contents);
    imports
}

/// The imports of both snapshots of the system interface together, each
/// under its own namespace: first the functions of the older snapshot are
/// stored and defined, then those of the newer one.
pub fn import_object_for_all_wasi_versions(
    ctx: &mut ContextObjects,
    unstable: Vec<VMFunction>,
    preview1: Vec<VMFunction>,
) -> (r: Imports)
    requires
        unstable@.len() == WASI_COUNT,
        preview1@.len() == WASI_COUNT,
    ensures
        old(ctx)@.wf() ==> final(ctx)@.wf(),
        final(ctx)@ == with_functions(with_functions(old(ctx)@, unstable@), preview1@),
        r.wf(),
        r@ == with_namespace(
            generated(WasiVersion::Snapshot0, old(ctx)@.id, old(ctx)@.functions.len()),
            spec_namespace(WasiVersion::Snapshot1),
            last_wins(
                offered(
                    WasiVersion::Snapshot1,
                    old(ctx)@.id,
                    old(ctx)@.functions.len() + WASI_COUNT as nat,
                ),
            ),
        ),
{
    let first = wasi_exports(ctx, WasiVersion::Snapshot0, &unstable);
    let second = wasi_exports(ctx, WasiVersion::Snapshot1, &preview1);
    let mut imports = Imports::new();
    imports.register_namespace(namespace(WasiVersion::Snapshot0), first);
    imports.register_namespace(namespace(WasiVersion::Snapshot1), second);
    imports
}

/// The imports of every version of `versions`, generated one version after
/// the other; `callables` holds the functions of each version.
pub fn import_objects_for_versions(
    ctx: &mut ContextObjects,
    versions: &Vec<WasiVersion>,
    callables: &Vec<Vec<VMFunction>>,
) -> (r: Imports)
    requires
        callables@.len() == versions@.len(),
        forall|k: int|
            0 <= k < versions@.len() ==> (#[trigger] callables@[k])@.len() == spec_import_count(
                versions@[k],
            ),
    ensures
        old(ctx)@.wf() ==> final(ctx)@.wf(),
        final(ctx)@ == with_all_functions(old(ctx)@, callables@),
        r.wf(),
        r@ == merged(versions@, old(ctx)@.id, old(ctx)@.functions.len()),
{
    let mut imports = Imports::new();
    let mut k: usize = 0;
    let ghost id = ctx@.id;
    let ghost first = ctx@.functions.len();
    proof {
        assert(versions@.take(0) =~= Seq::<WasiVersion>::empty());
        assert(callables@.take(0) =~= Seq::<Vec<VMFunction>>::empty());
    }
    while k < versions.len()
        invariant
            k <= versions@.len(),
            callables@.len() == versions@.len(),
            forall|j: int|
                0 <= j < versions@.len() ==> (#[trigger] callables@[j])@.len() == spec_import_count(
                    versions@[j],
                ),
            id == old(ctx)@.id,
            first == old(ctx)@.functions.len(),
            old(ctx)@.wf() ==> ctx@.wf(),
            imports.wf(),
            imports@ == merged(versions@.take(k as int), id, first),
            ctx@ == with_all_functions(old(ctx)@, callables@.take(k as int)),
            ctx@.id == id,
            ctx@.functions.len() == first + total_count(versions@.take(k as int)),
        decreases versions@.len() - k,
    {
        let version = versions[k];
        let contents = wasi_exports(ctx, version, &callables[k]);
        imports.register_namespace(namespace(version), contents);
        proof {
            let done = versions@.take(k as int);
            let next = versions@.take(k + 1);
            assert(next.drop_last() =~= done);
            assert(next.last() == version);
            let given = callables@.take(k + 1);
            assert(given.drop_last() =~= callables@.take(k as int));
            assert(given.last() == callables@[k as int]);
        }
        k += 1;
    }
    proof {
        assert(versions@.take(k as int) =~= versions@);
        assert(callables@.take(k as int) =~= callables@);
    }
    imports
}

} // verus!
