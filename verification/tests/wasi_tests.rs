use wasm_embed::context::{ContextIds, ContextObjects};
use wasm_embed::export::VMFunction;
use wasm_embed::externals::Extern;
use wasm_embed::memory::{Memory, MemoryAccessError};
use wasm_embed::resource::HostFunction;
use wasm_embed::types::{FunctionType, MemoryType, Type};
use wasm_embed::wasi::{
    generate_import_object_from_ctx, import_count, import_flavor, import_name,
    import_object_for_all_wasi_versions, mem_error_to_bus, mem_error_to_wasi, namespace,
    sleep_step, wasi_name, wasix_name, SleepStep, SyscallFlavor, WasiBusProcessId, WasiEnv,
    WasiError, WasiThreadId, WasiVersion, WASIX_COUNT, WASI_COUNT,
};

fn callables(count: usize, base: u64) -> Vec<VMFunction> {
    (0..count)
        .map(|i| VMFunction::new(HostFunction(base + i as u64), FunctionType::new(vec![Type::I32], vec![Type::I32])))
        .collect()
}

#[test]
fn thread_and_process_identities_convert_to_and_from_numbers() {
    let t: WasiThreadId = 7u32.into();
    assert_eq!(t, WasiThreadId(7));
    assert_eq!(u32::from(t), 7);
    let p = WasiBusProcessId::from(9);
    assert_eq!(u32::from(p), 9);
}

#[test]
fn memory_errors_are_reported_as_errno() {
    assert_eq!(mem_error_to_wasi(MemoryAccessError::HeapOutOfBounds), 21);
    assert_eq!(mem_error_to_wasi(MemoryAccessError::Overflow), 61);
    assert_eq!(mem_error_to_wasi(MemoryAccessError::NonUtf8String), 28);
    assert_eq!(mem_error_to_wasi(MemoryAccessError::CrossContextUse), 28);
    assert_eq!(mem_error_to_wasi(MemoryAccessError::InvalidHandle), 28);
    assert_eq!(mem_error_to_bus(MemoryAccessError::HeapOutOfBounds), 18);
    assert_eq!(mem_error_to_bus(MemoryAccessError::Overflow), 18);
    assert_eq!(mem_error_to_bus(MemoryAccessError::NonUtf8String), 12);
    assert_eq!(mem_error_to_bus(MemoryAccessError::CrossContextUse), 19);
    assert_eq!(mem_error_to_bus(MemoryAccessError::InvalidHandle), 19);
}

#[test]
fn sleeping_waits_in_slices_of_ten_milliseconds() {
    assert_eq!(sleep_step(50_000_000, 1_000, 1_000), SleepStep::Wait(10_000_000));
    assert_eq!(sleep_step(50_000_000, 1_000, 40_000_999), SleepStep::Wait(10_000_000));
    assert_eq!(sleep_step(50_000_000, 1_000, 45_001_000), SleepStep::Wait(5_000_000));
    assert_eq!(sleep_step(50_000_000, 1_000, 50_000_999), SleepStep::Wait(1));
    assert_eq!(sleep_step(50_000_000, 1_000, 50_001_000), SleepStep::Done);
    assert_eq!(sleep_step(50_000_000, 1_000, 999), SleepStep::Done);
    assert_eq!(sleep_step(0, 5, 5), SleepStep::Done);
    assert_eq!(sleep_step(1 << 64, 0, 0), SleepStep::Wait(0));
    assert_eq!(sleep_step((1 << 64) + 7, 0, 0), SleepStep::Wait(7));
    assert_eq!(sleep_step(u128::MAX, 0, 1), SleepStep::Wait(10_000_000));
}

#[test]
fn memory_of_the_environment_is_set_once() {
    let mut ids = ContextIds::new();
    let mut ctx = ContextObjects::new(&mut ids).unwrap();
    let memory = Memory::new(&mut ctx, MemoryType::new(1, None, false)).unwrap();
    let mut env = WasiEnv::new();
    assert_eq!(env.current_thread_id(), WasiThreadId(0));
    assert!(!env.has_memory());
    assert_eq!(env.memory_clone(), None);
    env.set_memory(memory);
    assert!(env.has_memory());
    assert_eq!(env.memory_clone(), Some(memory));
    assert_eq!(env.memory(), &memory);
}

#[test]
fn new_threads_are_numbered_from_one() {
    let mut env = WasiEnv::new();
    assert_eq!(env.new_thread().id, WasiThreadId(1));
    assert_eq!(env.new_thread().id, WasiThreadId(2));
    assert_eq!(env.current_thread_id(), WasiThreadId(0));
}

#[test]
fn each_version_has_its_namespace_and_names() {
    assert_eq!(namespace(WasiVersion::Snapshot0), "wasi_unstable");
    assert_eq!(namespace(WasiVersion::Snapshot1), "wasi_snapshot_preview1");
    assert_eq!(namespace(WasiVersion::Latest), "wasi_snapshot_preview1");
    assert_eq!(namespace(WasiVersion::Wasix32v1), "wasix_32v1");
    assert_eq!(namespace(WasiVersion::Wasix64v1), "wasix_64v1");
    assert_eq!(WASI_COUNT, 45);
    assert_eq!(WASIX_COUNT, 107);
    assert_eq!(import_count(WasiVersion::Snapshot0), 45);
    assert_eq!(import_count(WasiVersion::Latest), 45);
    assert_eq!(import_count(WasiVersion::Wasix32v1), 107);
    assert_eq!(import_count(WasiVersion::Wasix64v1), 107);
    assert_eq!(wasi_name(0), "args_get");
    assert_eq!(wasi_name(16), "fd_pread");
    assert_eq!(wasi_name(44), "sock_shutdown");
    assert_eq!(wasix_name(0), "args_get");
    assert_eq!(wasix_name(23), "fd_dup");
    assert_eq!(wasix_name(106), "resolve");
    assert_eq!(import_name(WasiVersion::Snapshot1, 37), "poll_oneoff");
    assert_eq!(import_name(WasiVersion::Wasix64v1, 44), "tty_get");
    let mut names: Vec<&str> = (0..WASIX_COUNT).map(wasix_name).collect();
    names.sort();
    names.dedup();
    assert_eq!(names.len(), 107);
    let mut names: Vec<&str> = (0..WASI_COUNT).map(wasi_name).collect();
    names.sort();
    names.dedup();
    assert_eq!(names.len(), 45);
}

#[test]
fn first_snapshot_keeps_four_implementations_of_its_own() {
    let legacy: Vec<&str> = (0..WASI_COUNT)
        .filter(|i| import_flavor(WasiVersion::Snapshot0, *i) == SyscallFlavor::Legacy)
        .map(wasi_name)
        .collect();
    assert_eq!(legacy, vec!["fd_filestat_get", "fd_seek", "path_filestat_get", "poll_oneoff"]);
    for i in 0..WASI_COUNT {
        assert_eq!(import_flavor(WasiVersion::Snapshot1, i), SyscallFlavor::Narrow);
        assert_eq!(import_flavor(WasiVersion::Latest, i), SyscallFlavor::Narrow);
    }
    for i in 0..WASIX_COUNT {
        assert_eq!(import_flavor(WasiVersion::Wasix32v1, i), SyscallFlavor::Narrow);
        assert_eq!(import_flavor(WasiVersion::Wasix64v1, i), SyscallFlavor::Wide);
    }
}

#[test]
fn generated_imports_define_every_name_of_the_version() {
    let mut ids = ContextIds::new();
    let mut ctx = ContextObjects::new(&mut ids).unwrap();
    let imports =
        generate_import_object_from_ctx(&mut ctx, WasiVersion::Wasix32v1, callables(107, 1000));
    assert_eq!(imports.len(), 107);
    assert_eq!(imports.namespaces(), vec!["wasix_32v1".to_string()]);
    for i in 0..107 {
        let found = imports.get_export("wasix_32v1", wasix_name(i)).unwrap();
        let function = match found {
            Extern::Function(function) => function,
            _ => panic!("every import is a function"),
        };
        assert!(function.is_from_context(&ctx));
        assert_eq!(function.to_vm_extern().index(), i);
        assert_eq!(function.handle().get(&ctx).unwrap().function(), HostFunction(1000 + i as u64));
    }
    assert_eq!(imports.get_export("wasix_64v1", "args_get"), None);
    assert_eq!(imports.get_export("wasix_32v1", "no_such_call"), None);
}

#[test]
fn both_snapshots_are_offered_side_by_side() {
    let mut ids = ContextIds::new();
    let mut ctx = ContextObjects::new(&mut ids).unwrap();
    let imports = import_object_for_all_wasi_versions(&mut ctx, callables(45, 0), callables(45, 500));
    assert_eq!(imports.len(), 90);
    assert_eq!(
        imports.namespaces(),
        vec!["wasi_unstable".to_string(), "wasi_snapshot_preview1".to_string()]
    );
    let old = imports.get_export("wasi_unstable", "fd_seek").unwrap();
    let new = imports.get_export("wasi_snapshot_preview1", "fd_seek").unwrap();
    assert_ne!(old, new);
    match (old, new) {
        (Extern::Function(a), Extern::Function(b)) => {
            assert_eq!(a.handle().get(&ctx).unwrap().function(), HostFunction(23));
            assert_eq!(b.handle().get(&ctx).unwrap().function(), HostFunction(523));
        }
        _ => panic!("every import is a function"),
    }
}

#[test]
fn import_object_needs_a_known_version() {
    let mut ids = ContextIds::new();
    let mut ctx = ContextObjects::new(&mut ids).unwrap();
    let mut env = WasiEnv::new();
    assert_eq!(
        env.import_object(&mut ctx, None, Vec::new()).err(),
        Some(WasiError::UnknownWasiVersion)
    );
    let imports = env
        .import_object(&mut ctx, Some(WasiVersion::Snapshot0), callables(45, 0))
        .unwrap();
    assert!(imports.contains_namespace("wasi_unstable"));
    assert!(!imports.contains_namespace("wasi_snapshot_preview1"));
    assert!(imports.get_export("wasi_unstable", "proc_exit").is_some());
}

#[test]
fn extended_interface_is_told_apart() {
    assert!(wasm_embed::wasi::is_wasix_version(WasiVersion::Wasix32v1));
    assert!(wasm_embed::wasi::is_wasix_version(WasiVersion::Wasix64v1));
    assert!(!wasm_embed::wasi::is_wasix_version(WasiVersion::Snapshot0));
    assert!(!wasm_embed::wasi::is_wasix_version(WasiVersion::Snapshot1));
    assert!(!wasm_embed::wasi::is_wasix_version(WasiVersion::Latest));
}

#[test]
fn versions_are_generated_one_after_the_other() {
    let mut ids = ContextIds::new();
    let mut ctx = ContextObjects::new(&mut ids).unwrap();
    let mut env = WasiEnv::new();
    let versions = vec![WasiVersion::Snapshot1, WasiVersion::Wasix64v1, WasiVersion::Latest];
    let functions = vec![callables(45, 0), callables(107, 1000), callables(45, 5000)];
    let imports = env
        .import_object_for_all_wasi_versions(&mut ctx, Some(versions), functions)
        .unwrap();
    assert_eq!(imports.len(), 45 + 107);
    assert_eq!(
        imports.namespaces(),
        vec!["wasi_snapshot_preview1".to_string(), "wasix_64v1".to_string()]
    );
    let seek = imports.get_export("wasi_snapshot_preview1", "fd_seek").unwrap();
    let resolve = imports.get_export("wasix_64v1", "resolve").unwrap();
    match (seek, resolve) {
        (Extern::Function(a), Extern::Function(b)) => {
            assert_eq!(a.to_vm_extern().index(), 45 + 107 + 23);
            assert_eq!(a.handle().get(&ctx).unwrap().function(), HostFunction(5023));
            assert_eq!(b.to_vm_extern().index(), 45 + 106);
            assert_eq!(b.handle().get(&ctx).unwrap().function(), HostFunction(1106));
        }
        _ => panic!("every import is a function"),
    }
    assert_eq!(
        env.import_object_for_all_wasi_versions(&mut ctx, None, Vec::new()).err(),
        Some(WasiError::UnknownWasiVersion)
    );
    let none = env
        .import_object_for_all_wasi_versions(&mut ctx, Some(Vec::new()), Vec::new())
        .unwrap();
    assert_eq!(none.len(), 0);
}
