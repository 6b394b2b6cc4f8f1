use wasm_embed::context::{ContextIds, ContextObjects, HandleError};
use wasm_embed::export::{Export, HostValue, VMMemory};
use wasm_embed::externals::Extern;
use wasm_embed::memory::{Memory, MemoryAccessError, MemoryError};
use wasm_embed::resource::LinearMemory;
use wasm_embed::types::{ExternType, MemoryType};
use wasm_embed::units::Pages;

fn fresh_context(ids: &mut ContextIds) -> ContextObjects {
    ContextObjects::new(ids).unwrap()
}

#[test]
fn memory_grows_up_to_its_maximum() {
    let mut ids = ContextIds::new();
    let mut ctx = fresh_context(&mut ids);
    let memory = Memory::new(&mut ctx, MemoryType::new(1, Some(2), false)).unwrap();
    assert_eq!(memory.size(&ctx), Ok(Pages(1)));
    assert_eq!(memory.grow(&mut ctx, Pages(1)), Ok(Pages(1)));
    assert_eq!(memory.size(&ctx), Ok(Pages(2)));
    assert_eq!(memory.data_size(&ctx), Ok(131072));
    assert_eq!(
        memory.grow(&mut ctx, Pages(1)),
        Err(MemoryError::CouldNotGrow { current: Pages(2), attempted_delta: Pages(1) })
    );
    assert_eq!(memory.size(&ctx), Ok(Pages(2)));
}

#[test]
fn write_then_read_gives_the_bytes_back() {
    let mut ids = ContextIds::new();
    let mut ctx = fresh_context(&mut ids);
    let memory = Memory::new(&mut ctx, MemoryType::new(1, None, false)).unwrap();
    let data = [1u8, 2, 3, 4, 5];
    assert_eq!(memory.write(&mut ctx, 100, &data), Ok(()));
    let mut out = [0u8; 5];
    assert_eq!(memory.read(&ctx, 100, &mut out), Ok(()));
    assert_eq!(out, data);
}

#[test]
fn access_past_the_end_is_out_of_bounds() {
    let mut ids = ContextIds::new();
    let mut ctx = fresh_context(&mut ids);
    let memory = Memory::new(&mut ctx, MemoryType::new(1, None, false)).unwrap();
    let mut out = [7u8; 4];
    assert_eq!(memory.read(&ctx, 65533, &mut out), Err(MemoryAccessError::HeapOutOfBounds));
    assert_eq!(out, [7u8; 4]);
    assert_eq!(memory.write(&mut ctx, 65533, &[1, 2, 3, 4]), Err(MemoryAccessError::HeapOutOfBounds));
    assert_eq!(memory.read(&ctx, 65532, &mut out), Ok(()));
    assert_eq!(out, [0u8; 4]);
}

#[test]
fn range_that_does_not_fit_the_address_width_overflows() {
    let mut ids = ContextIds::new();
    let mut ctx = fresh_context(&mut ids);
    let memory = Memory::new(&mut ctx, MemoryType::new(1, None, false)).unwrap();
    let mut out = [0u8; 2];
    assert_eq!(memory.read(&ctx, u32::MAX as u64, &mut out), Err(MemoryAccessError::Overflow));
    assert_eq!(memory.read(&ctx, 1 << 33, &mut out), Err(MemoryAccessError::Overflow));
    assert_eq!(memory.write(&mut ctx, u64::MAX, &[1]), Err(MemoryAccessError::Overflow));
}

#[test]
fn memory_of_another_context_is_refused() {
    let mut ids = ContextIds::new();
    let mut a = fresh_context(&mut ids);
    let mut b = fresh_context(&mut ids);
    let in_a = Memory::new(&mut a, MemoryType::new(1, None, false)).unwrap();
    let _in_b = Memory::new(&mut b, MemoryType::new(1, None, false)).unwrap();
    assert!(in_a.is_from_context(&a));
    assert!(!in_a.is_from_context(&b));
    assert_eq!(in_a.size(&b), Err(HandleError::CrossContextUse));
    assert_eq!(in_a.write(&mut b, 0, &[9]), Err(MemoryAccessError::CrossContextUse));
    assert_eq!(in_a.grow(&mut b, Pages(1)), Err(MemoryError::CrossContextUse));
    let mut out = [0u8; 1];
    assert_eq!(_in_b.read(&b, 0, &mut out), Ok(()));
    assert_eq!(out, [0]);
}

#[test]
fn memory_whose_limits_contradict_is_not_created() {
    let mut ids = ContextIds::new();
    let mut ctx = fresh_context(&mut ids);
    assert_eq!(
        Memory::new(&mut ctx, MemoryType::new(2, Some(1), false)).err(),
        Some(MemoryError::Generic("Error while creating the memory".to_string()))
    );
    assert!(Memory::new(&mut ctx, MemoryType::new(65537, None, false)).is_err());
    assert!(Memory::new(&mut ctx, MemoryType::new(1, Some(65537), false)).is_err());
    let first = Memory::new(&mut ctx, MemoryType::new(0, Some(0), true)).unwrap();
    assert_eq!(first.to_vm_extern().index(), 0);
    assert_eq!(first.size(&ctx), Ok(Pages(0)));
    assert_eq!(first.ty(&ctx), Ok(MemoryType::new(0, Some(0), true)));
}

#[test]
fn memory_new() {
    let mut ids = ContextIds::new();
    let mut ctx = fresh_context(&mut ids);
    let memory_type = MemoryType { shared: false, minimum: Pages(0), maximum: Some(Pages(10)) };
    let memory = Memory::new(&mut ctx, memory_type).unwrap();
    assert_eq!(memory.size(&ctx), Ok(Pages(0)));
    assert_eq!(memory.ty(&ctx), Ok(memory_type));
}

#[test]
fn memory_grow() {
    let mut ids = ContextIds::new();
    let mut ctx = fresh_context(&mut ids);
    let desc = MemoryType::new(10, Some(16), false);
    let memory = Memory::new(&mut ctx, desc).unwrap();
    assert_eq!(memory.size(&ctx), Ok(Pages(10)));

    let result = memory.grow(&mut ctx, Pages(2)).unwrap();
    assert_eq!(result, Pages(10));
    assert_eq!(memory.size(&ctx), Ok(Pages(12)));

    let result = memory.grow(&mut ctx, Pages(10));
    assert_eq!(
        result,
        Err(MemoryError::CouldNotGrow { current: 12.into(), attempted_delta: 10.into() })
    );
}

#[test]
fn growing_keeps_the_bytes_and_adds_zeroes() {
    let mut ids = ContextIds::new();
    let mut ctx = fresh_context(&mut ids);
    let memory = Memory::new(&mut ctx, MemoryType::new(1, None, false)).unwrap();
    assert_eq!(memory.write(&mut ctx, 65534, &[0xAA, 0xBB]), Ok(()));
    assert_eq!(memory.grow(&mut ctx, Pages(0)), Ok(Pages(1)));
    assert_eq!(memory.grow(&mut ctx, Pages(2)), Ok(Pages(1)));
    assert_eq!(memory.data_size(&ctx), Ok(3 * 65536));
    let mut out = [1u8; 4];
    assert_eq!(memory.read(&ctx, 65534, &mut out), Ok(()));
    assert_eq!(out, [0xAA, 0xBB, 0, 0]);
    assert_eq!(
        memory.grow(&mut ctx, Pages(65534)),
        Err(MemoryError::CouldNotGrow { current: Pages(3), attempted_delta: Pages(65534) })
    );
    assert_eq!(
        memory.grow(&mut ctx, Pages(u32::MAX)),
        Err(MemoryError::CouldNotGrow { current: Pages(3), attempted_delta: Pages(u32::MAX) })
    );
}

#[test]
fn empty_ranges_are_allowed_up_to_the_end() {
    let mut ids = ContextIds::new();
    let mut ctx = fresh_context(&mut ids);
    let memory = Memory::new(&mut ctx, MemoryType::new(1, None, false)).unwrap();
    let mut none: [u8; 0] = [];
    assert_eq!(memory.read(&ctx, 65536, &mut none), Ok(()));
    assert_eq!(memory.read(&ctx, 65537, &mut none), Err(MemoryAccessError::HeapOutOfBounds));
    assert_eq!(memory.write(&mut ctx, 65536, &[]), Ok(()));
    assert_eq!(memory.write(&mut ctx, 65535, &[1]), Ok(()));
    assert_eq!(memory.write(&mut ctx, 65535, &[1, 2]), Err(MemoryAccessError::HeapOutOfBounds));
    let mut last = [0u8; 1];
    assert_eq!(memory.read(&ctx, 65535, &mut last), Ok(()));
    assert_eq!(last, [1]);
}

#[test]
fn failed_write_stores_nothing() {
    let mut ids = ContextIds::new();
    let mut ctx = fresh_context(&mut ids);
    let memory = Memory::new(&mut ctx, MemoryType::new(1, None, false)).unwrap();
    assert_eq!(memory.write(&mut ctx, 65530, &[9; 10]), Err(MemoryAccessError::HeapOutOfBounds));
    assert_eq!(memory.uint8view(&ctx).unwrap(), vec![0u8; 65536]);
}

#[test]
fn writes_leave_the_neighbours_alone() {
    let mut ids = ContextIds::new();
    let mut ctx = fresh_context(&mut ids);
    let memory = Memory::new(&mut ctx, MemoryType::new(1, None, false)).unwrap();
    assert_eq!(memory.write(&mut ctx, 0, &[1, 2, 3, 4, 5, 6]), Ok(()));
    assert_eq!(memory.write(&mut ctx, 2, &[9, 9]), Ok(()));
    let mut out = [0u8; 7];
    assert_eq!(memory.read(&ctx, 0, &mut out), Ok(()));
    assert_eq!(out, [1, 2, 9, 9, 5, 6, 0]);
}

#[test]
fn buffer_view_checks_the_range_in_sixty_four_bits() {
    let mut ids = ContextIds::new();
    let mut ctx = fresh_context(&mut ids);
    let memory = Memory::new(&mut ctx, MemoryType::new(1, None, false)).unwrap();
    assert_eq!(memory.write(&mut ctx, 8, &[4, 5, 6]), Ok(()));
    let buffer = memory.buffer(&ctx).unwrap();
    assert_eq!(buffer.len(), 65536);
    let mut out = [0u8; 3];
    assert_eq!(buffer.read(8, &mut out), Ok(()));
    assert_eq!(out, [4, 5, 6]);
    assert_eq!(buffer.read(65534, &mut out), Err(MemoryAccessError::HeapOutOfBounds));
    assert_eq!(buffer.read(1 << 33, &mut out), Err(MemoryAccessError::HeapOutOfBounds));
    assert_eq!(buffer.read(u64::MAX, &mut out), Err(MemoryAccessError::Overflow));
    assert_eq!(out, [4, 5, 6]);
}

#[test]
fn forged_memory_handle_is_invalid() {
    let mut ids = ContextIds::new();
    let mut ctx = fresh_context(&mut ids);
    let forged = Memory::from_vm_extern(
        &ctx,
        wasm_embed::context::InternalContextHandle::from_index(4),
    );
    assert_eq!(forged.size(&ctx), Err(HandleError::InvalidHandle));
    assert_eq!(forged.data_size(&ctx), Err(HandleError::InvalidHandle));
    assert_eq!(forged.grow(&mut ctx, Pages(1)), Err(MemoryError::InvalidHandle));
    assert_eq!(forged.write(&mut ctx, 0, &[1]), Err(MemoryAccessError::InvalidHandle));
    assert!(forged.buffer(&ctx).is_err());
    assert!(forged.is_from_context(&ctx));
}

#[test]
fn host_memory_is_not_grown_past_its_declared_maximum() {
    let mut ids = ContextIds::new();
    let mut ctx = fresh_context(&mut ids);
    let unbounded = LinearMemory::new(1, None).unwrap();
    let declared = MemoryType::new(1, Some(2), false);
    let export =
        Export::from_js_value(HostValue::Memory(unbounded), &mut ctx, ExternType::Memory(declared))
            .unwrap();
    let memory = match Extern::from_vm_extern(&ctx, export) {
        Extern::Memory(memory) => memory,
        _ => panic!("a memory was stored"),
    };
    assert_eq!(memory.ty(&ctx), Ok(declared));
    assert_eq!(
        memory.grow(&mut ctx, Pages(5)),
        Err(MemoryError::CouldNotGrow { current: Pages(1), attempted_delta: Pages(5) })
    );
    assert_eq!(memory.size(&ctx), Ok(Pages(1)));
    assert_eq!(memory.grow(&mut ctx, Pages(1)), Ok(Pages(1)));
    assert_eq!(memory.size(&ctx), Ok(Pages(2)));
    assert_eq!(
        memory.grow(&mut ctx, Pages(1)),
        Err(MemoryError::CouldNotGrow { current: Pages(2), attempted_delta: Pages(1) })
    );
    assert_eq!(memory.grow(&mut ctx, Pages(0)), Ok(Pages(2)));

    let wide = LinearMemory::new(1, Some(10)).unwrap();
    let narrow = Memory::from_vm_export(&mut ctx, VMMemory::new(wide, MemoryType::new(1, Some(3), false)));
    assert_eq!(narrow.grow(&mut ctx, Pages(2)), Ok(Pages(1)));
    assert_eq!(
        narrow.grow(&mut ctx, Pages(1)),
        Err(MemoryError::CouldNotGrow { current: Pages(3), attempted_delta: Pages(1) })
    );
}

#[test]
fn bound_of_the_buffer_holds_where_the_declared_type_has_none() {
    let mut ids = ContextIds::new();
    let mut ctx = fresh_context(&mut ids);
    let bounded = LinearMemory::new(1, Some(2)).unwrap();
    let memory =
        Memory::from_vm_export(&mut ctx, VMMemory::new(bounded, MemoryType::new(1, None, false)));
    assert_eq!(
        memory.grow(&mut ctx, Pages(2)),
        Err(MemoryError::CouldNotGrow { current: Pages(1), attempted_delta: Pages(2) })
    );
    assert_eq!(memory.grow(&mut ctx, Pages(1)), Ok(Pages(1)));
}
