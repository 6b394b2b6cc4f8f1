use wasm_embed::context::{ContextIds, ContextObjects};
use wasm_embed::mem_access::{ValueType, WasmRef, WasmSlice};
use wasm_embed::memory::{Memory, MemoryAccessError};
use wasm_embed::ptr::{utf8_string, Memory32, Memory64, WasmPtr, WasmPtr64};
use wasm_embed::types::MemoryType;
use wasm_embed::units::Pages;

fn one_page() -> (ContextObjects, Memory) {
    let mut ids = ContextIds::new();
    let mut ctx = ContextObjects::new(&mut ids).unwrap();
    let memory = Memory::new(&mut ctx, MemoryType::new(1, Some(2), false)).unwrap();
    (ctx, memory)
}

#[test]
fn add_offset_counts_in_elements() {
    let p = WasmPtr::<u32, Memory32>::new(0);
    assert_eq!(p.add_offset(3).unwrap().offset(), 12);
    assert_eq!(p.add_offset(0).unwrap().offset(), 0);
    let q = WasmPtr::<u64, Memory32>::new(16);
    assert_eq!(q.add_offset(2).unwrap().offset(), 32);
    let b = WasmPtr::<u8, Memory32>::new(5);
    assert_eq!(b.add_offset(u32::MAX - 5).unwrap().offset(), u32::MAX);
}

#[test]
fn add_offset_never_wraps() {
    let p = WasmPtr::<u32, Memory32>::new(u32::MAX - 3);
    assert_eq!(p.add_offset(1).err(), Some(MemoryAccessError::Overflow));
    let q = WasmPtr::<u32, Memory32>::new(0);
    assert_eq!(q.add_offset(0x4000_0000).err(), Some(MemoryAccessError::Overflow));
    assert_eq!(q.add_offset(0x3fff_ffff).unwrap().offset(), 0xffff_fffc);
    let w = WasmPtr64::<u8>::new(u64::MAX);
    assert_eq!(w.add_offset(1).err(), Some(MemoryAccessError::Overflow));
    let v = WasmPtr::<u64, Memory64>::new(0);
    assert_eq!(v.add_offset(u64::MAX).err(), Some(MemoryAccessError::Overflow));
    assert_eq!(v.add_offset(1 << 40).unwrap().offset(), 1 << 43);
}

#[test]
fn repeated_add_offset_ends_in_overflow() {
    let mut p = WasmPtr::<u64, Memory32>::new(0);
    let mut steps = 0u64;
    loop {
        match p.add_offset(0x1000_0000) {
            Ok(next) => {
                assert!(next.offset() > p.offset());
                p = next;
                steps += 1;
            }
            Err(e) => {
                assert_eq!(e, MemoryAccessError::Overflow);
                break;
            }
        }
    }
    assert_eq!(steps, 1);
    assert_eq!(p.offset(), 0x8000_0000);
}

#[test]
fn sub_offset_stops_at_zero() {
    let p = WasmPtr::<u32, Memory32>::new(12);
    assert_eq!(p.sub_offset(3).unwrap().offset(), 0);
    assert_eq!(p.sub_offset(1).unwrap().offset(), 8);
    assert_eq!(p.sub_offset(4).err(), Some(MemoryAccessError::Overflow));
    let q = WasmPtr::<u64, Memory64>::new(8);
    assert_eq!(q.sub_offset(u64::MAX).err(), Some(MemoryAccessError::Overflow));
}

#[test]
fn null_cast_and_comparison() {
    let p = WasmPtr::<u32, Memory32>::null();
    assert!(p.is_null());
    assert_eq!(p.offset(), 0);
    let q = WasmPtr::<u32, Memory32>::new(8);
    assert!(!q.is_null());
    let r: WasmPtr<u8, Memory32> = q.cast();
    assert_eq!(r.offset(), 8);
    assert!(q.same_offset(WasmPtr::new(8)));
    assert!(!q.same_offset(p));
}

#[test]
fn values_are_stored_in_little_endian_order() {
    let (mut ctx, memory) = one_page();
    let p = WasmPtr::<u32, Memory32>::new(16);
    assert_eq!(p.write(&mut ctx, &memory, 0x11223344), Ok(()));
    let mut raw = [0u8; 4];
    assert_eq!(memory.read(&ctx, 16, &mut raw), Ok(()));
    assert_eq!(raw, [0x44, 0x33, 0x22, 0x11]);
    assert_eq!(p.read(&ctx, &memory), Ok(0x11223344));
    assert_eq!(p.deref(&memory).read(&ctx), Ok(0x11223344));
    assert_eq!(p.deref(&memory).offset(), 16);
    let w = WasmPtr::<u64, Memory32>::new(24);
    assert_eq!(w.write(&mut ctx, &memory, 0x0102030405060708), Ok(()));
    assert_eq!(w.read(&ctx, &memory), Ok(0x0102030405060708));
    let h = WasmPtr::<u16, Memory32>::new(2);
    assert_eq!(h.write(&mut ctx, &memory, 0xBEEF), Ok(()));
    assert_eq!(h.read(&ctx, &memory), Ok(0xBEEF));
    assert_eq!(WasmPtr::<u8, Memory32>::new(2).read(&ctx, &memory), Ok(0xEF));
}

#[test]
fn value_types_encode_to_their_size() {
    assert_eq!(<u8 as ValueType>::size(), 1);
    assert_eq!(<u16 as ValueType>::size(), 2);
    assert_eq!(<u32 as ValueType>::size(), 4);
    assert_eq!(<u64 as ValueType>::size(), 8);
    assert_eq!(7u8.encode(), vec![7]);
    assert_eq!(0x0102u16.encode(), vec![2, 1]);
    assert_eq!(0x01020304u32.encode(), vec![4, 3, 2, 1]);
    assert_eq!(<u64 as ValueType>::decode(&[1, 0, 0, 0, 0, 0, 0, 0x80]), 0x8000_0000_0000_0001);
    assert_eq!(<u32 as ValueType>::decode(&[0xff, 0, 0, 0]), 255);
}

#[test]
fn access_through_a_pointer_is_checked_against_the_size_of_the_moment() {
    let (mut ctx, memory) = one_page();
    let last = WasmPtr::<u32, Memory32>::new(65532);
    let past = WasmPtr::<u32, Memory32>::new(65533);
    assert_eq!(last.read(&ctx, &memory), Ok(0));
    assert_eq!(past.read(&ctx, &memory), Err(MemoryAccessError::HeapOutOfBounds));
    assert_eq!(past.write(&mut ctx, &memory, 1), Err(MemoryAccessError::HeapOutOfBounds));
    assert_eq!(memory.grow(&mut ctx, Pages(1)), Ok(Pages(1)));
    assert_eq!(past.write(&mut ctx, &memory, 0xAABBCCDD), Ok(()));
    assert_eq!(past.read(&ctx, &memory), Ok(0xAABBCCDD));
    let far = WasmPtr::<u8, Memory64>::new(1 << 40);
    assert_eq!(far.read(&ctx, &memory), Err(MemoryAccessError::HeapOutOfBounds));
    let end = WasmPtr::<u64, Memory64>::new(u64::MAX - 3);
    assert_eq!(end.read(&ctx, &memory), Err(MemoryAccessError::Overflow));
}

#[test]
fn slices_read_and_write_by_index() {
    let (mut ctx, memory) = one_page();
    let p = WasmPtr::<u16, Memory32>::new(100);
    let slice = p.slice(&memory, 4).unwrap();
    assert_eq!(slice.len(), 4);
    assert_eq!(slice.offset(), 100);
    assert!(!slice.is_empty());
    for i in 0..4u64 {
        assert_eq!(slice.write(&mut ctx, i, (i as u16 + 1) * 0x101), Ok(()));
    }
    assert_eq!(slice.read(&ctx, 2), Ok(0x303));
    assert_eq!(slice.index(3).offset(), 106);
    assert_eq!(slice.read_to_vec(&ctx), Ok(vec![0x101, 0x202, 0x303, 0x404]));
    let mut raw = [0u8; 8];
    assert_eq!(memory.read(&ctx, 100, &mut raw), Ok(()));
    assert_eq!(raw, [1, 1, 2, 2, 3, 3, 4, 4]);
    let empty = p.slice(&memory, 0).unwrap();
    assert!(empty.is_empty());
    assert_eq!(empty.read_to_vec(&ctx), Ok(vec![]));
}

#[test]
fn slices_are_checked_when_read_not_when_made() {
    let (ctx, memory) = one_page();
    let p = WasmPtr::<u32, Memory32>::new(65528);
    let slice = p.slice(&memory, 3).unwrap();
    assert_eq!(slice.read(&ctx, 1), Ok(0));
    assert_eq!(slice.read(&ctx, 2), Err(MemoryAccessError::HeapOutOfBounds));
    assert_eq!(slice.read_to_vec(&ctx), Err(MemoryAccessError::HeapOutOfBounds));
    let fits = p.slice(&memory, 2).unwrap();
    assert_eq!(fits.read_to_vec(&ctx), Ok(vec![0, 0]));
}

#[test]
fn slice_whose_length_overflows_is_refused() {
    let (_ctx, memory) = one_page();
    let p = WasmPtr::<u64, Memory64>::new(8);
    assert_eq!(p.slice(&memory, u64::MAX).err(), Some(MemoryAccessError::Overflow));
    assert_eq!(p.slice(&memory, 0x2000_0000_0000_0000).err(), Some(MemoryAccessError::Overflow));
    assert!(p.slice(&memory, 0x1fff_ffff_ffff_fffe).is_ok());
    assert_eq!(
        WasmSlice::<u8>::new(&memory, u64::MAX, 1).err(),
        Some(MemoryAccessError::Overflow)
    );
    assert!(WasmSlice::<u8>::new(&memory, u64::MAX, 0).is_ok());
    assert_eq!(WasmRef::<u8>::new(&memory, 9).offset(), 9);
}

#[test]
fn read_until_returns_what_comes_before_the_terminator() {
    let (mut ctx, memory) = one_page();
    assert_eq!(memory.write(&mut ctx, 10, &[5, 6, 7, 0, 9]), Ok(()));
    let p = WasmPtr::<u8, Memory32>::new(10);
    assert_eq!(p.read_until(&ctx, &memory, |b: &u8| *b == 0), Ok(vec![5, 6, 7]));
    assert_eq!(p.read_until(&ctx, &memory, |b: &u8| *b == 5), Ok(vec![]));
    let w = WasmPtr::<u16, Memory32>::new(10);
    assert_eq!(w.read_until(&ctx, &memory, |v: &u16| *v == 7), Ok(vec![0x0605]));
    assert_eq!(w.read_element(&ctx, &memory, 2), Ok(9));
}

#[test]
fn read_until_without_a_terminator_runs_into_the_end() {
    let (mut ctx, memory) = one_page();
    let ones = vec![1u8; 65536];
    assert_eq!(memory.write(&mut ctx, 0, &ones), Ok(()));
    let p = WasmPtr::<u8, Memory32>::new(65000);
    assert_eq!(
        p.read_until(&ctx, &memory, |b: &u8| *b == 0),
        Err(MemoryAccessError::HeapOutOfBounds)
    );
    assert_eq!(p.read_utf8_string_with_nul(&ctx, &memory), Err(MemoryAccessError::HeapOutOfBounds));
    let near_end = WasmPtr::<u8, Memory32>::new(u32::MAX);
    assert_eq!(
        near_end.read_until(&ctx, &memory, |b: &u8| *b == 0),
        Err(MemoryAccessError::HeapOutOfBounds)
    );
    let wide = WasmPtr::<u8, Memory64>::new(u64::MAX);
    assert_eq!(wide.read_until(&ctx, &memory, |b: &u8| *b == 0), Err(MemoryAccessError::Overflow));
}

#[test]
fn strings_are_read_by_length() {
    let (mut ctx, memory) = one_page();
    let text = "héllo, wörld";
    assert_eq!(memory.write(&mut ctx, 200, text.as_bytes()), Ok(()));
    let p = WasmPtr::<u8, Memory32>::new(200);
    assert_eq!(p.read_utf8_string(&ctx, &memory, text.len() as u32), Ok(text.to_string()));
    assert_eq!(p.read_utf8_string(&ctx, &memory, 0), Ok(String::new()));
    assert_eq!(p.read_utf8_string(&ctx, &memory, 2), Err(MemoryAccessError::NonUtf8String));
    assert_eq!(
        p.read_utf8_string(&ctx, &memory, 70000),
        Err(MemoryAccessError::HeapOutOfBounds)
    );
    let w = WasmPtr::<u8, Memory64>::new(200);
    assert_eq!(w.read_utf8_string(&ctx, &memory, u64::MAX), Err(MemoryAccessError::Overflow));
}

#[test]
fn strings_are_read_up_to_a_zero_byte() {
    let (mut ctx, memory) = one_page();
    assert_eq!(memory.write(&mut ctx, 300, b"abc\0def"), Ok(()));
    let p = WasmPtr::<u8, Memory32>::new(300);
    assert_eq!(p.read_utf8_string_with_nul(&ctx, &memory), Ok("abc".to_string()));
    assert_eq!(
        WasmPtr::<u8, Memory32>::new(303).read_utf8_string_with_nul(&ctx, &memory),
        Ok(String::new())
    );
    assert_eq!(memory.write(&mut ctx, 400, &[0x61, 0xff, 0x62, 0]), Ok(()));
    assert_eq!(
        WasmPtr::<u8, Memory32>::new(400).read_utf8_string_with_nul(&ctx, &memory),
        Err(MemoryAccessError::NonUtf8String)
    );
}

#[test]
fn bytes_become_a_string_only_when_they_are_utf8() {
    assert_eq!(utf8_string(vec![0xe2, 0x82, 0xac]), Ok("€".to_string()));
    assert_eq!(utf8_string(vec![]), Ok(String::new()));
    assert_eq!(utf8_string(vec![0xe2, 0x82]), Err(MemoryAccessError::NonUtf8String));
    assert_eq!(utf8_string(vec![0xc0, 0x80]), Err(MemoryAccessError::NonUtf8String));
    assert_eq!(utf8_string(vec![0xed, 0xa0, 0x80]), Err(MemoryAccessError::NonUtf8String));
}

#[test]
fn pointer_of_another_context_is_refused() {
    let (ctx, memory) = one_page();
    let mut ids = ContextIds::new();
    let _skip = ids.fresh().unwrap();
    let mut other = ContextObjects::new(&mut ids).unwrap();
    let _theirs = Memory::new(&mut other, MemoryType::new(1, None, false)).unwrap();
    let p = WasmPtr::<u32, Memory32>::new(0);
    assert_eq!(p.read(&ctx, &memory), Ok(0));
    assert_eq!(p.read(&other, &memory), Err(MemoryAccessError::CrossContextUse));
    assert_eq!(p.write(&mut other, &memory, 5), Err(MemoryAccessError::CrossContextUse));
    assert_eq!(
        p.slice(&memory, 1).unwrap().read_to_vec(&other),
        Err(MemoryAccessError::CrossContextUse)
    );
    assert_eq!(
        p.cast::<u8>().read_until(&other, &memory, |b: &u8| *b == 0),
        Err(MemoryAccessError::CrossContextUse)
    );
    assert_eq!(WasmPtr::<u32, Memory32>::new(0).read(&other, &_theirs), Ok(0));
}

#[test]
fn pointers_cross_to_webassembly_as_signed_numbers() {
    assert_eq!(WasmPtr::<u8, Memory32>::new(5).to_native(), 5i32);
    assert_eq!(WasmPtr::<u8, Memory32>::new(u32::MAX).to_native(), -1i32);
    assert_eq!(WasmPtr::<u8, Memory32>::new(0x8000_0000).to_native(), i32::MIN);
    assert_eq!(WasmPtr::<u8, Memory32>::from_native(-1).offset(), u32::MAX);
    assert_eq!(WasmPtr::<u8, Memory32>::from_native(7).offset(), 7);
    assert_eq!(WasmPtr::<u8, Memory64>::new(u64::MAX).to_native(), -1i64);
    assert_eq!(WasmPtr::<u8, Memory64>::from_native(i64::MIN).offset(), 1 << 63);
}

#[test]
fn pointers_are_equal_when_their_offsets_are() {
    assert!(WasmPtr::<u32, Memory32>::new(8) == WasmPtr::<u32, Memory32>::new(8));
    assert!(WasmPtr::<u32, Memory32>::new(8) != WasmPtr::<u32, Memory32>::new(12));
    assert_eq!(WasmPtr::<u8, Memory64>::null(), WasmPtr::<u8, Memory64>::new(0));
    let p = WasmPtr::<u16, Memory32>::new(4);
    assert_eq!(p.add_offset(2).unwrap(), WasmPtr::new(8));
    assert_eq!(p.add_offset(2).unwrap().sub_offset(2).unwrap(), p);
}
