use wasm_embed::context::{
    ContextHandle, ContextIds, ContextObjects, HandleError, InternalContextHandle,
};
use wasm_embed::export::{VMFunction, VMGlobal, VMMemory};
use wasm_embed::resource::{GlobalCell, HostFunction, LinearMemory};
use wasm_embed::types::{FunctionType, GlobalType, MemoryType, Mutability, Type};

#[test]
fn identities_are_issued_in_order_and_never_twice() {
    let mut ids = ContextIds::new();
    let a = ids.fresh().unwrap();
    let b = ids.fresh().unwrap();
    let c = ids.fresh().unwrap();
    assert_eq!(a.value(), 1);
    assert_eq!(b.value(), 2);
    assert_eq!(c.value(), 3);
    assert_ne!(a, b);
    assert_ne!(b, c);
}

#[test]
fn arena_hands_out_positions_in_order_of_insertion() {
    let mut ids = ContextIds::new();
    let mut ctx = ContextObjects::new(&mut ids).unwrap();
    let ty = GlobalType::new(Type::I32, Mutability::Const);
    let first = ContextHandle::<VMGlobal>::new(&mut ctx, VMGlobal::new(GlobalCell(10), ty));
    let second = ContextHandle::<VMGlobal>::new(&mut ctx, VMGlobal::new(GlobalCell(20), ty));
    assert_eq!(first.internal_handle().index(), 0);
    assert_eq!(second.internal_handle().index(), 1);
    assert_eq!(first.context_id(), ctx.id());
    assert_eq!(first.get(&ctx).unwrap().global, GlobalCell(10));
    assert_eq!(second.get(&ctx).unwrap().global, GlobalCell(20));
}

#[test]
fn lists_of_different_kinds_do_not_share_positions() {
    let mut ids = ContextIds::new();
    let mut ctx = ContextObjects::new(&mut ids).unwrap();
    let memory = LinearMemory::new(1, None).unwrap();
    let m = ContextHandle::<VMMemory>::new(
        &mut ctx,
        VMMemory::new(memory, MemoryType::new(1, None, false)),
    );
    let f = ContextHandle::<VMFunction>::new(
        &mut ctx,
        VMFunction::new(HostFunction(7), FunctionType::new(vec![Type::I32], vec![])),
    );
    assert_eq!(m.internal_handle().index(), 0);
    assert_eq!(f.internal_handle().index(), 0);
    assert_eq!(f.get(&ctx).unwrap().function(), HostFunction(7));
    assert_eq!(m.get(&ctx).unwrap().memory().byte_length(), 65536);
}

#[test]
fn handle_past_the_end_is_invalid() {
    let mut ids = ContextIds::new();
    let mut ctx = ContextObjects::new(&mut ids).unwrap();
    let forged = ContextHandle::<VMGlobal>::from_internal(
        ctx.id(),
        InternalContextHandle::from_index(3),
    );
    assert_eq!(forged.get(&ctx).err(), Some(HandleError::InvalidHandle));
    assert_eq!(forged.get_mut(&mut ctx).err(), Some(HandleError::InvalidHandle));
}

#[test]
fn identity_is_compared_before_the_position() {
    let mut ids = ContextIds::new();
    let mut a = ContextObjects::new(&mut ids).unwrap();
    let b = ContextObjects::new(&mut ids).unwrap();
    let ty = GlobalType::new(Type::I64, Mutability::Var);
    let in_a = ContextHandle::<VMGlobal>::new(&mut a, VMGlobal::new(GlobalCell(1), ty));
    assert_eq!(in_a.get(&b).err(), Some(HandleError::CrossContextUse));
    let forged = ContextHandle::<VMGlobal>::from_internal(
        a.id(),
        InternalContextHandle::from_index(99),
    );
    assert_eq!(forged.get(&b).err(), Some(HandleError::CrossContextUse));
    assert_eq!(forged.get(&a).err(), Some(HandleError::InvalidHandle));
}

#[test]
fn changing_an_object_in_place_changes_the_arena() {
    let mut ids = ContextIds::new();
    let mut ctx = ContextObjects::new(&mut ids).unwrap();
    let ty = GlobalType::new(Type::I32, Mutability::Var);
    let h = ContextHandle::<VMGlobal>::new(&mut ctx, VMGlobal::new(GlobalCell(1), ty));
    h.get_mut(&mut ctx).unwrap().global = GlobalCell(5);
    assert_eq!(h.get(&ctx).unwrap().global, GlobalCell(5));
}

#[test]
fn every_arena_gets_an_identity_of_its_own() {
    let mut ids = ContextIds::new();
    let a = ContextObjects::new(&mut ids).unwrap();
    let skipped = ids.fresh().unwrap();
    let b = ContextObjects::new(&mut ids).unwrap();
    assert_eq!(a.id().value(), 1);
    assert_eq!(skipped.value(), 2);
    assert_eq!(b.id().value(), 3);
    assert_ne!(a.id(), b.id());
}

#[test]
fn identities_tell_contexts_apart_within_one_source_only() {
    let mut one = ContextIds::new();
    let mut other = ContextIds::new();
    let a = ContextObjects::new(&mut one).unwrap();
    let b = ContextObjects::new(&mut one).unwrap();
    let c = ContextObjects::new(&mut other).unwrap();
    assert_ne!(a.id(), b.id());
    assert_eq!(a.id(), c.id());
    assert_ne!(b.id(), c.id());
}
