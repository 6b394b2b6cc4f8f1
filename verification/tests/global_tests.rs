use wasm_embed::context::{ContextIds, ContextObjects, HandleError, InternalContextHandle};
use wasm_embed::error::RuntimeError;
use wasm_embed::export::{Export, HostValue, VMFunction};
use wasm_embed::externals::{Extern, Function, Global};
use wasm_embed::resource::{GlobalCell, HostFunction};
use wasm_embed::types::{ExternType, FunctionType, GlobalType, Mutability, Type};
use wasm_embed::value::Value;

#[test]
fn global_new() {
    let mut ids = ContextIds::new();
    let mut ctx = ContextObjects::new(&mut ids).unwrap();
    let global = Global::new(&mut ctx, Value::I32(10)).unwrap();
    assert_eq!(global.ty(&ctx), Ok(GlobalType { ty: Type::I32, mutability: Mutability::Const }));

    let global_mut = Global::new_mut(&mut ctx, Value::I32(10)).unwrap();
    assert_eq!(global_mut.ty(&ctx), Ok(GlobalType { ty: Type::I32, mutability: Mutability::Var }));
}

#[test]
fn global_get() {
    let mut ids = ContextIds::new();
    let mut ctx = ContextObjects::new(&mut ids).unwrap();
    let global_i32 = Global::new(&mut ctx, Value::I32(10)).unwrap();
    assert_eq!(global_i32.get(&ctx), Ok(Value::I32(10)));
    let global_i64 = Global::new(&mut ctx, Value::I64(20)).unwrap();
    assert_eq!(global_i64.get(&ctx), Ok(Value::I64(20)));
    let global_f32 = Global::new(&mut ctx, Value::F32(10.0f32.to_bits())).unwrap();
    assert_eq!(global_f32.get(&ctx), Ok(Value::F32(10.0f32.to_bits())));
    let global_f64 = Global::new(&mut ctx, Value::F64(20.0f64.to_bits())).unwrap();
    assert_eq!(global_f64.get(&ctx), Ok(Value::F64(20.0f64.to_bits())));
}

#[test]
fn global_set() {
    let mut ids = ContextIds::new();
    let mut ctx = ContextObjects::new(&mut ids).unwrap();
    let global_i32 = Global::new(&mut ctx, Value::I32(10)).unwrap();
    // Set on a constant should error
    assert!(global_i32.set(&mut ctx, Value::I32(20)).is_err());

    let global_i32_mut = Global::new_mut(&mut ctx, Value::I32(10)).unwrap();
    // Set on different type should error
    assert!(global_i32_mut.set(&mut ctx, Value::I64(20)).is_err());

    // Set on same type should succeed
    global_i32_mut.set(&mut ctx, Value::I32(20)).unwrap();
    assert_eq!(global_i32_mut.get(&ctx), Ok(Value::I32(20)));
}

#[test]
fn globals_keep_negative_and_extreme_numbers() {
    let mut ids = ContextIds::new();
    let mut ctx = ContextObjects::new(&mut ids).unwrap();
    for v in [0, 1, -1, i32::MIN, i32::MAX] {
        let g = Global::new_mut(&mut ctx, Value::I32(0)).unwrap();
        assert_eq!(g.set(&mut ctx, Value::I32(v)), Ok(()));
        assert_eq!(g.get(&ctx), Ok(Value::I32(v)));
    }
    for v in [0, -1, i64::MIN, i64::MAX] {
        let g = Global::new(&mut ctx, Value::I64(v)).unwrap();
        assert_eq!(g.get(&ctx), Ok(Value::I64(v)));
    }
    let g = Global::new(&mut ctx, Value::F32(u32::MAX)).unwrap();
    assert_eq!(g.get(&ctx), Ok(Value::F32(u32::MAX)));
    assert_eq!(g.handle().get(&ctx).unwrap().global, GlobalCell(u32::MAX as u64));
    let n = Global::new(&mut ctx, Value::I32(-1)).unwrap();
    assert_eq!(n.handle().get(&ctx).unwrap().global, GlobalCell(0xffff_ffff));
}

#[test]
fn writing_a_global_names_what_is_wrong() {
    let mut ids = ContextIds::new();
    let mut ctx = ContextObjects::new(&mut ids).unwrap();
    let constant = Global::new(&mut ctx, Value::I32(10)).unwrap();
    let variable = Global::new_mut(&mut ctx, Value::I32(10)).unwrap();
    assert_eq!(constant.set(&mut ctx, Value::I32(20)), Err(RuntimeError::ImmutableGlobal));
    assert_eq!(constant.set(&mut ctx, Value::I64(20)), Err(RuntimeError::ImmutableGlobal));
    assert_eq!(variable.set(&mut ctx, Value::I64(20)), Err(RuntimeError::GlobalTypeMismatch));
    assert_eq!(variable.set(&mut ctx, Value::null()), Err(RuntimeError::GlobalTypeMismatch));
    assert_eq!(constant.get(&ctx), Ok(Value::I32(10)));
    assert_eq!(variable.get(&ctx), Ok(Value::I32(10)));
    let forged = Global::from_vm_extern(&ctx, InternalContextHandle::from_index(9));
    assert_eq!(forged.set(&mut ctx, Value::I32(1)), Err(RuntimeError::InvalidHandle));
    assert_eq!(forged.get(&ctx), Err(RuntimeError::InvalidHandle));
    assert_eq!(forged.ty(&ctx), Err(HandleError::InvalidHandle));
}

#[test]
fn globals_hold_numbers_only() {
    let mut ids = ContextIds::new();
    let mut ctx = ContextObjects::new(&mut ids).unwrap();
    let f = Function::from_vm_export(
        &mut ctx,
        VMFunction::new(HostFunction(1), FunctionType::new(vec![], vec![])),
    );
    assert_eq!(Global::new(&mut ctx, Value::from(f)).err(), Some(RuntimeError::UnsupportedGlobalType));
    assert_eq!(Global::new(&mut ctx, Value::null()).err(), Some(RuntimeError::UnsupportedGlobalType));
    let export = Export::from_js_value(
        HostValue::Global(GlobalCell(0)),
        &mut ctx,
        ExternType::Global(GlobalType::new(Type::FuncRef, Mutability::Var)),
    )
    .unwrap();
    let global = match Extern::from_vm_extern(&ctx, export) {
        Extern::Global(global) => global,
        _ => panic!("a global was stored"),
    };
    assert_eq!(global.get(&ctx), Err(RuntimeError::UnsupportedGlobalType));
    assert_eq!(global.set(&mut ctx, Value::null()), Err(RuntimeError::UnsupportedGlobalType));
    assert_eq!(global.set(&mut ctx, Value::I32(0)), Err(RuntimeError::GlobalTypeMismatch));
}

#[test]
fn global_of_another_context_is_refused() {
    let mut ids = ContextIds::new();
    let mut a = ContextObjects::new(&mut ids).unwrap();
    let mut b = ContextObjects::new(&mut ids).unwrap();
    let in_a = Global::new_mut(&mut a, Value::I32(1)).unwrap();
    let in_b = Global::new_mut(&mut b, Value::I32(2)).unwrap();
    let f_a = Function::from_vm_export(
        &mut a,
        VMFunction::new(HostFunction(1), FunctionType::new(vec![], vec![])),
    );
    assert_eq!(in_a.get(&b), Err(RuntimeError::CrossContextUse));
    assert_eq!(in_a.set(&mut b, Value::I32(5)), Err(RuntimeError::CrossContextUse));
    assert_eq!(in_b.set(&mut b, Value::from(f_a)), Err(RuntimeError::CrossContextUse));
    assert_eq!(Global::new(&mut b, Value::from(f_a)).err(), Some(RuntimeError::CrossContextUse));
    assert_eq!(in_a.ty(&b), Err(HandleError::CrossContextUse));
    assert_eq!(in_b.get(&b), Ok(Value::I32(2)));
    assert_eq!(in_a.get(&a), Ok(Value::I32(1)));
}
