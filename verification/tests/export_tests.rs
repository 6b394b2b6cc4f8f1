use wasm_embed::context::{ContextIds, ContextObjects, HandleError, InternalContextHandle};
use wasm_embed::export::{Export, HostRef, HostValue, VMFunction, VMMemory, WasmError};
use wasm_embed::externals::{Extern, Function, Global};
use wasm_embed::memory::Memory;
use wasm_embed::resource::{GlobalCell, HostFunction, LinearMemory, TableElements};
use wasm_embed::table::Table;
use wasm_embed::types::{
    ExternKind, ExternType, FunctionType, GlobalType, MemoryType, Mutability, TableType, Type,
};
use wasm_embed::units::Pages;

fn context() -> ContextObjects {
    let mut ids = ContextIds::new();
    ContextObjects::new(&mut ids).unwrap()
}

fn memory_type() -> ExternType {
    ExternType::Memory(MemoryType::new(1, Some(4), false))
}

fn function_type() -> ExternType {
    ExternType::Function(FunctionType::new(vec![Type::I32], vec![]))
}

fn global_type() -> ExternType {
    ExternType::Global(GlobalType::new(Type::I64, Mutability::Var))
}

fn table_type() -> ExternType {
    ExternType::Table(TableType::new(Type::FuncRef, 2, None))
}

#[test]
fn host_values_of_the_required_kind_are_taken_in() {
    let mut ctx = context();
    let m = Export::from_js_value(
        HostValue::Memory(LinearMemory::new(1, Some(4)).unwrap()),
        &mut ctx,
        memory_type(),
    )
    .unwrap();
    let f = Export::from_js_value(HostValue::Function(HostFunction(9)), &mut ctx, function_type())
        .unwrap();
    let g = Export::from_js_value(HostValue::Global(GlobalCell(77)), &mut ctx, global_type())
        .unwrap();
    let t = Export::from_js_value(
        HostValue::Table(TableElements::new(2, None).unwrap()),
        &mut ctx,
        table_type(),
    )
    .unwrap();
    assert_eq!(m, Export::Memory(InternalContextHandle::from_index(0)));
    assert_eq!(f, Export::Function(InternalContextHandle::from_index(0)));
    assert_eq!(g, Export::Global(InternalContextHandle::from_index(0)));
    assert_eq!(t, Export::Table(InternalContextHandle::from_index(0)));
    assert_eq!(m.kind(), ExternKind::Memory);
    assert_eq!(f.kind(), ExternKind::Function);

    let memory = match Extern::from_vm_extern(&ctx, m) {
        Extern::Memory(memory) => memory,
        _ => panic!("a memory was stored"),
    };
    assert_eq!(memory.size(&ctx), Ok(Pages(1)));
    assert_eq!(memory.ty(&ctx), Ok(MemoryType::new(1, Some(4), false)));
    assert_eq!(Extern::from_vm_extern(&ctx, f).ty(&ctx), Ok(function_type()));
    assert_eq!(Extern::from_vm_extern(&ctx, g).ty(&ctx), Ok(global_type()));
    assert_eq!(Extern::from_vm_extern(&ctx, t).ty(&ctx), Ok(table_type()));
}

#[test]
fn second_object_of_a_kind_gets_the_next_position() {
    let mut ctx = context();
    let a = Export::from_js_value(HostValue::Function(HostFunction(1)), &mut ctx, function_type());
    let b = Export::from_js_value(HostValue::Function(HostFunction(2)), &mut ctx, function_type());
    assert_eq!(a, Ok(Export::Function(InternalContextHandle::from_index(0))));
    assert_eq!(b, Ok(Export::Function(InternalContextHandle::from_index(1))));
}

#[test]
fn host_value_of_another_kind_is_a_type_mismatch() {
    let mut ctx = context();
    let r = Export::from_js_value(HostValue::Function(HostFunction(9)), &mut ctx, memory_type());
    assert_eq!(
        r,
        Err(WasmError::TypeMismatch {
            found: Some(ExternKind::Function),
            expected: ExternKind::Memory
        })
    );
    let r = Export::from_js_value(HostValue::Other, &mut ctx, memory_type());
    assert_eq!(r, Err(WasmError::TypeMismatch { found: None, expected: ExternKind::Memory }));
    let r = Export::from_js_value(
        HostValue::Memory(LinearMemory::new(1, None).unwrap()),
        &mut ctx,
        global_type(),
    );
    assert_eq!(
        r,
        Err(WasmError::TypeMismatch {
            found: Some(ExternKind::Memory),
            expected: ExternKind::Global
        })
    );
    let r = Export::from_js_value(HostValue::Global(GlobalCell(1)), &mut ctx, function_type());
    assert_eq!(
        r,
        Err(WasmError::TypeMismatch {
            found: Some(ExternKind::Global),
            expected: ExternKind::Function
        })
    );
    let r = Export::from_js_value(HostValue::Other, &mut ctx, table_type());
    assert_eq!(r, Err(WasmError::TypeMismatch { found: None, expected: ExternKind::Table }));
    let probe = Export::Memory(InternalContextHandle::from_index(0));
    assert!(probe.as_jsvalue(&ctx).is_none());
    assert!(Export::Function(InternalContextHandle::from_index(0)).as_jsvalue(&ctx).is_none());
    assert!(Export::Global(InternalContextHandle::from_index(0)).as_jsvalue(&ctx).is_none());
    assert!(Export::Table(InternalContextHandle::from_index(0)).as_jsvalue(&ctx).is_none());
}

#[test]
fn exports_give_back_the_resource() {
    let mut ctx = context();
    let f = Export::from_js_value(HostValue::Function(HostFunction(9)), &mut ctx, function_type())
        .unwrap();
    let g = Export::from_js_value(HostValue::Global(GlobalCell(77)), &mut ctx, global_type())
        .unwrap();
    let m = Export::from_js_value(
        HostValue::Memory(LinearMemory::new(2, None).unwrap()),
        &mut ctx,
        ExternType::Memory(MemoryType::new(2, None, false)),
    )
    .unwrap();
    let t = Export::from_js_value(
        HostValue::Table(TableElements::new(3, None).unwrap()),
        &mut ctx,
        table_type(),
    )
    .unwrap();
    assert!(matches!(f.as_jsvalue(&ctx), Some(HostRef::Function(HostFunction(9)))));
    assert!(matches!(g.as_jsvalue(&ctx), Some(HostRef::Global(GlobalCell(77)))));
    assert!(matches!(m.as_jsvalue(&ctx), Some(HostRef::Memory(mem)) if mem.byte_length() == 131072));
    assert!(matches!(t.as_jsvalue(&ctx), Some(HostRef::Table(slots)) if slots.length() == 3));
}

#[test]
fn extern_and_export_convert_into_each_other() {
    let mut ctx = context();
    let memory = Memory::new(&mut ctx, MemoryType::new(1, None, false)).unwrap();
    let ext = Extern::Memory(memory);
    let export = ext.to_export();
    assert_eq!(export, Export::Memory(InternalContextHandle::from_index(0)));
    assert_eq!(Extern::from_vm_extern(&ctx, export), ext);
    assert_eq!(ext.kind(), ExternKind::Memory);
    assert!(ext.is_from_context(&ctx));
    assert_eq!(memory.to_vm_extern().index(), 0);
    assert_eq!(Memory::from_vm_extern(&ctx, memory.to_vm_extern()), memory);
}

#[test]
fn bare_position_gets_the_identity_of_the_context_it_is_joined_with() {
    let mut ids = ContextIds::new();
    let mut a = ContextObjects::new(&mut ids).unwrap();
    let b = ContextObjects::new(&mut ids).unwrap();
    let f = Function::from_vm_export(
        &mut a,
        VMFunction::new(HostFunction(3), FunctionType::new(vec![], vec![Type::I32])),
    );
    let bare = f.to_vm_extern();
    let in_a = Function::from_vm_extern(&a, bare);
    let in_b = Function::from_vm_extern(&b, bare);
    assert_eq!(in_a, f);
    assert_ne!(in_b, f);
    assert!(in_a.is_from_context(&a));
    assert!(in_b.is_from_context(&b));
    assert_eq!(in_a.ty(&a), Ok(FunctionType::new(vec![], vec![Type::I32])));
    assert_eq!(in_b.ty(&b), Err(HandleError::InvalidHandle));
    assert_eq!(f.ty(&b), Err(HandleError::CrossContextUse));
    assert_eq!(Extern::Function(f).ty(&b), Err(HandleError::CrossContextUse));
}

#[test]
fn globals_and_tables_report_their_declared_type() {
    let mut ctx = context();
    let g = Export::from_js_value(HostValue::Global(GlobalCell(5)), &mut ctx, global_type())
        .unwrap();
    let global = match Extern::from_vm_extern(&ctx, g) {
        Extern::Global(global) => global,
        _ => panic!("a global was stored"),
    };
    assert_eq!(global.ty(&ctx), Ok(GlobalType::new(Type::I64, Mutability::Var)));
    assert!(global.is_from_context(&ctx));
    assert_eq!(Global::from_vm_extern(&ctx, global.to_vm_extern()), global);
    let other = context();
    let t = Table::from_vm_extern(&other, InternalContextHandle::from_index(0));
    assert_eq!(t.ty(&other), Err(HandleError::InvalidHandle));
}

#[test]
fn functions_compare_by_their_callable() {
    let a = VMFunction::new(HostFunction(1), FunctionType::new(vec![], vec![]));
    let b = VMFunction::new(HostFunction(1), FunctionType::new(vec![Type::I32], vec![]));
    let c = VMFunction::new(HostFunction(2), FunctionType::new(vec![], vec![]));
    assert!(a.same_callable(&b));
    assert!(!a.same_callable(&c));
    assert_eq!(b.ty(), &FunctionType::new(vec![Type::I32], vec![]));
    let m = VMMemory::new(LinearMemory::new(0, Some(0)).unwrap(), MemoryType::new(0, Some(0), false));
    assert_eq!(m.memory().byte_length(), 0);
    assert_eq!(m.ty(), MemoryType::new(0, Some(0), false));
}
