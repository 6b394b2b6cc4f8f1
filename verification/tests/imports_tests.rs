use wasm_embed::context::{ContextIds, ContextObjects};
use wasm_embed::error::{InstantiationError, LinkError};
use wasm_embed::export::VMFunction;
use wasm_embed::exports::Exports;
use wasm_embed::externals::{ExportError, Exportable, Extern, Function};
use wasm_embed::imports::{Imports, ImportsSummary};
use wasm_embed::memory::Memory;
use wasm_embed::module::Module;
use wasm_embed::resource::HostFunction;
use wasm_embed::types::{ExternType, FunctionType, ImportType, MemoryType, Type};

fn context() -> ContextObjects {
    let mut ids = ContextIds::new();
    ContextObjects::new(&mut ids).unwrap()
}

fn function(ctx: &mut ContextObjects, callable: u64) -> Extern {
    Extern::Function(Function::from_vm_export(
        ctx,
        VMFunction::new(HostFunction(callable), FunctionType::new(vec![Type::I32], vec![Type::I32])),
    ))
}

fn memory(ctx: &mut ContextObjects) -> Extern {
    Extern::Memory(Memory::new(ctx, MemoryType::new(1, None, false)).unwrap())
}

fn function_import(module: &str, name: &str) -> ImportType {
    ImportType::new(
        module,
        name,
        ExternType::Function(FunctionType::new(vec![Type::I32], vec![Type::I32])),
    )
}

#[test]
fn new_imports_are_empty() {
    let imports = Imports::new();
    assert_eq!(imports.len(), 0);
    assert_eq!(imports.summary(), ImportsSummary::Empty);
    assert_eq!(imports.get_export("env", "foo"), None);
    assert!(!imports.contains_namespace("env"));
    assert!(imports.get_namespace_exports("env").is_none());
    assert_eq!(imports.namespaces(), Vec::<String>::new());
}

#[test]
fn defined_objects_are_found_by_exact_key() {
    let mut ctx = context();
    let f = function(&mut ctx, 1);
    let m = memory(&mut ctx);
    let mut imports = Imports::new();
    imports.define("env", "foo", f);
    imports.define("env", "memory", m);
    assert_eq!(imports.len(), 2);
    assert_eq!(imports.summary(), ImportsSummary::Items(2));
    assert_eq!(imports.get_export("env", "foo"), Some(f));
    assert_eq!(imports.get_export("env", "memory"), Some(m));
    assert_eq!(imports.get_export("env", "fo"), None);
    assert_eq!(imports.get_export("en", "foo"), None);
    assert_eq!(imports.get_export("foo", "env"), None);
    assert!(imports.contains_namespace("env"));
    assert!(!imports.contains_namespace("foo"));
}

#[test]
fn last_definition_wins() {
    let mut ctx = context();
    let first = function(&mut ctx, 1);
    let second = function(&mut ctx, 2);
    assert_ne!(first, second);
    let mut imports = Imports::new();
    imports.define("dog", "happy", first);
    imports.define("dog", "happy", second);
    assert_eq!(imports.len(), 1);
    assert_eq!(imports.get_export("dog", "happy"), Some(second));
}

#[test]
fn namespace_is_registered_from_first_to_last() {
    let mut ctx = context();
    let a = function(&mut ctx, 1);
    let b = function(&mut ctx, 2);
    let c = function(&mut ctx, 3);
    let mut imports = Imports::new();
    imports.define("env", "a", c);
    imports.define("other", "a", c);
    imports.register_namespace(
        "env",
        vec![("a".to_string(), a), ("b".to_string(), a), ("b".to_string(), b)],
    );
    assert_eq!(imports.get_export("env", "a"), Some(a));
    assert_eq!(imports.get_export("env", "b"), Some(b));
    assert_eq!(imports.get_export("other", "a"), Some(c));
    assert_eq!(imports.len(), 3);
}

#[test]
fn chaining_works() {
    let mut ctx = context();
    let g = function(&mut ctx, 1);
    let mut imports1 = Imports::new();
    imports1.register_namespace("dog", vec![("happy".to_string(), g)]);
    let mut imports2 = Imports::new();
    imports2.register_namespace("dog", vec![("small".to_string(), g)]);
    imports2.register_namespace("cat", vec![("small".to_string(), g)]);

    imports1.extend(imports2.to_vec());

    let small_cat_export = imports1.get_export("cat", "small");
    assert!(small_cat_export.is_some());

    let happy = imports1.get_export("dog", "happy");
    let small = imports1.get_export("dog", "small");
    assert!(happy.is_some());
    assert!(small.is_some());
}

#[test]
fn extending_conflict_overwrites() {
    let mut ctx = context();
    let g1 = function(&mut ctx, 1);
    let g2 = function(&mut ctx, 2);
    let mut imports1 = Imports::new();
    imports1.define("dog", "happy", g1);
    let mut imports2 = Imports::new();
    imports2.define("dog", "happy", g2);

    imports1.extend(imports2.to_vec());
    assert_eq!(imports1.get_export("dog", "happy"), Some(g2));

    let mut imports1 = Imports::new();
    imports1.define("dog", "happy", g1);
    let mut imports2 = Imports::new();
    imports2.define("dog", "happy", g2);
    imports2.extend(imports1.to_vec());
    assert_eq!(imports2.get_export("dog", "happy"), Some(g1));
}

#[test]
fn namespace() {
    let mut ctx = context();
    let g1 = function(&mut ctx, 1);
    let mut namespace = Exports::new();
    namespace.insert("happy", g1);
    let mut imports1 = Imports::new();
    imports1.register_exports("dog", namespace);
    let happy_dog_entry = imports1.get_export("dog", "happy").unwrap();
    assert_eq!(happy_dog_entry, g1);
    assert_eq!(happy_dog_entry.ty(&ctx).unwrap().kind(), wasm_embed::types::ExternKind::Function);
}

#[test]
fn namespace_exports_hold_exactly_the_names_of_the_namespace() {
    let mut ctx = context();
    let a = function(&mut ctx, 1);
    let b = function(&mut ctx, 2);
    let m = memory(&mut ctx);
    let mut imports = Imports::new();
    imports.define("env", "a", a);
    imports.define("wasi", "a", b);
    imports.define("env", "memory", m);
    let env = imports.get_namespace_exports("env").unwrap();
    assert_eq!(env.len(), 2);
    assert_eq!(env.get_extern("a"), Some(&a));
    assert_eq!(env.get_extern("memory"), Some(&m));
    assert_eq!(env.get_extern("b"), None);
    let wasi = imports.get_namespace_exports("wasi").unwrap();
    assert_eq!(wasi.len(), 1);
    assert_eq!(wasi.get_extern("a"), Some(&b));
    assert!(imports.get_namespace_exports("en").is_none());
    assert_eq!(imports.namespaces(), vec!["env".to_string(), "wasi".to_string()]);
}

#[test]
fn imports_are_resolved_in_the_order_of_declaration() {
    let mut ctx = context();
    let a = function(&mut ctx, 1);
    let b = function(&mut ctx, 2);
    let m = memory(&mut ctx);
    let mut imports = Imports::new();
    imports.define("env", "a", a);
    imports.define("env", "b", b);
    imports.define("env", "memory", m);
    imports.define("unused", "x", a);
    let module = Module::new(vec![
        ImportType::new("env", "memory", ExternType::Memory(MemoryType::new(1, None, false))),
        function_import("env", "b"),
        function_import("env", "a"),
        function_import("env", "b"),
    ]);
    assert_eq!(module.imports().len(), 4);
    assert_eq!(imports.imports_for_module(&module), Ok(vec![m, b, a, b]));
    assert_eq!(imports.imports_for_module(&Module::new(vec![])), Ok(vec![]));
}

#[test]
fn resolver_does_not_compare_types() {
    let mut ctx = context();
    let m = memory(&mut ctx);
    let mut imports = Imports::new();
    imports.define("env", "f", m);
    let module = Module::new(vec![function_import("env", "f")]);
    assert_eq!(imports.imports_for_module(&module), Ok(vec![m]));
}

#[test]
fn unknown_import_is_a_link_error() {
    let mut ctx = context();
    let a = function(&mut ctx, 1);
    let mut imports = Imports::new();
    imports.define("env", "present", a);
    let module = Module::new(vec![
        function_import("env", "present"),
        function_import("env", "missing_fn"),
        function_import("env", "also_missing"),
    ]);
    assert_eq!(
        imports.imports_for_module(&module),
        Err(InstantiationError::Link(LinkError::UnknownImport {
            namespace: "env".to_string(),
            name: "missing_fn".to_string(),
            expected_type: ExternType::Function(FunctionType::new(
                vec![Type::I32],
                vec![Type::I32]
            )),
        }))
    );
    let empty = Imports::new();
    let only = Module::new(vec![function_import("env", "missing_fn")]);
    assert!(matches!(
        empty.imports_for_module(&only),
        Err(InstantiationError::Link(LinkError::UnknownImport { .. }))
    ));
}

#[test]
fn exports_replace_and_find_by_name() {
    let mut ctx = context();
    let a = function(&mut ctx, 1);
    let b = function(&mut ctx, 2);
    let m = memory(&mut ctx);
    let mut exports = Exports::new();
    assert!(exports.is_empty());
    exports.insert("f", a);
    exports.insert("memory", m);
    exports.insert("f", b);
    assert_eq!(exports.len(), 2);
    assert!(!exports.is_empty());
    assert!(exports.contains("f"));
    assert!(!exports.contains("g"));
    assert_eq!(exports.get_extern("f"), Some(&b));
    assert!(matches!(exports.get_function("f"), Ok(f) if Extern::Function(*f) == b));
    assert!(matches!(exports.get_memory("memory"), Ok(x) if Extern::Memory(*x) == m));
    assert_eq!(exports.get_memory("f").err(), Some(ExportError::IncompatibleType));
    assert_eq!(exports.get_table("memory").err(), Some(ExportError::IncompatibleType));
    assert_eq!(exports.get_global("memory").err(), Some(ExportError::IncompatibleType));
    assert_eq!(exports.get_function("nope").err(), Some(ExportError::Missing("nope".to_string())));
    assert_eq!(exports.into_vec(), vec![("f".to_string(), b), ("memory".to_string(), m)]);
}

#[test]
fn externs_are_taken_apart_by_kind() {
    let mut ctx = context();
    let f = function(&mut ctx, 1);
    let m = memory(&mut ctx);
    assert!(Memory::get_self_from_extern(&m).is_ok());
    assert_eq!(Memory::get_self_from_extern(&f).err(), Some(ExportError::IncompatibleType));
    assert!(Function::get_self_from_extern(&f).is_ok());
    assert_eq!(Function::get_self_from_extern(&m).err(), Some(ExportError::IncompatibleType));
}

#[test]
fn copies_of_imports_do_not_share_definitions() {
    let mut ctx = context();
    let a = function(&mut ctx, 1);
    let b = function(&mut ctx, 2);
    let mut imports = Imports::default();
    imports.define("env", "a", a);
    let mut copy = imports.clone();
    copy.define("env", "a", b);
    copy.define("env", "b", b);
    assert_eq!(imports.get_export("env", "a"), Some(a));
    assert_eq!(imports.get_export("env", "b"), None);
    assert_eq!(copy.get_export("env", "a"), Some(b));
    let mut exports = Exports::default();
    exports.insert("x", a);
    let mut other = exports.clone();
    other.insert("x", b);
    assert_eq!(exports.get_extern("x"), Some(&a));
    assert_eq!(other.get_extern("x"), Some(&b));
}
