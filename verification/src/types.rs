//! Declared types of WebAssembly values and external objects.
use crate::units::Pages;
use vstd::prelude::*;

verus! {

/// The type of a WebAssembly value.
#[derive(Clone, Copy, Debug, PartialEq, Eq, Structural, Hash)]
pub enum Type {
    /// Signed 32 bit integer.
    I32,
    /// Signed 64 bit integer.
    I64,
    /// Floating point 32 bit number.
    F32,
    /// Floating point 64 bit number.
    F64,
    /// A 128 bit vector.
    V128,
    /// A reference to opaque host data.
    ExternRef,
    /// A reference to a function.
    FuncRef,
}

/// Whether a global can be written after it was created.
#[derive(Clone, Copy, Debug, PartialEq, Eq, Structural, Hash)]
pub enum Mutability {
    /// The global is constant.
    Const,
    /// The global can be written.
    Var,
}

impl Mutability {
    /// `true` exactly for `Var`.
    pub fn is_mutable(self) -> (r: bool)
        ensures
            r == (self == Mutability::Var),
    {
        match self {
            Mutability::Const => false,
            Mutability::Var => true,
        }
    }
}

/// The four kinds of external object.
#[derive(Clone, Copy, Debug, PartialEq, Eq, Structural, Hash)]
pub enum ExternKind {
    /// A function.
    Function,
    /// A table.
    Table,
    /// A linear memory.
    Memory,
    /// A global.
    Global,
}

/// What a function type is: its parameter and result types, in order.
pub struct FunctionSig {
    /// Parameter types.
    pub params: Seq<Type>,
    /// Result types.
    pub results: Seq<Type>,
}

/// The declared type of a function.
#[derive(Debug, PartialEq, Eq, Hash)]
pub struct FunctionType {
    params: Vec<Type>,
    results: Vec<Type>,
}

impl View for FunctionType {
    type V = FunctionSig;

    closed spec fn view(&self) -> FunctionSig {
        FunctionSig { params: self.params@, results: self.results@ }
    }
}

impl Clone for FunctionType {
    fn clone(&self) -> (r: Self)
        ensures
            r@ == self@,
    {
        let r = FunctionType { params: self.params.clone(), results: self.results.clone() };
        assert(r.params@ =~= self.params@);
        assert(r.results@ =~= self.results@);
        r
    }
}

impl FunctionType {
    /// A function type with the given parameter and result types.
    pub fn new(params: Vec<Type>, results: Vec<Type>) -> (r: Self)
        ensures
            r@ == (FunctionSig { params: params@, results: results@ }),
    {
        FunctionType { params, results }
    }

    /// The parameter types, in order.
    pub fn params(&self) -> (r: &Vec<Type>)
        ensures
            r@ == self@.params,
    {
        &self.params
    }

    /// The result types, in order.
    pub fn results(&self) -> (r: &Vec<Type>)
        ensures
            r@ == self@.results,
    {
        &self.results
    }
}

/// The declared type of a global.
#[derive(Clone, Copy, Debug, PartialEq, Eq, Structural, Hash)]
pub struct GlobalType {
    /// The type of the value held.
    pub ty: Type,
    /// Whether the value can be written.
    pub mutability: Mutability,
}

impl GlobalType {
    /// A global type of the given value type and mutability.
    pub fn new(ty: Type, mutability: Mutability) -> (r: Self)
        ensures
            r == (GlobalType { ty, mutability }),
    {
        GlobalType { ty, mutability }
    }
}

/// The declared type of a table.
#[derive(Clone, Copy, Debug, PartialEq, Eq, Hash)]
pub struct TableType {
    /// The type of the elements.
    pub ty: Type,
    /// The number of elements the table starts with.
    pub minimum: u32,
    /// The number of elements the table may never exceed, if bounded.
    pub maximum: Option<u32>,
}

impl TableType {
    /// A table type of the given element type and limits.
    pub fn new(ty: Type, minimum: u32, maximum: Option<u32>) -> (r: Self)
        ensures
            r == (TableType { ty, minimum, maximum }),
    {
        TableType { ty, minimum, maximum }
    }
}

/// The declared type of a linear memory.
#[derive(Clone, Copy, Debug, PartialEq, Eq, Hash)]
pub struct MemoryType {
    /// The number of pages the memory starts with.
    pub minimum: Pages,
    /// The number of pages the memory is never grown beyond, if bounded.
    pub maximum: Option<Pages>,
    /// Whether the memory may be shared between threads.
    pub shared: bool,
}

impl MemoryType {
    /// A memory type with the given limits, in pages.
    pub fn new(minimum: u32, maximum: Option<u32>, shared: bool) -> (r: Self)
        ensures
            r.minimum == Pages(minimum),
            r.maximum == match maximum {
                Some(m) => Some(Pages(m)),
                None => None,
            },
            r.shared == shared,
    {
        let maximum = match maximum {
            Some(m) => Some(Pages(m)),
            None => None,
        };
        MemoryType { minimum: Pages(minimum), maximum, shared }
    }
}

/// What an extern type is, with function types by their signature.
pub enum ExternTypeView {
    /// A function of this signature.
    Function(FunctionSig),
    /// A global of this type.
    Global(GlobalType),
    /// A table of this type.
    Table(TableType),
    /// A memory of this type.
    Memory(MemoryType),
}

/// The declared type of an external object.
#[derive(Debug, PartialEq, Eq, Hash)]
pub enum ExternType {
    /// The type of a function.
    Function(FunctionType),
    /// The type of a global.
    Global(GlobalType),
    /// The type of a table.
    Table(TableType),
    /// The type of a memory.
    Memory(MemoryType),
}

impl View for ExternType {
    type V = ExternTypeView;

    open spec fn view(&self) -> ExternTypeView {
        match *self {
            ExternType::Function(f) => ExternTypeView::Function(f@),
            ExternType::Global(g) => ExternTypeView::Global(g),
            ExternType::Table(t) => ExternTypeView::Table(t),
            ExternType::Memory(m) => ExternTypeView::Memory(m),
        }
    }
}

impl Clone for ExternType {
    fn clone(&self) -> (r: Self)
        ensures
            r@ == self@,
    {
        match self {
            ExternType::Function(f) => ExternType::Function(f.clone()),
            ExternType::Global(g) => ExternType::Global(*g),
            ExternType::Table(t) => ExternType::Table(*t),
            ExternType::Memory(m) => ExternType::Memory(*m),
        }
    }
}

impl ExternType {
    /// The kind of object this type describes.
    pub open spec fn spec_kind(&self) -> ExternKind {
        match *self {
            ExternType::Function(_) => ExternKind::Function,
            ExternType::Global(_) => ExternKind::Global,
            ExternType::Table(_) => ExternKind::Table,
            ExternType::Memory(_) => ExternKind::Memory,
        }
    }

    /// The kind of object this type describes.
    pub fn kind(&self) -> (r: ExternKind)
        ensures
            r == self.spec_kind(),
    {
        match self {
            ExternType::Function(_) => ExternKind::Function,
            ExternType::Global(_) => ExternKind::Global,
            ExternType::Table(_) => ExternKind::Table,
            ExternType::Memory(_) => ExternKind::Memory,
        }
    }
}

/// One import that a module declares: where it is looked up and what type it
/// is expected to have.
#[derive(Debug, PartialEq, Eq, Hash)]
pub struct ImportType {
    module: String,
    name: String,
    ty: ExternType,
}

impl ImportType {
    /// The namespace the import is looked up in.
    pub closed spec fn spec_module(&self) -> Seq<char> {
        self.module@
    }

    /// The name the import is looked up under.
    pub closed spec fn spec_name(&self) -> Seq<char> {
        self.name@
    }

    /// The type the import is declared with.
    pub closed spec fn spec_ty(&self) -> ExternTypeView {
        self.ty@
    }

    /// The import of `name` from namespace `module`, declared with type `ty`.
    pub fn new(module: &str, name: &str, ty: ExternType) -> (r: Self)
        ensures
            r.spec_module() == module@,
            r.spec_name() == name@,
            r.spec_ty() == ty@,
    {
        ImportType { module: module.to_owned(), name: name.to_owned(), ty }
    }

    /// The namespace the import is looked up in.
    pub fn module(&self) -> (r: &str)
        ensures
            r@ == self.spec_module(),
    {
        self.module.as_str()
    }

    /// The name the import is looked up under.
    pub fn name(&self) -> (r: &str)
        ensures
            r@ == self.spec_name(),
    {
        self.name.as_str()
    }

    /// The type the import is declared with.
    pub fn ty(&self) -> (r: &ExternType)
        ensures
            r@ == self.spec_ty(),
    {
        &self.ty
    }
}

/// How the storage of a linear memory is laid out.
#[derive(Clone, Copy, Debug, PartialEq, Eq, Hash)]
pub enum MemoryStyle {
    /// The memory can be resized and moved.
    Dynamic {
        /// Size in bytes of the guard region after the end of the memory.
        offset_guard_size: u64,
    },
    /// Address space is set aside up front.
    Static {
        /// The number of pages that are set aside.
        bound: Pages,
        /// Size in bytes of the guard region after the end of the memory.
        offset_guard_size: u64,
    },
}

impl MemoryStyle {
    /// The size in bytes of the guard region, whatever the style.
    pub open spec fn spec_offset_guard_size(&self) -> u64 {
        match *self {
            MemoryStyle::Dynamic { offset_guard_size } => offset_guard_size,
            MemoryStyle::Static { offset_guard_size, .. } => offset_guard_size,
        }
    }

    /// The size in bytes of the guard region, whatever the style.
    pub fn offset_guard_size(&self) -> (r: u64)
        ensures
            r == self.spec_offset_guard_size(),
    {
        match self {
            MemoryStyle::Dynamic { offset_guard_size } => *offset_guard_size,
            MemoryStyle::Static { offset_guard_size, .. } => *offset_guard_size,
        }
    }
}

} // verus!
