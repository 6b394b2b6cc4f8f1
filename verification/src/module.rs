//! What the import resolver reads of a compiled module: the imports it
//! declares, in the order of declaration.
use crate::types::{ExternTypeView, ImportType};
use vstd::prelude::*;

verus! {

/// A compiled module, as far as linking is concerned.
#[derive(Debug)]
pub struct Module {
    imports: Vec<ImportType>,
}

impl Module {
    /// The declared imports, in the order of declaration.
    pub closed spec fn spec_imports(&self) -> Seq<ImportType> {
        self.imports@
    }

    /// Where import `i` is looked up: its namespace and its name.
    pub open spec fn import_key(&self, i: int) -> (Seq<char>, Seq<char>) {
        (self.spec_imports()[i].spec_module(), self.spec_imports()[i].spec_name())
    }

    /// The type that import `i` is declared with.
    pub open spec fn import_ty(&self, i: int) -> ExternTypeView {
        self.spec_imports()[i].spec_ty()
    }

    /// The module that declares `imports`, in that order.
    pub fn new(imports: Vec<ImportType>) -> (r: Self)
        ensures
            r.spec_imports() == imports@,
    {
        Module { imports }
    }

    /// The declared imports, in the order of declaration.
    pub fn imports(&self) -> (r: &Vec<ImportType>)
        ensures
            r@ == self.spec_imports(),
    {
        &self.imports
    }
}

} // verus!
