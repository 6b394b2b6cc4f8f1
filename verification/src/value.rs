//! Values that WebAssembly code computes with.
use crate::context::{ContextId, ContextObjects};
use crate::externals::Function;
use crate::types::Type;
use vstd::prelude::*;
use vstd::std_specs::convert::{FromSpecImpl, TryFromSpecImpl};

verus! {

/// A WebAssembly value. Floating-point values are held as their bits.
#[derive(Clone, Copy, Debug, PartialEq, Eq)]
pub enum Value {
    /// A 32-bit integer, signed or unsigned as the reader takes it.
    I32(i32),
    /// A 64-bit integer, signed or unsigned as the reader takes it.
    I64(i64),
    /// The bits of a 32-bit float.
    F32(u32),
    /// The bits of a 64-bit float.
    F64(u64),
    /// A reference to a function, or the null reference.
    FuncRef(Option<Function>),
}

/// The message for a value that is no `i32`.
pub const NOT_I32: &'static str = "Value is not of Wasm type i32";

/// The message for a value that is no `i64`.
pub const NOT_I64: &'static str = "Value is not of Wasm type i64";

/// The message for a value that is no function reference.
pub const NOT_FUNCREF: &'static str = "Value is not of Wasm type funcref";

impl Value {
    /// The type of the value.
    pub open spec fn spec_ty(&self) -> Type {
        match *self {
            Value::I32(_) => Type::I32,
            Value::I64(_) => Type::I64,
            Value::F32(_) => Type::F32,
            Value::F64(_) => Type::F64,
            Value::FuncRef(_) => Type::FuncRef,
        }
    }

    /// Whether the value can be used with the context of identity `id`:
    /// numbers and the null reference with any, a function only with its
    /// own.
    pub open spec fn usable_in(&self, id: ContextId) -> bool {
        match *self {
            Value::FuncRef(Some(f)) => f.spec_context_id() == id,
            _ => true,
        }
    }

    /// The null function reference.
    pub fn null() -> (r: Self)
        ensures
            r == Value::FuncRef(None),
    {
        Value::FuncRef(None)
    }

    /// The type of the value.
    pub fn ty(&self) -> (r: Type)
        ensures
            r == self.spec_ty(),
    {
        match self {
            Value::I32(_) => Type::I32,
            Value::I64(_) => Type::I64,
            Value::F32(_) => Type::F32,
            Value::F64(_) => Type::F64,
            Value::FuncRef(_) => Type::FuncRef,
        }
    }

    /// Whether the value can be used with `ctx`.
    pub fn is_from_context(&self, ctx: &ContextObjects) -> (r: bool)
        ensures
            r == self.usable_in(ctx@.id),
    {
        match self {
            Value::I32(_) | Value::I64(_) | Value::F32(_) | Value::F64(_) | Value::FuncRef(
                None,
            ) => true,
            Value::FuncRef(Some(f)) => f.is_from_context(ctx),
        }
    }

    /// The integer inside, where the value is an `I32`.
    pub fn i32(&self) -> (r: Option<i32>)
        ensures
            r == match *self {
                Value::I32(v) => Some(v),
                _ => None,
            },
    {
        if let Value::I32(e) = self {
            Some(*e)
        } else {
            None
        }
    }

    /// The integer inside an `I32`.
    pub fn unwrap_i32(&self) -> (r: i32)
        requires
            self is I32,
        ensures
            *self == Value::I32(r),
    {
        match self {
            Value::I32(e) => *e,
            _ => 0,
        }
    }

    /// The integer inside, where the value is an `I64`.
    pub fn i64(&self) -> (r: Option<i64>)
        ensures
            r == match *self {
                Value::I64(v) => Some(v),
                _ => None,
            },
    {
        if let Value::I64(e) = self {
            Some(*e)
        } else {
            None
        }
    }

    /// The integer inside an `I64`.
    pub fn unwrap_i64(&self) -> (r: i64)
        requires
            self is I64,
        ensures
            *self == Value::I64(r),
    {
        match self {
            Value::I64(e) => *e,
            _ => 0,
        }
    }

    /// The bits inside, where the value is an `F32`.
    pub fn f32_bits(&self) -> (r: Option<u32>)
        ensures
            r == match *self {
                Value::F32(v) => Some(v),
                _ => None,
            },
    {
        if let Value::F32(e) = self {
            Some(*e)
        } else {
            None
        }
    }

    /// The bits inside an `F32`.
    pub fn unwrap_f32(&self) -> (r: u32)
        requires
            self is F32,
        ensures
            *self == Value::F32(r),
    {
        match self {
            Value::F32(e) => *e,
            _ => 0,
        }
    }

    /// The bits inside, where the value is an `F64`.
    pub fn f64_bits(&self) -> (r: Option<u64>)
        ensures
            r == match *self {
                Value::F64(v) => Some(v),
                _ => None,
            },
    {
        if let Value::F64(e) = self {
            Some(*e)
        } else {
            None
        }
    }

    /// The bits inside an `F64`.
    pub fn unwrap_f64(&self) -> (r: u64)
        requires
            self is F64,
        ensures
            *self == Value::F64(r),
    {
        match self {
            Value::F64(e) => *e,
            _ => 0,
        }
    }

    /// The reference inside, where the value is a `FuncRef`.
    pub fn funcref(&self) -> (r: Option<&Option<Function>>)
        ensures
            match *self {
                Value::FuncRef(f) => r matches Some(g) && *g == f,
                _ => r is None,
            },
    {
        if let Value::FuncRef(e) = self {
            Some(e)
        } else {
            None
        }
    }

    /// The reference inside a `FuncRef`.
    pub fn unwrap_funcref(&self) -> (r: &Option<Function>)
        requires
            self is FuncRef,
        ensures
            *self == Value::FuncRef(*r),
    {
        match self {
            Value::FuncRef(e) => e,
            _ => &None,
        }
    }
}

impl From<i32> for Value {
    fn from(val: i32) -> (r: Self) {
        Value::I32(val)
    }
}

impl FromSpecImpl<i32> for Value {
    open spec fn obeys_from_spec() -> bool {
        true
    }

    open spec fn from_spec(val: i32) -> Self {
        Value::I32(val)
    }
}

impl From<u32> for Value {
    fn from(val: u32) -> (r: Self) {
        Value::I32(#[verifier::truncate] (val as i32))
    }
}

impl FromSpecImpl<u32> for Value {
    open spec fn obeys_from_spec() -> bool {
        true
    }

    open spec fn from_spec(val: u32) -> Self {
        Value::I32(val as i32)
    }
}

impl From<i64> for Value {
    fn from(val: i64) -> (r: Self) {
        Value::I64(val)
    }
}

impl FromSpecImpl<i64> for Value {
    open spec fn obeys_from_spec() -> bool {
        true
    }

    open spec fn from_spec(val: i64) -> Self {
        Value::I64(val)
    }
}

impl From<u64> for Value {
    fn from(val: u64) -> (r: Self) {
        Value::I64(#[verifier::truncate] (val as i64))
    }
}

impl FromSpecImpl<u64> for Value {
    open spec fn obeys_from_spec() -> bool {
        true
    }

    open spec fn from_spec(val: u64) -> Self {
        Value::I64(val as i64)
    }
}

impl From<Function> for Value {
    fn from(val: Function) -> (r: Self) {
        Value::FuncRef(Some(val))
    }
}

impl FromSpecImpl<Function> for Value {
    open spec fn obeys_from_spec() -> bool {
        true
    }

    open spec fn from_spec(val: Function) -> Self {
        Value::FuncRef(Some(val))
    }
}

impl From<Option<Function>> for Value {
    fn from(val: Option<Function>) -> (r: Self) {
        Value::FuncRef(val)
    }
}

impl FromSpecImpl<Option<Function>> for Value {
    open spec fn obeys_from_spec() -> bool {
        true
    }

    open spec fn from_spec(val: Option<Function>) -> Self {
        Value::FuncRef(val)
    }
}

impl TryFrom<Value> for i32 {
    type Error = &'static str;

    fn try_from(value: Value) -> (r: Result<Self, Self::Error>) {
        match value.i32() {
            Some(v) => Ok(v),
            None => Err(NOT_I32),
        }
    }
}

impl TryFromSpecImpl<Value> for i32 {
    open spec fn obeys_try_from_spec() -> bool {
        true
    }

    open spec fn try_from_spec(value: Value) -> Result<Self, Self::Error> {
        match value {
            Value::I32(v) => Ok(v),
            _ => Err(NOT_I32),
        }
    }
}

impl TryFrom<Value> for u32 {
    type Error = &'static str;

    fn try_from(value: Value) -> (r: Result<Self, Self::Error>) {
        match value.i32() {
            Some(v) => Ok(#[verifier::truncate] (v as u32)),
            None => Err(NOT_I32),
        }
    }
}

impl TryFromSpecImpl<Value> for u32 {
    open spec fn obeys_try_from_spec() -> bool {
        true
    }

    open spec fn try_from_spec(value: Value) -> Result<Self, Self::Error> {
        match value {
            Value::I32(v) => Ok(v as u32),
            _ => Err(NOT_I32),
        }
    }
}

impl TryFrom<Value> for i64 {
    type Error = &'static str;

    fn try_from(value: Value) -> (r: Result<Self, Self::Error>) {
        match value.i64() {
            Some(v) => Ok(v),
            None => Err(NOT_I64),
        }
    }
}

impl TryFromSpecImpl<Value> for i64 {
    open spec fn obeys_try_from_spec() -> bool {
        true
    }

    open spec fn try_from_spec(value: Value) -> Result<Self, Self::Error> {
        match value {
            Value::I64(v) => Ok(v),
            _ => Err(NOT_I64),
        }
    }
}

impl TryFrom<Value> for u64 {
    type Error = &'static str;

    fn try_from(value: Value) -> (r: Result<Self, Self::Error>) {
        match value.i64() {
            Some(v) => Ok(#[verifier::truncate] (v as u64)),
            None => Err(NOT_I64),
        }
    }
}

impl TryFromSpecImpl<Value> for u64 {
    open spec fn obeys_try_from_spec() -> bool {
        true
    }

    open spec fn try_from_spec(value: Value) -> Result<Self, Self::Error> {
        match value {
            Value::I64(v) => Ok(v as u64),
            _ => Err(NOT_I64),
        }
    }
}

impl TryFrom<Value> for Option<Function> {
    type Error = &'static str;

    fn try_from(value: Value) -> (r: Result<Self, Self::Error>) {
        match value {
            Value::FuncRef(f) => Ok(f),
            _ => Err(NOT_FUNCREF),
        }
    }
}

impl TryFromSpecImpl<Value> for Option<Function> {
    open spec fn obeys_try_from_spec() -> bool {
        true
    }

    open spec fn try_from_spec(value: Value) -> Result<Self, Self::Error> {
        match value {
            Value::FuncRef(f) => Ok(f),
            _ => Err(NOT_FUNCREF),
        }
    }
}

} // verus!
