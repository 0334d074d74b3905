//! References and external values.
use vstd::prelude::*;
use vstd::string::*;

use crate::binary::types::{RefType, ValType};
use crate::runtime::store::FuncAddr;
use crate::text::{decimal, spec_decimal};

verus! {

#[derive(Debug, Clone, Copy)]
pub enum Ref {
    Null(RefType),
    Func(FuncAddr),
    Extern(u32),
}

/// Whether a reference is of a reference type: a null of that type, or a
/// non-null reference of its kind.
pub open spec fn spec_is_ref_type(r: Ref, ref_type: RefType) -> bool {
    match r {
        Ref::Null(rt) => rt == ref_type,
        Ref::Func(_) => ref_type == RefType::Func,
        Ref::Extern(_) => ref_type == RefType::Extern,
    }
}

impl Ref {
    pub fn is_ref_type(&self, ref_type: &RefType) -> (r: bool)
        ensures
            r == spec_is_ref_type(*self, *ref_type),
    {
        match self {
            Ref::Null(rt) => *rt == *ref_type,
            Ref::Func(_) => *ref_type == RefType::Func,
            Ref::Extern(_) => *ref_type == RefType::Extern,
        }
    }

    pub fn is_null(&self) -> (r: bool)
        ensures
            r == (*self is Null),
    {
        matches!(self, Ref::Null(_))
    }

    pub fn as_funcref(&self) -> (r: Option<FuncAddr>)
        ensures
            r == (match *self {
                Ref::Func(addr) => Some(addr),
                _ => None,
            }),
    {
        match self {
            Ref::Func(addr) => Some(*addr),
            _ => None,
        }
    }

    /// The text of this reference.
    pub open spec fn message(&self) -> Seq<char> {
        match self {
            Ref::Null(rt) => rt.message() + "(null)"@,
            Ref::Func(addr) => "funcref("@ + addr.message() + ")"@,
            Ref::Extern(v) => "externref("@ + spec_decimal(*v as nat) + ")"@,
        }
    }

    /// Renders the reference as text.
    pub fn to_string(&self) -> (s: String)
        ensures
            s@ == self.message(),
    {
        match self {
            Ref::Null(rt) => rt.to_string().concat("(null)"),
            Ref::Func(addr) => String::from_str("funcref(").concat(addr.to_string().as_str()).concat(
                ")",
            ),
            Ref::Extern(v) => String::from_str("externref(").concat(decimal(*v as u64).as_str()).concat(
                ")",
            ),
        }
    }
}

impl From<RefType> for Ref {
    fn from(value: RefType) -> Self {
        Ref::Null(value)
    }
}

impl vstd::std_specs::convert::FromSpecImpl<RefType> for Ref {
    open spec fn obeys_from_spec() -> bool {
        true
    }

    open spec fn from_spec(v: RefType) -> Ref {
        Ref::Null(v)
    }
}

/// A runtime value. Floating-point values are held as their IEEE 754 bit
/// patterns, as the instructions that produce them encode them.
#[derive(Debug, Clone, Copy)]
pub enum Value {
    I32(i32),
    I64(i64),
    F32(u32),
    F64(u64),
    Ref(Ref),
}

/// The default value of a value type: zero, or the null reference.
pub open spec fn spec_default_value(t: ValType) -> Value {
    match t {
        ValType::I32 => Value::I32(0),
        ValType::I64 => Value::I64(0),
        ValType::F32 => Value::F32(0),
        ValType::F64 => Value::F64(0),
        ValType::Ref(rt) => Value::Ref(Ref::Null(rt)),
        ValType::V128 => Value::I32(0),
    }
}

/// The default values of a sequence of value types.
pub open spec fn default_values(ts: Seq<ValType>) -> Seq<Value> {
    ts.map_values(|t: ValType| spec_default_value(t))
}

impl Value {
    /// The default value of a value type. Vector values are not supported.
    pub fn default_of(t: ValType) -> (r: Value)
        requires
            !(t is V128),
        ensures
            r == spec_default_value(t),
    {
        match t {
            ValType::I32 => Value::I32(0),
            ValType::I64 => Value::I64(0),
            ValType::F32 => Value::F32(0),
            ValType::F64 => Value::F64(0),
            ValType::Ref(rt) => Value::Ref(Ref::Null(rt)),
            ValType::V128 => Value::I32(0),
        }
    }

    pub fn into_ref(self) -> (r: Option<Ref>)
        ensures
            r == (match self {
                Value::Ref(x) => Some(x),
                _ => None,
            }),
    {
        match self {
            Value::Ref(x) => Some(x),
            _ => None,
        }
    }

    /// The reference, where it is one of the given reference type.
    pub fn into_ref_checked(self, rt: &RefType) -> (r: Option<Ref>)
        ensures
            r == (match self {
                Value::Ref(x) => if spec_is_ref_type(x, *rt) {
                    Some(x)
                } else {
                    None
                },
                _ => None,
            }),
    {
        match self.into_ref() {
            Some(x) => if x.is_ref_type(rt) {
                Some(x)
            } else {
                None
            },
            None => None,
        }
    }

    /// An `i32` as a condition: true when it is not zero.
    pub fn as_bool(self) -> (r: Option<bool>)
        ensures
            r == (match self {
                Value::I32(v) => Some(v != 0),
                _ => None,
            }),
    {
        match self {
            Value::I32(v) => Some(v != 0),
            _ => None,
        }
    }

    pub fn as_i32(self) -> (r: Option<i32>)
        ensures
            r == (match self {
                Value::I32(v) => Some(v),
                _ => None,
            }),
    {
        match self {
            Value::I32(v) => Some(v),
            _ => None,
        }
    }
}

#[derive(Debug, Clone, Copy)]
pub enum ExternVal {
    Func(FuncAddr),
    Table(usize),
    Mem(usize),
    Global(usize),
}

impl ExternVal {
    /// The function address of a function value.
    pub fn as_func(&self) -> (r: Option<FuncAddr>)
        ensures
            r == (match *self {
                ExternVal::Func(a) => Some(a),
                _ => None,
            }),
    {
        match self {
            ExternVal::Func(a) => Some(*a),
            _ => None,
        }
    }
}

} // verus!
