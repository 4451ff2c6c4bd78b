//! The values of the language.

use vstd::prelude::*;
use crate::error::Error;
use crate::object::{Object, ObjectModel};
use crate::vm::{ObjectId, VirtualMachine};

verus! {

/// A value of the language.  A number is carried as the bit pattern of a
/// binary64 number; the library never computes with it beyond comparing,
/// negating and truncating.
#[derive(Clone, Debug, PartialEq)]
pub enum Value {
    /// A binary64 number, as its bit pattern.
    Num(u64),
    /// A string.
    Str(String),
    /// A truth value.
    Bool(bool),
    /// A reference to an object on the heap.
    ObjectReference(ObjectId),
    /// The absent value.
    Null,
}

impl Value {
    /// The number in the value; fails with `Runtime` unless it is a number.
    pub fn as_num(&self) -> (r: Result<u64, Error>)
        ensures
            r == (match *self {
                Value::Num(bits) => Ok::<u64, Error>(bits),
                _ => Err(Error::Runtime),
            }),
    {
        match self {
            Value::Num(bits) => Ok(*bits),
            _ => Err(Error::Runtime),
        }
    }

    /// The truth value in the value; fails with `Runtime` unless it is one.
    pub fn as_bool(&self) -> (r: Result<bool, Error>)
        ensures
            r == (match *self {
                Value::Bool(b) => Ok::<bool, Error>(b),
                _ => Err(Error::Runtime),
            }),
    {
        match self {
            Value::Bool(b) => Ok(*b),
            _ => Err(Error::Runtime),
        }
    }

    /// The object id in the value; fails with `Runtime` unless it refers to
    /// an object.
    pub fn as_object_id(&self) -> (r: Result<ObjectId, Error>)
        ensures
            r == (match *self {
                Value::ObjectReference(id) => Ok::<ObjectId, Error>(id),
                _ => Err(Error::Runtime),
            }),
    {
        match self {
            Value::ObjectReference(id) => Ok(*id),
            _ => Err(Error::Runtime),
        }
    }

    /// The object that the value refers to on the heap of `vm`; `Runtime`
    /// if the value is no reference, `ObjectNotFound` if the heap has no such
    /// object.
    pub fn as_object<'a>(&self, vm: &'a VirtualMachine) -> (r: Result<&'a Object, Error>)
        ensures
            match r {
                Ok(o) => vm@.object_of(*self) == Ok::<ObjectModel, Error>(o@),
                Err(e) => vm@.object_of(*self) == Err::<ObjectModel, Error>(e),
            },
    {
        match self.as_object_id() {
            Ok(id) => vm.get_object(id),
            Err(e) => Err(e),
        }
    }

    /// A copy of the value.
    pub fn duplicate(&self) -> (r: Value)
        ensures
            r == *self,
    {
        match self {
            Value::Num(bits) => Value::Num(*bits),
            Value::Str(s) => Value::Str(s.clone()),
            Value::Bool(b) => Value::Bool(*b),
            Value::ObjectReference(id) => Value::ObjectReference(*id),
            Value::Null => Value::Null,
        }
    }
}

} // verus!
