//! The bridge a custom operator uses inside one invocation: what to ask the
//! engine for its inputs, outputs and attributes, and how to read the
//! engine's replies. The requests are made by the caller; every function
//! here is a decision on plain values.

use crate::error::is_success;
use crate::error::succeeded;
use ort_sys::OrtErrorCode;
use vstd::prelude::*;
use vstd::string::StringSliceAdditionalSpecFns;
use vstd::utf8::encode_utf8;

verus! {

/// A tensor handle that belongs to the engine: the host never frees it.
#[derive(Debug, PartialEq, Eq, Clone, Copy, Structural)]
pub struct Value {
    pub ptr: usize,
}

/// A tensor handle that the host may only read through.
#[derive(Debug, PartialEq, Eq, Clone, Copy, Structural)]
pub struct ValueView {
    pub inner: Value,
}

/// What to hand to the engine to look an attribute up.
pub struct AttributeQuery {
    /// The address of the attribute table.
    pub info: usize,
    /// The attribute's name as UTF-8 bytes, closed by a zero byte.
    pub name: Vec<u8>,
}

/// What to hand to the engine to get an input.
#[derive(Debug, PartialEq, Eq, Clone, Copy, Structural)]
pub struct InputRequest {
    pub context: usize,
    pub index: usize,
}

/// What to hand to the engine to have an output allocated.
pub struct OutputRequest {
    pub context: usize,
    pub index: usize,
    pub shape: Vec<i64>,
}

/// The foreign form of a name: its UTF-8 bytes and a closing zero byte.
pub open spec fn foreign_name(name: Seq<char>) -> Seq<u8> {
    encode_utf8(name).push(0u8)
}

/// Whether a name can be handed to the engine: none of its bytes is zero.
pub open spec fn name_encodable(name: Seq<char>) -> bool {
    forall|i: int| 0 <= i < encode_utf8(name).len() ==> encode_utf8(name)[i] != 0
}

/// What an attribute lookup returns: the value that the engine left, if the
/// name could be handed over and the engine reported success.
pub open spec fn attribute_outcome<T>(name: Seq<char>, status: OrtErrorCode, value: T) -> Option<T> {
    if name_encodable(name) && succeeded(status) {
        Some(value)
    } else {
        None
    }
}

/// A lookup that the engine fails gives nothing, whatever the failure: an
/// absent attribute and one of another type cannot be told apart.
pub proof fn lemma_failed_lookups_look_alike<T>(
    name: Seq<char>,
    first: OrtErrorCode,
    second: OrtErrorCode,
    left_by_first: T,
    left_by_second: T,
)
    requires
        !succeeded(first),
        !succeeded(second),
    ensures
        attribute_outcome(name, first, left_by_first) == None::<T>,
        attribute_outcome(name, first, left_by_first) == attribute_outcome(
            name,
            second,
            left_by_second,
        ),
{
}

/// Encodes a name for the engine, or returns `None` if it holds a zero byte.
pub fn encode_name(name: &str) -> (encoded: Option<Vec<u8>>)
    ensures
        encoded is Some <==> name_encodable(name@),
        encoded matches Some(bytes) ==> bytes@ == foreign_name(name@),
{
    let bytes = name.as_bytes();
    let mut encoded: Vec<u8> = Vec::new();
    let mut i: usize = 0;
    while i < bytes.len()
        invariant
            bytes@ == encode_utf8(name@),
            i <= bytes.len(),
            encoded@ == bytes@.take(i as int),
            forall|j: int| 0 <= j < i ==> bytes@[j] != 0,
        decreases bytes.len() - i,
    {
        let byte: u8 = bytes[i];
        if byte == 0 {
            return None;
        }
        encoded.push(byte);
        assert(encoded@ == bytes@.take(i as int + 1));
        i = i + 1;
    }
    encoded.push(0u8);
    Some(encoded)
}

/// The attribute table of an operator, owned by the engine.
pub struct KernelAttributes {
    info: usize,
}

impl KernelAttributes {
    #[verifier::type_invariant]
    spec fn well_formed(self) -> bool {
        self.info != 0
    }

    /// The address of the table.
    pub closed spec fn addr(self) -> usize {
        self.info
    }

    /// Wraps the table at address `info`.
    pub fn new(info: usize) -> (attributes: Self)
        requires
            info != 0,
        ensures
            attributes.addr() == info,
    {
        KernelAttributes { info }
    }

    /// What to ask the engine for the attribute `name`: nothing, if the name
    /// holds a zero byte.
    pub fn query(&self, name: &str) -> (query: Option<AttributeQuery>)
        ensures
            query is Some <==> name_encodable(name@),
            query matches Some(q) ==> q.info == self.addr() && q.info != 0 && q.name@
                == foreign_name(name@),
    {
        proof {
            use_type_invariant(self);
        }
        match encode_name(name) {
            Some(encoded) => Some(AttributeQuery { info: self.info, name: encoded }),
            None => None,
        }
    }

    /// The attribute `name`, given the engine's reply to its query: the
    /// value it left, or `None` if the name cannot be handed over or the
    /// engine reported any failure.
    pub fn get<T>(&self, name: &str, status: OrtErrorCode, value: T) -> (found: Option<T>)
        ensures
            found == attribute_outcome(name@, status, value),
    {
        match encode_name(name) {
            Some(_) => if is_success(status) {
                Some(value)
            } else {
                None
            },
            None => None,
        }
    }
}

/// The engine's state for one invocation of a kernel, owned by the engine.
pub struct KernelContext {
    ptr: usize,
}

impl KernelContext {
    #[verifier::type_invariant]
    spec fn well_formed(self) -> bool {
        self.ptr != 0
    }

    /// The address of the engine's state.
    pub closed spec fn addr(self) -> usize {
        self.ptr
    }

    /// Wraps the invocation state at address `ctx`.
    pub fn new(ctx: usize) -> (context: Self)
        requires
            ctx != 0,
        ensures
            context.addr() == ctx,
    {
        KernelContext { ptr: ctx }
    }

    /// What to ask the engine for input `idx`.
    pub fn input_request(&self, idx: usize) -> (request: InputRequest)
        ensures
            request == (InputRequest { context: self.addr(), index: idx }),
            request.context != 0,
    {
        proof {
            use_type_invariant(self);
        }
        InputRequest { context: self.ptr, index: idx }
    }

    /// The input, given the engine's reply: a view of the handle it left,
    /// which is not null, or `None` if it reported any failure.
    pub fn input(&self, status: OrtErrorCode, value_ptr: usize) -> (view: Option<ValueView>)
        requires
            succeeded(status) ==> value_ptr != 0,
        ensures
            view == if succeeded(status) {
                Some(ValueView { inner: Value { ptr: value_ptr } })
            } else {
                None
            },
            view matches Some(v) ==> v.inner.ptr != 0,
    {
        if is_success(status) {
            Some(ValueView { inner: Value { ptr: value_ptr } })
        } else {
            None
        }
    }

    /// What to ask the engine to have output `idx` allocated with `shape`.
    pub fn output_request(&mut self, idx: usize, shape: Vec<i64>) -> (request: OutputRequest)
        ensures
            *final(self) == *old(self),
            request.context == old(self).addr(),
            request.context != 0,
            request.index == idx,
            request.shape@ == shape@,
    {
        proof {
            use_type_invariant(&*self);
        }
        OutputRequest { context: self.ptr, index: idx, shape }
    }

    /// The output, given the engine's reply: the handle it left, which is
    /// not null, or `None` if it reported any failure.
    pub fn output(&mut self, status: OrtErrorCode, value_ptr: usize) -> (value: Option<Value>)
        requires
            succeeded(status) ==> value_ptr != 0,
        ensures
            *final(self) == *old(self),
            value == if succeeded(status) {
                Some(Value { ptr: value_ptr })
            } else {
                None
            },
            value matches Some(v) ==> v.ptr != 0,
    {
        if is_success(status) {
            Some(Value { ptr: value_ptr })
        } else {
            None
        }
    }
}

} // verus!
