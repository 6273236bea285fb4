use crate::values::{values_view, AbstractValue, InterfaceType, InterfaceValue};
use vstd::prelude::*;

verus! {

// The spec functions of these traits describe what an implementation holds;
// a verified implementation overrides them, and their defaults say nothing.

/// A function exported by a wasm instance. Its contract asks that the
/// function's result depend on its arguments alone.
pub trait Export {
    /// The types of the inputs, in order.
    open spec fn spec_inputs(&self) -> Seq<InterfaceType> {
        arbitrary()
    }

    /// The types of the outputs, in order.
    open spec fn spec_outputs(&self) -> Seq<InterfaceType> {
        arbitrary()
    }

    /// What a call on `arguments` returns; `None` when it fails.
    open spec fn spec_call(&self, arguments: Seq<AbstractValue>) -> Option<Seq<AbstractValue>> {
        arbitrary()
    }

    /// The number of inputs that the function takes.
    fn inputs_cardinality(&self) -> (r: usize)
        ensures
            r == self.spec_inputs().len(),
    ;

    /// The number of outputs that the function returns.
    fn outputs_cardinality(&self) -> (r: usize)
        ensures
            r == self.spec_outputs().len(),
    ;

    /// The types of the inputs, in order.
    fn inputs(&self) -> (r: &[InterfaceType])
        ensures
            r@ == self.spec_inputs(),
    ;

    /// The types of the outputs, in order.
    fn outputs(&self) -> (r: &[InterfaceType])
        ensures
            r@ == self.spec_outputs(),
    ;

    /// Calls the function; its failure is opaque.
    fn call(&self, arguments: &[InterfaceValue]) -> (r: Result<Vec<InterfaceValue>, ()>)
        ensures
            match r {
                Ok(outputs) => self.spec_call(values_view(arguments@)) == Some(values_view(outputs@)),
                Err(_) => self.spec_call(values_view(arguments@)) is None,
            },
    ;
}

/// The linear memory of a wasm instance, read byte by byte.
pub trait Memory {
    /// The bytes of the memory.
    open spec fn spec_bytes(&self) -> Seq<u8> {
        arbitrary()
    }

    /// The number of bytes in the memory.
    fn length(&self) -> (r: usize)
        ensures
            r == self.spec_bytes().len(),
    ;

    /// The byte at `address`.
    fn read_byte(&self, address: usize) -> (r: u8)
        requires
            address < self.spec_bytes().len(),
        ensures
            r == self.spec_bytes()[address as int],
    ;
}

/// A wasm instance: its exports by name and its memories by index.
pub trait Instance<E: Export, M: Memory> {
    /// The export of this name, if any.
    open spec fn spec_export(&self, name: Seq<char>) -> Option<E> {
        arbitrary()
    }

    /// The memory of this index, if any.
    open spec fn spec_memory(&self, index: nat) -> Option<M> {
        arbitrary()
    }

    /// The export of this name, if any.
    fn export(&self, name: &str) -> (r: Option<&E>)
        ensures
            match r {
                Some(e) => self.spec_export(name@) == Some(*e),
                None => self.spec_export(name@) is None,
            },
    ;

    /// The memory of this index, if any; index 0 is the default memory.
    fn memory(&self, index: usize) -> (r: Option<&M>)
        ensures
            match r {
                Some(m) => self.spec_memory(index as nat) == Some(*m),
                None => self.spec_memory(index as nat) is None,
            },
    ;
}

} // verus!
