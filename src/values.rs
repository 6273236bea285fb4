use vstd::prelude::*;

verus! {

/// The type tags of the values that cross the adapter boundary.
#[derive(Clone, Copy, Debug, PartialEq, Eq, Structural)]
pub enum InterfaceType {
    I32,
    I64,
    String,
}

/// A value that crosses the adapter boundary: one payload, one tag.
#[derive(Clone, Debug, PartialEq, Eq)]
pub enum InterfaceValue {
    I32(i32),
    I64(i64),
    String(String),
}

/// Raised when a value is narrowed to a type that its tag does not carry.
#[derive(Clone, Copy, Debug, PartialEq, Eq, Structural)]
pub struct ConversionError {
    pub expected: InterfaceType,
}

/// The mathematical content of an `InterfaceValue`.
pub enum AbstractValue {
    I32(i32),
    I64(i64),
    String(Seq<char>),
}

impl AbstractValue {
    /// The type tag of the value.
    pub open spec fn ty(&self) -> InterfaceType {
        match self {
            AbstractValue::I32(_) => InterfaceType::I32,
            AbstractValue::I64(_) => InterfaceType::I64,
            AbstractValue::String(_) => InterfaceType::String,
        }
    }
}

impl View for InterfaceValue {
    type V = AbstractValue;

    open spec fn view(&self) -> AbstractValue {
        match self {
            InterfaceValue::I32(n) => AbstractValue::I32(*n),
            InterfaceValue::I64(n) => AbstractValue::I64(*n),
            InterfaceValue::String(s) => AbstractValue::String(s@),
        }
    }
}

/// The contents of a sequence of values.
pub open spec fn values_view(values: Seq<InterfaceValue>) -> Seq<AbstractValue> {
    values.map_values(|v: InterfaceValue| v@)
}

impl InterfaceValue {
    pub open spec fn spec_ty(&self) -> InterfaceType {
        self@.ty()
    }

    /// The type tag of this value.
    pub fn ty(&self) -> (r: InterfaceType)
        ensures
            r == self.spec_ty(),
    {
        match self {
            InterfaceValue::I32(_) => InterfaceType::I32,
            InterfaceValue::I64(_) => InterfaceType::I64,
            InterfaceValue::String(_) => InterfaceType::String,
        }
    }

    /// A copy of this value, equal to it.
    pub fn duplicate(&self) -> (r: InterfaceValue)
        ensures
            r == *self,
    {
        match self {
            InterfaceValue::I32(n) => InterfaceValue::I32(*n),
            InterfaceValue::I64(n) => InterfaceValue::I64(*n),
            InterfaceValue::String(s) => InterfaceValue::String(s.clone()),
        }
    }

    /// Narrows the value to an `i32`.
    pub fn to_i32(&self) -> (r: Result<i32, ConversionError>)
        ensures
            match self {
                InterfaceValue::I32(n) => r == Ok::<i32, ConversionError>(*n),
                _ => r == Err::<i32, ConversionError>(ConversionError { expected: InterfaceType::I32 }),
            },
    {
        match self {
            InterfaceValue::I32(n) => Ok(*n),
            _ => Err(ConversionError { expected: InterfaceType::I32 }),
        }
    }

    /// Narrows the value to an `i64`.
    pub fn to_i64(&self) -> (r: Result<i64, ConversionError>)
        ensures
            match self {
                InterfaceValue::I64(n) => r == Ok::<i64, ConversionError>(*n),
                _ => r == Err::<i64, ConversionError>(ConversionError { expected: InterfaceType::I64 }),
            },
    {
        match self {
            InterfaceValue::I64(n) => Ok(*n),
            _ => Err(ConversionError { expected: InterfaceType::I64 }),
        }
    }
}

/// The type tags of a sequence of values, in the same order.
pub open spec fn types_of(values: Seq<AbstractValue>) -> Seq<InterfaceType> {
    values.map_values(|v: AbstractValue| v.ty())
}

} // verus!
