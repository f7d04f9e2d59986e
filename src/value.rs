//! Engine values as plain data: what a root slot holds.
use crate::error::{JlrsError, JlrsResult};
use vstd::prelude::*;

verus! {

/// The engine type of a value.
#[derive(Clone, Copy, Debug, PartialEq, Eq, Structural)]
pub enum DataType {
    Nothing,
    Bool,
    Char,
    UInt8,
    UInt16,
    UInt32,
    UInt64,
    Int8,
    Int16,
    Int32,
    Int64,
    Float32,
    Float64,
    Object,
}

/// An engine value. Floating-point payloads are kept as their IEEE-754 bit
/// patterns; `Object` refers to an engine-owned object (a function, a task, an
/// exception) by its handle.
#[derive(Clone, Copy, Debug, PartialEq, Eq, Structural)]
pub enum Value {
    Nothing,
    Bool(bool),
    Char(char),
    UInt8(u8),
    UInt16(u16),
    UInt32(u32),
    UInt64(u64),
    Int8(i8),
    Int16(i16),
    Int32(i32),
    Int64(i64),
    Float32(u32),
    Float64(u64),
    Object(u64),
}

impl DataType {
    /// The engine's name of this type.
    pub open spec fn spec_name(self) -> Seq<char> {
        match self {
            DataType::Nothing => "Nothing"@,
            DataType::Bool => "Bool"@,
            DataType::Char => "Char"@,
            DataType::UInt8 => "UInt8"@,
            DataType::UInt16 => "UInt16"@,
            DataType::UInt32 => "UInt32"@,
            DataType::UInt64 => "UInt64"@,
            DataType::Int8 => "Int8"@,
            DataType::Int16 => "Int16"@,
            DataType::Int32 => "Int32"@,
            DataType::Int64 => "Int64"@,
            DataType::Float32 => "Float32"@,
            DataType::Float64 => "Float64"@,
            DataType::Object => "Any"@,
        }
    }

    /// Returns the engine's name of this type.
    pub fn name(&self) -> (r: &'static str)
        ensures
            r@ == self.spec_name(),
    {
        match self {
            DataType::Nothing => "Nothing",
            DataType::Bool => "Bool",
            DataType::Char => "Char",
            DataType::UInt8 => "UInt8",
            DataType::UInt16 => "UInt16",
            DataType::UInt32 => "UInt32",
            DataType::UInt64 => "UInt64",
            DataType::Int8 => "Int8",
            DataType::Int16 => "Int16",
            DataType::Int32 => "Int32",
            DataType::Int64 => "Int64",
            DataType::Float32 => "Float32",
            DataType::Float64 => "Float64",
            DataType::Object => "Any",
        }
    }
}

impl Value {
    /// The type of this value.
    pub open spec fn spec_datatype(self) -> DataType {
        match self {
            Value::Nothing => DataType::Nothing,
            Value::Bool(_) => DataType::Bool,
            Value::Char(_) => DataType::Char,
            Value::UInt8(_) => DataType::UInt8,
            Value::UInt16(_) => DataType::UInt16,
            Value::UInt32(_) => DataType::UInt32,
            Value::UInt64(_) => DataType::UInt64,
            Value::Int8(_) => DataType::Int8,
            Value::Int16(_) => DataType::Int16,
            Value::Int32(_) => DataType::Int32,
            Value::Int64(_) => DataType::Int64,
            Value::Float32(_) => DataType::Float32,
            Value::Float64(_) => DataType::Float64,
            Value::Object(_) => DataType::Object,
        }
    }

    /// The error of reading this value as a `expected`.
    pub open spec fn wrong_type(self, expected: DataType) -> JlrsError {
        JlrsError::WrongType { expected, found: self.spec_datatype() }
    }

    fn mismatch(&self, expected: DataType) -> (r: JlrsError)
        ensures
            r == self.wrong_type(expected),
    {
        JlrsError::WrongType { expected, found: self.datatype() }
    }

    /// The engine's `nothing`.
    pub fn nothing() -> (r: Value)
        ensures
            r == Value::Nothing,
    {
        Value::Nothing
    }

    /// Returns the type of this value.
    pub fn datatype(&self) -> (r: DataType)
        ensures
            r == self.spec_datatype(),
    {
        match self {
            Value::Nothing => DataType::Nothing,
            Value::Bool(_) => DataType::Bool,
            Value::Char(_) => DataType::Char,
            Value::UInt8(_) => DataType::UInt8,
            Value::UInt16(_) => DataType::UInt16,
            Value::UInt32(_) => DataType::UInt32,
            Value::UInt64(_) => DataType::UInt64,
            Value::Int8(_) => DataType::Int8,
            Value::Int16(_) => DataType::Int16,
            Value::Int32(_) => DataType::Int32,
            Value::Int64(_) => DataType::Int64,
            Value::Float32(_) => DataType::Float32,
            Value::Float64(_) => DataType::Float64,
            Value::Object(_) => DataType::Object,
        }
    }

    /// Returns whether this value is of type `ty`.
    pub fn is(&self, ty: DataType) -> (r: bool)
        ensures
            r == (self.spec_datatype() == ty),
    {
        self.datatype() == ty
    }

    /// Returns the name of this value's type.
    pub fn datatype_name(&self) -> (r: &'static str)
        ensures
            r@ == self.spec_datatype().spec_name(),
    {
        self.datatype().name()
    }

    /// Returns the number of fields of this value; primitives have none.
    pub fn n_fields(&self) -> (r: usize)
        ensures
            r == 0,
    {
        0
    }

    /// Reads a `Bool`.
    pub fn unbox_bool(&self) -> (r: JlrsResult<bool>)
        ensures
            match *self {
                Value::Bool(x) => r == Ok::<bool, JlrsError>(x),
                _ => r == Err::<bool, JlrsError>(self.wrong_type(DataType::Bool)),
            },
    {
        match self {
            Value::Bool(x) => Ok(*x),
            _ => Err(self.mismatch(DataType::Bool)),
        }
    }

    /// Reads a `Char`.
    pub fn unbox_char(&self) -> (r: JlrsResult<char>)
        ensures
            match *self {
                Value::Char(x) => r == Ok::<char, JlrsError>(x),
                _ => r == Err::<char, JlrsError>(self.wrong_type(DataType::Char)),
            },
    {
        match self {
            Value::Char(x) => Ok(*x),
            _ => Err(self.mismatch(DataType::Char)),
        }
    }

    /// Reads a `UInt8`.
    pub fn unbox_u8(&self) -> (r: JlrsResult<u8>)
        ensures
            match *self {
                Value::UInt8(x) => r == Ok::<u8, JlrsError>(x),
                _ => r == Err::<u8, JlrsError>(self.wrong_type(DataType::UInt8)),
            },
    {
        match self {
            Value::UInt8(x) => Ok(*x),
            _ => Err(self.mismatch(DataType::UInt8)),
        }
    }

    /// Reads a `UInt16`.
    pub fn unbox_u16(&self) -> (r: JlrsResult<u16>)
        ensures
            match *self {
                Value::UInt16(x) => r == Ok::<u16, JlrsError>(x),
                _ => r == Err::<u16, JlrsError>(self.wrong_type(DataType::UInt16)),
            },
    {
        match self {
            Value::UInt16(x) => Ok(*x),
            _ => Err(self.mismatch(DataType::UInt16)),
        }
    }

    /// Reads a `UInt32`.
    pub fn unbox_u32(&self) -> (r: JlrsResult<u32>)
        ensures
            match *self {
                Value::UInt32(x) => r == Ok::<u32, JlrsError>(x),
                _ => r == Err::<u32, JlrsError>(self.wrong_type(DataType::UInt32)),
            },
    {
        match self {
            Value::UInt32(x) => Ok(*x),
            _ => Err(self.mismatch(DataType::UInt32)),
        }
    }

    /// Reads a `UInt64`.
    pub fn unbox_u64(&self) -> (r: JlrsResult<u64>)
        ensures
            match *self {
                Value::UInt64(x) => r == Ok::<u64, JlrsError>(x),
                _ => r == Err::<u64, JlrsError>(self.wrong_type(DataType::UInt64)),
            },
    {
        match self {
            Value::UInt64(x) => Ok(*x),
            _ => Err(self.mismatch(DataType::UInt64)),
        }
    }

    /// Reads a `UInt64` as a `usize`; one that a `usize` cannot hold is refused.
    pub fn unbox_usize(&self) -> (r: JlrsResult<usize>)
        ensures
            match *self {
                Value::UInt64(x) => if x <= usize::MAX {
                    r == Ok::<usize, JlrsError>(x as usize)
                } else {
                    r == Err::<usize, JlrsError>(self.wrong_type(DataType::UInt64))
                },
                _ => r == Err::<usize, JlrsError>(self.wrong_type(DataType::UInt64)),
            },
    {
        match self {
            Value::UInt64(x) => {
                if *x <= usize::MAX as u64 {
                    Ok(*x as usize)
                } else {
                    Err(self.mismatch(DataType::UInt64))
                }
            },
            _ => Err(self.mismatch(DataType::UInt64)),
        }
    }

    /// Reads an `Int8`.
    pub fn unbox_i8(&self) -> (r: JlrsResult<i8>)
        ensures
            match *self {
                Value::Int8(x) => r == Ok::<i8, JlrsError>(x),
                _ => r == Err::<i8, JlrsError>(self.wrong_type(DataType::Int8)),
            },
    {
        match self {
            Value::Int8(x) => Ok(*x),
            _ => Err(self.mismatch(DataType::Int8)),
        }
    }

    /// Reads an `Int16`.
    pub fn unbox_i16(&self) -> (r: JlrsResult<i16>)
        ensures
            match *self {
                Value::Int16(x) => r == Ok::<i16, JlrsError>(x),
                _ => r == Err::<i16, JlrsError>(self.wrong_type(DataType::Int16)),
            },
    {
        match self {
            Value::Int16(x) => Ok(*x),
            _ => Err(self.mismatch(DataType::Int16)),
        }
    }

    /// Reads an `Int32`.
    pub fn unbox_i32(&self) -> (r: JlrsResult<i32>)
        ensures
            match *self {
                Value::Int32(x) => r == Ok::<i32, JlrsError>(x),
                _ => r == Err::<i32, JlrsError>(self.wrong_type(DataType::Int32)),
            },
    {
        match self {
            Value::Int32(x) => Ok(*x),
            _ => Err(self.mismatch(DataType::Int32)),
        }
    }

    /// Reads an `Int64`.
    pub fn unbox_i64(&self) -> (r: JlrsResult<i64>)
        ensures
            match *self {
                Value::Int64(x) => r == Ok::<i64, JlrsError>(x),
                _ => r == Err::<i64, JlrsError>(self.wrong_type(DataType::Int64)),
            },
    {
        match self {
            Value::Int64(x) => Ok(*x),
            _ => Err(self.mismatch(DataType::Int64)),
        }
    }

    /// Reads an `Int64` as an `isize`; one that an `isize` cannot hold is refused.
    pub fn unbox_isize(&self) -> (r: JlrsResult<isize>)
        ensures
            match *self {
                Value::Int64(x) => if isize::MIN <= x <= isize::MAX {
                    r == Ok::<isize, JlrsError>(x as isize)
                } else {
                    r == Err::<isize, JlrsError>(self.wrong_type(DataType::Int64))
                },
                _ => r == Err::<isize, JlrsError>(self.wrong_type(DataType::Int64)),
            },
    {
        match self {
            Value::Int64(x) => {
                if isize::MIN as i64 <= *x && *x <= isize::MAX as i64 {
                    Ok(*x as isize)
                } else {
                    Err(self.mismatch(DataType::Int64))
                }
            },
            _ => Err(self.mismatch(DataType::Int64)),
        }
    }

    /// Reads the bit pattern of a `Float32`.
    pub fn unbox_f32_bits(&self) -> (r: JlrsResult<u32>)
        ensures
            match *self {
                Value::Float32(x) => r == Ok::<u32, JlrsError>(x),
                _ => r == Err::<u32, JlrsError>(self.wrong_type(DataType::Float32)),
            },
    {
        match self {
            Value::Float32(x) => Ok(*x),
            _ => Err(self.mismatch(DataType::Float32)),
        }
    }

    /// Reads the bit pattern of a `Float64`.
    pub fn unbox_f64_bits(&self) -> (r: JlrsResult<u64>)
        ensures
            match *self {
                Value::Float64(x) => r == Ok::<u64, JlrsError>(x),
                _ => r == Err::<u64, JlrsError>(self.wrong_type(DataType::Float64)),
            },
    {
        match self {
            Value::Float64(x) => Ok(*x),
            _ => Err(self.mismatch(DataType::Float64)),
        }
    }
}

} // verus!
