//! The closed mapping between in-process element types and the native
//! runtime's tensor element-type tags.

use vstd::prelude::*;

verus! {

/// One tag of the native runtime's tensor element-type enumeration.
///
/// The numeric values exchanged across the ABI are given by
/// [`ElementType::to_raw`]; this layer binds buffers only for the integer and
/// boolean variants, but a session schema may report any of them.
#[derive(Clone, Copy, Debug, PartialEq, Eq, Structural)]
pub enum ElementType {
    Undefined,
    Float,
    Uint8,
    Int8,
    Uint16,
    Int16,
    Int32,
    Int64,
    Text,
    Bool,
    Float16,
    Double,
    Uint32,
    Uint64,
    Complex64,
    Complex128,
    Bfloat16,
}

/// The tag value the native ABI uses for each element type.
pub open spec fn spec_element_type_to_raw(t: ElementType) -> u32 {
    match t {
        ElementType::Undefined => 0,
        ElementType::Float => 1,
        ElementType::Uint8 => 2,
        ElementType::Int8 => 3,
        ElementType::Uint16 => 4,
        ElementType::Int16 => 5,
        ElementType::Int32 => 6,
        ElementType::Int64 => 7,
        ElementType::Text => 8,
        ElementType::Bool => 9,
        ElementType::Float16 => 10,
        ElementType::Double => 11,
        ElementType::Uint32 => 12,
        ElementType::Uint64 => 13,
        ElementType::Complex64 => 14,
        ElementType::Complex128 => 15,
        ElementType::Bfloat16 => 16,
    }
}

/// The element type a native tag denotes; tags outside the enumeration map
/// to `Undefined`.
pub open spec fn spec_element_type_from_raw(raw: u32) -> ElementType {
    if raw == 1 {
        ElementType::Float
    } else if raw == 2 {
        ElementType::Uint8
    } else if raw == 3 {
        ElementType::Int8
    } else if raw == 4 {
        ElementType::Uint16
    } else if raw == 5 {
        ElementType::Int16
    } else if raw == 6 {
        ElementType::Int32
    } else if raw == 7 {
        ElementType::Int64
    } else if raw == 8 {
        ElementType::Text
    } else if raw == 9 {
        ElementType::Bool
    } else if raw == 10 {
        ElementType::Float16
    } else if raw == 11 {
        ElementType::Double
    } else if raw == 12 {
        ElementType::Uint32
    } else if raw == 13 {
        ElementType::Uint64
    } else if raw == 14 {
        ElementType::Complex64
    } else if raw == 15 {
        ElementType::Complex128
    } else if raw == 16 {
        ElementType::Bfloat16
    } else {
        ElementType::Undefined
    }
}

/// The width in bytes of one element of each type; types this layer never
/// binds as plain numeric buffers (undefined, text) report zero.
pub open spec fn spec_byte_width(t: ElementType) -> usize {
    match t {
        ElementType::Undefined => 0,
        ElementType::Float => 4,
        ElementType::Uint8 => 1,
        ElementType::Int8 => 1,
        ElementType::Uint16 => 2,
        ElementType::Int16 => 2,
        ElementType::Int32 => 4,
        ElementType::Int64 => 8,
        ElementType::Text => 0,
        ElementType::Bool => 1,
        ElementType::Float16 => 2,
        ElementType::Double => 8,
        ElementType::Uint32 => 4,
        ElementType::Uint64 => 8,
        ElementType::Complex64 => 8,
        ElementType::Complex128 => 16,
        ElementType::Bfloat16 => 2,
    }
}

impl ElementType {
    /// The tag value passed across the native ABI for this element type.
    pub fn to_raw(self) -> (raw: u32)
        ensures
            raw == spec_element_type_to_raw(self),
    {
        match self {
            ElementType::Undefined => 0,
            ElementType::Float => 1,
            ElementType::Uint8 => 2,
            ElementType::Int8 => 3,
            ElementType::Uint16 => 4,
            ElementType::Int16 => 5,
            ElementType::Int32 => 6,
            ElementType::Int64 => 7,
            ElementType::Text => 8,
            ElementType::Bool => 9,
            ElementType::Float16 => 10,
            ElementType::Double => 11,
            ElementType::Uint32 => 12,
            ElementType::Uint64 => 13,
            ElementType::Complex64 => 14,
            ElementType::Complex128 => 15,
            ElementType::Bfloat16 => 16,
        }
    }

    /// The element type a tag reported by the native runtime denotes.
    pub fn from_raw(raw: u32) -> (t: ElementType)
        ensures
            t == spec_element_type_from_raw(raw),
    {
        if raw == 1 {
            ElementType::Float
        } else if raw == 2 {
            ElementType::Uint8
        } else if raw == 3 {
            ElementType::Int8
        } else if raw == 4 {
            ElementType::Uint16
        } else if raw == 5 {
            ElementType::Int16
        } else if raw == 6 {
            ElementType::Int32
        } else if raw == 7 {
            ElementType::Int64
        } else if raw == 8 {
            ElementType::Text
        } else if raw == 9 {
            ElementType::Bool
        } else if raw == 10 {
            ElementType::Float16
        } else if raw == 11 {
            ElementType::Double
        } else if raw == 12 {
            ElementType::Uint32
        } else if raw == 13 {
            ElementType::Uint64
        } else if raw == 14 {
            ElementType::Complex64
        } else if raw == 15 {
            ElementType::Complex128
        } else if raw == 16 {
            ElementType::Bfloat16
        } else {
            ElementType::Undefined
        }
    }

    /// The width in bytes of one element of this type.
    pub fn byte_width(self) -> (n: usize)
        ensures
            n == spec_byte_width(self),
    {
        match self {
            ElementType::Undefined => 0,
            ElementType::Float => 4,
            ElementType::Uint8 => 1,
            ElementType::Int8 => 1,
            ElementType::Uint16 => 2,
            ElementType::Int16 => 2,
            ElementType::Int32 => 4,
            ElementType::Int64 => 8,
            ElementType::Text => 0,
            ElementType::Bool => 1,
            ElementType::Float16 => 2,
            ElementType::Double => 8,
            ElementType::Uint32 => 4,
            ElementType::Uint64 => 8,
            ElementType::Complex64 => 8,
            ElementType::Complex128 => 16,
            ElementType::Bfloat16 => 2,
        }
    }
}

/// The tag round-trips through its raw ABI value: reading back the tag this
/// layer sends always yields the same element type.
pub proof fn lemma_element_type_raw_round_trip(t: ElementType)
    ensures
        spec_element_type_from_raw(spec_element_type_to_raw(t)) == t,
{
}

/// Maps an in-process numeric type (for example `i64`) to the native
/// runtime's element-type tag.  The mapping is closed: only types with an
/// implementation here can be bound as tensor buffers, so an unsupported
/// type is rejected at compile time, never silently truncated.
pub trait TypeToTensorElementDataType: Sized {
    /// The element-type tag for this in-process type.
    spec fn spec_element_type() -> ElementType;

    /// Return the native element-type tag for this in-process type.
    fn tensor_element_data_type() -> (t: ElementType)
        ensures
            t == Self::spec_element_type(),
    ;
}

impl TypeToTensorElementDataType for u8 {
    open spec fn spec_element_type() -> ElementType {
        ElementType::Uint8
    }

    fn tensor_element_data_type() -> ElementType {
        ElementType::Uint8
    }
}

impl TypeToTensorElementDataType for i8 {
    open spec fn spec_element_type() -> ElementType {
        ElementType::Int8
    }

    fn tensor_element_data_type() -> ElementType {
        ElementType::Int8
    }
}

impl TypeToTensorElementDataType for u16 {
    open spec fn spec_element_type() -> ElementType {
        ElementType::Uint16
    }

    fn tensor_element_data_type() -> ElementType {
        ElementType::Uint16
    }
}

impl TypeToTensorElementDataType for i16 {
    open spec fn spec_element_type() -> ElementType {
        ElementType::Int16
    }

    fn tensor_element_data_type() -> ElementType {
        ElementType::Int16
    }
}

impl TypeToTensorElementDataType for u32 {
    open spec fn spec_element_type() -> ElementType {
        ElementType::Uint32
    }

    fn tensor_element_data_type() -> ElementType {
        ElementType::Uint32
    }
}

impl TypeToTensorElementDataType for i32 {
    open spec fn spec_element_type() -> ElementType {
        ElementType::Int32
    }

    fn tensor_element_data_type() -> ElementType {
        ElementType::Int32
    }
}

impl TypeToTensorElementDataType for u64 {
    open spec fn spec_element_type() -> ElementType {
        ElementType::Uint64
    }

    fn tensor_element_data_type() -> ElementType {
        ElementType::Uint64
    }
}

impl TypeToTensorElementDataType for i64 {
    open spec fn spec_element_type() -> ElementType {
        ElementType::Int64
    }

    fn tensor_element_data_type() -> ElementType {
        ElementType::Int64
    }
}

impl TypeToTensorElementDataType for bool {
    open spec fn spec_element_type() -> ElementType {
        ElementType::Bool
    }

    fn tensor_element_data_type() -> ElementType {
        ElementType::Bool
    }
}

} // verus!
