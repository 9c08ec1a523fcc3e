use vstd::prelude::*;

verus! {

use crate::ir::{CType, PrimitiveType, TypePattern};
use vstd::string::StringExecFns;

/// The C keyword or typedef name denoting a primitive type.
pub open spec fn spec_primitive_name(p: PrimitiveType) -> Seq<char> {
    match p {
        PrimitiveType::Void => "void"@,
        PrimitiveType::Bool => "bool"@,
        PrimitiveType::U8 => "uint8_t"@,
        PrimitiveType::U16 => "uint16_t"@,
        PrimitiveType::U32 => "uint32_t"@,
        PrimitiveType::U64 => "uint64_t"@,
        PrimitiveType::I8 => "int8_t"@,
        PrimitiveType::I16 => "int16_t"@,
        PrimitiveType::I32 => "int32_t"@,
        PrimitiveType::I64 => "int64_t"@,
        PrimitiveType::F32 => "float"@,
        PrimitiveType::F64 => "double"@,
    }
}

/// The token sequence denoting a type at a declaration site: the keyword of
/// a primitive, the canonical name of a named type, the wrapped type's name
/// for a pattern, and the inner specifier followed by `*` for a pointer,
/// with `const` prefixed on a read-only one.
pub open spec fn spec_type_specifier(t: CType) -> Seq<char>
    decreases t,
{
    match t {
        CType::Primitive(p) => spec_primitive_name(p),
        CType::Enum(e) => e.name@,
        CType::Opaque(o) => o.name@,
        CType::Composite(c) => c.name@,
        CType::FnPointer(f) => f.name@,
        CType::ReadPointer(inner) => "const "@ + spec_type_specifier(*inner) + "*"@,
        CType::ReadWritePointer(inner) => spec_type_specifier(*inner) + "*"@,
        CType::Pattern(TypePattern::AsciiPointer) => "const char*"@,
        CType::Pattern(TypePattern::SuccessEnum(e)) => e.name@,
        CType::Pattern(TypePattern::Slice(c)) => c.name@,
        CType::Pattern(TypePattern::Optional(c)) => c.name@,
    }
}

/// The keyword of a primitive type.
pub fn primitive_name(p: &PrimitiveType) -> (r: &'static str)
    ensures
        r@ == spec_primitive_name(*p),
{
    match p {
        PrimitiveType::Void => "void",
        PrimitiveType::Bool => "bool",
        PrimitiveType::U8 => "uint8_t",
        PrimitiveType::U16 => "uint16_t",
        PrimitiveType::U32 => "uint32_t",
        PrimitiveType::U64 => "uint64_t",
        PrimitiveType::I8 => "int8_t",
        PrimitiveType::I16 => "int16_t",
        PrimitiveType::I32 => "int32_t",
        PrimitiveType::I64 => "int64_t",
        PrimitiveType::F32 => "float",
        PrimitiveType::F64 => "double",
    }
}

/// Resolves a type node to its C type specifier.
pub fn type_to_type_specifier(t: &CType) -> (r: String)
    ensures
        r@ == spec_type_specifier(*t),
    decreases *t,
{
    match t {
        CType::Primitive(p) => primitive_name(p).to_owned(),
        CType::Enum(e) => e.name.clone(),
        CType::Opaque(o) => o.name.clone(),
        CType::Composite(c) => c.name.clone(),
        CType::FnPointer(f) => f.name.clone(),
        CType::ReadPointer(inner) => {
            let mut s = "const ".to_owned();
            let i = type_to_type_specifier(&**inner);
            s.append(i.as_str());
            s.append("*");
            s
        },
        CType::ReadWritePointer(inner) => {
            let mut s = type_to_type_specifier(&**inner);
            s.append("*");
            s
        },
        CType::Pattern(TypePattern::AsciiPointer) => "const char*".to_owned(),
        CType::Pattern(TypePattern::SuccessEnum(e)) => e.name.clone(),
        CType::Pattern(TypePattern::Slice(c)) => c.name.clone(),
        CType::Pattern(TypePattern::Optional(c)) => c.name.clone(),
    }
}

} // verus!
