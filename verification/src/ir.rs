use vstd::prelude::*;

verus! {

/// The fixed-width primitive types the intermediate representation knows.
#[derive(Clone, Copy, PartialEq, Eq, Structural, Debug)]
pub enum PrimitiveType {
    Void,
    Bool,
    U8,
    U16,
    U32,
    U64,
    I8,
    I16,
    I32,
    I64,
    F32,
    F64,
}

/// One enum variant: a name and its explicit integer value.
pub struct Variant {
    pub name: String,
    pub value: u64,
}

/// An enumeration: named variants with explicit values, order significant.
pub struct EnumType {
    pub name: String,
    pub variants: Vec<Variant>,
}

/// A type whose layout is hidden from the generated header.
pub struct OpaqueType {
    pub name: String,
}

/// One named field of a composite type.
pub struct Field {
    pub name: String,
    pub the_type: CType,
}

/// A struct-like aggregate; its field order fixes the binary layout.
pub struct CompositeType {
    pub name: String,
    pub fields: Vec<Field>,
}

/// A named function-pointer signature; parameters are positional.
pub struct FnPointerType {
    pub name: String,
    pub params: Vec<CType>,
    pub rval: Box<CType>,
}

/// Higher-level wrappers around simpler types.
pub enum TypePattern {
    AsciiPointer,
    SuccessEnum(EnumType),
    Slice(CompositeType),
    Optional(CompositeType),
}

/// A node of the type graph reachable from the library's surface.
pub enum CType {
    Primitive(PrimitiveType),
    Enum(EnumType),
    Opaque(OpaqueType),
    Composite(CompositeType),
    FnPointer(FnPointerType),
    ReadPointer(Box<CType>),
    ReadWritePointer(Box<CType>),
    Pattern(TypePattern),
}

/// The literal value a constant carries.
pub enum ConstantValue {
    Bool(bool),
    U8(u8),
    U16(u16),
    U32(u32),
    U64(u64),
    I8(i8),
    I16(i16),
    I32(i32),
    I64(i64),
}

/// A named compile-time constant; only primitive-typed ones can be rendered.
pub struct Constant {
    pub name: String,
    pub the_type: CType,
    pub value: ConstantValue,
}

/// One named parameter of an exported function.
pub struct Parameter {
    pub name: String,
    pub the_type: CType,
}

/// An exported function: name, parameters, return type, documentation lines.
pub struct Function {
    pub name: String,
    pub params: Vec<Parameter>,
    pub rval: CType,
    pub documentation: Vec<String>,
}

/// The whole input of one generation run: constants, reachable types,
/// and functions, each in the order the library author declared them.
pub struct Library {
    pub constants: Vec<Constant>,
    pub types: Vec<CType>,
    pub functions: Vec<Function>,
}

/// The options that customize one generation run.
pub struct Config {
    pub file_header_comment: String,
    pub imports: bool,
    pub custom_defines: String,
    pub directives: bool,
    pub ifndef: String,
    pub function_attribute: String,
}

/// Why a generation run failed.
#[derive(PartialEq, Eq, Structural, Debug, Clone, Copy)]
pub enum GenError {
    /// A constant's type is not a primitive, so C has no literal for it.
    UnsupportedConstantType,
    /// The output sink rejected a write.
    WriteFailure,
}

/// The canonical name of a type, if it has one. Primitives, pointers and
/// the ASCII-string pattern are anonymous; every other node carries the
/// name under which its declaration is emitted.
pub open spec fn spec_type_name(t: CType) -> Option<Seq<char>> {
    match t {
        CType::Enum(e) => Some(e.name@),
        CType::Opaque(o) => Some(o.name@),
        CType::Composite(c) => Some(c.name@),
        CType::FnPointer(f) => Some(f.name@),
        CType::Pattern(TypePattern::SuccessEnum(e)) => Some(e.name@),
        CType::Pattern(TypePattern::Slice(c)) => Some(c.name@),
        CType::Pattern(TypePattern::Optional(c)) => Some(c.name@),
        _ => None,
    }
}

/// Whether the composite holds, directly by value, a field whose type is
/// the named type `n`. Fields behind a pointer do not count: a forward
/// declaration satisfies them.
pub open spec fn spec_composite_has_dep(c: CompositeType, n: Seq<char>) -> bool {
    exists|k: int|
        0 <= k < c.fields@.len() && spec_type_name(#[trigger] c.fields@[k].the_type) == Some(n)
}

/// Whether the declaration of `t` needs the declaration of the type named
/// `n` to appear earlier. Only by-value containment in a composite (or in
/// a pattern that renders as one) is an ordering edge; function-pointer
/// signatures only mention names, which C resolves without a definition.
pub open spec fn spec_has_dep(t: CType, n: Seq<char>) -> bool {
    match t {
        CType::Composite(c) => spec_composite_has_dep(c, n),
        CType::Pattern(TypePattern::Slice(c)) => spec_composite_has_dep(c, n),
        CType::Pattern(TypePattern::Optional(c)) => spec_composite_has_dep(c, n),
        _ => false,
    }
}

/// Whether some node of `ts` carries the name `n`.
pub open spec fn spec_name_present(ts: Seq<CType>, n: Seq<char>) -> bool {
    exists|j: int| 0 <= j < ts.len() && spec_type_name(#[trigger] ts[j]) == Some(n)
}

/// A type with an ordering edge is always a named one.
pub proof fn lemma_dep_implies_named(t: CType, n: Seq<char>)
    requires
        spec_has_dep(t, n),
    ensures
        spec_type_name(t) is Some,
{
}

/// The name of a type node, shared with the executable sorter.
pub fn type_name_of(t: &CType) -> (r: Option<&String>)
    ensures
        match r {
            Some(s) => spec_type_name(*t) == Some(s@),
            None => spec_type_name(*t) is None,
        },
{
    match t {
        CType::Enum(e) => Some(&e.name),
        CType::Opaque(o) => Some(&o.name),
        CType::Composite(c) => Some(&c.name),
        CType::FnPointer(f) => Some(&f.name),
        CType::Pattern(TypePattern::SuccessEnum(e)) => Some(&e.name),
        CType::Pattern(TypePattern::Slice(c)) => Some(&c.name),
        CType::Pattern(TypePattern::Optional(c)) => Some(&c.name),
        _ => None,
    }
}

} // verus!
