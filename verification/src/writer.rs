use vstd::prelude::*;

verus! {

use crate::ir::{
    CType,
    CompositeType,
    Config,
    Constant,
    ConstantValue,
    EnumType,
    Field,
    FnPointerType,
    Function,
    GenError,
    Library,
    Parameter,
    TypePattern,
    Variant,
};
use crate::num::{
    bool_str,
    i64_dec,
    spec_bool_str,
    spec_dec_int,
    spec_dec_nat,
    u64_dec,
};
use crate::sink::{spec_line, spec_nl, IndentWriter};
use crate::sort::{sort_types_by_dependencies, spec_pick, spec_sort};
use crate::specifier::{
    primitive_name,
    spec_primitive_name,
    spec_type_specifier,
    type_to_type_specifier,
};
use vstd::string::StringExecFns;

/// The rendering of a constant's literal value.
pub open spec fn spec_constant_value(v: ConstantValue) -> Seq<char> {
    match v {
        ConstantValue::Bool(b) => spec_bool_str(b),
        ConstantValue::U8(x) => spec_dec_nat(x as nat),
        ConstantValue::U16(x) => spec_dec_nat(x as nat),
        ConstantValue::U32(x) => spec_dec_nat(x as nat),
        ConstantValue::U64(x) => spec_dec_nat(x as nat),
        ConstantValue::I8(x) => spec_dec_int(x as int),
        ConstantValue::I16(x) => spec_dec_int(x as int),
        ConstantValue::I32(x) => spec_dec_int(x as int),
        ConstantValue::I64(x) => spec_dec_int(x as int),
    }
}

/// The declaration line of a primitive-typed constant; constants of any
/// other type have no C rendering and abort the run instead.
pub open spec fn spec_constant_line(c: Constant) -> Seq<char> {
    match c.the_type {
        CType::Primitive(p) => "const "@ + spec_primitive_name(p) + " "@ + c.name@ + " = "@
            + spec_constant_value(c.value) + ";"@,
        _ => Seq::empty(),
    }
}

/// The constants section: one declaration line per constant, each followed
/// by a separating blank line.
pub open spec fn spec_constants(cs: Seq<Constant>, d: nat) -> Seq<char>
    decreases cs.len(),
{
    if cs.len() == 0 {
        Seq::empty()
    } else {
        spec_constants(cs.drop_last(), d) + spec_line(d, spec_constant_line(cs.last()))
            + spec_nl()
    }
}

/// Every constant carries a primitive type, so the whole run can succeed.
pub open spec fn spec_constants_ok(cs: Seq<Constant>) -> bool {
    forall|i: int| 0 <= i < cs.len() ==> (#[trigger] cs[i]).the_type is Primitive
}

/// The position of the first constant whose type is not primitive, or -1.
pub open spec fn spec_first_bad(cs: Seq<Constant>) -> int
    decreases cs.len(),
{
    if cs.len() == 0 {
        -1
    } else if !(cs.first().the_type is Primitive) {
        0
    } else {
        let r = spec_first_bad(cs.drop_first());
        if r < 0 {
            -1
        } else {
            r + 1
        }
    }
}

proof fn lemma_first_bad_at(cs: Seq<Constant>, i: int)
    requires
        0 <= i <= cs.len(),
        forall|j: int| 0 <= j < i ==> (#[trigger] cs[j]).the_type is Primitive,
        i < cs.len() ==> !(cs[i].the_type is Primitive),
    ensures
        i < cs.len() ==> spec_first_bad(cs) == i,
        i == cs.len() ==> spec_first_bad(cs) == -1,
    decreases i,
{
    if cs.len() == 0 {
    } else if i == 0 {
        if i < cs.len() {
            assert(cs.first() == cs[0]);
        }
    } else {
        let sub = cs.drop_first();
        assert(forall|j: int| 0 <= j < sub.len() ==> sub[j] == cs[j + 1]);
        lemma_first_bad_at(sub, i - 1);
        assert(cs.first() == cs[0]);
    }
}

/// One documentation line as emitted above a declaration.
pub open spec fn spec_doc_line(s: Seq<char>) -> Seq<char> {
    "/// "@ + s
}

/// A block of documentation lines.
pub open spec fn spec_documentation(lines: Seq<String>, d: nat) -> Seq<char>
    decreases lines.len(),
{
    if lines.len() == 0 {
        Seq::empty()
    } else {
        spec_documentation(lines.drop_last(), d) + spec_line(d, spec_doc_line(lines.last()@))
    }
}

/// The rendering of one named function parameter.
pub open spec fn spec_param(p: Parameter) -> Seq<char> {
    spec_type_specifier(p.the_type) + " "@ + p.name@
}

/// The comma-joined parameter list of a function prototype.
pub open spec fn spec_fn_params(ps: Seq<Parameter>) -> Seq<char>
    decreases ps.len(),
{
    if ps.len() == 0 {
        Seq::empty()
    } else if ps.len() == 1 {
        spec_param(ps[0])
    } else {
        spec_fn_params(ps.drop_last()) + ","@ + spec_param(ps.last())
    }
}

/// One function prototype line: the configured attribute prefix, return
/// type, name, and the parameter list.
pub open spec fn spec_function_line(f: Function, cfg: Config) -> Seq<char> {
    cfg.function_attribute@ + spec_type_specifier(f.rval) + " "@ + f.name@ + "("@ + spec_fn_params(
        f.params@,
    ) + ");"@
}

/// The function section: one prototype per function, in declared order.
pub open spec fn spec_functions(fs: Seq<Function>, cfg: Config, d: nat) -> Seq<char>
    decreases fs.len(),
{
    if fs.len() == 0 {
        Seq::empty()
    } else {
        spec_functions(fs.drop_last(), cfg, d) + spec_line(d, spec_function_line(fs.last(), cfg))
    }
}

/// One enum variant line: name, explicit value, trailing comma.
pub open spec fn spec_variant_line(v: Variant) -> Seq<char> {
    v.name@ + " = "@ + spec_dec_nat(v.value as nat) + ","@
}

/// The variant lines of an enum, in declared order.
pub open spec fn spec_variants(vs: Seq<Variant>, d: nat) -> Seq<char>
    decreases vs.len(),
{
    if vs.len() == 0 {
        Seq::empty()
    } else {
        spec_variants(vs.drop_last(), d) + spec_line(d, spec_variant_line(vs.last()))
    }
}

/// A full enum definition.
pub open spec fn spec_enum_definition(e: EnumType, d: nat) -> Seq<char> {
    spec_line(d, "typedef enum "@ + e.name@) + spec_line(d + 1, "{"@) + spec_variants(
        e.variants@,
        d + 1,
    ) + spec_line(d + 1, "} "@ + e.name@ + ";"@)
}

/// A forward declaration, as used for opaque and for empty composite
/// types: the consumer sees an incomplete struct either way.
pub open spec fn spec_opaque_definition(name: Seq<char>, d: nat) -> Seq<char> {
    spec_line(d, "typedef struct "@ + name + " "@ + name + ";"@)
}

/// One composite field line.
pub open spec fn spec_field_line(f: Field) -> Seq<char> {
    spec_type_specifier(f.the_type) + " "@ + f.name@ + ";"@
}

/// The field lines of a composite, in declared order.
pub open spec fn spec_fields(fs: Seq<Field>, d: nat) -> Seq<char>
    decreases fs.len(),
{
    if fs.len() == 0 {
        Seq::empty()
    } else {
        spec_fields(fs.drop_last(), d) + spec_line(d, spec_field_line(fs.last()))
    }
}

/// A full composite definition; with no fields it degrades to the forward
/// declaration, since C forbids empty aggregates.
pub open spec fn spec_composite_definition(c: CompositeType, d: nat) -> Seq<char> {
    if c.fields@.len() == 0 {
        spec_opaque_definition(c.name@, d)
    } else {
        spec_line(d, "typedef struct "@ + c.name@) + spec_line(d + 1, "{"@) + spec_fields(
            c.fields@,
            d + 1,
        ) + spec_line(d + 1, "} "@ + c.name@ + ";"@)
    }
}

/// One positional parameter of a function-pointer typedef.
pub open spec fn spec_fnptr_param(t: CType, i: int) -> Seq<char> {
    spec_type_specifier(t) + " x"@ + spec_dec_nat(i as nat)
}

/// The comma-joined, positionally named parameter list of a
/// function-pointer typedef.
pub open spec fn spec_fnptr_params(ps: Seq<CType>) -> Seq<char>
    decreases ps.len(),
{
    if ps.len() == 0 {
        Seq::empty()
    } else if ps.len() == 1 {
        spec_fnptr_param(ps[0], 0)
    } else {
        spec_fnptr_params(ps.drop_last()) + ","@ + spec_fnptr_param(ps.last(), ps.len() - 1)
    }
}

/// A full function-pointer typedef line.
pub open spec fn spec_fnptr_definition(f: FnPointerType, d: nat) -> Seq<char> {
    spec_line(
        d,
        "typedef "@ + spec_type_specifier(*f.rval) + " (*"@ + f.name@ + ")("@ + spec_fnptr_params(
            f.params@,
        ) + ");"@,
    )
}

/// What one type node contributes to the type-definition section: enums,
/// composites, opaques and function pointers emit their definition and a
/// separating blank line; primitives, pointers and the ASCII-string
/// pattern are structurally transparent and emit nothing; the remaining
/// patterns delegate to the wrapped enum or composite.
pub open spec fn spec_type_definition(t: CType, d: nat) -> Seq<char> {
    match t {
        CType::Primitive(_) => Seq::empty(),
        CType::Enum(e) => spec_enum_definition(e, d) + spec_nl(),
        CType::Opaque(o) => spec_opaque_definition(o.name@, d) + spec_nl(),
        CType::Composite(c) => spec_composite_definition(c, d) + spec_nl(),
        CType::FnPointer(f) => spec_fnptr_definition(f, d) + spec_nl(),
        CType::ReadPointer(_) => Seq::empty(),
        CType::ReadWritePointer(_) => Seq::empty(),
        CType::Pattern(TypePattern::AsciiPointer) => Seq::empty(),
        CType::Pattern(TypePattern::SuccessEnum(e)) => spec_enum_definition(e, d) + spec_nl(),
        CType::Pattern(TypePattern::Slice(c)) => spec_composite_definition(c, d) + spec_nl(),
        CType::Pattern(TypePattern::Optional(c)) => spec_composite_definition(c, d) + spec_nl(),
    }
}

/// The type-definition section over an already ordered type list.
pub open spec fn spec_type_definitions(ts: Seq<CType>, d: nat) -> Seq<char>
    decreases ts.len(),
{
    if ts.len() == 0 {
        Seq::empty()
    } else {
        spec_type_definitions(ts.drop_last(), d) + spec_type_definition(ts.last(), d)
    }
}

/// The two standard imports the generated header needs for its
/// fixed-width integer and boolean typedefs.
pub open spec fn spec_imports(d: nat) -> Seq<char> {
    spec_line(d, "#inc"@ + "lude <stdint.h>"@) + spec_line(d, "#inc"@ + "lude <stdbool.h>"@)
}

/// The opening of the header guard, when directives are on.
pub open spec fn spec_guard_open(cfg: Config, d: nat) -> Seq<char> {
    if cfg.directives {
        spec_line(d, "#ifndef "@ + cfg.ifndef@) + spec_line(d, "#define "@ + cfg.ifndef@)
            + spec_nl()
    } else {
        Seq::empty()
    }
}

/// The closing of the header guard, when directives are on.
pub open spec fn spec_guard_close(cfg: Config, d: nat) -> Seq<char> {
    if cfg.directives {
        spec_nl() + spec_line(d, "#endif /* "@ + cfg.ifndef@ + " */"@)
    } else {
        Seq::empty()
    }
}

/// The opening of the C++ linkage wrapper, when directives are on.
pub open spec fn spec_cpp_open(cfg: Config, d: nat) -> Seq<char> {
    if cfg.directives {
        spec_line(d, "#ifdef __cplusplus"@) + spec_line(d, "ext"@ + "ern \"C\" {"@) + spec_line(
            d,
            "#endif"@,
        ) + spec_nl()
    } else {
        Seq::empty()
    }
}

/// The closing of the C++ linkage wrapper, when directives are on.
pub open spec fn spec_cpp_close(cfg: Config, d: nat) -> Seq<char> {
    if cfg.directives {
        spec_nl() + spec_line(d, "#ifdef __cplusplus"@) + spec_line(d, "}"@) + spec_line(
            d,
            "#endif"@,
        )
    } else {
        Seq::empty()
    }
}

/// The start of the header body: the imports when enabled, then the
/// custom define block.
pub open spec fn spec_body_prefix(cfg: Config, d: nat) -> Seq<char> {
    (if cfg.imports {
        spec_imports(d) + spec_nl()
    } else {
        Seq::empty()
    }) + spec_line(d, cfg.custom_defines@) + spec_nl()
}

/// Everything emitted before the constants section: file header comment,
/// guard and wrapper openings, the imports when enabled, and the custom
/// define block.
pub open spec fn spec_preamble(cfg: Config, d: nat) -> Seq<char> {
    spec_line(d, cfg.file_header_comment@) + spec_nl() + spec_guard_open(cfg, d) + spec_cpp_open(
        cfg,
        d,
    ) + spec_body_prefix(cfg, d)
}

/// The complete header a successful run emits.
pub open spec fn spec_header(lib: Library, cfg: Config, d: nat) -> Seq<char> {
    spec_preamble(cfg, d) + spec_constants(lib.constants@, d) + spec_nl() + spec_type_definitions(
        spec_sort(lib.types@),
        d,
    ) + spec_nl() + spec_functions(lib.functions@, cfg, d) + spec_cpp_close(cfg, d)
        + spec_guard_close(cfg, d)
}

/// What a failing run leaves in the sink: the preamble and the constants
/// that precede the first unsupported one — no type and no function output
/// follows the failure point.
pub open spec fn spec_failed_output(lib: Library, cfg: Config, d: nat) -> Seq<char> {
    spec_preamble(cfg, d) + spec_constants(lib.constants@.take(spec_first_bad(lib.constants@)), d)
}

/// Emits the configured file header comment block.
pub fn write_file_header_comments(w: &mut IndentWriter, cfg: &Config)
    ensures
        final(w).out() == old(w).out() + spec_line(old(w).depth(), cfg.file_header_comment@),
        final(w).depth() == old(w).depth(),
{
    w.indented(cfg.file_header_comment.as_str());
}

/// Emits the two standard imports.
pub fn write_imports(w: &mut IndentWriter)
    ensures
        final(w).out() == old(w).out() + spec_imports(old(w).depth()),
        final(w).depth() == old(w).depth(),
{
    let mut line1 = "#inc".to_owned();
    line1.append("lude <stdint.h>");
    w.indented(line1.as_str());
    let mut line2 = "#inc".to_owned();
    line2.append("lude <stdbool.h>");
    w.indented(line2.as_str());
    proof {
        assert(final(w).out() =~= old(w).out() + spec_imports(old(w).depth()));
    }
}

/// Emits the custom define block verbatim.
pub fn write_custom_defines(w: &mut IndentWriter, cfg: &Config)
    ensures
        final(w).out() == old(w).out() + spec_line(old(w).depth(), cfg.custom_defines@),
        final(w).depth() == old(w).depth(),
{
    w.indented(cfg.custom_defines.as_str());
}

fn render_constant_value(v: &ConstantValue) -> (s: String)
    ensures
        s@ == spec_constant_value(*v),
{
    match v {
        ConstantValue::Bool(b) => bool_str(*b).to_owned(),
        ConstantValue::U8(x) => u64_dec(*x as u64),
        ConstantValue::U16(x) => u64_dec(*x as u64),
        ConstantValue::U32(x) => u64_dec(*x as u64),
        ConstantValue::U64(x) => u64_dec(*x),
        ConstantValue::I8(x) => i64_dec(*x as i64),
        ConstantValue::I16(x) => i64_dec(*x as i64),
        ConstantValue::I32(x) => i64_dec(*x as i64),
        ConstantValue::I64(x) => i64_dec(*x),
    }
}

/// Emits one constant declaration; a constant whose type is not a
/// primitive is a hard failure and leaves the sink untouched.
pub fn write_constant(w: &mut IndentWriter, c: &Constant) -> (r: Result<(), GenError>)
    ensures
        c.the_type is Primitive ==> r is Ok && final(w).out() == old(w).out() + spec_line(
            old(w).depth(),
            spec_constant_line(*c),
        ),
        !(c.the_type is Primitive) ==> r == Err::<(), GenError>(GenError::UnsupportedConstantType)
            && final(w).out() == old(w).out(),
        final(w).depth() == old(w).depth(),
{
    match &c.the_type {
        CType::Primitive(p) => {
            let mut line = "const ".to_owned();
            line.append(primitive_name(p));
            line.append(" ");
            line.append(c.name.as_str());
            line.append(" = ");
            let value = render_constant_value(&c.value);
            line.append(value.as_str());
            line.append(";");
            w.indented(line.as_str());
            Ok(())
        },
        _ => Err(GenError::UnsupportedConstantType),
    }
}

/// Emits the constants section, each declaration followed by a blank
/// line; stops at the first constant that C cannot express.
pub fn write_constants(w: &mut IndentWriter, lib: &Library) -> (r: Result<(), GenError>)
    ensures
        spec_constants_ok(lib.constants@) ==> r is Ok && final(w).out() == old(w).out()
            + spec_constants(lib.constants@, old(w).depth()),
        !spec_constants_ok(lib.constants@) ==> r == Err::<(), GenError>(
            GenError::UnsupportedConstantType,
        ) && final(w).out() == old(w).out() + spec_constants(
            lib.constants@.take(spec_first_bad(lib.constants@)),
            old(w).depth(),
        ),
        final(w).depth() == old(w).depth(),
{
    let ghost cs = lib.constants@;
    let ghost d = old(w).depth();
    let ghost base = old(w).out();
    let mut i: usize = 0;
    while i < lib.constants.len()
        invariant
            i <= cs.len(),
            cs == lib.constants@,
            base == old(w).out(),
            d == old(w).depth(),
            forall|j: int| 0 <= j < i ==> (#[trigger] cs[j]).the_type is Primitive,
            w.out() == base + spec_constants(cs.take(i as int), d),
            w.depth() == d,
        decreases cs.len() - i,
    {
        let c = &lib.constants[i];
        match write_constant(w, c) {
            Ok(()) => {},
            Err(e) => {
                proof {
                    lemma_first_bad_at(cs, i as int);
                    assert(!spec_constants_ok(cs));
                }
                return Err(e);
            },
        }
        w.newline();
        proof {
            assert(cs.take(i + 1).drop_last() =~= cs.take(i as int));
            assert(cs.take(i + 1).last() == cs[i as int]);
            assert(w.out() =~= base + spec_constants(cs.take(i + 1), d));
        }
        i = i + 1;
    }
    proof {
        assert(cs.take(cs.len() as int) =~= cs);
    }
    Ok(())
}

/// Emits a block of documentation lines.
pub fn write_documentation(w: &mut IndentWriter, lines: &Vec<String>)
    ensures
        final(w).out() == old(w).out() + spec_documentation(lines@, old(w).depth()),
        final(w).depth() == old(w).depth(),
{
    let ghost d = old(w).depth();
    let ghost base = old(w).out();
    let mut i: usize = 0;
    while i < lines.len()
        invariant
            i <= lines@.len(),
            w.out() == base + spec_documentation(lines@.take(i as int), d),
            w.depth() == d,
        decreases lines@.len() - i,
    {
        let mut line = "/// ".to_owned();
        line.append(lines[i].as_str());
        w.indented(line.as_str());
        proof {
            assert(lines@.take(i + 1).drop_last() =~= lines@.take(i as int));
            assert(lines@.take(i + 1).last() == lines@[i as int]);
            assert(w.out() =~= base + spec_documentation(lines@.take(i + 1), d));
        }
        i = i + 1;
    }
    proof {
        assert(lines@.take(lines@.len() as int) =~= lines@);
    }
}

/// Emits one function prototype.
pub fn write_function_declaration(w: &mut IndentWriter, f: &Function, cfg: &Config)
    ensures
        final(w).out() == old(w).out() + spec_line(old(w).depth(), spec_function_line(*f, *cfg)),
        final(w).depth() == old(w).depth(),
{
    let ghost ps = f.params@;
    let mut params = String::new();
    let mut i: usize = 0;
    while i < f.params.len()
        invariant
            i <= ps.len(),
            ps == f.params@,
            params@ == spec_fn_params(ps.take(i as int)),
        decreases ps.len() - i,
    {
        if i > 0 {
            params.append(",");
        }
        let p = &f.params[i];
        let ty = type_to_type_specifier(&p.the_type);
        params.append(ty.as_str());
        params.append(" ");
        params.append(p.name.as_str());
        proof {
            assert(ps.take(i + 1).drop_last() =~= ps.take(i as int));
            assert(ps.take(i + 1).last() == ps[i as int]);
            assert(params@ =~= spec_fn_params(ps.take(i + 1)));
        }
        i = i + 1;
    }
    proof {
        assert(ps.take(ps.len() as int) =~= ps);
    }
    let mut line = String::new();
    line.append(cfg.function_attribute.as_str());
    let rv = type_to_type_specifier(&f.rval);
    line.append(rv.as_str());
    line.append(" ");
    line.append(f.name.as_str());
    line.append("(");
    line.append(params.as_str());
    line.append(");");
    proof {
        assert(line@ =~= spec_function_line(*f, *cfg));
    }
    w.indented(line.as_str());
}

/// Emits one function, currently its bare prototype.
pub fn write_function(w: &mut IndentWriter, f: &Function, cfg: &Config)
    ensures
        final(w).out() == old(w).out() + spec_line(old(w).depth(), spec_function_line(*f, *cfg)),
        final(w).depth() == old(w).depth(),
{
    write_function_declaration(w, f, cfg);
}

/// Emits the function section, one prototype per function in declared
/// order.
pub fn write_functions(w: &mut IndentWriter, lib: &Library, cfg: &Config)
    ensures
        final(w).out() == old(w).out() + spec_functions(lib.functions@, *cfg, old(w).depth()),
        final(w).depth() == old(w).depth(),
{
    let ghost fs = lib.functions@;
    let ghost d = old(w).depth();
    let ghost base = old(w).out();
    let mut i: usize = 0;
    while i < lib.functions.len()
        invariant
            i <= fs.len(),
            fs == lib.functions@,
            w.out() == base + spec_functions(fs.take(i as int), *cfg, d),
            w.depth() == d,
        decreases fs.len() - i,
    {
        write_function(w, &lib.functions[i], cfg);
        proof {
            assert(fs.take(i + 1).drop_last() =~= fs.take(i as int));
            assert(fs.take(i + 1).last() == fs[i as int]);
            assert(w.out() =~= base + spec_functions(fs.take(i + 1), *cfg, d));
        }
        i = i + 1;
    }
    proof {
        assert(fs.take(fs.len() as int) =~= fs);
    }
}

/// Emits one enum variant line.
pub fn write_type_definition_enum_variant(w: &mut IndentWriter, v: &Variant)
    ensures
        final(w).out() == old(w).out() + spec_line(old(w).depth(), spec_variant_line(*v)),
        final(w).depth() == old(w).depth(),
{
    let mut line = String::new();
    line.append(v.name.as_str());
    line.append(" = ");
    let value = u64_dec(v.value);
    line.append(value.as_str());
    line.append(",");
    proof {
        assert(line@ =~= spec_variant_line(*v));
    }
    w.indented(line.as_str());
}

/// Emits a full enum definition: variants keep their declared order and
/// their exact values, duplicates as well.
pub fn write_type_definition_enum(w: &mut IndentWriter, e: &EnumType)
    requires
        old(w).depth() < usize::MAX,
    ensures
        final(w).out() == old(w).out() + spec_enum_definition(*e, old(w).depth()),
        final(w).depth() == old(w).depth(),
{
    let ghost d = old(w).depth();
    let ghost base = old(w).out();
    let ghost vs = e.variants@;
    let mut head = "typedef enum ".to_owned();
    head.append(e.name.as_str());
    w.indented(head.as_str());
    w.indented_extra("{");
    w.indent();
    let ghost opened = w.out();
    let mut i: usize = 0;
    while i < e.variants.len()
        invariant
            i <= vs.len(),
            vs == e.variants@,
            opened == base + spec_line(d, "typedef enum "@ + e.name@) + spec_line(d + 1, "{"@),
            w.out() == opened + spec_variants(vs.take(i as int), d + 1),
            w.depth() == d + 1,
        decreases vs.len() - i,
    {
        write_type_definition_enum_variant(w, &e.variants[i]);
        proof {
            assert(vs.take(i + 1).drop_last() =~= vs.take(i as int));
            assert(vs.take(i + 1).last() == vs[i as int]);
            assert(w.out() =~= opened + spec_variants(vs.take(i + 1), d + 1));
        }
        i = i + 1;
    }
    proof {
        assert(vs.take(vs.len() as int) =~= vs);
    }
    w.unindent();
    let mut close = "} ".to_owned();
    close.append(e.name.as_str());
    close.append(";");
    w.indented_extra(close.as_str());
    proof {
        assert(final(w).out() =~= base + spec_enum_definition(*e, d));
    }
}

fn write_forward_declaration(w: &mut IndentWriter, name: &String)
    ensures
        final(w).out() == old(w).out() + spec_opaque_definition(name@, old(w).depth()),
        final(w).depth() == old(w).depth(),
{
    let mut line = "typedef struct ".to_owned();
    line.append(name.as_str());
    line.append(" ");
    line.append(name.as_str());
    line.append(";");
    proof {
        assert(line@ =~= "typedef struct "@ + name@ + " "@ + name@ + ";"@);
    }
    w.indented(line.as_str());
}

/// Emits an opaque type's declaration.
pub fn write_type_definition_opaque(w: &mut IndentWriter, o: &crate::ir::OpaqueType)
    ensures
        final(w).out() == old(w).out() + spec_opaque_definition(o.name@, old(w).depth()),
        final(w).depth() == old(w).depth(),
{
    write_type_definition_opaque_body(w, o);
}

/// Emits the forward declaration an opaque type consists of.
pub fn write_type_definition_opaque_body(w: &mut IndentWriter, o: &crate::ir::OpaqueType)
    ensures
        final(w).out() == old(w).out() + spec_opaque_definition(o.name@, old(w).depth()),
        final(w).depth() == old(w).depth(),
{
    write_forward_declaration(w, &o.name);
}

/// Emits one composite field line.
pub fn write_type_definition_composite_body_field(w: &mut IndentWriter, f: &Field)
    ensures
        final(w).out() == old(w).out() + spec_line(old(w).depth(), spec_field_line(*f)),
        final(w).depth() == old(w).depth(),
{
    let ty = type_to_type_specifier(&f.the_type);
    let mut line = String::new();
    line.append(ty.as_str());
    line.append(" ");
    line.append(f.name.as_str());
    line.append(";");
    proof {
        assert(line@ =~= spec_field_line(*f));
    }
    w.indented(line.as_str());
}

/// Emits the body of a nonempty composite definition.
pub fn write_type_definition_composite_body(w: &mut IndentWriter, c: &CompositeType)
    requires
        old(w).depth() < usize::MAX,
        c.fields@.len() > 0,
    ensures
        final(w).out() == old(w).out() + spec_composite_definition(*c, old(w).depth()),
        final(w).depth() == old(w).depth(),
{
    let ghost d = old(w).depth();
    let ghost base = old(w).out();
    let ghost fs = c.fields@;
    let mut head = "typedef struct ".to_owned();
    head.append(c.name.as_str());
    w.indented(head.as_str());
    w.indented_extra("{");
    w.indent();
    let ghost opened = w.out();
    let mut i: usize = 0;
    while i < c.fields.len()
        invariant
            i <= fs.len(),
            fs == c.fields@,
            opened == base + spec_line(d, "typedef struct "@ + c.name@) + spec_line(d + 1, "{"@),
            w.out() == opened + spec_fields(fs.take(i as int), d + 1),
            w.depth() == d + 1,
        decreases fs.len() - i,
    {
        write_type_definition_composite_body_field(w, &c.fields[i]);
        proof {
            assert(fs.take(i + 1).drop_last() =~= fs.take(i as int));
            assert(fs.take(i + 1).last() == fs[i as int]);
            assert(w.out() =~= opened + spec_fields(fs.take(i + 1), d + 1));
        }
        i = i + 1;
    }
    proof {
        assert(fs.take(fs.len() as int) =~= fs);
    }
    w.unindent();
    let mut close = "} ".to_owned();
    close.append(c.name.as_str());
    close.append(";");
    w.indented_extra(close.as_str());
    proof {
        assert(final(w).out() =~= base + spec_composite_definition(*c, d));
    }
}

/// Emits a composite definition; one with no fields degrades to the same
/// forward declaration an opaque type gets, since C forbids empty
/// aggregates.
pub fn write_type_definition_composite(w: &mut IndentWriter, c: &CompositeType)
    requires
        old(w).depth() < usize::MAX,
    ensures
        final(w).out() == old(w).out() + spec_composite_definition(*c, old(w).depth()),
        final(w).depth() == old(w).depth(),
{
    if c.fields.len() == 0 {
        write_forward_declaration(w, &c.name);
    } else {
        write_type_definition_composite_body(w, c);
    }
}

/// Emits a function-pointer typedef.
pub fn write_type_definition_fn_pointer(w: &mut IndentWriter, f: &FnPointerType)
    ensures
        final(w).out() == old(w).out() + spec_fnptr_definition(*f, old(w).depth()),
        final(w).depth() == old(w).depth(),
{
    write_type_definition_fn_pointer_body(w, f);
}

/// Emits the typedef line of a function pointer, with positionally named
/// parameters.
pub fn write_type_definition_fn_pointer_body(w: &mut IndentWriter, f: &FnPointerType)
    ensures
        final(w).out() == old(w).out() + spec_fnptr_definition(*f, old(w).depth()),
        final(w).depth() == old(w).depth(),
{
    let ghost ps = f.params@;
    let mut params = String::new();
    let mut i: usize = 0;
    while i < f.params.len()
        invariant
            i <= ps.len(),
            ps == f.params@,
            params@ == spec_fnptr_params(ps.take(i as int)),
        decreases ps.len() - i,
    {
        if i > 0 {
            params.append(",");
        }
        let ty = type_to_type_specifier(&f.params[i]);
        params.append(ty.as_str());
        params.append(" x");
        let pos = u64_dec(i as u64);
        params.append(pos.as_str());
        proof {
            assert(ps.take(i + 1).drop_last() =~= ps.take(i as int));
            assert(ps.take(i + 1).last() == ps[i as int]);
            assert(params@ =~= spec_fnptr_params(ps.take(i + 1)));
        }
        i = i + 1;
    }
    proof {
        assert(ps.take(ps.len() as int) =~= ps);
    }
    let mut line = "typedef ".to_owned();
    let rv = type_to_type_specifier(&f.rval);
    line.append(rv.as_str());
    line.append(" (*");
    line.append(f.name.as_str());
    line.append(")(");
    line.append(params.as_str());
    line.append(");");
    proof {
        assert(line@ =~= "typedef "@ + spec_type_specifier(*f.rval) + " (*"@ + f.name@ + ")("@
            + spec_fnptr_params(f.params@) + ");"@);
    }
    w.indented(line.as_str());
}

/// Emits whatever one type node contributes to the type-definition
/// section, followed by a separating blank line where a definition was
/// emitted.
pub fn write_type_definition(w: &mut IndentWriter, t: &CType)
    requires
        old(w).depth() < usize::MAX,
    ensures
        final(w).out() == old(w).out() + spec_type_definition(*t, old(w).depth()),
        final(w).depth() == old(w).depth(),
{
    match t {
        CType::Primitive(_) => {
            proof {
                assert(final(w).out() =~= old(w).out() + spec_type_definition(*t, old(w).depth()));
            }
        },
        CType::Enum(e) => {
            write_type_definition_enum(w, e);
            w.newline();
            proof {
                assert(final(w).out() =~= old(w).out() + spec_type_definition(*t, old(w).depth()));
            }
        },
        CType::Opaque(o) => {
            write_type_definition_opaque(w, o);
            w.newline();
            proof {
                assert(final(w).out() =~= old(w).out() + spec_type_definition(*t, old(w).depth()));
            }
        },
        CType::Composite(c) => {
            write_type_definition_composite(w, c);
            w.newline();
            proof {
                assert(final(w).out() =~= old(w).out() + spec_type_definition(*t, old(w).depth()));
            }
        },
        CType::FnPointer(f) => {
            write_type_definition_fn_pointer(w, f);
            w.newline();
            proof {
                assert(final(w).out() =~= old(w).out() + spec_type_definition(*t, old(w).depth()));
            }
        },
        CType::ReadPointer(_) => {
            proof {
                assert(final(w).out() =~= old(w).out() + spec_type_definition(*t, old(w).depth()));
            }
        },
        CType::ReadWritePointer(_) => {
            proof {
                assert(final(w).out() =~= old(w).out() + spec_type_definition(*t, old(w).depth()));
            }
        },
        CType::Pattern(TypePattern::AsciiPointer) => {
            proof {
                assert(final(w).out() =~= old(w).out() + spec_type_definition(*t, old(w).depth()));
            }
        },
        CType::Pattern(TypePattern::SuccessEnum(e)) => {
            write_type_definition_enum(w, e);
            w.newline();
            proof {
                assert(final(w).out() =~= old(w).out() + spec_type_definition(*t, old(w).depth()));
            }
        },
        CType::Pattern(TypePattern::Slice(c)) => {
            write_type_definition_composite(w, c);
            w.newline();
            proof {
                assert(final(w).out() =~= old(w).out() + spec_type_definition(*t, old(w).depth()));
            }
        },
        CType::Pattern(TypePattern::Optional(c)) => {
            write_type_definition_composite(w, c);
            w.newline();
            proof {
                assert(final(w).out() =~= old(w).out() + spec_type_definition(*t, old(w).depth()));
            }
        },
    }
}

/// Emits the type-definition section: every reachable type once, ordered
/// so that each type another type holds by value comes first.
pub fn write_type_definitions(w: &mut IndentWriter, lib: &Library)
    requires
        old(w).depth() < usize::MAX,
    ensures
        final(w).out() == old(w).out() + spec_type_definitions(
            spec_sort(lib.types@),
            old(w).depth(),
        ),
        final(w).depth() == old(w).depth(),
{
    let ghost d = old(w).depth();
    let ghost base = old(w).out();
    let order = sort_types_by_dependencies(&lib.types);
    let ghost sorted = spec_sort(lib.types@);
    let mut j: usize = 0;
    while j < order.len()
        invariant
            j <= order@.len(),
            crate::sort::spec_idx_in_range(lib.types@, order@),
            spec_pick(lib.types@, order@) == sorted,
            sorted == spec_sort(lib.types@),
            sorted.len() == order@.len(),
            base == old(w).out(),
            d == old(w).depth(),
            d < usize::MAX,
            w.out() == base + spec_type_definitions(sorted.take(j as int), d),
            w.depth() == d,
        decreases order@.len() - j,
    {
        let pos = order[j];
        assert(lib.types@[pos as int] == sorted[j as int]);
        write_type_definition(w, &lib.types[pos]);
        proof {
            assert(sorted.take(j + 1).drop_last() =~= sorted.take(j as int));
            assert(sorted.take(j + 1).last() == sorted[j as int]);
            assert(w.out() =~= base + spec_type_definitions(sorted.take(j + 1), d));
        }
        j = j + 1;
    }
    proof {
        assert(sorted.take(sorted.len() as int) =~= sorted);
    }
}

/// Emits the body of the header between the preprocessor scaffolding
/// pieces: imports, custom defines, constants, type definitions and
/// function prototypes, each section separated by a blank line.
fn write_sections(w: &mut IndentWriter, lib: &Library, cfg: &Config) -> (r: Result<(), GenError>)
    requires
        old(w).depth() < usize::MAX,
    ensures
        spec_constants_ok(lib.constants@) ==> r is Ok && final(w).out() == old(w).out()
            + spec_body_prefix(*cfg, old(w).depth()) + spec_constants(
            lib.constants@,
            old(w).depth(),
        ) + spec_nl() + spec_type_definitions(spec_sort(lib.types@), old(w).depth()) + spec_nl()
            + spec_functions(lib.functions@, *cfg, old(w).depth()),
        !spec_constants_ok(lib.constants@) ==> r == Err::<(), GenError>(
            GenError::UnsupportedConstantType,
        ) && final(w).out() == old(w).out() + spec_body_prefix(*cfg, old(w).depth())
            + spec_constants(
            lib.constants@.take(spec_first_bad(lib.constants@)),
            old(w).depth(),
        ),
        final(w).depth() == old(w).depth(),
{
    let ghost d = old(w).depth();
    let ghost base = old(w).out();
    if cfg.imports {
        write_imports(w);
        w.newline();
    }
    write_custom_defines(w, cfg);
    w.newline();
    proof {
        assert(w.out() =~= base + spec_body_prefix(*cfg, d));
    }
    match write_constants(w, lib) {
        Ok(()) => {},
        Err(e) => {
            proof {
                assert(final(w).out() =~= base + spec_body_prefix(*cfg, d) + spec_constants(
                    lib.constants@.take(spec_first_bad(lib.constants@)),
                    d,
                ));
            }
            return Err(e);
        },
    }
    w.newline();
    write_type_definitions(w, lib);
    w.newline();
    write_functions(w, lib, cfg);
    proof {
        assert(final(w).out() =~= base + spec_body_prefix(*cfg, d) + spec_constants(
            lib.constants@,
            d,
        ) + spec_nl() + spec_type_definitions(spec_sort(lib.types@), d) + spec_nl()
            + spec_functions(lib.functions@, *cfg, d));
    }
    Ok(())
}

/// Emits the C++ linkage wrapper around the header body, when directives
/// are on.
pub fn write_ifdefcpp(w: &mut IndentWriter, lib: &Library, cfg: &Config) -> (r: Result<
    (),
    GenError,
>)
    requires
        old(w).depth() < usize::MAX,
    ensures
        spec_constants_ok(lib.constants@) ==> r is Ok && final(w).out() == old(w).out()
            + spec_cpp_open(*cfg, old(w).depth()) + spec_body_prefix(*cfg, old(w).depth())
            + spec_constants(lib.constants@, old(w).depth()) + spec_nl() + spec_type_definitions(
            spec_sort(lib.types@),
            old(w).depth(),
        ) + spec_nl() + spec_functions(lib.functions@, *cfg, old(w).depth()) + spec_cpp_close(
            *cfg,
            old(w).depth(),
        ),
        !spec_constants_ok(lib.constants@) ==> r == Err::<(), GenError>(
            GenError::UnsupportedConstantType,
        ) && final(w).out() == old(w).out() + spec_cpp_open(*cfg, old(w).depth())
            + spec_body_prefix(*cfg, old(w).depth()) + spec_constants(
            lib.constants@.take(spec_first_bad(lib.constants@)),
            old(w).depth(),
        ),
        final(w).depth() == old(w).depth(),
{
    let ghost d = old(w).depth();
    let ghost base = old(w).out();
    if cfg.directives {
        w.indented("#ifdef __cplusplus");
        let mut link = "ext".to_owned();
        link.append("ern \"C\" {");
        w.indented(link.as_str());
        w.indented("#endif");
        w.newline();
    }
    proof {
        assert(w.out() =~= base + spec_cpp_open(*cfg, d));
    }
    match write_sections(w, lib, cfg) {
        Ok(()) => {},
        Err(e) => {
            proof {
                assert(final(w).out() =~= base + spec_cpp_open(*cfg, d) + spec_body_prefix(
                    *cfg,
                    d,
                ) + spec_constants(lib.constants@.take(spec_first_bad(lib.constants@)), d));
            }
            return Err(e);
        },
    }
    let ghost at_close = w.out();
    if cfg.directives {
        w.newline();
        w.indented("#ifdef __cplusplus");
        w.indented("}");
        w.indented("#endif");
    }
    proof {
        assert(w.out() =~= at_close + spec_cpp_close(*cfg, d));
        assert(final(w).out() =~= base + spec_cpp_open(*cfg, d) + spec_body_prefix(*cfg, d)
            + spec_constants(lib.constants@, d) + spec_nl() + spec_type_definitions(
            spec_sort(lib.types@),
            d,
        ) + spec_nl() + spec_functions(lib.functions@, *cfg, d) + spec_cpp_close(*cfg, d));
    }
    Ok(())
}

/// Emits the header guard around the rest of the header, when directives
/// are on.
pub fn write_ifndef(w: &mut IndentWriter, lib: &Library, cfg: &Config) -> (r: Result<(), GenError>)
    requires
        old(w).depth() < usize::MAX,
    ensures
        spec_constants_ok(lib.constants@) ==> r is Ok && final(w).out() == old(w).out()
            + spec_guard_open(*cfg, old(w).depth()) + spec_cpp_open(*cfg, old(w).depth())
            + spec_body_prefix(*cfg, old(w).depth()) + spec_constants(
            lib.constants@,
            old(w).depth(),
        ) + spec_nl() + spec_type_definitions(spec_sort(lib.types@), old(w).depth()) + spec_nl()
            + spec_functions(lib.functions@, *cfg, old(w).depth()) + spec_cpp_close(
            *cfg,
            old(w).depth(),
        ) + spec_guard_close(*cfg, old(w).depth()),
        !spec_constants_ok(lib.constants@) ==> r == Err::<(), GenError>(
            GenError::UnsupportedConstantType,
        ) && final(w).out() == old(w).out() + spec_guard_open(*cfg, old(w).depth())
            + spec_cpp_open(*cfg, old(w).depth()) + spec_body_prefix(*cfg, old(w).depth())
            + spec_constants(lib.constants@.take(spec_first_bad(lib.constants@)), old(w).depth()),
        final(w).depth() == old(w).depth(),
{
    let ghost d = old(w).depth();
    let ghost base = old(w).out();
    if cfg.directives {
        let mut open = "#ifndef ".to_owned();
        open.append(cfg.ifndef.as_str());
        w.indented(open.as_str());
        let mut define = "#define ".to_owned();
        define.append(cfg.ifndef.as_str());
        w.indented(define.as_str());
        w.newline();
    }
    proof {
        assert(w.out() =~= base + spec_guard_open(*cfg, d));
    }
    match write_ifdefcpp(w, lib, cfg) {
        Ok(()) => {},
        Err(e) => {
            proof {
                assert(final(w).out() =~= base + spec_guard_open(*cfg, d) + spec_cpp_open(*cfg, d)
                    + spec_body_prefix(*cfg, d) + spec_constants(
                    lib.constants@.take(spec_first_bad(lib.constants@)),
                    d,
                ));
            }
            return Err(e);
        },
    }
    let ghost at_close = w.out();
    if cfg.directives {
        w.newline();
        let mut end = "#endif /* ".to_owned();
        end.append(cfg.ifndef.as_str());
        end.append(" */");
        w.indented(end.as_str());
    }
    proof {
        assert(w.out() =~= at_close + spec_guard_close(*cfg, d));
        assert(final(w).out() =~= base + spec_guard_open(*cfg, d) + spec_cpp_open(*cfg, d)
            + spec_body_prefix(*cfg, d) + spec_constants(lib.constants@, d) + spec_nl()
            + spec_type_definitions(spec_sort(lib.types@), d) + spec_nl() + spec_functions(
            lib.functions@,
            *cfg,
            d,
        ) + spec_cpp_close(*cfg, d) + spec_guard_close(*cfg, d));
    }
    Ok(())
}

/// Runs one full generation into the given sink. On success the sink has
/// grown by exactly the header `spec_header` describes; when a constant's
/// type is not a primitive, the run stops there with
/// `UnsupportedConstantType`, and nothing past the offending constant —
/// no type and no function output — has been written.
#[verifier::rlimit(100)]
pub fn write_all(w: &mut IndentWriter, lib: &Library, cfg: &Config) -> (r: Result<(), GenError>)
    requires
        old(w).depth() < usize::MAX,
    ensures
        spec_constants_ok(lib.constants@) ==> r is Ok && final(w).out() == old(w).out()
            + spec_header(*lib, *cfg, old(w).depth()),
        !spec_constants_ok(lib.constants@) ==> r == Err::<(), GenError>(
            GenError::UnsupportedConstantType,
        ) && final(w).out() == old(w).out() + spec_failed_output(*lib, *cfg, old(w).depth()),
        final(w).depth() == old(w).depth(),
{
    let ghost d = old(w).depth();
    let ghost base = old(w).out();
    write_file_header_comments(w, cfg);
    w.newline();
    match write_ifndef(w, lib, cfg) {
        Ok(()) => {},
        Err(e) => {
            proof {
                assert(final(w).out() =~= base + spec_failed_output(*lib, *cfg, d));
            }
            return Err(e);
        },
    }
    proof {
        assert(final(w).out() =~= base + spec_header(*lib, *cfg, d));
    }
    Ok(())
}

/// Generates the complete header for a library under a configuration.
/// Succeeds exactly when every constant has a primitive type, and then
/// returns the text `spec_header` pins down; generating twice from the
/// same input therefore yields byte-identical output.
pub fn generate(lib: &Library, cfg: &Config) -> (r: Result<String, GenError>)
    ensures
        spec_constants_ok(lib.constants@) ==> r is Ok && r->Ok_0@ == spec_header(*lib, *cfg, 0),
        !spec_constants_ok(lib.constants@) ==> r == Err::<String, GenError>(
            GenError::UnsupportedConstantType,
        ),
{
    let mut w = IndentWriter::new();
    match write_all(&mut w, lib, cfg) {
        Ok(()) => {
            let s = w.into_string();
            proof {
                assert(s@ =~= spec_header(*lib, *cfg, 0));
            }
            Ok(s)
        },
        Err(e) => Err(e),
    }
}

} // verus!
