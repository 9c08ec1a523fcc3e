use vstd::prelude::*;

verus! {

use crate::ir::{
    CType,
    CompositeType,
    Config,
    Library,
    OpaqueType,
    Variant,
    spec_composite_has_dep,
    spec_has_dep,
    spec_name_present,
    spec_type_name,
};
use crate::num::spec_dec_nat;
use crate::sink::{spec_line, spec_nl};
use crate::sort::{lemma_sort_topological, spec_acyclic, spec_sort};
use crate::writer::{
    spec_body_prefix,
    spec_constants,
    spec_cpp_close,
    spec_cpp_open,
    spec_functions,
    spec_guard_close,
    spec_guard_open,
    spec_header,
    spec_type_definition,
    spec_type_definitions,
    spec_variants,
};

/// Topological validity: whenever the value-containment graph of the type
/// list is acyclic, a composite that holds a field of a named type by
/// value is emitted strictly after a type of that name — the field's type
/// is declared before its holder.
pub proof fn lemma_field_declared_before(ts: Seq<CType>, i: int, k: int)
    requires
        spec_acyclic(ts),
        0 <= i < spec_sort(ts).len(),
        spec_sort(ts)[i] is Composite,
        0 <= k < spec_sort(ts)[i]->Composite_0.fields@.len(),
        spec_type_name(spec_sort(ts)[i]->Composite_0.fields@[k].the_type) is Some,
        spec_name_present(ts, spec_type_name(spec_sort(ts)[i]->Composite_0.fields@[k].the_type)->0),
    ensures
        exists|j: int|
            0 <= j < i && spec_type_name(#[trigger] spec_sort(ts)[j]) == spec_type_name(
                spec_sort(ts)[i]->Composite_0.fields@[k].the_type,
            ),
{
    lemma_sort_topological(ts);
    let c = spec_sort(ts)[i]->Composite_0;
    let n = spec_type_name(c.fields@[k].the_type)->0;
    assert(spec_type_name(c.fields@[k].the_type) == Some(n));
    assert(spec_composite_has_dep(c, n));
    assert(spec_has_dep(spec_sort(ts)[i], n));
    let j = choose|j: int| 0 <= j < i && spec_type_name(#[trigger] spec_sort(ts)[j]) == Some(n);
    assert(spec_type_name(spec_sort(ts)[j]) == spec_type_name(c.fields@[k].the_type));
}

/// Idempotence: the header is a function of the library and the
/// configuration alone, so two runs from unmodified input yield
/// byte-identical output.
pub proof fn lemma_generation_deterministic(
    lib: Library,
    cfg: Config,
    first: Seq<char>,
    second: Seq<char>,
)
    requires
        first == spec_header(lib, cfg, 0),
        second == spec_header(lib, cfg, 0),
    ensures
        first == second,
{
}

/// Empty-composite round-trip: a composite with no fields contributes to
/// the header exactly what an opaque type of the same name contributes —
/// a forward declaration, no body.
pub proof fn lemma_empty_composite_renders_as_opaque(c: CompositeType, o: OpaqueType, d: nat)
    requires
        c.fields@.len() == 0,
        c.name@ == o.name@,
    ensures
        spec_type_definition(CType::Composite(c), d) == spec_type_definition(CType::Opaque(o), d),
{
}

/// Enum value fidelity: each variant contributes exactly one line to the
/// enum body — its declared name and its exact value, at its declared
/// position — so variants that share a value each keep their own line
/// unchanged.
pub proof fn lemma_enum_value_fidelity(vs: Seq<Variant>, d: nat, i: int)
    requires
        0 <= i < vs.len(),
    ensures
        spec_variants(vs.take(i + 1), d) == spec_variants(vs.take(i), d) + spec_line(
            d,
            vs[i].name@ + " = "@ + spec_dec_nat(vs[i].value as nat) + ","@,
        ),
{
    assert(vs.take(i + 1).drop_last() =~= vs.take(i));
    assert(vs.take(i + 1).last() == vs[i]);
}

/// Guard toggling, off: with directives disabled the header is the file
/// comment followed directly by the body — none of the header-guard or
/// linkage-wrapper lines is emitted anywhere.
pub proof fn lemma_guards_off(lib: Library, cfg: Config, d: nat)
    requires
        !cfg.directives,
    ensures
        spec_header(lib, cfg, d) == spec_line(d, cfg.file_header_comment@) + spec_nl()
            + spec_body_prefix(cfg, d) + spec_constants(lib.constants@, d) + spec_nl()
            + spec_type_definitions(spec_sort(lib.types@), d) + spec_nl() + spec_functions(
            lib.functions@,
            cfg,
            d,
        ),
{
    assert(spec_guard_open(cfg, d) == Seq::<char>::empty());
    assert(spec_guard_close(cfg, d) == Seq::<char>::empty());
    assert(spec_cpp_open(cfg, d) == Seq::<char>::empty());
    assert(spec_cpp_close(cfg, d) == Seq::<char>::empty());
    assert(spec_header(lib, cfg, d) =~= spec_line(d, cfg.file_header_comment@) + spec_nl()
        + spec_body_prefix(cfg, d) + spec_constants(lib.constants@, d) + spec_nl()
        + spec_type_definitions(spec_sort(lib.types@), d) + spec_nl() + spec_functions(
        lib.functions@,
        cfg,
        d,
    ));
}

/// Guard toggling, on: with directives enabled the header opens with
/// exactly one `#ifndef` line and one `#define` line for the configured
/// guard identifier, and ends with exactly one matching `#endif` line;
/// the body stands between them, inside the linkage wrapper.
pub proof fn lemma_guards_on(lib: Library, cfg: Config, d: nat)
    requires
        cfg.directives,
    ensures
        spec_header(lib, cfg, d) == spec_line(d, cfg.file_header_comment@) + spec_nl() + spec_line(
            d,
            "#ifndef "@ + cfg.ifndef@,
        ) + spec_line(d, "#define "@ + cfg.ifndef@) + spec_nl() + spec_cpp_open(cfg, d)
            + spec_body_prefix(cfg, d) + spec_constants(lib.constants@, d) + spec_nl()
            + spec_type_definitions(spec_sort(lib.types@), d) + spec_nl() + spec_functions(
            lib.functions@,
            cfg,
            d,
        ) + spec_cpp_close(cfg, d) + spec_nl() + spec_line(d, "#endif /* "@ + cfg.ifndef@ + " */"@),
{
    assert(spec_header(lib, cfg, d) =~= spec_line(d, cfg.file_header_comment@) + spec_nl()
        + spec_line(d, "#ifndef "@ + cfg.ifndef@) + spec_line(d, "#define "@ + cfg.ifndef@)
        + spec_nl() + spec_cpp_open(cfg, d) + spec_body_prefix(cfg, d) + spec_constants(
        lib.constants@,
        d,
    ) + spec_nl() + spec_type_definitions(spec_sort(lib.types@), d) + spec_nl() + spec_functions(
        lib.functions@,
        cfg,
        d,
    ) + spec_cpp_close(cfg, d) + spec_nl() + spec_line(d, "#endif /* "@ + cfg.ifndef@ + " */"@));
}

} // verus!
