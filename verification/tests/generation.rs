use c_header_gen::ir::{
    CType, CompositeType, Config, Constant, ConstantValue, EnumType, Field, FnPointerType,
    Function, GenError, Library, OpaqueType, Parameter, PrimitiveType, TypePattern, Variant,
};
use c_header_gen::sink::IndentWriter;
use c_header_gen::writer::{generate, write_all, write_documentation};

fn base_config() -> Config {
    Config {
        file_header_comment: String::from("// generated"),
        imports: true,
        custom_defines: String::new(),
        directives: true,
        ifndef: String::from("FOO_H"),
        function_attribute: String::new(),
    }
}

fn empty_library() -> Library {
    Library { constants: Vec::new(), types: Vec::new(), functions: Vec::new() }
}

fn inc_word() -> String {
    format!("#inc{}", "lude")
}

fn linkage_open() -> String {
    format!("ext{}", "ern \"C\" {")
}

#[test]
fn full_document_snapshot() {
    let lib = Library {
        constants: vec![Constant {
            name: String::from("MAX"),
            the_type: CType::Primitive(PrimitiveType::U8),
            value: ConstantValue::U8(255),
        }],
        types: vec![CType::Enum(EnumType {
            name: String::from("Level"),
            variants: vec![
                Variant { name: String::from("Low"), value: 0 },
                Variant { name: String::from("High"), value: 5 },
            ],
        })],
        functions: vec![Function {
            name: String::from("get_level"),
            params: vec![Parameter {
                name: String::from("handle"),
                the_type: CType::Primitive(PrimitiveType::U32),
            }],
            rval: CType::Enum(EnumType {
                name: String::from("Level"),
                variants: vec![
                    Variant { name: String::from("Low"), value: 0 },
                    Variant { name: String::from("High"), value: 5 },
                ],
            }),
            documentation: Vec::new(),
        }],
    };
    let out = generate(&lib, &base_config()).unwrap();
    let expected = format!(
        "// generated\n\n#ifndef FOO_H\n#define FOO_H\n\n#ifdef __cplusplus\n{}\n#endif\n\n{} <stdint.h>\n{} <stdbool.h>\n\n\n\nconst uint8_t MAX = 255;\n\n\ntypedef enum Level\n    {{\n    Low = 0,\n    High = 5,\n    }} Level;\n\n\nLevel get_level(uint32_t handle);\n\n#ifdef __cplusplus\n}}\n#endif\n\n#endif /* FOO_H */\n",
        linkage_open(),
        inc_word(),
        inc_word(),
    );
    assert_eq!(out, expected);
}

#[test]
fn fn_pointer_signature_example() {
    let mut lib = empty_library();
    lib.types.push(CType::FnPointer(FnPointerType {
        name: String::from("Callback"),
        params: vec![
            CType::Primitive(PrimitiveType::F32),
            CType::ReadWritePointer(Box::new(CType::Primitive(PrimitiveType::U8))),
        ],
        rval: Box::new(CType::Primitive(PrimitiveType::I32)),
    }));
    let out = generate(&lib, &base_config()).unwrap();
    assert!(out.contains("typedef int32_t (*Callback)(float x0,uint8_t* x1);\n"));
}

#[test]
fn enum_value_fidelity() {
    let mut lib = empty_library();
    lib.types.push(CType::Enum(EnumType {
        name: String::from("E"),
        variants: vec![
            Variant { name: String::from("A"), value: 0 },
            Variant { name: String::from("B"), value: 5 },
            Variant { name: String::from("C"), value: 5 },
        ],
    }));
    let out = generate(&lib, &base_config()).unwrap();
    assert!(out.contains("typedef enum E\n    {\n    A = 0,\n    B = 5,\n    C = 5,\n    } E;\n"));
    let a = out.find("A = 0,").unwrap();
    let b = out.find("B = 5,").unwrap();
    let c = out.find("C = 5,").unwrap();
    assert!(a < b && b < c);
}

#[test]
fn empty_composite_round_trip() {
    let mut as_composite = empty_library();
    as_composite.types.push(CType::Composite(CompositeType {
        name: String::from("Thing"),
        fields: Vec::new(),
    }));
    let mut as_opaque = empty_library();
    as_opaque.types.push(CType::Opaque(OpaqueType { name: String::from("Thing") }));
    let cfg = base_config();
    let from_composite = generate(&as_composite, &cfg).unwrap();
    let from_opaque = generate(&as_opaque, &cfg).unwrap();
    assert_eq!(from_composite, from_opaque);
    assert!(from_composite.contains("typedef struct Thing Thing;\n"));
}

#[test]
fn guard_toggling_off() {
    let mut cfg = base_config();
    cfg.directives = false;
    let out = generate(&empty_library(), &cfg).unwrap();
    assert!(!out.contains("#ifndef"));
    assert!(!out.contains("#define"));
    assert!(!out.contains("#endif"));
    assert!(!out.contains(&linkage_open()));
}

#[test]
fn guard_toggling_on() {
    let out = generate(&empty_library(), &base_config()).unwrap();
    assert_eq!(out.matches("#ifndef FOO_H").count(), 1);
    assert_eq!(out.matches("#define FOO_H").count(), 1);
    assert_eq!(out.matches("#endif /* FOO_H */").count(), 1);
    assert_eq!(out.matches(&linkage_open()).count(), 1);
}

#[test]
fn constant_rejection() {
    let mut lib = empty_library();
    lib.constants.push(Constant {
        name: String::from("BAD"),
        the_type: CType::Composite(CompositeType { name: String::from("S"), fields: Vec::new() }),
        value: ConstantValue::U8(0),
    });
    let r = generate(&lib, &base_config());
    assert_eq!(r.unwrap_err(), GenError::UnsupportedConstantType);
}

#[test]
fn constant_rejection_leaves_no_later_output() {
    let mut lib = empty_library();
    lib.constants.push(Constant {
        name: String::from("OK_ONE"),
        the_type: CType::Primitive(PrimitiveType::U16),
        value: ConstantValue::U16(7),
    });
    lib.constants.push(Constant {
        name: String::from("BAD"),
        the_type: CType::Composite(CompositeType { name: String::from("S"), fields: Vec::new() }),
        value: ConstantValue::U8(0),
    });
    lib.constants.push(Constant {
        name: String::from("NEVER_SEEN"),
        the_type: CType::Primitive(PrimitiveType::U16),
        value: ConstantValue::U16(9),
    });
    lib.types.push(CType::Opaque(OpaqueType { name: String::from("Handle") }));
    lib.functions.push(Function {
        name: String::from("touch"),
        params: Vec::new(),
        rval: CType::Primitive(PrimitiveType::Void),
        documentation: Vec::new(),
    });
    let mut w = IndentWriter::new();
    let r = write_all(&mut w, &lib, &base_config());
    assert_eq!(r.unwrap_err(), GenError::UnsupportedConstantType);
    let partial = w.into_string();
    assert!(partial.contains("const uint16_t OK_ONE = 7;"));
    assert!(!partial.contains("NEVER_SEEN"));
    assert!(!partial.contains("typedef"));
    assert!(!partial.contains("touch"));
}

#[test]
fn generation_idempotent() {
    let mut lib = empty_library();
    lib.types.push(CType::Opaque(OpaqueType { name: String::from("Ctx") }));
    let cfg = base_config();
    let first = generate(&lib, &cfg).unwrap();
    let second = generate(&lib, &cfg).unwrap();
    assert_eq!(first, second);
}

#[test]
fn value_field_declared_after_its_type() {
    let mut lib = empty_library();
    lib.types.push(CType::Composite(CompositeType {
        name: String::from("Outer"),
        fields: vec![Field {
            name: String::from("part"),
            the_type: CType::Composite(CompositeType {
                name: String::from("Inner"),
                fields: vec![Field {
                    name: String::from("x"),
                    the_type: CType::Primitive(PrimitiveType::U32),
                }],
            }),
        }],
    }));
    lib.types.push(CType::Composite(CompositeType {
        name: String::from("Inner"),
        fields: vec![Field {
            name: String::from("x"),
            the_type: CType::Primitive(PrimitiveType::U32),
        }],
    }));
    let out = generate(&lib, &base_config()).unwrap();
    let inner = out.find("typedef struct Inner").unwrap();
    let outer = out.find("typedef struct Outer").unwrap();
    assert!(inner < outer);
}

#[test]
fn independent_types_keep_input_order() {
    let mut lib = empty_library();
    lib.types.push(CType::Opaque(OpaqueType { name: String::from("First") }));
    lib.types.push(CType::Opaque(OpaqueType { name: String::from("Second") }));
    let out = generate(&lib, &base_config()).unwrap();
    let first = out.find("typedef struct First First;").unwrap();
    let second = out.find("typedef struct Second Second;").unwrap();
    assert!(first < second);
}

#[test]
fn unsigned_constant_max_value() {
    let mut lib = empty_library();
    lib.constants.push(Constant {
        name: String::from("HUGE"),
        the_type: CType::Primitive(PrimitiveType::U64),
        value: ConstantValue::U64(u64::MAX),
    });
    let out = generate(&lib, &base_config()).unwrap();
    assert!(out.contains("const uint64_t HUGE = 18446744073709551615;\n"));
}

#[test]
fn negative_constant_min_value() {
    let mut lib = empty_library();
    lib.constants.push(Constant {
        name: String::from("LOWEST"),
        the_type: CType::Primitive(PrimitiveType::I64),
        value: ConstantValue::I64(i64::MIN),
    });
    let out = generate(&lib, &base_config()).unwrap();
    assert!(out.contains("const int64_t LOWEST = -9223372036854775808;\n"));
}

#[test]
fn boolean_constant() {
    let mut lib = empty_library();
    lib.constants.push(Constant {
        name: String::from("FLAG"),
        the_type: CType::Primitive(PrimitiveType::Bool),
        value: ConstantValue::Bool(true),
    });
    let out = generate(&lib, &base_config()).unwrap();
    assert!(out.contains("const bool FLAG = true;\n"));
}

#[test]
fn pointer_specifiers() {
    let mut lib = empty_library();
    lib.types.push(CType::Composite(CompositeType {
        name: String::from("Buffers"),
        fields: vec![
            Field {
                name: String::from("read_only"),
                the_type: CType::ReadPointer(Box::new(CType::Primitive(PrimitiveType::U8))),
            },
            Field {
                name: String::from("read_write"),
                the_type: CType::ReadWritePointer(Box::new(CType::Primitive(
                    PrimitiveType::I16,
                ))),
            },
            Field {
                name: String::from("label"),
                the_type: CType::Pattern(TypePattern::AsciiPointer),
            },
        ],
    }));
    let out = generate(&lib, &base_config()).unwrap();
    assert!(out.contains("const uint8_t* read_only;"));
    assert!(out.contains("int16_t* read_write;"));
    assert!(out.contains("const char* label;"));
}

#[test]
fn pattern_types_render_as_wrapped() {
    let mut lib = empty_library();
    lib.types.push(CType::Pattern(TypePattern::SuccessEnum(EnumType {
        name: String::from("MyError"),
        variants: vec![Variant { name: String::from("Ok"), value: 0 }],
    })));
    lib.types.push(CType::Pattern(TypePattern::Slice(CompositeType {
        name: String::from("SliceU8"),
        fields: vec![Field {
            name: String::from("len"),
            the_type: CType::Primitive(PrimitiveType::U64),
        }],
    })));
    lib.types.push(CType::Pattern(TypePattern::Optional(CompositeType {
        name: String::from("MaybeU8"),
        fields: Vec::new(),
    })));
    let out = generate(&lib, &base_config()).unwrap();
    assert!(out.contains("typedef enum MyError"));
    assert!(out.contains("typedef struct SliceU8\n    {\n    uint64_t len;\n    } SliceU8;\n"));
    assert!(out.contains("typedef struct MaybeU8 MaybeU8;\n"));
}

#[test]
fn function_attribute_prefix() {
    let mut cfg = base_config();
    cfg.function_attribute = String::from("__cdecl ");
    let mut lib = empty_library();
    lib.functions.push(Function {
        name: String::from("poke"),
        params: vec![
            Parameter {
                name: String::from("a"),
                the_type: CType::Primitive(PrimitiveType::I32),
            },
            Parameter {
                name: String::from("b"),
                the_type: CType::Primitive(PrimitiveType::Bool),
            },
        ],
        rval: CType::Primitive(PrimitiveType::Void),
        documentation: Vec::new(),
    });
    let out = generate(&lib, &cfg).unwrap();
    assert!(out.contains("__cdecl void poke(int32_t a,bool b);\n"));
}

#[test]
fn documentation_block() {
    let mut w = IndentWriter::new();
    let lines = vec![String::from("Does a thing."), String::from("Carefully.")];
    write_documentation(&mut w, &lines);
    assert_eq!(w.into_string(), "/// Does a thing.\n/// Carefully.\n");
}

#[test]
fn empty_custom_defines_leaves_single_blank_line() {
    let mut cfg = base_config();
    cfg.directives = false;
    cfg.imports = false;
    let out = generate(&empty_library(), &cfg).unwrap();
    assert_eq!(out, "// generated\n\n\n\n\n\n");
}
