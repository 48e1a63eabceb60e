//! Translation tests: end-to-end source programs through the parser and
//! translator, checking the produced IR module and the exact diagnostics.

use wellick::ast::IntegerType;
use wellick::compiler::Compiler;
use wellick::errors::TransError;
use wellick::ir::{FuncEntry, Inst, IrType, Linkage, ModuleIr};
use wellick::parser::parse;

fn compile_src(src: &str) -> Result<ModuleIr, TransError> {
    let decls = parse(src).expect("source must parse");
    Compiler::new().compile(decls)
}

fn find_entry<'a>(m: &'a ModuleIr, name: &str) -> &'a FuncEntry {
    for e in m.entries.iter() {
        if e.name == name {
            return e;
        }
    }
    panic!("no module entry named {}", name);
}

#[test]
fn test_return_zero_program() {
    let m = compile_src("fn main() -> i32 { return 0; }").unwrap();
    let main = find_entry(&m, "main");
    assert_eq!(main.linkage, Linkage::Export);
    assert!(main.body.is_some());
    let body = main.body.as_ref().unwrap();
    // One entry block holding the constant and the return.
    assert_eq!(body.blocks.len(), 1);
    let insts = &body.blocks[0].insts;
    assert!(matches!(
        insts[0],
        Inst::Iconst {
            ty: IrType::I32,
            imm: 0,
            ..
        }
    ));
    assert!(matches!(insts[1], Inst::Ret { .. }));
}

#[test]
fn test_add_program_links_builtin() {
    let src = "fn add(x: i32, y: i32) -> i32 { return iadd(x, y); } fn main() -> i32 { return add(2, 3); }";
    let m = compile_src(src).unwrap();
    let add = find_entry(&m, "add");
    assert_eq!(add.linkage, Linkage::Export);
    assert!(add.body.is_some());
    let iadd = find_entry(&m, "iadd");
    assert_eq!(iadd.linkage, Linkage::Import);
    assert!(iadd.body.is_none());
    assert_eq!(iadd.sig.params, vec![IrType::I32, IrType::I32]);
    assert_eq!(iadd.sig.returns, vec![IrType::I32]);
    let main = find_entry(&m, "main");
    assert_eq!(main.linkage, Linkage::Export);
}

#[test]
fn test_mutable_reassign_program() {
    let m = compile_src("fn main() -> i32 { let mut x: i32 = 7; x = 9; return x; }").unwrap();
    let main = find_entry(&m, "main");
    let body = main.body.as_ref().unwrap();
    // The binding occupies one 4-byte slot, stored to twice.
    assert_eq!(body.slots, vec![4]);
    let stores = body.blocks[0]
        .insts
        .iter()
        .filter(|i| matches!(i, Inst::StackStore { slot: 0, .. }))
        .count();
    assert_eq!(stores, 2);
}

#[test]
fn test_immutable_reassign_rejected() {
    let r = compile_src("fn main() -> i32 { let x: i32 = 7; x = 9; return x; }");
    match r {
        Err(TransError::ImmutableAssign(name)) => assert_eq!(name, "x"),
        _ => unreachable!("reassignment of an immutable binding must be fatal"),
    }
}

#[test]
fn test_pointer_roundtrip_program() {
    let m =
        compile_src("fn main() -> i32 { let x: i32 = 3; let p: *i32 = &x; return *p; }").unwrap();
    let main = find_entry(&m, "main");
    let body = main.body.as_ref().unwrap();
    // One 4-byte slot for x, one 8-byte slot for the pointer.
    assert_eq!(body.slots, vec![4, 8]);
    let insts = &body.blocks[0].insts;
    // The address of x is taken, and the return value is loaded through
    // the pointer at the width of the pointee.
    assert!(insts
        .iter()
        .any(|i| matches!(i, Inst::StackAddr { ty: IrType::I64, slot: 0, .. })));
    assert!(insts
        .iter()
        .any(|i| matches!(i, Inst::LoadMem { ty: IrType::I32, .. })));
}

#[test]
fn test_mutable_pointer_to_immutable_rejected() {
    let r = compile_src("fn main() -> i32 { let x: i32 = 3; let p: *mut i32 = &x; return 0; }");
    match r {
        Err(TransError::PointerMutabilityMismatch {
            name,
            expected_mutable,
        }) => {
            assert_eq!(name, "x");
            assert!(expected_mutable);
        }
        _ => unreachable!("a *mut binding demands a mutable referent"),
    }
}

#[test]
fn test_underscored_literal_in_i64_slot() {
    let m = compile_src("fn main() -> i32 { let x: i64 = 1_000_000; return 0; }").unwrap();
    let main = find_entry(&m, "main");
    let body = main.body.as_ref().unwrap();
    assert_eq!(body.slots, vec![8]);
    assert!(body.blocks[0].insts.iter().any(|i| matches!(
        i,
        Inst::Iconst {
            ty: IrType::I64,
            imm: 1_000_000,
            ..
        }
    )));
}

#[test]
fn test_let_slot_width_matches_type() {
    let m = compile_src(
        "fn main() -> i32 { let a: i32 = 1; let b: i64 = 2; let c: isize = 3; let p: *i32 = &a; return 0; }",
    )
    .unwrap();
    let main = find_entry(&m, "main");
    let body = main.body.as_ref().unwrap();
    assert_eq!(body.slots, vec![4, 8, 8, 8]);
}

#[test]
fn test_if_return_skips_rest_of_body() {
    let src = "fn main() -> i32 { if 1 { return 2; } return 3; }";
    let m = compile_src(src).unwrap();
    let main = find_entry(&m, "main");
    let body = main.body.as_ref().unwrap();
    // Entry, then-block and merge block; the then-block ends at its
    // return instruction.
    assert_eq!(body.blocks.len(), 3);
    let then_insts = &body.blocks[1].insts;
    assert!(matches!(then_insts.last().unwrap(), Inst::Ret { .. }));
    assert!(body.blocks.iter().all(|b| b.sealed));
}

#[test]
fn test_if_without_return_falls_through() {
    let src = "fn main() -> i32 { let mut x: i32 = 1; if 0 { x = 2; } return x; }";
    let m = compile_src(src).unwrap();
    let main = find_entry(&m, "main");
    let body = main.body.as_ref().unwrap();
    assert_eq!(body.blocks.len(), 3);
    let then_insts = &body.blocks[1].insts;
    assert!(matches!(then_insts.last().unwrap(), Inst::Jump { .. }));
}

#[test]
fn test_unknown_binding_rejected() {
    match compile_src("fn main() -> i32 { return y; }") {
        Err(TransError::UnknownBinding(name)) => assert_eq!(name, "y"),
        _ => unreachable!("an unknown name must be fatal"),
    }
}

#[test]
fn test_unknown_callee_rejected() {
    match compile_src("fn main() -> i32 { return foo(1); }") {
        Err(TransError::UnknownCallee(name)) => assert_eq!(name, "foo"),
        _ => unreachable!("an unknown callee must be fatal"),
    }
}

#[test]
fn test_duplicate_binding_rejected() {
    match compile_src("fn main() -> i32 { let x: i32 = 1; let x: i32 = 2; return 0; }") {
        Err(TransError::DuplicateBinding(name)) => assert_eq!(name, "x"),
        _ => unreachable!("re-declaration must be fatal"),
    }
}

#[test]
fn test_deref_of_non_pointer_rejected() {
    match compile_src("fn main() -> i32 { let x: i32 = 1; return *x; }") {
        Err(TransError::BadDeref(name)) => assert_eq!(name, "x"),
        _ => unreachable!("dereferencing a non-pointer must be fatal"),
    }
}

#[test]
fn test_address_of_parameter_rejected() {
    match compile_src("fn f(x: i32) -> i32 { let p: *i32 = &x; return 0; }") {
        Err(TransError::AddressOfRegister(name)) => assert_eq!(name, "x"),
        _ => unreachable!("parameters live in registers and have no address"),
    }
}

#[test]
fn test_builtin_arity_mismatch_rejected() {
    match compile_src("fn main() -> i32 { return iadd(1); }") {
        Err(TransError::SignatureMismatch { func }) => assert_eq!(func, "iadd"),
        _ => unreachable!("builtin signatures are fixed"),
    }
}

#[test]
fn test_integer_to_float_binding_rejected() {
    match compile_src("fn main() -> i32 { let x: f32 = 5; return 0; }") {
        Err(TransError::TypeMismatch { expected, actual }) => {
            assert_eq!(expected, IrType::F32);
            assert_eq!(actual, IrType::I32);
        }
        _ => unreachable!("an integer literal cannot initialise a float binding"),
    }
}

#[test]
fn test_hex_lexeme_is_not_a_decimal_constant() {
    match compile_src("fn main() -> i32 { let x: i32 = 0x1F; return 0; }") {
        Err(TransError::BadLiteral(lex)) => assert_eq!(lex, "1F"),
        _ => unreachable!("hex lexemes lose their prefix and fail decimal conversion"),
    }
}

#[test]
fn test_call_pointer_mutability_mismatch() {
    let src = "fn g(p: *mut i32) -> i32 { return 0; } fn main() -> i32 { let mut x: i32 = 1; return g(&x); }";
    match compile_src(src) {
        Err(TransError::PointerMutabilityMismatch {
            name,
            expected_mutable,
        }) => {
            assert_eq!(name, "x");
            assert!(expected_mutable);
        }
        _ => unreachable!("&x cannot satisfy a *mut formal"),
    }
}

#[test]
fn test_call_pointer_mutability_accepts_match() {
    let src = "fn g(p: *mut i32) -> i32 { return 0; } fn main() -> i32 { let mut x: i32 = 1; return g(&mut x); }";
    assert!(compile_src(src).is_ok());
}

#[test]
fn test_parameter_types_flow_into_signature() {
    let m = compile_src("fn f(x: i64, p: *i32) -> i32 { return 0; } fn main() -> i32 { return 0; }")
        .unwrap();
    let f = find_entry(&m, "f");
    assert_eq!(f.sig.params, vec![IrType::I64, IrType::I64]);
    assert_eq!(f.sig.returns, vec![IrType::I32]);
}

#[test]
fn test_integer_type_variants() {
    // The pointer-size integer occupies 8 bytes on the reference target.
    assert_eq!(
        wellick::ir::value_type(&wellick::ast::EmptyType::Integer(IntegerType::PointerSize)),
        IrType::I64
    );
    assert_eq!(IrType::I32.bytes(), 4);
    assert_eq!(IrType::I64.bytes(), 8);
    assert_eq!(IrType::F32.bytes(), 4);
    assert_eq!(IrType::F64.bytes(), 8);
}

#[test]
fn test_if_body_after_return_not_translated() {
    // The reassignment after the return names an unknown binding; the
    // return ends the body, so it is never reached and never checked.
    let src = "fn main() -> i32 { if 1 { return 2; y = 9; } return 3; }";
    assert!(compile_src(src).is_ok());
}
