use rpl_mir_syntax::error::ParseError;
use rpl_mir_syntax::lex::tokenize;
use rpl_mir_syntax::token::Token;
use rpl_mir_syntax::unit::{parse_source, Production};

fn texts(tokens: &[Token]) -> Vec<String> {
    tokens.iter().map(|t| t.text.clone()).collect()
}

fn test_pass(production: Production, input: &str) {
    let input_tokens = tokenize(input).unwrap();
    let tree = parse_source(production, input).unwrap();
    let output = tree.tokens();
    assert_eq!(texts(&input_tokens), texts(&output));
    assert_eq!(input_tokens, output);
}

fn test_fail(production: Production, input: &str, msg: String) {
    match parse_source(production, input) {
        Ok(t) => panic!("unexpected successful parse: {:?}", texts(&t.tokens())),
        Err(e) => assert_eq!(e.message(), msg),
    }
}

const BODY: &str = "
    x1 = copy x0;
    x2 = <usize as Step>::forward_unchecked(copy x1, const 1_usize);
    x0 = move x2;
    x3 = Some(copy x1);
    x = copy (x3 as Some).0;
    base = copy (*self).mem;
    offset = copy x as isize (IntToInt);
    elem_ptr = Offset(copy base, copy offset);
    _ = drop_in_place(copy elem_ptr);
";

#[test]
fn test_type_decl() {
    test_pass(Production::TypeDecl, "type SliceT = [T];");
    test_fail(
        Production::TypeDecl,
        "type SliceT<T> = [T];",
        ParseError::TypeWithGenericsNotSupported.message(),
    );
}

#[test]
fn test_path() {
    test_pass(Production::PathSegment, "std");
    test_pass(Production::Path, "std::mem::take");
    test_pass(Production::Path, "Vec<T>");
    test_pass(Production::Path, "core::ffi::c_str::CStr");
    test_pass(Production::Path, "$crate::ffi::sqlite3session_attach");
    test_pass(Production::TypePath, "<Vec<T> >");
    test_pass(Production::TypePath, "<Vec<T> as Clone>::clone");
    test_pass(Production::TypePath, "<$crate::alloc::Vec<T> as Clone>::clone");
    test_pass(Production::TypePath, "<Vec<T> as $crate::clone::Clone>::clone");
    test_pass(
        Production::TypePath,
        "<$crate::alloc::Vec<T> as $crate::clone::Clone>::clone",
    );
    test_pass(Production::TypePath, "<core::ffi::c_str::CStr>");
    test_pass(
        Production::TypePath,
        "<core::ffi::c_str::CStr>::from_bytes_with_nul_unchecked",
    );
    test_pass(
        Production::TypePath,
        "< <core::ffi::c_str::CStr>::from_bytes_with_nul_unchecked>::___rt_impl",
    );

    test_fail(
        Production::Path,
        "crate::crate",
        "expected identifier, found keyword `crate`".to_string(),
    );
    test_fail(
        Production::Path,
        "$crate::crate",
        "expected identifier, found keyword `crate`".to_string(),
    );
    test_fail(
        Production::Path,
        "std::crate",
        "expected identifier, found keyword `crate`".to_string(),
    );
    test_fail(Production::Path, "$crate", format!("expected `::`"));
    test_fail(
        Production::Path,
        "$crate::",
        "unexpected end of input, expected identifier".to_string(),
    );
    test_fail(Production::Path, "from_ptr as", "unexpected token".to_string());
    test_fail(Production::TypePath, "from_ptr as", "unexpected token".to_string());
}

#[test]
fn test_type() {
    test_pass(Production::Type, "*const u8");
    test_pass(Production::Type, "[T]");
    test_pass(
        Production::Type,
        "< <core::ffi::c_str::CStr>::from_bytes_with_nul_unchecked>::___rt_impl",
    );

    test_fail(Production::Type, "*const u8(PtrToPtr)", "unexpected token".to_string());
}

#[test]
fn test_place() {
    test_pass(Production::Place, "x");
    test_pass(Production::Place, "x.0");
    test_pass(Production::Place, "(*x.0)");
    test_pass(Production::Place, "(*x.0)[2 of 3]");
    test_pass(Production::Place, "(*x.0)[y]");
    test_pass(Production::Place, "(*x.0)[-3 of 4]");
    test_pass(Production::Place, "(*x.0)[1:3]");
    test_pass(Production::Place, "(*x.0)[1:-3]");
    test_pass(Production::Place, "(*self).mem");

    test_fail(Production::Place, "from_ptr as", "unexpected token".to_string());
}

#[test]
fn test_operand() {
    test_pass(Production::Operand, "std::mem::take");
    test_pass(Production::Operand, "move y");
    test_fail(Production::Operand, "copy from_ptr as", "unexpected token".to_string());
}

#[test]
fn test_rvalue() {
    test_pass(Production::CastKind, "PtrToPtr");
    test_pass(Production::RvalueCast, "from_ptr as *const u8(PtrToPtr)");

    test_pass(Production::RvalueOrCall, "&x");
    test_pass(Production::RvalueOrCall, "&mut y");
    test_pass(Production::RvalueOrCall, "&raw const *x");
    test_pass(Production::RvalueOrCall, "&raw mut *y");
    test_pass(Production::RvalueOrCall, "[const 0; 5]");
    test_pass(
        Production::RvalueOrCall,
        "[const 0, const 1, const 2, const 3, const 4]",
    );
    test_pass(
        Production::RvalueOrCall,
        "(const 0, const 1, const 2, const 3, const 4)",
    );
    test_pass(Production::RvalueOrCall, "Test { x: const 0 }");
    test_pass(Production::RvalueOrCall, "*const [i32] from (ptr, meta)");

    test_fail(
        Production::RvalueCast,
        "from_ptr as *const u8",
        "unexpected end of input, expected parentheses".to_string(),
    );
}

#[test]
fn test_call() {
    test_pass(Production::Call, "std::mem::take(move y)");
    test_pass(Production::RvalueOrCall, "std::mem::take(move y)");
    test_pass(
        Production::Call,
        "< <core::ffi::c_str::CStr>::from_bytes_with_nul_unchecked>::___rt_impl(move uslice)",
    );
    test_pass(
        Production::RvalueOrCall,
        "< <core::ffi::c_str::CStr>::from_bytes_with_nul_unchecked>::___rt_impl(move uslice)",
    );

    test_pass(
        Production::Call,
        "$crate::ffi::sqlite3session_attach(move s, move iptr)",
    );
    test_pass(
        Production::RvalueOrCall,
        "$crate::ffi::sqlite3session_attach(move s, move iptr)",
    );
}

#[test]
fn test_assign() {
    test_pass(Production::Assign, "*x = std::mem::take(move y)");
}

#[test]
fn test_meta() {
    test_pass(Production::Meta, "meta!($T:ty);");
    test_pass(Production::Meta, "meta![$T:ty, $U:ty];");
    test_pass(Production::Meta, "meta! { $T:ty, $U:ty, }");
}

#[test]
fn test_declaration() {
    test_pass(Production::Declaration, "type SliceT = [$T];");
    test_pass(Production::Declaration, "let x: u32 = const 0_usize;");
    test_pass(
        Production::Declaration,
        "let to_ptr: *const u8 = from_ptr as *const u8 (PtrToPtr);",
    );
}

#[test]
fn test_block() {
    test_pass(Production::Block, &format!("{{ {} }}", BODY));
}

#[test]
fn test_switch_int() {
    test_pass(
        Production::SwitchInt,
        &format!(
            "switchInt(move cmp) {{
                false => break,
                _ => {{ {} }}
            }}",
            BODY
        ),
    );
}

#[test]
fn test_loop() {
    test_pass(Production::Loop, "loop {}");
    test_pass(
        Production::Loop,
        &format!(
            "loop {{
                x_cmp = copy x0;
                cmp = Lt(move x_cmp, copy len);
                switchInt(move cmp) {{
                    false => break,
                    _ => {{ {} }}
                }}
            }}",
            BODY
        ),
    );
}

#[test]
fn test_statement() {
    test_pass(Production::Statement, "*x = copy y.0;");
    test_pass(Production::Statement, "cmp = Lt(move x_cmp, copy len);");
    test_pass(Production::Statement, "x1 = copy x0;");
    test_pass(
        Production::Statement,
        "x2 = <usize as Step>::forward_unchecked(copy x1, const 1_usize);",
    );
    test_pass(Production::Statement, "x0 = move x2;");
    test_pass(Production::Statement, "x3 = Some(copy x1);");
    test_pass(Production::Statement, "x = copy (x3 as Some).0;");
    test_pass(Production::Statement, "base = copy (*self).mem;");
    test_pass(Production::Statement, "offset = copy x as isize (IntToInt);");
    test_pass(Production::Statement, "elem_ptr = Offset(copy base, copy offset);");
    test_pass(Production::Statement, "_ = drop_in_place(copy elem_ptr);");
    test_pass(Production::Statement, "*x = std::mem::take(move y);");
    test_pass(Production::Statement, "drop(y[x]);");
}

#[test]
fn test_mir_pattern() {
    test_pass(Production::Mir, "");
    test_pass(
        Production::Mir,
        "
        meta!($T:ty);
        type SliceT = [$T];
        type RefSliceT = &SliceT;
        type PtrSliceT = *const SliceT;
        type PtrU8 = *const u8;
        type SliceU8 = [u8];
        type PtrSliceU8 = *const SliceU8;
        type RefSliceU8 = &SliceU8;

        let from_slice: SliceT = _;
        let from_raw_slice: PtrSliceT = &raw const *from_slice;
        let from_len: usize = Len(from_slice);
        let ty_size: usize = SizeOf($T);
        let to_ptr: PtrU8 = from_ptr as PtrU8 (PtrToPtr);
        let to_len: usize = Mul(from_len, ty_size);
        let to_raw_slice: PtrSliceU8 = *const SliceU8 from (to_ptr, t_len);
        let to_slice: RefSliceU8 = &*to_raw_slice;
    ",
    );
    test_pass(
        Production::Mir,
        "
        use core::ffi::c_str::CString;
        use core::ffi::c_str::Cstr;
        use core::ptr::non_null::NonNull;
        use $crate::ffi::sqlite3session_attach;

        type NonNullSliceU8 = NonNull<[u8]>;
        type PtrSliceU8 = *const [u8];
        type RefSliceU8 = &[u8];
        type PtrCStr = *const CStr;
        type RefCStr = &CStr;
        type PtrSliceI8 = *const [i8];
        type PtrI8 = *const i8;

        let cstring: CString = _;
        let non_null: NonNullSliceU8 = copy (((cstring.inner).0).pointer);
        let uslice_ptr: PtrSliceU8 = copy (non_null.pointer);
        let cstr: PtrCStr = copy uslice_ptr as PtrCStr (PtrToPtr);
        // /*
        let uslice: RefSliceU8 = &(*uslice_ptr);
        let cstr: RefCStr = < <CStr>::from_bytes_with_nul_unchecked>::___rt_impl(move uslice);
        // */
        let islice: PtrSliceI8 = &raw const ((*cstr).inner);
        let iptr: PtrI8 = move islice as PtrI8 (PtrToPtr);
        let s: i32;
        let ret: i32;
        drop(cstring);
        s = _;
        ret = sqlite3session_attach(move s, move iptr);
    ",
    );
    test_pass(
        Production::Mir,
        "
        let _0: [u32; 3];
        let _1: isize;

        switchInt(copy _1) {
            0_isize => _0 = [const 3_u32, const 4_u32, const 5_u32],
            1_isize => _0 = [const 6_u32, const 7_u32, const 8_u32],
            _ => _0 = [const 9_u32, const 10_u32, const 11_u32],
        }
    ",
    );
}

#[test]
fn test_parse_cve_2018_21000() {
    test_pass(
        Production::Mir,
        "
        meta!{
            $T1:ty,
            $T2:ty,
            $T3:ty,
        }

        type VecT1 = std::vec::Vec<$T1>;
        type VecT2 = std::vec::Vec<$T2>;
        type VecT3 = std::vec::Vec<$T3>;
        type PtrT1 = *mut $T1;
        type PtrT3 = *mut $T3;

        let from_vec: VecT1 = _;
        let size: usize = SizeOf($T2);
        let from_cap: usize = Vec::capacity(move from_vec);
        let to_cap: usize = Mul(copy from_cap, copy size);
        let from_len: usize = Len(from_vec);
        let to_len: usize = Mul(copy from_len, copy size);
        let from_vec_ptr: PtrT1 = Vec::as_mut_ptr(move from_vec);
        let to_vec_ptr: PtrT3 = copy from_vec_ptr as PtrT3 (PtrToPtr);
        // tuple: not implemented yet
        // let tmp: () = std::mem::forget(move from_vec);
        let res: VecT3 = Vec::from_raw_parts(copy to_vec_ptr, copy to_cap, copy to_len);
    ",
    );
}
