use wasi_libc_trampoline_bindgen::types::{IntRepr, WasmType};

#[test]
fn wasm_type_c_spellings() {
    let cases = [
        (WasmType::I32, "int32_t"),
        (WasmType::I64, "int64_t"),
        (WasmType::F32, "float"),
        (WasmType::F64, "double"),
    ];
    for (ty, expected) in cases {
        let mut out = String::new();
        ty.render_c(&mut out);
        assert_eq!(out, expected);
    }
}

#[test]
fn int_repr_c_spellings() {
    let cases = [
        (IntRepr::U8, "uint8_t"),
        (IntRepr::U16, "uint16_t"),
        (IntRepr::U32, "uint32_t"),
        (IntRepr::U64, "uint64_t"),
    ];
    for (repr, expected) in cases {
        let mut out = String::new();
        repr.render_c(&mut out);
        assert_eq!(out, expected);
    }
}

#[test]
fn render_c_appends_to_existing_text() {
    let mut out = String::from("  extern ");
    WasmType::I32.render_c(&mut out);
    assert_eq!(out, "  extern int32_t");
}
