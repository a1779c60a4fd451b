//! The data model the generator walks and the mapping from scalar kinds to C
//! primitive type spellings.

use vstd::prelude::*;
use vstd::string::StringExecFns;

verus! {

/// A wasm-level scalar type, the vocabulary of lowered interface-function
/// signatures.
#[derive(Clone, Copy, PartialEq, Eq, Structural, Debug)]
pub enum WasmType {
    I32,
    I64,
    F32,
    F64,
}

/// A fixed-width unsigned integer representation, a secondary rendering path
/// kept as part of the public mapping contract.
#[derive(Clone, Copy, PartialEq, Eq, Structural, Debug)]
pub enum IntRepr {
    U8,
    U16,
    U32,
    U64,
}

/// The canonical C spelling of a wasm scalar type.
pub open spec fn wasm_type_c(t: WasmType) -> Seq<char> {
    match t {
        WasmType::I32 => "int32_t"@,
        WasmType::I64 => "int64_t"@,
        WasmType::F32 => "float"@,
        WasmType::F64 => "double"@,
    }
}

/// The canonical C spelling of a fixed-width unsigned integer representation.
pub open spec fn int_repr_c(r: IntRepr) -> Seq<char> {
    match r {
        IntRepr::U8 => "uint8_t"@,
        IntRepr::U16 => "uint16_t"@,
        IntRepr::U32 => "uint32_t"@,
        IntRepr::U64 => "uint64_t"@,
    }
}

impl WasmType {
    /// Append this type's C spelling to the output buffer.
    pub fn render_c(&self, src: &mut String)
        ensures
            final(src)@ == old(src)@ + wasm_type_c(*self),
    {
        match self {
            WasmType::I32 => src.append("int32_t"),
            WasmType::I64 => src.append("int64_t"),
            WasmType::F32 => src.append("float"),
            WasmType::F64 => src.append("double"),
        }
    }
}

impl IntRepr {
    /// Append this representation's C spelling to the output buffer.
    pub fn render_c(&self, src: &mut String)
        ensures
            final(src)@ == old(src)@ + int_repr_c(*self),
    {
        match self {
            IntRepr::U8 => src.append("uint8_t"),
            IntRepr::U16 => src.append("uint16_t"),
            IntRepr::U32 => src.append("uint32_t"),
            IntRepr::U64 => src.append("uint64_t"),
        }
    }
}

/// One interface-function declaration, already lowered to its wasm-level
/// signature by the loader. The generator's renderer demands at most one
/// result, the C calling convention's limit.
#[derive(Clone, Debug)]
pub struct InterfaceFunc {
    pub name: String,
    pub params: Vec<WasmType>,
    pub results: Vec<WasmType>,
}

/// A named group of interface functions.
#[derive(Clone, Debug)]
pub struct Module {
    pub name: String,
    pub funcs: Vec<InterfaceFunc>,
}

/// The parsed interface-description root: an ordered collection of modules.
#[derive(Clone, Debug)]
pub struct Document {
    pub modules: Vec<Module>,
}

} // verus!
