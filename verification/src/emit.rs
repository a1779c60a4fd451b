//! Rendering of the trampoline stubs and assembly of the generated text.
//!
//! Every piece of emitted text is pinned down by a `Seq<char>` model: the
//! contract of [`generate`] states the whole output, byte for byte, as a
//! function of the document, the ABI variant and the allow-list.

use vstd::prelude::*;
use vstd::string::StringExecFns;
use crate::abi::AbiVariant;
use crate::names::{abi_name, arg_name, push_arg_name, trampoline_name};
use crate::types::{Document, InterfaceFunc, Module, WasmType, wasm_type_c};

verus! {

/// Whether `name` is a member of the allow-list of hook-function names.
pub open spec fn fn_allowed(allow: Seq<String>, name: Seq<char>) -> bool {
    exists|i: int| 0 <= i < allow.len() && allow[i]@ == name
}

/// The declaration of the parameter at index `i`: its C type and its
/// positional name.
pub open spec fn param_decl(t: WasmType, i: nat) -> Seq<char> {
    wasm_type_c(t) + " "@ + arg_name(i)
}

/// The comma-joined declarations of the first `n` parameters.
pub open spec fn params_text_upto(params: Seq<WasmType>, n: int) -> Seq<char>
    decreases n,
{
    if n <= 0 {
        Seq::<char>::empty()
    } else if n == 1 {
        param_decl(params[0], 0)
    } else {
        params_text_upto(params, n - 1) + ", "@ + param_decl(params[n - 1], (n - 1) as nat)
    }
}

/// The comma-joined declarations of all parameters.
pub open spec fn params_text(params: Seq<WasmType>) -> Seq<char> {
    params_text_upto(params, params.len() as int)
}

/// The comma-joined positional argument names `arg0, arg1, …` up to `n`.
pub open spec fn args_text(n: int) -> Seq<char>
    decreases n,
{
    if n <= 0 {
        Seq::<char>::empty()
    } else if n == 1 {
        arg_name(0)
    } else {
        args_text(n - 1) + ", "@ + arg_name((n - 1) as nat)
    }
}

/// One rendered C stub: a weak definition under the externally-visible name
/// whose body forward-declares the internal trampoline and returns a call of
/// it with every argument passed on positionally and unmodified.
pub open spec fn hook_point_text(
    params: Seq<WasmType>,
    result: WasmType,
    name: Seq<char>,
    tramp: Seq<char>,
) -> Seq<char> {
    "__attribute__((weak))\n"@ + wasm_type_c(result) + " "@ + name + "("@ + params_text(params)
        + ") {\n"@ + "  extern "@ + wasm_type_c(result) + " "@ + tramp + "("@
        + params_text(params) + ");\n"@ + "  return "@ + tramp + "("@ + args_text(
        params.len() as int,
    ) + ");\n"@ + "}\n"@
}

/// What one interface function contributes to its module's text: an allow-listed
/// function contributes exactly one stub followed by a blank line, any other
/// function contributes nothing.
pub open spec fn fn_entry_text(
    v: AbiVariant,
    mname: Seq<char>,
    f: InterfaceFunc,
    allow: Seq<String>,
) -> Seq<char> {
    if fn_allowed(allow, f.name@) {
        hook_point_text(
            f.params@,
            f.results@[0],
            abi_name(v, mname, f.name@),
            trampoline_name(mname, f.name@),
        ) + "\n"@
    } else {
        Seq::<char>::empty()
    }
}

/// The text contributed by a sequence of interface functions, in order.
pub open spec fn funcs_text(
    funcs: Seq<InterfaceFunc>,
    v: AbiVariant,
    mname: Seq<char>,
    allow: Seq<String>,
) -> Seq<char>
    decreases funcs.len(),
{
    if funcs.len() == 0 {
        Seq::<char>::empty()
    } else {
        funcs_text(funcs.drop_last(), v, mname, allow) + fn_entry_text(
            v,
            mname,
            funcs.last(),
            allow,
        )
    }
}

/// The text contributed by one module.
pub open spec fn module_text(m: Module, v: AbiVariant, allow: Seq<String>) -> Seq<char> {
    funcs_text(m.funcs@, v, m.name@, allow)
}

/// The text contributed by a sequence of modules, each followed by a blank
/// line, in document order.
pub open spec fn modules_text(mods: Seq<Module>, v: AbiVariant, allow: Seq<String>) -> Seq<char>
    decreases mods.len(),
{
    if mods.len() == 0 {
        Seq::<char>::empty()
    } else {
        modules_text(mods.drop_last(), v, allow) + module_text(mods.last(), v, allow) + "\n"@
    }
}

/// The fixed header of every generated file: the do-not-edit notice and the
/// standard-integer-types include directive.
pub open spec fn header_text() -> Seq<char> {
    "// This file is automatically generated, DO NOT EDIT\n//\n// To regenerate this file run the `crates/wasi-libc-trampoline-bindgen` command\n// This file is written in C to add `__attribute__((weak))` to the functions so\n// that they won't be linked if the user doesn't use those WASI functions.\n\n#include <stdint.h>\n\n"@
}

/// The whole generated text for a document under a variant and an allow-list.
pub open spec fn generate_text(doc: Document, v: AbiVariant, allow: Seq<String>) -> Seq<char> {
    header_text() + modules_text(doc.modules@, v, allow)
}

/// Every allow-listed function of the module declares exactly one result, the
/// renderer's precondition.
pub open spec fn module_renderable(m: Module, allow: Seq<String>) -> bool {
    forall|j: int|
        0 <= j < m.funcs@.len() && fn_allowed(allow, m.funcs@[j].name@)
            ==> (#[trigger] m.funcs@[j]).results@.len() == 1
}

/// Every allow-listed function of every module declares exactly one result.
pub open spec fn doc_renderable(doc: Document, allow: Seq<String>) -> bool {
    forall|i: int|
        0 <= i < doc.modules@.len() ==> module_renderable(#[trigger] doc.modules@[i], allow)
}

/// Whether the function name is a member of the allow-list.
pub fn contains_name(allow: &Vec<String>, name: &String) -> (r: bool)
    ensures
        r == fn_allowed(allow@, name@),
{
    let mut i: usize = 0;
    while i < allow.len()
        invariant
            0 <= i <= allow@.len(),
            forall|k: int| 0 <= k < i ==> allow@[k]@ != name@,
        decreases allow@.len() - i,
    {
        if allow[i].eq(name) {
            return true;
        }
        i += 1;
    }
    false
}

/// Append the comma-joined parameter declarations to the output buffer.
fn render_params(params: &Vec<WasmType>, out: &mut String)
    ensures
        final(out)@ == old(out)@ + params_text(params@),
{
    let ghost out0: Seq<char> = out@;
    let mut i: usize = 0;
    while i < params.len()
        invariant
            0 <= i <= params@.len(),
            out@ == out0 + params_text_upto(params@, i as int),
        decreases params@.len() - i,
    {
        if i > 0 {
            out.append(", ");
        }
        params[i].render_c(out);
        out.append(" ");
        push_arg_name(i, out);
        proof {
            assert(out@ =~= out0 + params_text_upto(params@, i as int + 1));
        }
        i += 1;
    }
}

/// Append the comma-joined positional argument names to the output buffer.
fn render_args(n: usize, out: &mut String)
    ensures
        final(out)@ == old(out)@ + args_text(n as int),
{
    let ghost out0: Seq<char> = out@;
    let mut i: usize = 0;
    while i < n
        invariant
            0 <= i <= n,
            out@ == out0 + args_text(i as int),
        decreases n - i,
    {
        if i > 0 {
            out.append(", ");
        }
        push_arg_name(i, out);
        proof {
            assert(out@ =~= out0 + args_text(i as int + 1));
        }
        i += 1;
    }
}

/// Render one weak trampoline stub under the given externally-visible and
/// internal names and append it to the output buffer.
pub fn render_libc_hook_point(
    func: &InterfaceFunc,
    name: &str,
    trampoline: &str,
    src: &mut String,
)
    requires
        func.results@.len() == 1,
    ensures
        final(src)@ == old(src)@ + hook_point_text(
            func.params@,
            func.results@[0],
            name@,
            trampoline@,
        ),
{
    let ghost src0: Seq<char> = src@;
    let mut params_str = String::new();
    render_params(&func.params, &mut params_str);
    src.append("__attribute__((weak))\n");
    func.results[0].render_c(src);
    src.append(" ");
    src.append(name);
    src.append("(");
    src.append(params_str.as_str());
    src.append(") {\n");
    src.append("  extern ");
    func.results[0].render_c(src);
    src.append(" ");
    src.append(trampoline);
    src.append("(");
    src.append(params_str.as_str());
    src.append(");\n");
    src.append("  return ");
    src.append(trampoline);
    src.append("(");
    render_args(func.params.len(), src);
    src.append(");\n");
    src.append("}\n");
    proof {
        assert(src@ =~= src0 + hook_point_text(
            func.params@,
            func.results@[0],
            name@,
            trampoline@,
        ));
    }
}

/// Render every allow-listed function of the module and append the stubs, in
/// declaration order, to the output buffer.
pub fn render_module(module: &Module, variant: AbiVariant, allow: &Vec<String>, src: &mut String)
    requires
        module_renderable(*module, allow@),
    ensures
        final(src)@ == old(src)@ + module_text(*module, variant, allow@),
{
    let ghost src0: Seq<char> = src@;
    let mut j: usize = 0;
    while j < module.funcs.len()
        invariant
            0 <= j <= module.funcs@.len(),
            module_renderable(*module, allow@),
            src@ == src0 + funcs_text(module.funcs@.take(j as int), variant, module.name@, allow@),
        decreases module.funcs@.len() - j,
    {
        let f = &module.funcs[j];
        if contains_name(allow, &f.name) {
            let abi = crate::names::abi_symbol_name(variant, module.name.as_str(), f.name.as_str());
            let tramp = crate::names::trampoline_symbol_name(module.name.as_str(), f.name.as_str());
            render_libc_hook_point(f, abi.as_str(), tramp.as_str(), src);
            src.append("\n");
        }
        proof {
            let s = module.funcs@.take(j as int + 1);
            assert(s.drop_last() =~= module.funcs@.take(j as int));
            assert(s.last() == module.funcs@[j as int]);
            assert(src@ =~= src0 + funcs_text(s, variant, module.name@, allow@));
        }
        j += 1;
    }
    proof {
        assert(module.funcs@.take(module.funcs@.len() as int) =~= module.funcs@);
    }
}

/// Generate the whole C source text for the document: the fixed header, then
/// one weak trampoline stub per allow-listed function, in module-then-function
/// order, with a blank line after each stub and after each module.
pub fn generate(doc: &Document, variant: AbiVariant, allow: &Vec<String>) -> (r: String)
    requires
        doc_renderable(*doc, allow@),
    ensures
        r@ == generate_text(*doc, variant, allow@),
{
    let mut raw = String::new();
    raw.append(
        "// This file is automatically generated, DO NOT EDIT\n//\n// To regenerate this file run the `crates/wasi-libc-trampoline-bindgen` command\n// This file is written in C to add `__attribute__((weak))` to the functions so\n// that they won't be linked if the user doesn't use those WASI functions.\n\n#include <stdint.h>\n\n",
    );
    let mut i: usize = 0;
    while i < doc.modules.len()
        invariant
            0 <= i <= doc.modules@.len(),
            doc_renderable(*doc, allow@),
            raw@ == header_text() + modules_text(doc.modules@.take(i as int), variant, allow@),
        decreases doc.modules@.len() - i,
    {
        render_module(&doc.modules[i], variant, allow, &mut raw);
        raw.append("\n");
        proof {
            let s = doc.modules@.take(i as int + 1);
            assert(s.drop_last() =~= doc.modules@.take(i as int));
            assert(s.last() == doc.modules@[i as int]);
            assert(raw@ =~= header_text() + modules_text(s, variant, allow@));
        }
        i += 1;
    }
    proof {
        assert(doc.modules@.take(doc.modules@.len() as int) =~= doc.modules@);
    }
    raw
}

/// Functions contribute text independently: the text of a concatenation of two
/// function sequences is the concatenation of their texts.
pub proof fn lemma_funcs_text_concat(
    a: Seq<InterfaceFunc>,
    b: Seq<InterfaceFunc>,
    v: AbiVariant,
    mname: Seq<char>,
    allow: Seq<String>,
)
    ensures
        funcs_text(a + b, v, mname, allow) == funcs_text(a, v, mname, allow) + funcs_text(
            b,
            v,
            mname,
            allow,
        ),
    decreases b.len(),
{
    if b.len() == 0 {
        assert(a + b =~= a);
        assert(funcs_text(a, v, mname, allow) + funcs_text(b, v, mname, allow) =~= funcs_text(
            a,
            v,
            mname,
            allow,
        ));
    } else {
        lemma_funcs_text_concat(a, b.drop_last(), v, mname, allow);
        assert((a + b).drop_last() =~= a + b.drop_last());
        assert((a + b).last() == b.last());
        assert(funcs_text(a + b, v, mname, allow) =~= funcs_text(a, v, mname, allow) + funcs_text(
            b,
            v,
            mname,
            allow,
        ));
    }
}

/// A one-function sequence contributes exactly that function's entry.
pub proof fn lemma_funcs_text_singleton(
    f: InterfaceFunc,
    v: AbiVariant,
    mname: Seq<char>,
    allow: Seq<String>,
)
    ensures
        funcs_text(seq![f], v, mname, allow) == fn_entry_text(v, mname, f, allow),
{
    let s = seq![f];
    assert(s.drop_last() =~= Seq::<InterfaceFunc>::empty());
    assert(funcs_text(s.drop_last(), v, mname, allow) == Seq::<char>::empty());
    assert(funcs_text(s, v, mname, allow) =~= fn_entry_text(v, mname, f, allow));
}

/// A function whose name is not in the allow-list leaves no trace: removing it
/// from a module leaves the module's text unchanged, under either ABI variant.
pub proof fn lemma_unlisted_fn_emits_nothing(
    funcs: Seq<InterfaceFunc>,
    i: int,
    v: AbiVariant,
    mname: Seq<char>,
    allow: Seq<String>,
)
    requires
        0 <= i < funcs.len(),
        !fn_allowed(allow, funcs[i].name@),
    ensures
        funcs_text(funcs, v, mname, allow) == funcs_text(funcs.remove(i), v, mname, allow),
{
    assert(funcs =~= funcs.take(i) + seq![funcs[i]] + funcs.skip(i + 1));
    lemma_funcs_text_concat(funcs.take(i) + seq![funcs[i]], funcs.skip(i + 1), v, mname, allow);
    lemma_funcs_text_concat(funcs.take(i), seq![funcs[i]], v, mname, allow);
    lemma_funcs_text_singleton(funcs[i], v, mname, allow);
    assert(funcs.remove(i) =~= funcs.take(i) + funcs.skip(i + 1));
    lemma_funcs_text_concat(funcs.take(i), funcs.skip(i + 1), v, mname, allow);
    assert(funcs_text(funcs, v, mname, allow) =~= funcs_text(
        funcs.remove(i),
        v,
        mname,
        allow,
    ));
}

/// An allow-listed function contributes exactly one stub: the module's text
/// splits around one weak definition that forwards every argument positionally
/// to the internal trampoline, followed by a blank line.
pub proof fn lemma_allowed_fn_emits_one_stub(
    funcs: Seq<InterfaceFunc>,
    i: int,
    v: AbiVariant,
    mname: Seq<char>,
    allow: Seq<String>,
)
    requires
        0 <= i < funcs.len(),
        fn_allowed(allow, funcs[i].name@),
    ensures
        funcs_text(funcs, v, mname, allow) == funcs_text(funcs.take(i), v, mname, allow)
            + hook_point_text(
            funcs[i].params@,
            funcs[i].results@[0],
            abi_name(v, mname, funcs[i].name@),
            trampoline_name(mname, funcs[i].name@),
        ) + "\n"@ + funcs_text(funcs.skip(i + 1), v, mname, allow),
{
    assert(funcs =~= funcs.take(i) + seq![funcs[i]] + funcs.skip(i + 1));
    lemma_funcs_text_concat(funcs.take(i) + seq![funcs[i]], funcs.skip(i + 1), v, mname, allow);
    lemma_funcs_text_concat(funcs.take(i), seq![funcs[i]], v, mname, allow);
    lemma_funcs_text_singleton(funcs[i], v, mname, allow);
    assert(funcs_text(funcs, v, mname, allow) =~= funcs_text(funcs.take(i), v, mname, allow)
        + hook_point_text(
        funcs[i].params@,
        funcs[i].results@[0],
        abi_name(v, mname, funcs[i].name@),
        trampoline_name(mname, funcs[i].name@),
    ) + "\n"@ + funcs_text(funcs.skip(i + 1), v, mname, allow));
}

/// Whatever the ABI variant, the entry emitted for an allow-listed function
/// forwards to the same internal trampoline name: only the externally-visible
/// name differs between the two variants.
pub proof fn lemma_trampoline_shared_across_variants(
    v1: AbiVariant,
    v2: AbiVariant,
    mname: Seq<char>,
    f: InterfaceFunc,
    allow: Seq<String>,
)
    requires
        fn_allowed(allow, f.name@),
    ensures
        fn_entry_text(v1, mname, f, allow) == hook_point_text(
            f.params@,
            f.results@[0],
            abi_name(v1, mname, f.name@),
            trampoline_name(mname, f.name@),
        ) + "\n"@,
        fn_entry_text(v2, mname, f, allow) == hook_point_text(
            f.params@,
            f.results@[0],
            abi_name(v2, mname, f.name@),
            trampoline_name(mname, f.name@),
        ) + "\n"@,
{
}

/// Generation is a pure function of (document, variant, allow-list): two runs
/// on the same inputs are pinned to the same text, byte for byte.
pub proof fn lemma_generate_deterministic(
    doc: Document,
    v: AbiVariant,
    allow: Seq<String>,
    r1: Seq<char>,
    r2: Seq<char>,
)
    requires
        r1 == generate_text(doc, v, allow),
        r2 == generate_text(doc, v, allow),
    ensures
        r1 == r2,
{
}

} // verus!
