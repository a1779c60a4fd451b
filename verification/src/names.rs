//! Derivation of the emitted symbol names and of positional argument names.

use vstd::prelude::*;
use vstd::string::StringExecFns;
use crate::abi::AbiVariant;

verus! {

/// The snake-cased form of a string, as the case-conversion library computes
/// it. The result depends on the input characters alone.
pub uninterp spec fn snake_of(s: Seq<char>) -> Seq<char>;

/// Relies on heck's `ToSnakeCase` for `str`: a pure conversion of the input
/// characters to snake case.
#[verifier::external_body]
fn snake_case(s: &str) -> (r: String)
    ensures
        r@ == snake_of(s@),
{
    heck::ToSnakeCase::to_snake_case(s)
}

/// The decimal digit character for a value below ten.
pub open spec fn digit_char(d: nat) -> char {
    if d == 0 {
        '0'
    } else if d == 1 {
        '1'
    } else if d == 2 {
        '2'
    } else if d == 3 {
        '3'
    } else if d == 4 {
        '4'
    } else if d == 5 {
        '5'
    } else if d == 6 {
        '6'
    } else if d == 7 {
        '7'
    } else if d == 8 {
        '8'
    } else {
        '9'
    }
}

/// The decimal spelling of a natural number, most significant digit first,
/// without leading zeros (`0` spells itself).
pub open spec fn dec_str(n: nat) -> Seq<char>
    decreases n,
{
    if n < 10 {
        seq![digit_char(n)]
    } else {
        dec_str(n / 10) + seq![digit_char(n % 10)]
    }
}

/// The string slice holding one decimal digit.
fn digit_slice(d: usize) -> (r: &'static str)
    requires
        d < 10,
    ensures
        r@ == seq![digit_char(d as nat)],
{
    proof {
        reveal_strlit("0");
        reveal_strlit("1");
        reveal_strlit("2");
        reveal_strlit("3");
        reveal_strlit("4");
        reveal_strlit("5");
        reveal_strlit("6");
        reveal_strlit("7");
        reveal_strlit("8");
        reveal_strlit("9");
    }
    let r = match d {
        0 => "0",
        1 => "1",
        2 => "2",
        3 => "3",
        4 => "4",
        5 => "5",
        6 => "6",
        7 => "7",
        8 => "8",
        _ => "9",
    };
    proof {
        assert(r@ =~= seq![digit_char(d as nat)]);
    }
    r
}

/// Append the decimal spelling of `n` to the output buffer.
pub fn push_dec(n: usize, out: &mut String)
    ensures
        final(out)@ == old(out)@ + dec_str(n as nat),
    decreases n,
{
    if n >= 10 {
        push_dec(n / 10, out);
        out.append(digit_slice(n % 10));
        proof {
            assert(out@ =~= old(out)@ + dec_str(n as nat));
        }
    } else {
        out.append(digit_slice(n));
    }
}

/// The positional name of the parameter at `i`: `arg` followed by the decimal
/// index.
pub open spec fn arg_name(i: nat) -> Seq<char> {
    "arg"@ + dec_str(i)
}

/// Append the positional parameter name `arg<i>` to the output buffer.
pub fn push_arg_name(i: usize, out: &mut String)
    ensures
        final(out)@ == old(out)@ + arg_name(i as nat),
{
    out.append("arg");
    push_dec(i, out);
    proof {
        assert(out@ =~= old(out)@ + arg_name(i as nat));
    }
}

/// The externally-visible symbol name for a hook function under a variant.
/// The latest variant carries the snake-cased module name; the legacy variant
/// deliberately leaves the module name out.
pub open spec fn abi_name(v: AbiVariant, module_name: Seq<char>, fn_name: Seq<char>) -> Seq<char> {
    match v {
        AbiVariant::Latest => "__imported_"@ + snake_of(module_name) + "_"@ + snake_of(fn_name),
        AbiVariant::Legacy => "__wasi_"@ + snake_of(fn_name),
    }
}

/// The internal trampoline symbol name for a (module, function) pair. It does
/// not depend on the ABI variant.
pub open spec fn trampoline_name(module_name: Seq<char>, fn_name: Seq<char>) -> Seq<char> {
    "wasi_vfs_"@ + snake_of(module_name) + "_"@ + snake_of(fn_name)
}

/// Build the externally-visible symbol name for a hook function.
pub fn abi_symbol_name(variant: AbiVariant, module_name: &str, fn_name: &str) -> (r: String)
    ensures
        r@ == abi_name(variant, module_name@, fn_name@),
{
    match variant {
        AbiVariant::Latest => {
            let mut name = String::new();
            name.append("__imported_");
            name.append(snake_case(module_name).as_str());
            name.append("_");
            name.append(snake_case(fn_name).as_str());
            proof {
                assert(name@ =~= abi_name(variant, module_name@, fn_name@));
            }
            name
        },
        AbiVariant::Legacy => {
            let mut name = String::new();
            name.append("__wasi_");
            name.append(snake_case(fn_name).as_str());
            name
        },
    }
}

/// Build the internal trampoline symbol name for a (module, function) pair.
pub fn trampoline_symbol_name(module_name: &str, fn_name: &str) -> (r: String)
    ensures
        r@ == trampoline_name(module_name@, fn_name@),
{
    let mut name = String::new();
    name.append("wasi_vfs_");
    name.append(snake_case(module_name).as_str());
    name.append("_");
    name.append(snake_case(fn_name).as_str());
    proof {
        assert(name@ =~= trampoline_name(module_name@, fn_name@));
    }
    name
}

/// A legacy-variant external name never includes the module name: it is the
/// same whatever module the function sits in.
pub proof fn lemma_legacy_name_module_independent(m1: Seq<char>, m2: Seq<char>, f: Seq<char>)
    ensures
        abi_name(AbiVariant::Legacy, m1, f) == abi_name(AbiVariant::Legacy, m2, f),
{
}

/// A latest-variant external name always carries the snake-cased module name
/// immediately after the `__imported_` prefix.
pub proof fn lemma_latest_name_structure(m: Seq<char>, f: Seq<char>)
    ensures
        abi_name(AbiVariant::Latest, m, f).take(11) == "__imported_"@,
        abi_name(AbiVariant::Latest, m, f).skip(11).take(snake_of(m).len() as int) == snake_of(m),
{
    reveal_strlit("__imported_");
    assert(abi_name(AbiVariant::Latest, m, f).take(11) =~= "__imported_"@);
    assert(abi_name(AbiVariant::Latest, m, f).skip(11).take(snake_of(m).len() as int)
        =~= snake_of(m));
}

} // verus!
