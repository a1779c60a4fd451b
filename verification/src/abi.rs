//! The ABI-variant selector and its textual configuration token.

use vstd::prelude::*;
use vstd::string::StringExecFns;

verus! {

/// The two naming/calling conventions a generation run can target. The
/// variant affects only the externally-visible symbol names.
#[derive(Debug, Clone, Copy, PartialEq, Eq, Structural)]
pub enum AbiVariant {
    Legacy,
    Latest,
}

/// The message reported for an unrecognized ABI-variant token: it embeds the
/// offending token itself.
pub open spec fn bad_variant_message(token: Seq<char>) -> Seq<char> {
    "unsupported abi variant "@ + token
}

/// Character-for-character equality of two string slices.
fn str_eq(a: &str, b: &str) -> (r: bool)
    ensures
        r == (a@ == b@),
{
    let sa: String = a.to_owned();
    let sb: String = b.to_owned();
    sa == sb
}

impl AbiVariant {
    /// Parse the configuration token naming an ABI variant. `legacy` and
    /// `latest` are the only recognized tokens; any other token is a
    /// configuration error whose message embeds the token.
    pub fn from_str(s: &str) -> (r: Result<AbiVariant, String>)
        ensures
            s@ == "legacy"@ ==> r == Ok::<AbiVariant, String>(AbiVariant::Legacy),
            s@ == "latest"@ ==> r == Ok::<AbiVariant, String>(AbiVariant::Latest),
            s@ != "legacy"@ && s@ != "latest"@ ==> {
                &&& r is Err
                &&& r->Err_0@ == bad_variant_message(s@)
            },
    {
        proof {
            reveal_strlit("legacy");
            reveal_strlit("latest");
            assert("legacy"@ != "latest"@) by {
                assert("legacy"@[1] == 'e' && "latest"@[1] == 'a');
            }
        }
        if str_eq(s, "legacy") {
            Ok(AbiVariant::Legacy)
        } else if str_eq(s, "latest") {
            Ok(AbiVariant::Latest)
        } else {
            let mut msg = String::new();
            msg.append("unsupported abi variant ");
            msg.append(s);
            Err(msg)
        }
    }
}

} // verus!
