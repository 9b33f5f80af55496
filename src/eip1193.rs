//! Quirks of injected providers in the parameters they accept.
use vstd::prelude::*;

use crate::numeral::starts_with;

verus! {

/// The one method whose parameters are a single options object rather than a list,
/// and are passed as they are.
pub open spec fn watch_asset_method() -> Seq<char> {
    "wallet_watchAsset"@
}

/// Whether the parameters of `method` are a list whose transaction objects get their
/// `type` field normalized.
pub fn normalizes_params(method: &str) -> (r: bool)
    ensures
        r == (method@ != watch_asset_method()),
{
    proof {
        reveal_strlit("wallet_watchAsset");
    }
    !same_text(method, "wallet_watchAsset")
}

/// The transaction type that a provider expects in place of `ty`: providers take the
/// types `0x1`, `0x2` and `0x3` without a leading zero digit.
pub open spec fn normalized_type(ty: Seq<char>) -> Option<Seq<char>> {
    if ty == "0x01"@ {
        Some("0x1"@)
    } else if ty == "0x02"@ {
        Some("0x2"@)
    } else if ty == "0x03"@ {
        Some("0x3"@)
    } else {
        None
    }
}

/// Whether `s` is exactly `lit`.
fn same_text(s: &str, lit: &str) -> (r: bool)
    ensures
        r == (s@ == lit@),
{
    let n = s.unicode_len();
    if n != lit.unicode_len() {
        return false;
    }
    assert(s@ =~= s@.subrange(0, n as int));
    starts_with(s, lit)
}

/// The replacement for the `type` field `ty` of a transaction object, if it needs one.
pub fn normalize_transaction_type(ty: &str) -> (r: Option<&'static str>)
    ensures
        match normalized_type(ty@) {
            Some(t) => r is Some && r->Some_0@ == t,
            None => r is None,
        },
{
    if same_text(ty, "0x01") {
        Some("0x1")
    } else if same_text(ty, "0x02") {
        Some("0x2")
    } else if same_text(ty, "0x03") {
        Some("0x3")
    } else {
        None
    }
}

} // verus!
