use vstd::prelude::*;

pub mod catalog;
pub mod dynamic;
pub mod json;

verus! {

/// URLs of the known remote publishers of dynamic token lists, in the
/// order they are preferred. This module only names the sources; fetching
/// and parsing their documents is the caller's business.
pub fn well_known_list_providers() -> (r: Vec<String>)
    ensures
        r@.len() == 2,
        r@[0]@ == "https://api.raydium.io/cache/solana-token-list"@,
        r@[1]@ == "https://raw.githubusercontent.com/solana-labs/token-list/main/src/tokens/solana.tokenlist.json"@,
        r@[0]@ != r@[1]@,
{
    let mut v: Vec<String> = Vec::new();
    v.push(String::from_str("https://api.raydium.io/cache/solana-token-list"));
    v.push(String::from_str(
        "https://raw.githubusercontent.com/solana-labs/token-list/main/src/tokens/solana.tokenlist.json",
    ));
    proof {
        reveal_strlit("https://api.raydium.io/cache/solana-token-list");
        reveal_strlit(
            "https://raw.githubusercontent.com/solana-labs/token-list/main/src/tokens/solana.tokenlist.json",
        );
        assert(v@[0]@.len() != v@[1]@.len());
    }
    v
}

} // verus!
