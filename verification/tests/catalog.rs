use token_registry::catalog::popular_tokens;
use token_registry::well_known_list_providers;

#[test]
fn catalog_has_twenty_six_entries() {
    let toks = popular_tokens();
    assert_eq!(toks.len(), 26);
}

#[test]
fn mint_addresses_are_unique() {
    let toks = popular_tokens();
    for i in 0..toks.len() {
        for j in 0..toks.len() {
            if i != j {
                assert_ne!(toks[i].mint_address, toks[j].mint_address);
            }
        }
    }
}

#[test]
fn names_and_symbols_are_nonempty() {
    for t in popular_tokens() {
        assert!(!t.token_name.is_empty());
        assert!(!t.token_symbol.is_empty());
    }
}

#[test]
fn only_wrapped_usdc_is_deprecated() {
    let toks = popular_tokens();
    let mut deprecated: usize = 0;
    for t in &toks {
        assert_eq!(t.deprecated, t.token_symbol == "WUSDC");
        if t.deprecated {
            deprecated += 1;
            assert_eq!(t.token_name, "Wrapped USDC");
        }
    }
    assert_eq!(deprecated, 1);
}

#[test]
fn first_entry_is_wrapped_sol() {
    let toks = popular_tokens();
    assert_eq!(toks[0].token_name, "Wrapped SOL");
    assert_eq!(toks[0].token_symbol, "SOL");
    assert_eq!(
        toks[0].mint_address,
        "So11111111111111111111111111111111111111112"
    );
    assert!(toks[0].icon.is_none());
    assert!(!toks[0].deprecated);
}

#[test]
fn serum_entry_carries_an_icon() {
    let toks = popular_tokens();
    assert_eq!(toks[1].token_symbol, "SRM");
    assert!(toks[1].icon.is_some());
}

#[test]
fn providers_are_the_two_known_urls_in_order() {
    let p = well_known_list_providers();
    assert_eq!(p.len(), 2);
    assert_eq!(p[0], "https://api.raydium.io/cache/solana-token-list");
    assert_eq!(
        p[1],
        "https://raw.githubusercontent.com/solana-labs/token-list/main/src/tokens/solana.tokenlist.json"
    );
    assert_ne!(p[0], p[1]);
}
