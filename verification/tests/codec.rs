use token_registry::dynamic::DynamicTokenInfo;
use token_registry::dynamic::DynamicTokenList;
use token_registry::json::entry_from_json;
use token_registry::json::entry_to_json;
use token_registry::json::list_from_json;
use token_registry::json::list_to_json;
use token_registry::json::FormatError;

fn sample_entry() -> DynamicTokenInfo {
    DynamicTokenInfo {
        address: "EPjFWdd5AufqSSqeM2qN1xzybapC8G4wEGGkZwyTDt1v".to_string(),
        symbol: "USDC".to_string(),
        name: "USD Coin".to_string(),
        decimals: 6,
        logoURI: "https://example.org/usdc.png".to_string(),
        tags: vec!["stablecoin".to_string(), "payments".to_string()],
    }
}

#[test]
fn entry_round_trip_with_multiple_tags() {
    let e = sample_entry();
    let text = entry_to_json(&e);
    let back = entry_from_json(&text).unwrap();
    assert_eq!(back, e);
}

#[test]
fn entry_round_trip_with_empty_tags() {
    let mut e = sample_entry();
    e.tags = Vec::new();
    let text = entry_to_json(&e);
    let back = entry_from_json(&text).unwrap();
    assert_eq!(back, e);
}

#[test]
fn entry_round_trip_with_empty_strings_and_extreme_decimals() {
    for decimals in [0u8, 255u8] {
        let e = DynamicTokenInfo {
            address: String::new(),
            symbol: String::new(),
            name: String::new(),
            decimals,
            logoURI: String::new(),
            tags: Vec::new(),
        };
        let text = entry_to_json(&e);
        let back = entry_from_json(&text).unwrap();
        assert_eq!(back, e);
    }
}

#[test]
fn entry_round_trip_with_quotes_and_backslashes() {
    let mut e = sample_entry();
    e.name = "a\"b\\c".to_string();
    e.tags = vec!["\\".to_string(), "\"\"".to_string()];
    let text = entry_to_json(&e);
    let back = entry_from_json(&text).unwrap();
    assert_eq!(back, e);
}

#[test]
fn exact_written_form_of_an_entry() {
    let e = DynamicTokenInfo {
        address: "a".to_string(),
        symbol: "s".to_string(),
        name: "n".to_string(),
        decimals: 7,
        logoURI: "u".to_string(),
        tags: vec!["t1".to_string(), "t2".to_string()],
    };
    let text = entry_to_json(&e);
    assert_eq!(
        text,
        "{\"address\":\"a\",\"symbol\":\"s\",\"name\":\"n\",\"decimals\":7,\"logoURI\":\"u\",\"tags\":[\"t1\",\"t2\"]}"
    );
}

#[test]
fn list_round_trip_empty_and_filled() {
    let empty = DynamicTokenList { tokens: Vec::new() };
    let text = list_to_json(&empty);
    assert_eq!(text, "{\"tokens\":[]}");
    assert_eq!(list_from_json(&text).unwrap(), empty);

    let mut second = sample_entry();
    second.symbol = "SOL".to_string();
    second.decimals = 9;
    let l = DynamicTokenList {
        tokens: vec![sample_entry(), second, sample_entry()],
    };
    let text = list_to_json(&l);
    let back = list_from_json(&text).unwrap();
    assert_eq!(back, l);
}

#[test]
fn missing_decimals_field_fails() {
    let doc = "{\"address\":\"a\",\"symbol\":\"s\",\"name\":\"n\",\"logoURI\":\"u\",\"tags\":[]}";
    assert_eq!(entry_from_json(doc), Err(FormatError));
}

#[test]
fn wrongly_typed_decimals_field_fails() {
    let doc =
        "{\"address\":\"a\",\"symbol\":\"s\",\"name\":\"n\",\"decimals\":\"7\",\"logoURI\":\"u\",\"tags\":[]}";
    assert_eq!(entry_from_json(doc), Err(FormatError));
}

#[test]
fn out_of_range_or_padded_decimals_fail() {
    let over =
        "{\"address\":\"a\",\"symbol\":\"s\",\"name\":\"n\",\"decimals\":256,\"logoURI\":\"u\",\"tags\":[]}";
    assert_eq!(entry_from_json(over), Err(FormatError));
    let padded =
        "{\"address\":\"a\",\"symbol\":\"s\",\"name\":\"n\",\"decimals\":07,\"logoURI\":\"u\",\"tags\":[]}";
    assert_eq!(entry_from_json(padded), Err(FormatError));
}

#[test]
fn trailing_text_fails() {
    let e = sample_entry();
    let mut text = entry_to_json(&e);
    text.push(' ');
    assert_eq!(entry_from_json(&text), Err(FormatError));
}

#[test]
fn handwritten_document_parses() {
    let doc = "{\"address\":\"So11111111111111111111111111111111111111112\",\"symbol\":\"SOL\",\"name\":\"Wrapped SOL\",\"decimals\":9,\"logoURI\":\"\",\"tags\":[\"wrapped\"]}";
    let e = entry_from_json(doc).unwrap();
    assert_eq!(e.address, "So11111111111111111111111111111111111111112");
    assert_eq!(e.symbol, "SOL");
    assert_eq!(e.name, "Wrapped SOL");
    assert_eq!(e.decimals, 9);
    assert_eq!(e.logoURI, "");
    assert_eq!(e.tags, vec!["wrapped".to_string()]);
}

#[test]
fn handwritten_escapes_are_unescaped() {
    let doc = "{\"address\":\"a\\\"b\",\"symbol\":\"s\\\\t\",\"name\":\"n\",\"decimals\":1,\"logoURI\":\"u\",\"tags\":[]}";
    let e = entry_from_json(doc).unwrap();
    assert_eq!(e.address, "a\"b");
    assert_eq!(e.symbol, "s\\t");
}

#[test]
fn written_entry_is_json_with_the_schema_keys() {
    let e = sample_entry();
    let text = entry_to_json(&e);
    let v: serde_json::Value = serde_json::from_str(&text).unwrap();
    assert_eq!(
        v["address"].as_str().unwrap(),
        "EPjFWdd5AufqSSqeM2qN1xzybapC8G4wEGGkZwyTDt1v"
    );
    assert_eq!(v["symbol"].as_str().unwrap(), "USDC");
    assert_eq!(v["name"].as_str().unwrap(), "USD Coin");
    assert_eq!(v["decimals"].as_u64().unwrap(), 6);
    assert_eq!(v["logoURI"].as_str().unwrap(), "https://example.org/usdc.png");
    assert_eq!(v["tags"][0].as_str().unwrap(), "stablecoin");
    assert_eq!(v["tags"][1].as_str().unwrap(), "payments");
}

#[test]
fn written_list_is_json_with_the_tokens_key() {
    let l = DynamicTokenList {
        tokens: vec![sample_entry()],
    };
    let text = list_to_json(&l);
    let v: serde_json::Value = serde_json::from_str(&text).unwrap();
    assert_eq!(v["tokens"][0]["symbol"].as_str().unwrap(), "USDC");
}

#[test]
fn default_values_are_empty_and_equal() {
    let a = DynamicTokenList::default();
    let b = DynamicTokenList::default();
    assert_eq!(a.tokens.len(), 0);
    assert!(a == b);

    let e = DynamicTokenInfo::default();
    assert_eq!(e.address, "");
    assert_eq!(e.symbol, "");
    assert_eq!(e.name, "");
    assert_eq!(e.decimals, 0);
    assert_eq!(e.logoURI, "");
    assert!(e.tags.is_empty());
}
