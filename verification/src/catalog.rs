use vstd::prelude::*;

verus! {

/// One record of the static, compiled-in token catalog.
#[derive(Debug, Copy, Clone)]
pub struct TokenInfo {
    pub token_name: &'static str,
    pub token_symbol: &'static str,
    pub mint_address: &'static str,
    pub icon: Option<&'static str>,
    pub deprecated: bool,
}

/// The mathematical content of a catalog record: its text fields as
/// character sequences.
pub ghost struct TokenInfoView {
    pub token_name: Seq<char>,
    pub token_symbol: Seq<char>,
    pub mint_address: Seq<char>,
    pub icon: Option<Seq<char>>,
    pub deprecated: bool,
}

impl View for TokenInfo {
    type V = TokenInfoView;

    open spec fn view(&self) -> TokenInfoView {
        TokenInfoView {
            token_name: self.token_name@,
            token_symbol: self.token_symbol@,
            mint_address: self.mint_address@,
            icon: match self.icon {
                Some(s) => Some(s@),
                None => None,
            },
            deprecated: self.deprecated,
        }
    }
}

/// The catalog of well-known tokens, as a sequence of records.
pub open spec fn popular_tokens_view() -> Seq<TokenInfoView> {
    seq![
        TokenInfoView {
            token_name: "Wrapped SOL"@,
            token_symbol: "SOL"@,
            mint_address: "So11111111111111111111111111111111111111112"@,
            icon: None,
            deprecated: false,
        },
        TokenInfoView {
            token_name: "Serum"@,
            token_symbol: "SRM"@,
            mint_address: "SRMuApVNdxXokk5GT7XD5cUUgXMBCoAz2LHeuAoKWRt"@,
            icon: Some("https://raw.githubusercontent.com/trustwallet/assets/master/blockchains/ethereum/assets/0x476c5E26a75bd202a9683ffD34359C0CC15be0fF/logo.png"@),
            deprecated: false,
        },
        TokenInfoView {
            token_name: "MegaSerum"@,
            token_symbol: "MSRM"@,
            mint_address: "MSRMcoVyrFxnSgo5uXwone5SKcGhT1KEJMFEkMEWf9L"@,
            icon: Some("https://raw.githubusercontent.com/trustwallet/assets/master/blockchains/ethereum/assets/0x476c5E26a75bd202a9683ffD34359C0CC15be0fF/logo.png"@),
            deprecated: false,
        },
        TokenInfoView {
            token_name: "Wrapped Bitcoin"@,
            token_symbol: "BTC"@,
            mint_address: "9n4nbM75f5Ui33ZbPYXn59EwSgE8CGsHtAeTH5YFeJ9E"@,
            icon: Some("https://raw.githubusercontent.com/trustwallet/assets/master/blockchains/bitcoin/info/logo.png"@),
            deprecated: false,
        },
        TokenInfoView {
            token_name: "Wrapped Ethereum"@,
            token_symbol: "ETH"@,
            mint_address: "2FPyTwcZLUg1MDrwsyoP4D6s1tM7hAkHYRjkNb5w6Pxk"@,
            icon: Some("https://raw.githubusercontent.com/trustwallet/assets/master/blockchains/ethereum/assets/0xC02aaA39b223FE8D0A0e5C4F27eAD9083C756Cc2/logo.png"@),
            deprecated: false,
        },
        TokenInfoView {
            token_name: "Wrapped FTT"@,
            token_symbol: "FTT"@,
            mint_address: "AGFEad2et2ZJif9jaGpdMixQqvW5i81aBdvKe7PHNfz3"@,
            icon: Some("https://raw.githubusercontent.com/trustwallet/assets/f3ffd0b9ae2165336279ce2f8db1981a55ce30f8/blockchains/ethereum/assets/0x50D1c9771902476076eCFc8B2A83Ad6b9355a4c9/logo.png"@),
            deprecated: false,
        },
        TokenInfoView {
            token_name: "Wrapped YFI"@,
            token_symbol: "YFI"@,
            mint_address: "3JSf5tPeuscJGtaCp5giEiDhv51gQ4v3zWg8DGgyLfAB"@,
            icon: Some("https://raw.githubusercontent.com/trustwallet/assets/master/blockchains/ethereum/assets/0x0bc529c00C6401aEF6D220BE8C6Ea1667F6Ad93e/logo.png"@),
            deprecated: false,
        },
        TokenInfoView {
            token_name: "Wrapped Chainlink"@,
            token_symbol: "LINK"@,
            mint_address: "CWE8jPTUYhdCTZYWPTe1o5DFqfdjzWKc9WKz6rSjQUdG"@,
            icon: Some("https://raw.githubusercontent.com/trustwallet/assets/master/blockchains/ethereum/assets/0x514910771AF9Ca656af840dff83E8264EcF986CA/logo.png"@),
            deprecated: false,
        },
        TokenInfoView {
            token_name: "Wrapped XRP"@,
            token_symbol: "XRP"@,
            mint_address: "Ga2AXHpfAF6mv2ekZwcsJFqu7wB4NV331qNH7fW9Nst8"@,
            icon: Some("https://raw.githubusercontent.com/trustwallet/assets/master/blockchains/ripple/info/logo.png"@),
            deprecated: false,
        },
        TokenInfoView {
            token_name: "Wrapped USDT"@,
            token_symbol: "USDT"@,
            mint_address: "BQcdHdAQW1hczDbBi9hiegXAR7A98Q9jx3X3iBBBDiq4"@,
            icon: Some("https://raw.githubusercontent.com/trustwallet/assets/f3ffd0b9ae2165336279ce2f8db1981a55ce30f8/blockchains/ethereum/assets/0xdAC17F958D2ee523a2206206994597C13D831ec7/logo.png"@),
            deprecated: false,
        },
        TokenInfoView {
            token_name: "USD Coin"@,
            token_symbol: "USDC"@,
            mint_address: "EPjFWdd5AufqSSqeM2qN1xzybapC8G4wEGGkZwyTDt1v"@,
            icon: Some("https://raw.githubusercontent.com/trustwallet/assets/f3ffd0b9ae2165336279ce2f8db1981a55ce30f8/blockchains/ethereum/assets/0xA0b86991c6218b36c1d19D4a2e9Eb0cE3606eB48/logo.png"@),
            deprecated: false,
        },
        TokenInfoView {
            token_name: "Wrapped USDC"@,
            token_symbol: "WUSDC"@,
            mint_address: "BXXkv6z8ykpG1yuvUDPgh732wzVHB69RnB9YgSYh3itW"@,
            icon: Some("https://raw.githubusercontent.com/trustwallet/assets/f3ffd0b9ae2165336279ce2f8db1981a55ce30f8/blockchains/ethereum/assets/0xA0b86991c6218b36c1d19D4a2e9Eb0cE3606eB48/logo.png"@),
            deprecated: true,
        },
        TokenInfoView {
            token_name: "Wrapped SUSHI"@,
            token_symbol: "SUSHI"@,
            mint_address: "AR1Mtgh7zAtxuxGd2XPovXPVjcSdY3i4rQYisNadjfKy"@,
            icon: Some("https://raw.githubusercontent.com/trustwallet/assets/master/blockchains/ethereum/assets/0x6B3595068778DD592e39A122f4f5a5cF09C90fE2/logo.png"@),
            deprecated: false,
        },
        TokenInfoView {
            token_name: "Wrapped ALEPH"@,
            token_symbol: "ALEPH"@,
            mint_address: "CsZ5LZkDS7h9TDKjrbL7VAwQZ9nsRu8vJLhRYfmGaN8K"@,
            icon: Some("https://raw.githubusercontent.com/trustwallet/assets/6996a371cd02f516506a8f092eeb29888501447c/blockchains/nuls/assets/NULSd6HgyZkiqLnBzTaeSQfx1TNg2cqbzq51h/logo.png"@),
            deprecated: false,
        },
        TokenInfoView {
            token_name: "Wrapped SXP"@,
            token_symbol: "SXP"@,
            mint_address: "SF3oTvfWzEP3DTwGSvUXRrGTvr75pdZNnBLAH9bzMuX"@,
            icon: Some("https://github.com/trustwallet/assets/raw/b0ab88654fe64848da80d982945e4db06e197d4f/blockchains/ethereum/assets/0x8CE9137d39326AD0cD6491fb5CC0CbA0e089b6A9/logo.png"@),
            deprecated: false,
        },
        TokenInfoView {
            token_name: "Wrapped HGET"@,
            token_symbol: "HGET"@,
            mint_address: "BtZQfWqDGbk9Wf2rXEiWyQBdBY1etnUUn6zEphvVS7yN"@,
            icon: None,
            deprecated: false,
        },
        TokenInfoView {
            token_name: "Wrapped CREAM"@,
            token_symbol: "CREAM"@,
            mint_address: "5Fu5UUgbjpUvdBveb3a1JTNirL8rXtiYeSMWvKjtUNQv"@,
            icon: Some("https://raw.githubusercontent.com/trustwallet/assets/4c82c2a409f18a4dd96a504f967a55a8fe47026d/blockchains/smartchain/assets/0xd4CB328A82bDf5f03eB737f37Fa6B370aef3e888/logo.png"@),
            deprecated: false,
        },
        TokenInfoView {
            token_name: "Wrapped UBXT"@,
            token_symbol: "UBXT"@,
            mint_address: "873KLxCbz7s9Kc4ZzgYRtNmhfkQrhfyWGZJBmyCbC3ei"@,
            icon: None,
            deprecated: false,
        },
        TokenInfoView {
            token_name: "Wrapped HNT"@,
            token_symbol: "HNT"@,
            mint_address: "HqB7uswoVg4suaQiDP3wjxob1G5WdZ144zhdStwMCq7e"@,
            icon: None,
            deprecated: false,
        },
        TokenInfoView {
            token_name: "Wrapped FRONT"@,
            token_symbol: "FRONT"@,
            mint_address: "9S4t2NEAiJVMvPdRYKVrfJpBafPBLtvbvyS3DecojQHw"@,
            icon: Some("https://raw.githubusercontent.com/trustwallet/assets/6e375e4e5fb0ffe09ed001bae1ef8ca1d6c86034/blockchains/ethereum/assets/0xf8C3527CC04340b208C854E985240c02F7B7793f/logo.png"@),
            deprecated: false,
        },
        TokenInfoView {
            token_name: "Wrapped AKRO"@,
            token_symbol: "AKRO"@,
            mint_address: "6WNVCuxCGJzNjmMZoKyhZJwvJ5tYpsLyAtagzYASqBoF"@,
            icon: Some("https://raw.githubusercontent.com/trustwallet/assets/878dcab0fab90e6593bcb9b7d941be4915f287dc/blockchains/ethereum/assets/0xb2734a4Cec32C81FDE26B0024Ad3ceB8C9b34037/logo.png"@),
            deprecated: false,
        },
        TokenInfoView {
            token_name: "Wrapped HXRO"@,
            token_symbol: "HXRO"@,
            mint_address: "DJafV9qemGp7mLMEn5wrfqaFwxsbLgUsGVS16zKRk9kc"@,
            icon: None,
            deprecated: false,
        },
        TokenInfoView {
            token_name: "Wrapped UNI"@,
            token_symbol: "UNI"@,
            mint_address: "DEhAasscXF4kEGxFgJ3bq4PpVGp5wyUxMRvn6TzGVHaw"@,
            icon: Some("https://raw.githubusercontent.com/trustwallet/assets/08d734b5e6ec95227dc50efef3a9cdfea4c398a1/blockchains/ethereum/assets/0x1f9840a85d5aF5bf1D1762F925BDADdC4201F984/logo.png"@),
            deprecated: false,
        },
        TokenInfoView {
            token_name: "Wrapped MATH"@,
            token_symbol: "MATH"@,
            mint_address: "GeDS162t9yGJuLEHPWXXGrb1zwkzinCgRwnT8vHYjKza"@,
            icon: None,
            deprecated: false,
        },
        TokenInfoView {
            token_name: "Wrapped TOMO"@,
            token_symbol: "TOMO"@,
            mint_address: "GXMvfY2jpQctDqZ9RoU3oWPhufKiCcFEfchvYumtX7jd"@,
            icon: Some("https://raw.githubusercontent.com/trustwallet/assets/08d734b5e6ec95227dc50efef3a9cdfea4c398a1/blockchains/tomochain/info/logo.png"@),
            deprecated: false,
        },
        TokenInfoView {
            token_name: "Wrapped LUA"@,
            token_symbol: "LUA"@,
            mint_address: "EqWCKXfs3x47uVosDpTRgFniThL9Y8iCztJaapxbEaVX"@,
            icon: None,
            deprecated: false,
        },
    ]
}

/// The catalog of well-known tokens. The sequence is fixed at build time
/// and callers only read it; its order is the order the records were
/// authored in.
pub fn popular_tokens() -> (r: Vec<TokenInfo>)
    ensures
        r@.len() == 26,
        forall|i: int| 0 <= i < 26 ==> #[trigger] r@[i]@ == popular_tokens_view()[i],
{
    let mut v: Vec<TokenInfo> = Vec::new();
    v.push(TokenInfo {
        token_name: "Wrapped SOL",
        token_symbol: "SOL",
        mint_address: "So11111111111111111111111111111111111111112",
        icon: None,
        deprecated: false,
    });
    v.push(TokenInfo {
        token_name: "Serum",
        token_symbol: "SRM",
        mint_address: "SRMuApVNdxXokk5GT7XD5cUUgXMBCoAz2LHeuAoKWRt",
        icon: Some("https://raw.githubusercontent.com/trustwallet/assets/master/blockchains/ethereum/assets/0x476c5E26a75bd202a9683ffD34359C0CC15be0fF/logo.png"),
        deprecated: false,
    });
    v.push(TokenInfo {
        token_name: "MegaSerum",
        token_symbol: "MSRM",
        mint_address: "MSRMcoVyrFxnSgo5uXwone5SKcGhT1KEJMFEkMEWf9L",
        icon: Some("https://raw.githubusercontent.com/trustwallet/assets/master/blockchains/ethereum/assets/0x476c5E26a75bd202a9683ffD34359C0CC15be0fF/logo.png"),
        deprecated: false,
    });
    v.push(TokenInfo {
        token_name: "Wrapped Bitcoin",
        token_symbol: "BTC",
        mint_address: "9n4nbM75f5Ui33ZbPYXn59EwSgE8CGsHtAeTH5YFeJ9E",
        icon: Some("https://raw.githubusercontent.com/trustwallet/assets/master/blockchains/bitcoin/info/logo.png"),
        deprecated: false,
    });
    v.push(TokenInfo {
        token_name: "Wrapped Ethereum",
        token_symbol: "ETH",
        mint_address: "2FPyTwcZLUg1MDrwsyoP4D6s1tM7hAkHYRjkNb5w6Pxk",
        icon: Some("https://raw.githubusercontent.com/trustwallet/assets/master/blockchains/ethereum/assets/0xC02aaA39b223FE8D0A0e5C4F27eAD9083C756Cc2/logo.png"),
        deprecated: false,
    });
    v.push(TokenInfo {
        token_name: "Wrapped FTT",
        token_symbol: "FTT",
        mint_address: "AGFEad2et2ZJif9jaGpdMixQqvW5i81aBdvKe7PHNfz3",
        icon: Some("https://raw.githubusercontent.com/trustwallet/assets/f3ffd0b9ae2165336279ce2f8db1981a55ce30f8/blockchains/ethereum/assets/0x50D1c9771902476076eCFc8B2A83Ad6b9355a4c9/logo.png"),
        deprecated: false,
    });
    v.push(TokenInfo {
        token_name: "Wrapped YFI",
        token_symbol: "YFI",
        mint_address: "3JSf5tPeuscJGtaCp5giEiDhv51gQ4v3zWg8DGgyLfAB",
        icon: Some("https://raw.githubusercontent.com/trustwallet/assets/master/blockchains/ethereum/assets/0x0bc529c00C6401aEF6D220BE8C6Ea1667F6Ad93e/logo.png"),
        deprecated: false,
    });
    v.push(TokenInfo {
        token_name: "Wrapped Chainlink",
        token_symbol: "LINK",
        mint_address: "CWE8jPTUYhdCTZYWPTe1o5DFqfdjzWKc9WKz6rSjQUdG",
        icon: Some("https://raw.githubusercontent.com/trustwallet/assets/master/blockchains/ethereum/assets/0x514910771AF9Ca656af840dff83E8264EcF986CA/logo.png"),
        deprecated: false,
    });
    v.push(TokenInfo {
        token_name: "Wrapped XRP",
        token_symbol: "XRP",
        mint_address: "Ga2AXHpfAF6mv2ekZwcsJFqu7wB4NV331qNH7fW9Nst8",
        icon: Some("https://raw.githubusercontent.com/trustwallet/assets/master/blockchains/ripple/info/logo.png"),
        deprecated: false,
    });
    v.push(TokenInfo {
        token_name: "Wrapped USDT",
        token_symbol: "USDT",
        mint_address: "BQcdHdAQW1hczDbBi9hiegXAR7A98Q9jx3X3iBBBDiq4",
        icon: Some("https://raw.githubusercontent.com/trustwallet/assets/f3ffd0b9ae2165336279ce2f8db1981a55ce30f8/blockchains/ethereum/assets/0xdAC17F958D2ee523a2206206994597C13D831ec7/logo.png"),
        deprecated: false,
    });
    v.push(TokenInfo {
        token_name: "USD Coin",
        token_symbol: "USDC",
        mint_address: "EPjFWdd5AufqSSqeM2qN1xzybapC8G4wEGGkZwyTDt1v",
        icon: Some("https://raw.githubusercontent.com/trustwallet/assets/f3ffd0b9ae2165336279ce2f8db1981a55ce30f8/blockchains/ethereum/assets/0xA0b86991c6218b36c1d19D4a2e9Eb0cE3606eB48/logo.png"),
        deprecated: false,
    });
    v.push(TokenInfo {
        token_name: "Wrapped USDC",
        token_symbol: "WUSDC",
        mint_address: "BXXkv6z8ykpG1yuvUDPgh732wzVHB69RnB9YgSYh3itW",
        icon: Some("https://raw.githubusercontent.com/trustwallet/assets/f3ffd0b9ae2165336279ce2f8db1981a55ce30f8/blockchains/ethereum/assets/0xA0b86991c6218b36c1d19D4a2e9Eb0cE3606eB48/logo.png"),
        deprecated: true,
    });
    v.push(TokenInfo {
        token_name: "Wrapped SUSHI",
        token_symbol: "SUSHI",
        mint_address: "AR1Mtgh7zAtxuxGd2XPovXPVjcSdY3i4rQYisNadjfKy",
        icon: Some("https://raw.githubusercontent.com/trustwallet/assets/master/blockchains/ethereum/assets/0x6B3595068778DD592e39A122f4f5a5cF09C90fE2/logo.png"),
        deprecated: false,
    });
    v.push(TokenInfo {
        token_name: "Wrapped ALEPH",
        token_symbol: "ALEPH",
        mint_address: "CsZ5LZkDS7h9TDKjrbL7VAwQZ9nsRu8vJLhRYfmGaN8K",
        icon: Some("https://raw.githubusercontent.com/trustwallet/assets/6996a371cd02f516506a8f092eeb29888501447c/blockchains/nuls/assets/NULSd6HgyZkiqLnBzTaeSQfx1TNg2cqbzq51h/logo.png"),
        deprecated: false,
    });
    v.push(TokenInfo {
        token_name: "Wrapped SXP",
        token_symbol: "SXP",
        mint_address: "SF3oTvfWzEP3DTwGSvUXRrGTvr75pdZNnBLAH9bzMuX",
        icon: Some("https://github.com/trustwallet/assets/raw/b0ab88654fe64848da80d982945e4db06e197d4f/blockchains/ethereum/assets/0x8CE9137d39326AD0cD6491fb5CC0CbA0e089b6A9/logo.png"),
        deprecated: false,
    });
    v.push(TokenInfo {
        token_name: "Wrapped HGET",
        token_symbol: "HGET",
        mint_address: "BtZQfWqDGbk9Wf2rXEiWyQBdBY1etnUUn6zEphvVS7yN",
        icon: None,
        deprecated: false,
    });
    v.push(TokenInfo {
        token_name: "Wrapped CREAM",
        token_symbol: "CREAM",
        mint_address: "5Fu5UUgbjpUvdBveb3a1JTNirL8rXtiYeSMWvKjtUNQv",
        icon: Some("https://raw.githubusercontent.com/trustwallet/assets/4c82c2a409f18a4dd96a504f967a55a8fe47026d/blockchains/smartchain/assets/0xd4CB328A82bDf5f03eB737f37Fa6B370aef3e888/logo.png"),
        deprecated: false,
    });
    v.push(TokenInfo {
        token_name: "Wrapped UBXT",
        token_symbol: "UBXT",
        mint_address: "873KLxCbz7s9Kc4ZzgYRtNmhfkQrhfyWGZJBmyCbC3ei",
        icon: None,
        deprecated: false,
    });
    v.push(TokenInfo {
        token_name: "Wrapped HNT",
        token_symbol: "HNT",
        mint_address: "HqB7uswoVg4suaQiDP3wjxob1G5WdZ144zhdStwMCq7e",
        icon: None,
        deprecated: false,
    });
    v.push(TokenInfo {
        token_name: "Wrapped FRONT",
        token_symbol: "FRONT",
        mint_address: "9S4t2NEAiJVMvPdRYKVrfJpBafPBLtvbvyS3DecojQHw",
        icon: Some("https://raw.githubusercontent.com/trustwallet/assets/6e375e4e5fb0ffe09ed001bae1ef8ca1d6c86034/blockchains/ethereum/assets/0xf8C3527CC04340b208C854E985240c02F7B7793f/logo.png"),
        deprecated: false,
    });
    v.push(TokenInfo {
        token_name: "Wrapped AKRO",
        token_symbol: "AKRO",
        mint_address: "6WNVCuxCGJzNjmMZoKyhZJwvJ5tYpsLyAtagzYASqBoF",
        icon: Some("https://raw.githubusercontent.com/trustwallet/assets/878dcab0fab90e6593bcb9b7d941be4915f287dc/blockchains/ethereum/assets/0xb2734a4Cec32C81FDE26B0024Ad3ceB8C9b34037/logo.png"),
        deprecated: false,
    });
    v.push(TokenInfo {
        token_name: "Wrapped HXRO",
        token_symbol: "HXRO",
        mint_address: "DJafV9qemGp7mLMEn5wrfqaFwxsbLgUsGVS16zKRk9kc",
        icon: None,
        deprecated: false,
    });
    v.push(TokenInfo {
        token_name: "Wrapped UNI",
        token_symbol: "UNI",
        mint_address: "DEhAasscXF4kEGxFgJ3bq4PpVGp5wyUxMRvn6TzGVHaw",
        icon: Some("https://raw.githubusercontent.com/trustwallet/assets/08d734b5e6ec95227dc50efef3a9cdfea4c398a1/blockchains/ethereum/assets/0x1f9840a85d5aF5bf1D1762F925BDADdC4201F984/logo.png"),
        deprecated: false,
    });
    v.push(TokenInfo {
        token_name: "Wrapped MATH",
        token_symbol: "MATH",
        mint_address: "GeDS162t9yGJuLEHPWXXGrb1zwkzinCgRwnT8vHYjKza",
        icon: None,
        deprecated: false,
    });
    v.push(TokenInfo {
        token_name: "Wrapped TOMO",
        token_symbol: "TOMO",
        mint_address: "GXMvfY2jpQctDqZ9RoU3oWPhufKiCcFEfchvYumtX7jd",
        icon: Some("https://raw.githubusercontent.com/trustwallet/assets/08d734b5e6ec95227dc50efef3a9cdfea4c398a1/blockchains/tomochain/info/logo.png"),
        deprecated: false,
    });
    v.push(TokenInfo {
        token_name: "Wrapped LUA",
        token_symbol: "LUA",
        mint_address: "EqWCKXfs3x47uVosDpTRgFniThL9Y8iCztJaapxbEaVX",
        icon: None,
        deprecated: false,
    });
    proof {
        assert(forall|i: int| 0 <= i < 26 ==> #[trigger] v@[i]@ == popular_tokens_view()[i]);
    }
    v
}

/// Every record of the static catalog names a distinct mint address.
pub proof fn lemma_mint_addresses_unique()
    ensures
        forall|i: int, j: int|
            0 <= i < 26 && 0 <= j < 26 && i != j ==> popular_tokens_view()[i].mint_address
                != popular_tokens_view()[j].mint_address,
{
    reveal_strlit("So11111111111111111111111111111111111111112");
    reveal_strlit("SRMuApVNdxXokk5GT7XD5cUUgXMBCoAz2LHeuAoKWRt");
    reveal_strlit("MSRMcoVyrFxnSgo5uXwone5SKcGhT1KEJMFEkMEWf9L");
    reveal_strlit("9n4nbM75f5Ui33ZbPYXn59EwSgE8CGsHtAeTH5YFeJ9E");
    reveal_strlit("2FPyTwcZLUg1MDrwsyoP4D6s1tM7hAkHYRjkNb5w6Pxk");
    reveal_strlit("AGFEad2et2ZJif9jaGpdMixQqvW5i81aBdvKe7PHNfz3");
    reveal_strlit("3JSf5tPeuscJGtaCp5giEiDhv51gQ4v3zWg8DGgyLfAB");
    reveal_strlit("CWE8jPTUYhdCTZYWPTe1o5DFqfdjzWKc9WKz6rSjQUdG");
    reveal_strlit("Ga2AXHpfAF6mv2ekZwcsJFqu7wB4NV331qNH7fW9Nst8");
    reveal_strlit("BQcdHdAQW1hczDbBi9hiegXAR7A98Q9jx3X3iBBBDiq4");
    reveal_strlit("EPjFWdd5AufqSSqeM2qN1xzybapC8G4wEGGkZwyTDt1v");
    reveal_strlit("BXXkv6z8ykpG1yuvUDPgh732wzVHB69RnB9YgSYh3itW");
    reveal_strlit("AR1Mtgh7zAtxuxGd2XPovXPVjcSdY3i4rQYisNadjfKy");
    reveal_strlit("CsZ5LZkDS7h9TDKjrbL7VAwQZ9nsRu8vJLhRYfmGaN8K");
    reveal_strlit("SF3oTvfWzEP3DTwGSvUXRrGTvr75pdZNnBLAH9bzMuX");
    reveal_strlit("BtZQfWqDGbk9Wf2rXEiWyQBdBY1etnUUn6zEphvVS7yN");
    reveal_strlit("5Fu5UUgbjpUvdBveb3a1JTNirL8rXtiYeSMWvKjtUNQv");
    reveal_strlit("873KLxCbz7s9Kc4ZzgYRtNmhfkQrhfyWGZJBmyCbC3ei");
    reveal_strlit("HqB7uswoVg4suaQiDP3wjxob1G5WdZ144zhdStwMCq7e");
    reveal_strlit("9S4t2NEAiJVMvPdRYKVrfJpBafPBLtvbvyS3DecojQHw");
    reveal_strlit("6WNVCuxCGJzNjmMZoKyhZJwvJ5tYpsLyAtagzYASqBoF");
    reveal_strlit("DJafV9qemGp7mLMEn5wrfqaFwxsbLgUsGVS16zKRk9kc");
    reveal_strlit("DEhAasscXF4kEGxFgJ3bq4PpVGp5wyUxMRvn6TzGVHaw");
    reveal_strlit("GeDS162t9yGJuLEHPWXXGrb1zwkzinCgRwnT8vHYjKza");
    reveal_strlit("GXMvfY2jpQctDqZ9RoU3oWPhufKiCcFEfchvYumtX7jd");
    reveal_strlit("EqWCKXfs3x47uVosDpTRgFniThL9Y8iCztJaapxbEaVX");
    assert("So11111111111111111111111111111111111111112"@[0] == 'S' && "So11111111111111111111111111111111111111112"@[1] == 'o');
    assert("SRMuApVNdxXokk5GT7XD5cUUgXMBCoAz2LHeuAoKWRt"@[0] == 'S' && "SRMuApVNdxXokk5GT7XD5cUUgXMBCoAz2LHeuAoKWRt"@[1] == 'R');
    assert("MSRMcoVyrFxnSgo5uXwone5SKcGhT1KEJMFEkMEWf9L"@[0] == 'M' && "MSRMcoVyrFxnSgo5uXwone5SKcGhT1KEJMFEkMEWf9L"@[1] == 'S');
    assert("9n4nbM75f5Ui33ZbPYXn59EwSgE8CGsHtAeTH5YFeJ9E"@[0] == '9' && "9n4nbM75f5Ui33ZbPYXn59EwSgE8CGsHtAeTH5YFeJ9E"@[1] == 'n');
    assert("2FPyTwcZLUg1MDrwsyoP4D6s1tM7hAkHYRjkNb5w6Pxk"@[0] == '2' && "2FPyTwcZLUg1MDrwsyoP4D6s1tM7hAkHYRjkNb5w6Pxk"@[1] == 'F');
    assert("AGFEad2et2ZJif9jaGpdMixQqvW5i81aBdvKe7PHNfz3"@[0] == 'A' && "AGFEad2et2ZJif9jaGpdMixQqvW5i81aBdvKe7PHNfz3"@[1] == 'G');
    assert("3JSf5tPeuscJGtaCp5giEiDhv51gQ4v3zWg8DGgyLfAB"@[0] == '3' && "3JSf5tPeuscJGtaCp5giEiDhv51gQ4v3zWg8DGgyLfAB"@[1] == 'J');
    assert("CWE8jPTUYhdCTZYWPTe1o5DFqfdjzWKc9WKz6rSjQUdG"@[0] == 'C' && "CWE8jPTUYhdCTZYWPTe1o5DFqfdjzWKc9WKz6rSjQUdG"@[1] == 'W');
    assert("Ga2AXHpfAF6mv2ekZwcsJFqu7wB4NV331qNH7fW9Nst8"@[0] == 'G' && "Ga2AXHpfAF6mv2ekZwcsJFqu7wB4NV331qNH7fW9Nst8"@[1] == 'a');
    assert("BQcdHdAQW1hczDbBi9hiegXAR7A98Q9jx3X3iBBBDiq4"@[0] == 'B' && "BQcdHdAQW1hczDbBi9hiegXAR7A98Q9jx3X3iBBBDiq4"@[1] == 'Q');
    assert("EPjFWdd5AufqSSqeM2qN1xzybapC8G4wEGGkZwyTDt1v"@[0] == 'E' && "EPjFWdd5AufqSSqeM2qN1xzybapC8G4wEGGkZwyTDt1v"@[1] == 'P');
    assert("BXXkv6z8ykpG1yuvUDPgh732wzVHB69RnB9YgSYh3itW"@[0] == 'B' && "BXXkv6z8ykpG1yuvUDPgh732wzVHB69RnB9YgSYh3itW"@[1] == 'X');
    assert("AR1Mtgh7zAtxuxGd2XPovXPVjcSdY3i4rQYisNadjfKy"@[0] == 'A' && "AR1Mtgh7zAtxuxGd2XPovXPVjcSdY3i4rQYisNadjfKy"@[1] == 'R');
    assert("CsZ5LZkDS7h9TDKjrbL7VAwQZ9nsRu8vJLhRYfmGaN8K"@[0] == 'C' && "CsZ5LZkDS7h9TDKjrbL7VAwQZ9nsRu8vJLhRYfmGaN8K"@[1] == 's');
    assert("SF3oTvfWzEP3DTwGSvUXRrGTvr75pdZNnBLAH9bzMuX"@[0] == 'S' && "SF3oTvfWzEP3DTwGSvUXRrGTvr75pdZNnBLAH9bzMuX"@[1] == 'F');
    assert("BtZQfWqDGbk9Wf2rXEiWyQBdBY1etnUUn6zEphvVS7yN"@[0] == 'B' && "BtZQfWqDGbk9Wf2rXEiWyQBdBY1etnUUn6zEphvVS7yN"@[1] == 't');
    assert("5Fu5UUgbjpUvdBveb3a1JTNirL8rXtiYeSMWvKjtUNQv"@[0] == '5' && "5Fu5UUgbjpUvdBveb3a1JTNirL8rXtiYeSMWvKjtUNQv"@[1] == 'F');
    assert("873KLxCbz7s9Kc4ZzgYRtNmhfkQrhfyWGZJBmyCbC3ei"@[0] == '8' && "873KLxCbz7s9Kc4ZzgYRtNmhfkQrhfyWGZJBmyCbC3ei"@[1] == '7');
    assert("HqB7uswoVg4suaQiDP3wjxob1G5WdZ144zhdStwMCq7e"@[0] == 'H' && "HqB7uswoVg4suaQiDP3wjxob1G5WdZ144zhdStwMCq7e"@[1] == 'q');
    assert("9S4t2NEAiJVMvPdRYKVrfJpBafPBLtvbvyS3DecojQHw"@[0] == '9' && "9S4t2NEAiJVMvPdRYKVrfJpBafPBLtvbvyS3DecojQHw"@[1] == 'S');
    assert("6WNVCuxCGJzNjmMZoKyhZJwvJ5tYpsLyAtagzYASqBoF"@[0] == '6' && "6WNVCuxCGJzNjmMZoKyhZJwvJ5tYpsLyAtagzYASqBoF"@[1] == 'W');
    assert("DJafV9qemGp7mLMEn5wrfqaFwxsbLgUsGVS16zKRk9kc"@[0] == 'D' && "DJafV9qemGp7mLMEn5wrfqaFwxsbLgUsGVS16zKRk9kc"@[1] == 'J');
    assert("DEhAasscXF4kEGxFgJ3bq4PpVGp5wyUxMRvn6TzGVHaw"@[0] == 'D' && "DEhAasscXF4kEGxFgJ3bq4PpVGp5wyUxMRvn6TzGVHaw"@[1] == 'E');
    assert("GeDS162t9yGJuLEHPWXXGrb1zwkzinCgRwnT8vHYjKza"@[0] == 'G' && "GeDS162t9yGJuLEHPWXXGrb1zwkzinCgRwnT8vHYjKza"@[1] == 'e');
    assert("GXMvfY2jpQctDqZ9RoU3oWPhufKiCcFEfchvYumtX7jd"@[0] == 'G' && "GXMvfY2jpQctDqZ9RoU3oWPhufKiCcFEfchvYumtX7jd"@[1] == 'X');
    assert("EqWCKXfs3x47uVosDpTRgFniThL9Y8iCztJaapxbEaVX"@[0] == 'E' && "EqWCKXfs3x47uVosDpTRgFniThL9Y8iCztJaapxbEaVX"@[1] == 'q');
    assert(forall|i: int, j: int|
        0 <= i < 26 && 0 <= j < 26 && i != j ==> popular_tokens_view()[i].mint_address
            != popular_tokens_view()[j].mint_address);
}

/// Every record of the static catalog carries a non-empty name and a
/// non-empty symbol.
pub proof fn lemma_names_and_symbols_nonempty()
    ensures
        forall|i: int| 0 <= i < 26 ==> popular_tokens_view()[i].token_name.len() > 0
            && popular_tokens_view()[i].token_symbol.len() > 0,
{
    reveal_strlit("Wrapped SOL");
    reveal_strlit("SOL");
    reveal_strlit("Serum");
    reveal_strlit("SRM");
    reveal_strlit("MegaSerum");
    reveal_strlit("MSRM");
    reveal_strlit("Wrapped Bitcoin");
    reveal_strlit("BTC");
    reveal_strlit("Wrapped Ethereum");
    reveal_strlit("ETH");
    reveal_strlit("Wrapped FTT");
    reveal_strlit("FTT");
    reveal_strlit("Wrapped YFI");
    reveal_strlit("YFI");
    reveal_strlit("Wrapped Chainlink");
    reveal_strlit("LINK");
    reveal_strlit("Wrapped XRP");
    reveal_strlit("XRP");
    reveal_strlit("Wrapped USDT");
    reveal_strlit("USDT");
    reveal_strlit("USD Coin");
    reveal_strlit("USDC");
    reveal_strlit("Wrapped USDC");
    reveal_strlit("WUSDC");
    reveal_strlit("Wrapped SUSHI");
    reveal_strlit("SUSHI");
    reveal_strlit("Wrapped ALEPH");
    reveal_strlit("ALEPH");
    reveal_strlit("Wrapped SXP");
    reveal_strlit("SXP");
    reveal_strlit("Wrapped HGET");
    reveal_strlit("HGET");
    reveal_strlit("Wrapped CREAM");
    reveal_strlit("CREAM");
    reveal_strlit("Wrapped UBXT");
    reveal_strlit("UBXT");
    reveal_strlit("Wrapped HNT");
    reveal_strlit("HNT");
    reveal_strlit("Wrapped FRONT");
    reveal_strlit("FRONT");
    reveal_strlit("Wrapped AKRO");
    reveal_strlit("AKRO");
    reveal_strlit("Wrapped HXRO");
    reveal_strlit("HXRO");
    reveal_strlit("Wrapped UNI");
    reveal_strlit("UNI");
    reveal_strlit("Wrapped MATH");
    reveal_strlit("MATH");
    reveal_strlit("Wrapped TOMO");
    reveal_strlit("TOMO");
    reveal_strlit("Wrapped LUA");
    reveal_strlit("LUA");
    assert("Wrapped SOL"@.len() == 11 && "SOL"@.len() == 3);
    assert("Serum"@.len() == 5 && "SRM"@.len() == 3);
    assert("MegaSerum"@.len() == 9 && "MSRM"@.len() == 4);
    assert("Wrapped Bitcoin"@.len() == 15 && "BTC"@.len() == 3);
    assert("Wrapped Ethereum"@.len() == 16 && "ETH"@.len() == 3);
    assert("Wrapped FTT"@.len() == 11 && "FTT"@.len() == 3);
    assert("Wrapped YFI"@.len() == 11 && "YFI"@.len() == 3);
    assert("Wrapped Chainlink"@.len() == 17 && "LINK"@.len() == 4);
    assert("Wrapped XRP"@.len() == 11 && "XRP"@.len() == 3);
    assert("Wrapped USDT"@.len() == 12 && "USDT"@.len() == 4);
    assert("USD Coin"@.len() == 8 && "USDC"@.len() == 4);
    assert("Wrapped USDC"@.len() == 12 && "WUSDC"@.len() == 5);
    assert("Wrapped SUSHI"@.len() == 13 && "SUSHI"@.len() == 5);
    assert("Wrapped ALEPH"@.len() == 13 && "ALEPH"@.len() == 5);
    assert("Wrapped SXP"@.len() == 11 && "SXP"@.len() == 3);
    assert("Wrapped HGET"@.len() == 12 && "HGET"@.len() == 4);
    assert("Wrapped CREAM"@.len() == 13 && "CREAM"@.len() == 5);
    assert("Wrapped UBXT"@.len() == 12 && "UBXT"@.len() == 4);
    assert("Wrapped HNT"@.len() == 11 && "HNT"@.len() == 3);
    assert("Wrapped FRONT"@.len() == 13 && "FRONT"@.len() == 5);
    assert("Wrapped AKRO"@.len() == 12 && "AKRO"@.len() == 4);
    assert("Wrapped HXRO"@.len() == 12 && "HXRO"@.len() == 4);
    assert("Wrapped UNI"@.len() == 11 && "UNI"@.len() == 3);
    assert("Wrapped MATH"@.len() == 12 && "MATH"@.len() == 4);
    assert("Wrapped TOMO"@.len() == 12 && "TOMO"@.len() == 4);
    assert("Wrapped LUA"@.len() == 11 && "LUA"@.len() == 3);
    assert(forall|i: int| 0 <= i < 26 ==> popular_tokens_view()[i].token_name.len() > 0
        && popular_tokens_view()[i].token_symbol.len() > 0);
}

/// Exactly one catalog record is marked deprecated: the wrapped-USDC
/// entry, superseded by the canonical USD Coin entry. All others default
/// to not deprecated.
pub proof fn lemma_deprecated_entries()
    ensures
        forall|i: int| 0 <= i < 26 ==> (popular_tokens_view()[i].deprecated <==> i == 11),
        popular_tokens_view()[11].token_symbol == "WUSDC"@,
{
}

} // verus!
