use vstd::prelude::*;

verus! {

/// One token record of a dynamically fetched token list. The field names
/// follow the exchange schema of the remote list providers, including the
/// capitalised `logoURI` key; this module enforces no invariant on the
/// field values, validation being the caller's business.
#[derive(Debug, Clone)]
pub struct DynamicTokenInfo {
    pub address: String,
    pub symbol: String,
    pub name: String,
    pub decimals: u8,
    #[allow(non_snake_case)]
    pub logoURI: String,
    pub tags: Vec<String>,
}

/// The mathematical content of a dynamic token record: its text fields as
/// character sequences.
pub ghost struct DynamicTokenInfoView {
    pub address: Seq<char>,
    pub symbol: Seq<char>,
    pub name: Seq<char>,
    pub decimals: u8,
    pub logo_uri: Seq<char>,
    pub tags: Seq<Seq<char>>,
}

impl View for DynamicTokenInfo {
    type V = DynamicTokenInfoView;

    open spec fn view(&self) -> DynamicTokenInfoView {
        DynamicTokenInfoView {
            address: self.address@,
            symbol: self.symbol@,
            name: self.name@,
            decimals: self.decimals,
            logo_uri: self.logoURI@,
            tags: self.tags.deep_view(),
        }
    }
}

impl DeepView for DynamicTokenInfo {
    type V = DynamicTokenInfoView;

    open spec fn deep_view(&self) -> DynamicTokenInfoView {
        self@
    }
}

/// A dynamically fetched token list: an ordered sequence of records with
/// no further invariant.
#[derive(Debug, Clone)]
pub struct DynamicTokenList {
    pub tokens: Vec<DynamicTokenInfo>,
}

impl View for DynamicTokenList {
    type V = Seq<DynamicTokenInfoView>;

    open spec fn view(&self) -> Seq<DynamicTokenInfoView> {
        self.tokens.deep_view()
    }
}

/// The record all of whose text fields are empty, whose precision is zero
/// and whose tag sequence is empty.
pub open spec fn empty_entry_view() -> DynamicTokenInfoView {
    DynamicTokenInfoView {
        address: Seq::<char>::empty(),
        symbol: Seq::<char>::empty(),
        name: Seq::<char>::empty(),
        decimals: 0u8,
        logo_uri: Seq::<char>::empty(),
        tags: Seq::<Seq<char>>::empty(),
    }
}

impl Default for DynamicTokenInfo {
    /// The default record is the empty record.
    fn default() -> (r: Self)
        ensures
            r@ == empty_entry_view(),
    {
        let r = DynamicTokenInfo {
            address: String::new(),
            symbol: String::new(),
            name: String::new(),
            decimals: 0,
            logoURI: String::new(),
            tags: Vec::new(),
        };
        proof {
            assert(r.tags.deep_view() =~= Seq::<Seq<char>>::empty());
            assert(r@ == empty_entry_view());
        }
        r
    }
}

impl Default for DynamicTokenList {
    /// The default list holds no records.
    fn default() -> (r: Self)
        ensures
            r@ == Seq::<DynamicTokenInfoView>::empty(),
    {
        let r = DynamicTokenList { tokens: Vec::new() };
        proof {
            assert(r@ =~= Seq::<DynamicTokenInfoView>::empty());
        }
        r
    }
}

/// Whether two strings hold the same characters.
pub fn string_eq(a: &String, b: &String) -> (r: bool)
    ensures
        r == (a@ == b@),
{
    let sa = a.as_str();
    let sb = b.as_str();
    let n = sa.unicode_len();
    if n != sb.unicode_len() {
        return false;
    }
    let mut i: usize = 0;
    while i < n
        invariant
            n == sa@.len(),
            n == sb@.len(),
            sa@ == a@,
            sb@ == b@,
            i <= n,
            forall|k: int| 0 <= k < i ==> sa@[k] == sb@[k],
        decreases n - i,
    {
        if sa.get_char(i) != sb.get_char(i) {
            return false;
        }
        i += 1;
    }
    proof {
        assert(a@ =~= b@);
    }
    true
}

/// Whether two string sequences hold the same strings in the same order.
pub fn string_vec_eq(a: &Vec<String>, b: &Vec<String>) -> (r: bool)
    ensures
        r == (a.deep_view() == b.deep_view()),
{
    if a.len() != b.len() {
        proof {
            assert(a.deep_view().len() == a@.len());
            assert(b.deep_view().len() == b@.len());
        }
        return false;
    }
    let n = a.len();
    let mut i: usize = 0;
    while i < n
        invariant
            n == a@.len(),
            n == b@.len(),
            i <= n,
            forall|k: int| 0 <= k < i ==> a.deep_view()[k] == b.deep_view()[k],
        decreases n - i,
    {
        if !string_eq(&a[i], &b[i]) {
            proof {
                assert(a.deep_view()[i as int] == a@[i as int]@);
                assert(b.deep_view()[i as int] == b@[i as int]@);
            }
            return false;
        }
        proof {
            assert(a.deep_view()[i as int] == a@[i as int]@);
            assert(b.deep_view()[i as int] == b@[i as int]@);
        }
        i += 1;
    }
    proof {
        assert(a.deep_view() =~= b.deep_view());
    }
    true
}

impl PartialEq for DynamicTokenInfo {
    /// Field-by-field structural equality.
    fn eq(&self, other: &Self) -> (r: bool) {
        let r = string_eq(&self.address, &other.address) && string_eq(&self.symbol, &other.symbol)
            && string_eq(&self.name, &other.name) && self.decimals == other.decimals && string_eq(
            &self.logoURI,
            &other.logoURI,
        ) && string_vec_eq(&self.tags, &other.tags);
        proof {
            if r {
                assert(self@ == other@);
            } else {
                assert(self@ != other@);
            }
        }
        r
    }
}

impl vstd::std_specs::cmp::PartialEqSpecImpl for DynamicTokenInfo {
    open spec fn obeys_eq_spec() -> bool {
        true
    }

    open spec fn eq_spec(&self, other: &Self) -> bool {
        self@ == other@
    }
}

impl PartialEq for DynamicTokenList {
    /// Record-by-record structural equality.
    fn eq(&self, other: &Self) -> (r: bool) {
        if self.tokens.len() != other.tokens.len() {
            proof {
                assert(self@.len() == self.tokens@.len());
                assert(other@.len() == other.tokens@.len());
            }
            return false;
        }
        let n = self.tokens.len();
        let mut i: usize = 0;
        while i < n
            invariant
                n == self.tokens@.len(),
                n == other.tokens@.len(),
                i <= n,
                forall|k: int| 0 <= k < i ==> self@[k] == other@[k],
            decreases n - i,
        {
            if !(self.tokens[i] == other.tokens[i]) {
                proof {
                    assert(self@[i as int] == self.tokens@[i as int]@);
                    assert(other@[i as int] == other.tokens@[i as int]@);
                }
                return false;
            }
            proof {
                assert(self@[i as int] == self.tokens@[i as int]@);
                assert(other@[i as int] == other.tokens@[i as int]@);
            }
            i += 1;
        }
        proof {
            assert(self@ =~= other@);
        }
        true
    }
}

impl vstd::std_specs::cmp::PartialEqSpecImpl for DynamicTokenList {
    open spec fn obeys_eq_spec() -> bool {
        true
    }

    open spec fn eq_spec(&self, other: &Self) -> bool {
        self@ == other@
    }
}

/// Two default-constructed lists compare equal: both hold no records.
pub proof fn lemma_default_lists_equal(a: DynamicTokenList, b: DynamicTokenList)
    requires
        a@ == Seq::<DynamicTokenInfoView>::empty(),
        b@ == Seq::<DynamicTokenInfoView>::empty(),
    ensures
        vstd::std_specs::cmp::PartialEqSpec::eq_spec(&a, &b),
{
}

} // verus!
