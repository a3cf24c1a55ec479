use vstd::prelude::*;

use crate::dynamic::DynamicTokenInfo;
use crate::dynamic::DynamicTokenInfoView;
use crate::dynamic::DynamicTokenList;

verus! {

// The exchange format of the remote list providers: one record is a JSON
// object with the keys of the schema in their declared order; a list is a
// JSON object holding the array of records under the key `tokens`. Inside
// string values the quote and the backslash are written escaped; every
// other character stands for itself.

/// The written form of one character inside a string value.
pub open spec fn esc_frag(c: char) -> Seq<char> {
    if c == '"' {
        seq!['\\', '"']
    } else if c == '\\' {
        seq!['\\', '\\']
    } else {
        seq![c]
    }
}

/// The written form of a whole string value, quotes not included.
pub open spec fn esc_seq(s: Seq<char>) -> Seq<char>
    decreases s.len(),
{
    if s.len() == 0 {
        Seq::empty()
    } else {
        esc_frag(s[0]) + esc_seq(s.skip(1))
    }
}

/// The written form of a string value, quotes included.
pub open spec fn ser_string(s: Seq<char>) -> Seq<char> {
    seq!['"'] + esc_seq(s) + seq!['"']
}

/// The digit characters, by value.
pub open spec fn digit_char(d: int) -> char {
    if d == 0 {
        '0'
    } else if d == 1 {
        '1'
    } else if d == 2 {
        '2'
    } else if d == 3 {
        '3'
    } else if d == 4 {
        '4'
    } else if d == 5 {
        '5'
    } else if d == 6 {
        '6'
    } else if d == 7 {
        '7'
    } else if d == 8 {
        '8'
    } else {
        '9'
    }
}

/// Whether a character is a decimal digit.
pub open spec fn is_digit(c: char) -> bool {
    c == '0' || c == '1' || c == '2' || c == '3' || c == '4' || c == '5' || c == '6' || c == '7'
        || c == '8' || c == '9'
}

/// The value of a digit character.
pub open spec fn digit_val(c: char) -> int {
    if c == '0' {
        0
    } else if c == '1' {
        1
    } else if c == '2' {
        2
    } else if c == '3' {
        3
    } else if c == '4' {
        4
    } else if c == '5' {
        5
    } else if c == '6' {
        6
    } else if c == '7' {
        7
    } else if c == '8' {
        8
    } else {
        9
    }
}

/// The written decimal form of a precision value, without leading zeros.
pub open spec fn ser_u8(n: u8) -> Seq<char> {
    if n < 10 {
        seq![digit_char(n as int)]
    } else if n < 100 {
        seq![digit_char(n as int / 10), digit_char(n as int % 10)]
    } else {
        seq![
            digit_char(n as int / 100),
            digit_char((n as int / 10) % 10),
            digit_char(n as int % 10),
        ]
    }
}

/// The written form of the tag strings, comma separated, brackets not
/// included.
pub open spec fn ser_tags(tags: Seq<Seq<char>>) -> Seq<char>
    decreases tags.len(),
{
    if tags.len() == 0 {
        Seq::empty()
    } else if tags.len() == 1 {
        ser_string(tags[0])
    } else {
        ser_string(tags[0]) + seq![','] + ser_tags(tags.skip(1))
    }
}

/// The written form of one token record.
pub open spec fn ser_entry(e: DynamicTokenInfoView) -> Seq<char> {
    "{\"address\":"@ + ser_string(e.address) + ",\"symbol\":"@ + ser_string(e.symbol)
        + ",\"name\":"@ + ser_string(e.name) + ",\"decimals\":"@ + ser_u8(e.decimals)
        + ",\"logoURI\":"@ + ser_string(e.logo_uri) + ",\"tags\":["@ + ser_tags(e.tags) + "]}"@
}

/// The written form of the records of a list, comma separated, brackets
/// not included.
pub open spec fn ser_entries(es: Seq<DynamicTokenInfoView>) -> Seq<char>
    decreases es.len(),
{
    if es.len() == 0 {
        Seq::empty()
    } else if es.len() == 1 {
        ser_entry(es[0])
    } else {
        ser_entry(es[0]) + seq![','] + ser_entries(es.skip(1))
    }
}

/// The written form of a whole token list document.
pub open spec fn ser_list(es: Seq<DynamicTokenInfoView>) -> Seq<char> {
    "{\"tokens\":["@ + ser_entries(es) + "]}"@
}

// The reader. Each reading function takes the text still to be read and
// returns what it read together with the text left over, or nothing where
// the text does not fit the format.

/// Reads an expected piece of literal text.
pub open spec fn p_lit(s: Seq<char>, lit: Seq<char>) -> Option<Seq<char>> {
    if lit.len() <= s.len() && s.take(lit.len() as int) == lit {
        Some(s.skip(lit.len() as int))
    } else {
        None
    }
}

/// Reads the body of a string value up to and over its closing quote.
pub open spec fn p_str_body(s: Seq<char>) -> Option<(Seq<char>, Seq<char>)>
    decreases s.len(),
{
    if s.len() == 0 {
        None
    } else if s[0] == '"' {
        Some((Seq::empty(), s.skip(1)))
    } else if s[0] == '\\' {
        if s.len() >= 2 && (s[1] == '"' || s[1] == '\\') {
            match p_str_body(s.skip(2)) {
                Some(p) => Some((seq![s[1]] + p.0, p.1)),
                None => None,
            }
        } else {
            None
        }
    } else {
        match p_str_body(s.skip(1)) {
            Some(p) => Some((seq![s[0]] + p.0, p.1)),
            None => None,
        }
    }
}

/// Reads a string value, quotes included.
pub open spec fn p_string(s: Seq<char>) -> Option<(Seq<char>, Seq<char>)> {
    if s.len() > 0 && s[0] == '"' {
        p_str_body(s.skip(1))
    } else {
        None
    }
}

/// Reads a precision value: one to three digits, no leading zero, at most
/// 255.
pub open spec fn p_u8(s: Seq<char>) -> Option<(u8, Seq<char>)> {
    if s.len() >= 1 && is_digit(s[0]) {
        if s.len() >= 2 && is_digit(s[1]) {
            if s[0] == '0' {
                None
            } else if s.len() >= 3 && is_digit(s[2]) {
                if s.len() >= 4 && is_digit(s[3]) {
                    None
                } else if digit_val(s[0]) * 100 + digit_val(s[1]) * 10 + digit_val(s[2]) <= 255 {
                    Some(
                        (
                            (digit_val(s[0]) * 100 + digit_val(s[1]) * 10 + digit_val(s[2])) as u8,
                            s.skip(3),
                        ),
                    )
                } else {
                    None
                }
            } else {
                Some(((digit_val(s[0]) * 10 + digit_val(s[1])) as u8, s.skip(2)))
            }
        } else {
            Some((digit_val(s[0]) as u8, s.skip(1)))
        }
    } else {
        None
    }
}

/// Reads the string values of a non-empty array up to and over the
/// closing bracket, the opening bracket already read.
pub open spec fn p_tags_one(s: Seq<char>) -> Option<(Seq<Seq<char>>, Seq<char>)>
    decreases s.len(),
{
    match p_string(s) {
        Some(p) => {
            if p.1.len() < s.len() {
                if p.1.len() > 0 && p.1[0] == ',' {
                    match p_tags_one(p.1.skip(1)) {
                        Some(q) => Some((seq![p.0] + q.0, q.1)),
                        None => None,
                    }
                } else if p.1.len() > 0 && p.1[0] == ']' {
                    Some((seq![p.0], p.1.skip(1)))
                } else {
                    None
                }
            } else {
                None
            }
        },
        None => None,
    }
}

/// Reads the string values of an array up to and over the closing
/// bracket, the opening bracket already read.
pub open spec fn p_tags(s: Seq<char>) -> Option<(Seq<Seq<char>>, Seq<char>)> {
    if s.len() == 0 {
        None
    } else if s[0] == ']' {
        Some((Seq::empty(), s.skip(1)))
    } else {
        p_tags_one(s)
    }
}

/// Reads one token record.
pub open spec fn p_entry(s: Seq<char>) -> Option<(DynamicTokenInfoView, Seq<char>)> {
    match p_lit(s, "{\"address\":"@) {
        Some(s1) => match p_string(s1) {
            Some((address, s2)) => match p_lit(s2, ",\"symbol\":"@) {
                Some(s3) => match p_string(s3) {
                    Some((symbol, s4)) => match p_lit(s4, ",\"name\":"@) {
                        Some(s5) => match p_string(s5) {
                            Some((name, s6)) => match p_lit(s6, ",\"decimals\":"@) {
                                Some(s7) => match p_u8(s7) {
                                    Some((decimals, s8)) => match p_lit(s8, ",\"logoURI\":"@) {
                                        Some(s9) => match p_string(s9) {
                                            Some((logo_uri, s10)) => match p_lit(
                                                s10,
                                                ",\"tags\":["@,
                                            ) {
                                                Some(s11) => match p_tags(s11) {
                                                    Some((tags, s12)) => match p_lit(s12, "}"@) {
                                                        Some(s13) => Some(
                                                            (
                                                                DynamicTokenInfoView {
                                                                    address,
                                                                    symbol,
                                                                    name,
                                                                    decimals,
                                                                    logo_uri,
                                                                    tags,
                                                                },
                                                                s13,
                                                            ),
                                                        ),
                                                        None => None,
                                                    },
                                                    None => None,
                                                },
                                                None => None,
                                            },
                                            None => None,
                                        },
                                        None => None,
                                    },
                                    None => None,
                                },
                                None => None,
                            },
                            None => None,
                        },
                        None => None,
                    },
                    None => None,
                },
                None => None,
            },
            None => None,
        },
        None => None,
    }
}

/// Reads the records of a non-empty array up to and over the closing
/// bracket, the opening bracket already read.
pub open spec fn p_entries_one(s: Seq<char>) -> Option<(Seq<DynamicTokenInfoView>, Seq<char>)>
    decreases s.len(),
{
    match p_entry(s) {
        Some(p) => {
            if p.1.len() < s.len() {
                if p.1.len() > 0 && p.1[0] == ',' {
                    match p_entries_one(p.1.skip(1)) {
                        Some(q) => Some((seq![p.0] + q.0, q.1)),
                        None => None,
                    }
                } else if p.1.len() > 0 && p.1[0] == ']' {
                    Some((seq![p.0], p.1.skip(1)))
                } else {
                    None
                }
            } else {
                None
            }
        },
        None => None,
    }
}

/// Reads the records of an array up to and over the closing bracket, the
/// opening bracket already read.
pub open spec fn p_entries(s: Seq<char>) -> Option<(Seq<DynamicTokenInfoView>, Seq<char>)> {
    if s.len() == 0 {
        None
    } else if s[0] == ']' {
        Some((Seq::empty(), s.skip(1)))
    } else {
        p_entries_one(s)
    }
}

/// Reads a whole document holding one token record.
pub open spec fn parse_entry_doc(s: Seq<char>) -> Option<DynamicTokenInfoView> {
    match p_entry(s) {
        Some((v, rest)) => if rest.len() == 0 {
            Some(v)
        } else {
            None
        },
        None => None,
    }
}

/// Reads a whole document holding a token list.
pub open spec fn parse_list_doc(s: Seq<char>) -> Option<Seq<DynamicTokenInfoView>> {
    match p_lit(s, "{\"tokens\":["@) {
        Some(s1) => match p_entries(s1) {
            Some((es, s2)) => match p_lit(s2, "}"@) {
                Some(s3) => if s3.len() == 0 {
                    Some(es)
                } else {
                    None
                },
                None => None,
            },
            None => None,
        },
        None => None,
    }
}

} // verus!

// What the reader makes of written text. Each lemma says that reading
// finds the value whose written form stands at the front of the text and
// leaves exactly what follows it.

verus! {

/// Reading expected literal text that stands at the front consumes
/// exactly it.
pub proof fn lemma_p_lit(lit: Seq<char>, rest: Seq<char>)
    ensures
        p_lit(lit + rest, lit) == Some(rest),
{
    let s = lit + rest;
    assert(s.take(lit.len() as int) =~= lit);
    assert(s.skip(lit.len() as int) =~= rest);
}

/// Reading a string body finds the escaped string that stands at the
/// front and consumes it together with its closing quote.
pub proof fn lemma_p_str_body(v: Seq<char>, rest: Seq<char>)
    ensures
        p_str_body(esc_seq(v) + seq!['"'] + rest) == Some((v, rest)),
    decreases v.len(),
{
    let s = esc_seq(v) + seq!['"'] + rest;
    if v.len() == 0 {
        assert(esc_seq(v) =~= Seq::<char>::empty());
        assert(s =~= seq!['"'] + rest);
        assert(s[0] == '"');
        assert(s.skip(1) =~= rest);
    } else {
        let c = v[0];
        let v1 = v.skip(1);
        lemma_p_str_body(v1, rest);
        let s1 = esc_seq(v1) + seq!['"'] + rest;
        assert(esc_seq(v) == esc_frag(c) + esc_seq(v1));
        if c == '"' || c == '\\' {
            assert(esc_frag(c) =~= seq!['\\', c]);
            assert(s =~= seq!['\\', c] + s1);
            assert(s[0] == '\\' && s[1] == c && s.len() >= 2);
            assert(s.skip(2) =~= s1);
            assert(seq![s[1]] + v1 =~= v);
        } else {
            assert(esc_frag(c) =~= seq![c]);
            assert(s =~= seq![c] + s1);
            assert(s[0] == c);
            assert(s.skip(1) =~= s1);
            assert(seq![s[0]] + v1 =~= v);
        }
    }
}

/// Reading a string value finds the written string that stands at the
/// front.
pub proof fn lemma_p_string(v: Seq<char>, rest: Seq<char>)
    ensures
        p_string(ser_string(v) + rest) == Some((v, rest)),
        ser_string(v).len() >= 2,
        ser_string(v)[0] == '"',
{
    let s = ser_string(v) + rest;
    assert(s[0] == '"');
    lemma_p_str_body(v, rest);
    assert(s.skip(1) =~= esc_seq(v) + seq!['"'] + rest);
}

/// Reading a precision value finds the decimal that stands at the front,
/// provided no digit follows it.
pub proof fn lemma_p_u8(n: u8, rest: Seq<char>)
    requires
        rest.len() == 0 || !is_digit(rest[0]),
    ensures
        p_u8(ser_u8(n) + rest) == Some((n, rest)),
        ser_u8(n).len() >= 1,
{
    let s = ser_u8(n) + rest;
    if n < 10 {
        let d0 = n as int;
        assert(s[0] == digit_char(d0));
        assert(is_digit(digit_char(d0)) && digit_val(digit_char(d0)) == d0);
        if s.len() >= 2 {
            assert(s[1] == rest[0]);
        }
        assert(s.skip(1) =~= rest);
    } else if n < 100 {
        let d0 = n as int / 10;
        let d1 = n as int % 10;
        assert(n as int == d0 * 10 + d1);
        assert(1 <= d0 < 10 && 0 <= d1 < 10);
        assert(s[0] == digit_char(d0) && s[1] == digit_char(d1));
        assert(is_digit(digit_char(d0)) && digit_val(digit_char(d0)) == d0);
        assert(is_digit(digit_char(d1)) && digit_val(digit_char(d1)) == d1);
        assert(digit_char(d0) != '0');
        if s.len() >= 3 {
            assert(s[2] == rest[0]);
        }
        assert(s.skip(2) =~= rest);
    } else {
        let d0 = n as int / 100;
        let d1 = (n as int / 10) % 10;
        let d2 = n as int % 10;
        assert(n as int == (n as int / 10) * 10 + d2);
        assert(n as int / 10 == d0 * 10 + d1);
        assert(n as int == d0 * 100 + d1 * 10 + d2);
        assert(1 <= d0 < 10 && 0 <= d1 < 10 && 0 <= d2 < 10);
        assert(s[0] == digit_char(d0) && s[1] == digit_char(d1) && s[2] == digit_char(d2));
        assert(is_digit(digit_char(d0)) && digit_val(digit_char(d0)) == d0);
        assert(is_digit(digit_char(d1)) && digit_val(digit_char(d1)) == d1);
        assert(is_digit(digit_char(d2)) && digit_val(digit_char(d2)) == d2);
        assert(digit_char(d0) != '0');
        if s.len() >= 4 {
            assert(s[3] == rest[0]);
        }
        assert(s.skip(3) =~= rest);
    }
}

/// Reading a non-empty tag array finds the written tags that stand at the
/// front and consumes them together with the closing bracket.
pub proof fn lemma_p_tags_one(tags: Seq<Seq<char>>, rest: Seq<char>)
    requires
        tags.len() >= 1,
    ensures
        p_tags_one(ser_tags(tags) + seq![']'] + rest) == Some((tags, rest)),
    decreases tags.len(),
{
    let s = ser_tags(tags) + seq![']'] + rest;
    if tags.len() == 1 {
        assert(ser_tags(tags) == ser_string(tags[0]));
        let r = seq![']'] + rest;
        lemma_p_string(tags[0], r);
        assert(s =~= ser_string(tags[0]) + r);
        assert(p_string(s) == Some((tags[0], r)));
        assert(r.len() < s.len());
        assert(r[0] == ']');
        assert(r.skip(1) =~= rest);
        assert(seq![tags[0]] =~= tags);
    } else {
        let t0 = tags[0];
        let ts = tags.skip(1);
        lemma_p_tags_one(ts, rest);
        let s1 = ser_tags(ts) + seq![']'] + rest;
        assert(ser_tags(tags) == ser_string(t0) + seq![','] + ser_tags(ts));
        let r = seq![','] + s1;
        lemma_p_string(t0, r);
        assert(s =~= ser_string(t0) + r);
        assert(p_string(s) == Some((t0, r)));
        assert(r.len() < s.len());
        assert(r[0] == ',');
        assert(r.skip(1) =~= s1);
        assert(seq![t0] + ts =~= tags);
    }
}

/// Reading a tag array finds the written tags that stand at the front and
/// consumes them together with the closing bracket.
pub proof fn lemma_p_tags(tags: Seq<Seq<char>>, rest: Seq<char>)
    ensures
        p_tags(ser_tags(tags) + seq![']'] + rest) == Some((tags, rest)),
{
    let s = ser_tags(tags) + seq![']'] + rest;
    if tags.len() == 0 {
        assert(ser_tags(tags) =~= Seq::<char>::empty());
        assert(s =~= seq![']'] + rest);
        assert(s[0] == ']');
        assert(s.skip(1) =~= rest);
        assert(tags =~= Seq::<Seq<char>>::empty());
    } else {
        lemma_p_tags_one(tags, rest);
        if tags.len() == 1 {
            assert(ser_tags(tags) == ser_string(tags[0]));
            lemma_p_string(tags[0], seq![']'] + rest);
            assert(s[0] == '"');
        } else {
            assert(ser_tags(tags) == ser_string(tags[0]) + seq![','] + ser_tags(tags.skip(1)));
            lemma_p_string(tags[0], seq![']'] + rest);
            assert(s[0] == '"');
        }
        assert(s.len() > 0 && s[0] != ']');
    }
}

} // verus!

verus! {

/// Reading a record finds the written record that stands at the front.
#[verifier::rlimit(50)]
pub proof fn lemma_p_entry(e: DynamicTokenInfoView, rest: Seq<char>)
    ensures
        p_entry(ser_entry(e) + rest) == Some((e, rest)),
        ser_entry(e).len() >= 1,
{
    reveal_strlit("{\"address\":");
    reveal_strlit(",\"symbol\":");
    reveal_strlit(",\"name\":");
    reveal_strlit(",\"decimals\":");
    reveal_strlit(",\"logoURI\":");
    reveal_strlit(",\"tags\":[");
    reveal_strlit("]}");
    reveal_strlit("}");
    let s = ser_entry(e) + rest;
    let s13 = rest;
    let s12 = "}"@ + s13;
    let x11 = ser_tags(e.tags) + seq![']'] + s12;
    let x10 = ",\"tags\":["@ + x11;
    let x9 = ser_string(e.logo_uri) + x10;
    let x8 = ",\"logoURI\":"@ + x9;
    let x7 = ser_u8(e.decimals) + x8;
    let x6 = ",\"decimals\":"@ + x7;
    let x5 = ser_string(e.name) + x6;
    let x4 = ",\"name\":"@ + x5;
    let x3 = ser_string(e.symbol) + x4;
    let x2 = ",\"symbol\":"@ + x3;
    let x1 = ser_string(e.address) + x2;
    assert(s =~= "{\"address\":"@ + x1);
    lemma_p_lit("{\"address\":"@, x1);
    assert(p_lit(s, "{\"address\":"@) == Some(x1));
    lemma_p_string(e.address, x2);
    assert(x1 == ser_string(e.address) + x2);
    assert(p_string(x1) == Some((e.address, x2)));
    lemma_p_lit(",\"symbol\":"@, x3);
    assert(p_lit(x2, ",\"symbol\":"@) == Some(x3));
    lemma_p_string(e.symbol, x4);
    assert(p_string(x3) == Some((e.symbol, x4)));
    lemma_p_lit(",\"name\":"@, x5);
    assert(p_lit(x4, ",\"name\":"@) == Some(x5));
    lemma_p_string(e.name, x6);
    assert(p_string(x5) == Some((e.name, x6)));
    lemma_p_lit(",\"decimals\":"@, x7);
    assert(p_lit(x6, ",\"decimals\":"@) == Some(x7));
    assert(x8[0] == ',' && !is_digit(','));
    lemma_p_u8(e.decimals, x8);
    assert(p_u8(x7) == Some((e.decimals, x8)));
    lemma_p_lit(",\"logoURI\":"@, x9);
    assert(p_lit(x8, ",\"logoURI\":"@) == Some(x9));
    lemma_p_string(e.logo_uri, x10);
    assert(p_string(x9) == Some((e.logo_uri, x10)));
    lemma_p_lit(",\"tags\":["@, x11);
    assert(p_lit(x10, ",\"tags\":["@) == Some(x11));
    lemma_p_tags(e.tags, s12);
    assert(p_tags(x11) == Some((e.tags, s12)));
    lemma_p_lit("}"@, s13);
    assert(p_lit(s12, "}"@) == Some(s13));
    assert(p_entry(s) == Some(
        (
            DynamicTokenInfoView {
                address: e.address,
                symbol: e.symbol,
                name: e.name,
                decimals: e.decimals,
                logo_uri: e.logo_uri,
                tags: e.tags,
            },
            rest,
        ),
    ));
    assert((DynamicTokenInfoView {
        address: e.address,
        symbol: e.symbol,
        name: e.name,
        decimals: e.decimals,
        logo_uri: e.logo_uri,
        tags: e.tags,
    }) =~= e);
}

/// Reading a non-empty record array finds the written records that stand
/// at the front and consumes them together with the closing bracket.
#[verifier::rlimit(50)]
pub proof fn lemma_p_entries_one(es: Seq<DynamicTokenInfoView>, rest: Seq<char>)
    requires
        es.len() >= 1,
    ensures
        p_entries_one(ser_entries(es) + seq![']'] + rest) == Some((es, rest)),
    decreases es.len(),
{
    let s = ser_entries(es) + seq![']'] + rest;
    if es.len() == 1 {
        assert(ser_entries(es) == ser_entry(es[0]));
        let r = seq![']'] + rest;
        lemma_p_entry(es[0], r);
        assert(s =~= ser_entry(es[0]) + r);
        assert(p_entry(s) == Some((es[0], r)));
        assert(r.len() < s.len());
        assert(r[0] == ']');
        assert(r.skip(1) =~= rest);
        assert(seq![es[0]] =~= es);
    } else {
        let e0 = es[0];
        let et = es.skip(1);
        lemma_p_entries_one(et, rest);
        let s1 = ser_entries(et) + seq![']'] + rest;
        assert(ser_entries(es) == ser_entry(e0) + seq![','] + ser_entries(et));
        let r = seq![','] + s1;
        lemma_p_entry(e0, r);
        assert(s =~= ser_entry(e0) + r);
        assert(p_entry(s) == Some((e0, r)));
        assert(r.len() < s.len());
        assert(r[0] == ',');
        assert(r.skip(1) =~= s1);
        assert(seq![e0] + et =~= es);
    }
}

/// Reading a record array finds the written records that stand at the
/// front and consumes them together with the closing bracket.
pub proof fn lemma_p_entries(es: Seq<DynamicTokenInfoView>, rest: Seq<char>)
    ensures
        p_entries(ser_entries(es) + seq![']'] + rest) == Some((es, rest)),
{
    reveal_strlit("{\"address\":");
    let s = ser_entries(es) + seq![']'] + rest;
    if es.len() == 0 {
        assert(ser_entries(es) =~= Seq::<char>::empty());
        assert(s =~= seq![']'] + rest);
        assert(s[0] == ']');
        assert(s.skip(1) =~= rest);
        assert(es =~= Seq::<DynamicTokenInfoView>::empty());
    } else {
        lemma_p_entries_one(es, rest);
        if es.len() == 1 {
            assert(ser_entries(es) == ser_entry(es[0]));
        } else {
            assert(ser_entries(es) == ser_entry(es[0]) + seq![','] + ser_entries(es.skip(1)));
        }
        assert(s[0] == '{');
        assert(s.len() > 0 && s[0] != ']');
    }
}

/// Writing one record and reading the result gives the record back: the
/// round trip is the identity, whatever the record holds.
pub proof fn lemma_entry_round_trip(e: DynamicTokenInfoView)
    ensures
        parse_entry_doc(ser_entry(e)) == Some(e),
{
    lemma_p_entry(e, Seq::<char>::empty());
    assert(ser_entry(e) + Seq::<char>::empty() =~= ser_entry(e));
}

/// Writing a token list and reading the result gives the list back: the
/// round trip is the identity, whatever the records hold and however many
/// there are.
pub proof fn lemma_list_round_trip(es: Seq<DynamicTokenInfoView>)
    ensures
        parse_list_doc(ser_list(es)) == Some(es),
{
    reveal_strlit("{\"tokens\":[");
    reveal_strlit("]}");
    reveal_strlit("}");
    let s = ser_list(es);
    let s3 = Seq::<char>::empty();
    let s2 = "}"@ + s3;
    let x1 = ser_entries(es) + seq![']'] + s2;
    assert(s =~= "{\"tokens\":["@ + x1);
    lemma_p_lit("{\"tokens\":["@, x1);
    assert(p_lit(s, "{\"tokens\":["@) == Some(x1));
    lemma_p_entries(es, s2);
    assert(p_entries(x1) == Some((es, s2)));
    lemma_p_lit("}"@, s3);
    assert(p_lit(s2, "}"@) == Some(s3));
}

} // verus!

// The writer.

verus! {

/// Relies on String::push: appends exactly the one given character.
#[verifier::external_body]
fn push_char(out: &mut String, c: char)
    ensures
        final(out)@ == old(out)@.push(c),
{
    out.push(c);
}

/// Escaping distributes over adding one character at the end.
proof fn lemma_esc_seq_snoc(s: Seq<char>, c: char)
    ensures
        esc_seq(s.push(c)) == esc_seq(s) + esc_frag(c),
    decreases s.len(),
{
    let p = s.push(c);
    if s.len() == 0 {
        assert(p[0] == c);
        assert(p.skip(1) =~= Seq::<char>::empty());
        assert(esc_seq(p) == esc_frag(c) + esc_seq(p.skip(1)));
        assert(esc_seq(Seq::<char>::empty()) == Seq::<char>::empty());
        assert(esc_frag(c) + Seq::<char>::empty() =~= esc_frag(c));
        assert(esc_seq(s) == Seq::<char>::empty());
        assert(Seq::<char>::empty() + esc_frag(c) =~= esc_frag(c));
    } else {
        lemma_esc_seq_snoc(s.skip(1), c);
        assert(p[0] == s[0]);
        assert(p.skip(1) =~= s.skip(1).push(c));
        assert(esc_seq(p) == esc_frag(s[0]) + esc_seq(s.skip(1).push(c)));
        assert(esc_seq(s) == esc_frag(s[0]) + esc_seq(s.skip(1)));
        assert(esc_frag(s[0]) + (esc_seq(s.skip(1)) + esc_frag(c)) =~= (esc_frag(s[0]) + esc_seq(
            s.skip(1),
        )) + esc_frag(c));
    }
}

/// Writing the tags distributes over adding one tag at the end.
proof fn lemma_ser_tags_snoc(tags: Seq<Seq<char>>, t: Seq<char>)
    ensures
        ser_tags(tags.push(t)) == if tags.len() == 0 {
            ser_string(t)
        } else {
            ser_tags(tags) + seq![','] + ser_string(t)
        },
    decreases tags.len(),
{
    let p = tags.push(t);
    if tags.len() == 0 {
        assert(p.len() == 1 && p[0] == t);
    } else if tags.len() == 1 {
        assert(p.len() == 2 && p[0] == tags[0]);
        assert(p.skip(1) =~= seq![t]);
        assert(ser_tags(seq![t]) == ser_string(t));
        assert(ser_tags(tags) == ser_string(tags[0]));
    } else {
        lemma_ser_tags_snoc(tags.skip(1), t);
        assert(p[0] == tags[0]);
        assert(p.skip(1) =~= tags.skip(1).push(t));
        assert(tags.skip(1).len() > 0);
        assert(ser_string(p[0]) + seq![','] + (ser_tags(tags.skip(1)) + seq![','] + ser_string(t))
            =~= (ser_string(tags[0]) + seq![','] + ser_tags(tags.skip(1))) + seq![',']
            + ser_string(t));
    }
}

/// Writing the records distributes over adding one record at the end.
proof fn lemma_ser_entries_snoc(es: Seq<DynamicTokenInfoView>, e: DynamicTokenInfoView)
    ensures
        ser_entries(es.push(e)) == if es.len() == 0 {
            ser_entry(e)
        } else {
            ser_entries(es) + seq![','] + ser_entry(e)
        },
    decreases es.len(),
{
    let p = es.push(e);
    if es.len() == 0 {
        assert(p.len() == 1 && p[0] == e);
    } else if es.len() == 1 {
        assert(p.len() == 2 && p[0] == es[0]);
        assert(p.skip(1) =~= seq![e]);
        assert(ser_entries(seq![e]) == ser_entry(e));
        assert(ser_entries(es) == ser_entry(es[0]));
    } else {
        lemma_ser_entries_snoc(es.skip(1), e);
        assert(p[0] == es[0]);
        assert(p.skip(1) =~= es.skip(1).push(e));
        assert(es.skip(1).len() > 0);
        assert(ser_entry(p[0]) + seq![','] + (ser_entries(es.skip(1)) + seq![','] + ser_entry(e))
            =~= (ser_entry(es[0]) + seq![','] + ser_entries(es.skip(1))) + seq![','] + ser_entry(
            e,
        ));
    }
}

/// Appends the escaped form of a string value, quotes not included.
fn write_escaped(out: &mut String, v: &str)
    ensures
        final(out)@ == old(out)@ + esc_seq(v@),
{
    let n = v.unicode_len();
    proof {
        assert(v@.take(0) =~= Seq::<char>::empty());
        assert(out@ + esc_seq(v@.take(0)) =~= out@);
    }
    let mut i: usize = 0;
    while i < n
        invariant
            n == v@.len(),
            i <= n,
            out@ == old(out)@ + esc_seq(v@.take(i as int)),
        decreases n - i,
    {
        let c = v.get_char(i);
        let ghost pre = out@;
        proof {
            lemma_esc_seq_snoc(v@.take(i as int), c);
            assert(v@.take(i as int).push(c) =~= v@.take(i as int + 1));
        }
        if c == '"' {
            push_char(out, '\\');
            push_char(out, '"');
            proof {
                assert(out@ =~= pre + esc_frag(c));
            }
        } else if c == '\\' {
            push_char(out, '\\');
            push_char(out, '\\');
            proof {
                assert(out@ =~= pre + esc_frag(c));
            }
        } else {
            push_char(out, c);
            proof {
                assert(out@ =~= pre + esc_frag(c));
            }
        }
        proof {
            assert(out@ =~= old(out)@ + esc_seq(v@.take(i as int + 1)));
        }
        i += 1;
    }
    proof {
        assert(v@.take(n as int) =~= v@);
    }
}

/// Appends the written form of a string value, quotes included.
fn write_string(out: &mut String, v: &str)
    ensures
        final(out)@ == old(out)@ + ser_string(v@),
{
    push_char(out, '"');
    proof {
        assert(out@ =~= old(out)@ + seq!['"']);
    }
    write_escaped(out, v);
    push_char(out, '"');
    proof {
        assert(out@ =~= old(out)@ + (seq!['"'] + esc_seq(v@) + seq!['"']));
    }
}

/// The digit character of a value under ten.
fn digit_to_char(d: u8) -> (c: char)
    requires
        d < 10,
    ensures
        c == digit_char(d as int),
{
    if d == 0 {
        '0'
    } else if d == 1 {
        '1'
    } else if d == 2 {
        '2'
    } else if d == 3 {
        '3'
    } else if d == 4 {
        '4'
    } else if d == 5 {
        '5'
    } else if d == 6 {
        '6'
    } else if d == 7 {
        '7'
    } else if d == 8 {
        '8'
    } else {
        '9'
    }
}

/// Appends the written decimal form of a precision value.
fn write_u8(out: &mut String, n: u8)
    ensures
        final(out)@ == old(out)@ + ser_u8(n),
{
    if n < 10 {
        push_char(out, digit_to_char(n));
        proof {
            assert(out@ =~= old(out)@ + ser_u8(n));
        }
    } else if n < 100 {
        push_char(out, digit_to_char(n / 10));
        push_char(out, digit_to_char(n % 10));
        proof {
            assert(out@ =~= old(out)@ + ser_u8(n));
        }
    } else {
        push_char(out, digit_to_char(n / 100));
        push_char(out, digit_to_char((n / 10) % 10));
        push_char(out, digit_to_char(n % 10));
        proof {
            assert(out@ =~= old(out)@ + ser_u8(n));
        }
    }
}

/// Appends the written tags, comma separated, brackets not included.
fn write_tags(out: &mut String, tags: &Vec<String>)
    ensures
        final(out)@ == old(out)@ + ser_tags(tags.deep_view()),
{
    let n = tags.len();
    proof {
        assert(tags.deep_view().len() == n);
        assert(tags.deep_view().take(0) =~= Seq::<Seq<char>>::empty());
        assert(out@ + ser_tags(tags.deep_view().take(0)) =~= out@);
    }
    let mut i: usize = 0;
    while i < n
        invariant
            n == tags@.len(),
            n == tags.deep_view().len(),
            i <= n,
            out@ == old(out)@ + ser_tags(tags.deep_view().take(i as int)),
        decreases n - i,
    {
        let ghost pre = out@;
        if i > 0 {
            push_char(out, ',');
        }
        write_string(out, tags[i].as_str());
        proof {
            let tv = tags.deep_view();
            assert(tv[i as int] == tags@[i as int]@);
            lemma_ser_tags_snoc(tv.take(i as int), tv[i as int]);
            assert(tv.take(i as int).push(tv[i as int]) =~= tv.take(i as int + 1));
            if i == 0 {
                assert(out@ =~= old(out)@ + ser_tags(tv.take(i as int + 1)));
            } else {
                assert(out@ =~= old(out)@ + ser_tags(tv.take(i as int + 1)));
            }
        }
        i += 1;
    }
    proof {
        assert(tags.deep_view().take(n as int) =~= tags.deep_view());
    }
}

/// Writes one token record in the exchange format.
pub fn entry_to_json(e: &DynamicTokenInfo) -> (r: String)
    ensures
        r@ == ser_entry(e@),
{
    let mut out = String::new();
    out.append("{\"address\":");
    write_string(&mut out, e.address.as_str());
    out.append(",\"symbol\":");
    write_string(&mut out, e.symbol.as_str());
    out.append(",\"name\":");
    write_string(&mut out, e.name.as_str());
    out.append(",\"decimals\":");
    write_u8(&mut out, e.decimals);
    out.append(",\"logoURI\":");
    write_string(&mut out, e.logoURI.as_str());
    out.append(",\"tags\":[");
    write_tags(&mut out, &e.tags);
    out.append("]}");
    proof {
        assert(out@ =~= ser_entry(e@));
    }
    out
}

/// Writes a whole token list document in the exchange format.
pub fn list_to_json(l: &DynamicTokenList) -> (r: String)
    ensures
        r@ == ser_list(l@),
{
    let mut out = String::new();
    out.append("{\"tokens\":[");
    let n = l.tokens.len();
    proof {
        assert(l@.len() == n);
        assert(l@.take(0) =~= Seq::<DynamicTokenInfoView>::empty());
        assert(out@ + ser_entries(l@.take(0)) =~= out@);
    }
    let mut i: usize = 0;
    while i < n
        invariant
            n == l.tokens@.len(),
            n == l@.len(),
            out@ == "{\"tokens\":["@ + ser_entries(l@.take(i as int)),
            i <= n,
        decreases n - i,
    {
        let ghost pre = out@;
        if i > 0 {
            push_char(&mut out, ',');
        }
        let piece = entry_to_json(&l.tokens[i]);
        out.append(piece.as_str());
        proof {
            assert(l@[i as int] == l.tokens@[i as int]@);
            lemma_ser_entries_snoc(l@.take(i as int), l@[i as int]);
            assert(l@.take(i as int).push(l@[i as int]) =~= l@.take(i as int + 1));
            assert(out@ =~= "{\"tokens\":["@ + ser_entries(l@.take(i as int + 1)));
        }
        i += 1;
    }
    out.append("]}");
    proof {
        assert(l@.take(n as int) =~= l@);
        assert(out@ =~= ser_list(l@));
    }
    out
}

} // verus!

// The reading functions. Each works at a character position in the text
// and agrees exactly with the corresponding reading function on
// sequences: it succeeds on the same texts, with the same value, leaving
// the same text behind.

verus! {

/// The one error of this module: the text does not fit the exchange
/// format because a required field is missing, misnamed, out of order or
/// of the wrong type, or because the text around the fields is malformed.
#[derive(Debug, Clone, Copy, PartialEq, Eq, Structural)]
pub struct FormatError;

/// Whether a character is a decimal digit.
fn is_digit_exec(c: char) -> (r: bool)
    ensures
        r == is_digit(c),
{
    c == '0' || c == '1' || c == '2' || c == '3' || c == '4' || c == '5' || c == '6' || c == '7'
        || c == '8' || c == '9'
}

/// The value of a digit character.
fn digit_val_exec(c: char) -> (r: u8)
    requires
        is_digit(c),
    ensures
        r as int == digit_val(c),
{
    if c == '0' {
        0
    } else if c == '1' {
        1
    } else if c == '2' {
        2
    } else if c == '3' {
        3
    } else if c == '4' {
        4
    } else if c == '5' {
        5
    } else if c == '6' {
        6
    } else if c == '7' {
        7
    } else if c == '8' {
        8
    } else {
        9
    }
}

/// Reads the expected literal text at the given position.
fn expect_lit(s: &str, i: usize, lit: &str) -> (r: Option<usize>)
    requires
        i <= s@.len(),
    ensures
        match r {
            Some(j) => i <= j <= s@.len() && p_lit(s@.skip(i as int), lit@) == Some(
                s@.skip(j as int),
            ),
            None => p_lit(s@.skip(i as int), lit@) is None,
        },
{
    let n = s.unicode_len();
    let m = lit.unicode_len();
    proof {
        assert(s@.skip(i as int).len() == n - i);
    }
    if n - i < m {
        return None;
    }
    let mut k: usize = 0;
    while k < m
        invariant
            n == s@.len(),
            m == lit@.len(),
            i <= n,
            m <= n - i,
            k <= m,
            forall|t: int| 0 <= t < k ==> s@[i + t] == lit@[t],
        decreases m - k,
    {
        let a = s.get_char(i + k);
        let b = lit.get_char(k);
        if a != b {
            proof {
                let suf = s@.skip(i as int);
                assert(suf.take(m as int)[k as int] == s@[i + k]);
                assert(suf.take(m as int) != lit@);
            }
            return None;
        }
        k += 1;
    }
    proof {
        let suf = s@.skip(i as int);
        assert(suf.take(m as int) =~= lit@);
        assert(suf.skip(m as int) =~= s@.skip(i + m));
    }
    Some(i + m)
}

/// Reads a string value at the given position.
fn parse_string(s: &str, i: usize) -> (r: Option<(String, usize)>)
    requires
        i <= s@.len(),
    ensures
        match r {
            Some(p) => i < p.1 <= s@.len() && p_string(s@.skip(i as int)) == Some(
                (p.0@, s@.skip(p.1 as int)),
            ),
            None => p_string(s@.skip(i as int)) is None,
        },
{
    let n = s.unicode_len();
    proof {
        assert(s@.skip(i as int).len() == n - i);
    }
    if i >= n {
        return None;
    }
    let c0 = s.get_char(i);
    proof {
        assert(s@.skip(i as int)[0] == s@[i as int]);
    }
    if c0 != '"' {
        return None;
    }
    proof {
        assert(s@.skip(i as int).skip(1) =~= s@.skip(i as int + 1));
    }
    let mut acc = String::new();
    let mut k: usize = i + 1;
    proof {
        let q = p_str_body(s@.skip(i as int + 1));
        if q is Some {
            assert(acc@ + q->Some_0.0 =~= q->Some_0.0);
        }
    }
    loop
        invariant
            n == s@.len(),
            i + 1 <= k <= n,
            i < n,
            match p_str_body(s@.skip(k as int)) {
                Some(q) => p_str_body(s@.skip(i as int + 1)) == Some((acc@ + q.0, q.1)),
                None => p_str_body(s@.skip(i as int + 1)) is None,
            },
            p_string(s@.skip(i as int)) == p_str_body(s@.skip(i as int + 1)),
        decreases n - k,
    {
        if k >= n {
            proof {
                assert(s@.skip(k as int).len() == 0);
            }
            return None;
        }
        let c = s.get_char(k);
        proof {
            assert(s@.skip(k as int)[0] == s@[k as int]);
        }
        if c == '"' {
            proof {
                assert(s@.skip(k as int).skip(1) =~= s@.skip(k as int + 1));
                assert(p_str_body(s@.skip(k as int)) == Some(
                    (Seq::<char>::empty(), s@.skip(k as int + 1)),
                ));
                assert(acc@ + Seq::<char>::empty() =~= acc@);
            }
            return Some((acc, k + 1));
        } else if c == '\\' {
            if k + 1 >= n {
                proof {
                    assert(s@.skip(k as int).len() < 2);
                }
                return None;
            }
            let d = s.get_char(k + 1);
            proof {
                assert(s@.skip(k as int)[1] == s@[k as int + 1]);
            }
            if d == '"' || d == '\\' {
                let ghost pre = acc@;
                push_char(&mut acc, d);
                proof {
                    assert(s@.skip(k as int).skip(2) =~= s@.skip(k as int + 2));
                    let q = p_str_body(s@.skip(k as int + 2));
                    if q is Some {
                        assert(pre + (seq![d] + q->Some_0.0) =~= acc@ + q->Some_0.0);
                    }
                }
                k += 2;
            } else {
                return None;
            }
        } else {
            let ghost pre = acc@;
            push_char(&mut acc, c);
            proof {
                assert(s@.skip(k as int).skip(1) =~= s@.skip(k as int + 1));
                let q = p_str_body(s@.skip(k as int + 1));
                if q is Some {
                    assert(pre + (seq![c] + q->Some_0.0) =~= acc@ + q->Some_0.0);
                }
            }
            k += 1;
        }
    }
}

/// Reads a precision value at the given position.
fn parse_u8(s: &str, i: usize) -> (r: Option<(u8, usize)>)
    requires
        i <= s@.len(),
    ensures
        match r {
            Some(p) => i < p.1 <= s@.len() && p_u8(s@.skip(i as int)) == Some(
                (p.0, s@.skip(p.1 as int)),
            ),
            None => p_u8(s@.skip(i as int)) is None,
        },
{
    let n = s.unicode_len();
    proof {
        assert(s@.skip(i as int).len() == n - i);
    }
    if i >= n {
        return None;
    }
    let c0 = s.get_char(i);
    proof {
        assert(s@.skip(i as int)[0] == s@[i as int]);
    }
    if !is_digit_exec(c0) {
        return None;
    }
    let d0 = digit_val_exec(c0);
    if i + 1 < n {
        let c1 = s.get_char(i + 1);
        proof {
            assert(s@.skip(i as int)[1] == s@[i as int + 1]);
        }
        if is_digit_exec(c1) {
            if c0 == '0' {
                return None;
            }
            let d1 = digit_val_exec(c1);
            if i + 2 < n {
                let c2 = s.get_char(i + 2);
                proof {
                    assert(s@.skip(i as int)[2] == s@[i as int + 2]);
                }
                if is_digit_exec(c2) {
                    let d2 = digit_val_exec(c2);
                    if i + 3 < n {
                        let c3 = s.get_char(i + 3);
                        proof {
                            assert(s@.skip(i as int)[3] == s@[i as int + 3]);
                        }
                        if is_digit_exec(c3) {
                            return None;
                        }
                    }
                    let v: u32 = d0 as u32 * 100 + d1 as u32 * 10 + d2 as u32;
                    if v <= 255 {
                        proof {
                            assert(s@.skip(i as int).skip(3) =~= s@.skip(i as int + 3));
                        }
                        return Some((v as u8, i + 3));
                    } else {
                        return None;
                    }
                }
            }
            proof {
                assert(s@.skip(i as int).skip(2) =~= s@.skip(i as int + 2));
            }
            return Some((d0 * 10 + d1, i + 2));
        }
    }
    proof {
        assert(s@.skip(i as int).skip(1) =~= s@.skip(i as int + 1));
    }
    Some((d0, i + 1))
}

/// Reads a tag array at the given position, the opening bracket already
/// read.
fn parse_tags(s: &str, i: usize) -> (r: Option<(Vec<String>, usize)>)
    requires
        i <= s@.len(),
    ensures
        match r {
            Some(p) => i < p.1 <= s@.len() && p_tags(s@.skip(i as int)) == Some(
                (p.0.deep_view(), s@.skip(p.1 as int)),
            ),
            None => p_tags(s@.skip(i as int)) is None,
        },
{
    let n = s.unicode_len();
    proof {
        assert(s@.skip(i as int).len() == n - i);
    }
    if i >= n {
        return None;
    }
    let c = s.get_char(i);
    proof {
        assert(s@.skip(i as int)[0] == s@[i as int]);
    }
    if c == ']' {
        let empty: Vec<String> = Vec::new();
        proof {
            assert(s@.skip(i as int).skip(1) =~= s@.skip(i as int + 1));
            assert(empty.deep_view() =~= Seq::<Seq<char>>::empty());
        }
        return Some((empty, i + 1));
    }
    let mut acc: Vec<String> = Vec::new();
    let mut k: usize = i;
    proof {
        let q = p_tags_one(s@.skip(i as int));
        if q is Some {
            assert(acc.deep_view() + q->Some_0.0 =~= q->Some_0.0);
        }
    }
    loop
        invariant
            n == s@.len(),
            i <= k <= n,
            s@.skip(i as int).len() > 0,
            s@.skip(i as int)[0] != ']',
            match p_tags_one(s@.skip(k as int)) {
                Some(q) => p_tags_one(s@.skip(i as int)) == Some((acc.deep_view() + q.0, q.1)),
                None => p_tags_one(s@.skip(i as int)) is None,
            },
        decreases n - k,
    {
        let sv = parse_string(s, k);
        match sv {
            None => {
                return None;
            },
            Some((v, j)) => {
                proof {
                    assert(s@.skip(j as int).len() < s@.skip(k as int).len());
                }
                if j >= n {
                    proof {
                        assert(s@.skip(j as int).len() == 0);
                    }
                    return None;
                }
                let c2 = s.get_char(j);
                proof {
                    assert(s@.skip(j as int)[0] == s@[j as int]);
                }
                if c2 == ',' {
                    let ghost pre = acc.deep_view();
                    acc.push(v);
                    proof {
                        assert(acc.deep_view() =~= pre.push(v@));
                        assert(s@.skip(j as int).skip(1) =~= s@.skip(j as int + 1));
                        let q = p_tags_one(s@.skip(j as int + 1));
                        if q is Some {
                            assert(pre + (seq![v@] + q->Some_0.0) =~= acc.deep_view()
                                + q->Some_0.0);
                        }
                    }
                    k = j + 1;
                } else if c2 == ']' {
                    let ghost pre = acc.deep_view();
                    acc.push(v);
                    proof {
                        assert(acc.deep_view() =~= pre.push(v@));
                        assert(s@.skip(j as int).skip(1) =~= s@.skip(j as int + 1));
                        assert(p_tags_one(s@.skip(k as int)) == Some(
                            (seq![v@], s@.skip(j as int + 1)),
                        ));
                        assert(pre + seq![v@] =~= acc.deep_view());
                    }
                    return Some((acc, j + 1));
                } else {
                    return None;
                }
            },
        }
    }
}

} // verus!

verus! {

/// Reads one token record at the given position.
#[verifier::rlimit(50)]
fn parse_entry_at(s: &str, i: usize) -> (r: Option<(DynamicTokenInfo, usize)>)
    requires
        i <= s@.len(),
    ensures
        match r {
            Some(p) => i <= p.1 <= s@.len() && p_entry(s@.skip(i as int)) == Some(
                (p.0@, s@.skip(p.1 as int)),
            ),
            None => p_entry(s@.skip(i as int)) is None,
        },
{
    let i1 = match expect_lit(s, i, "{\"address\":") {
        Some(j) => j,
        None => {
            return None;
        },
    };
    let (address, i2) = match parse_string(s, i1) {
        Some(p) => p,
        None => {
            return None;
        },
    };
    let i3 = match expect_lit(s, i2, ",\"symbol\":") {
        Some(j) => j,
        None => {
            return None;
        },
    };
    let (symbol, i4) = match parse_string(s, i3) {
        Some(p) => p,
        None => {
            return None;
        },
    };
    let i5 = match expect_lit(s, i4, ",\"name\":") {
        Some(j) => j,
        None => {
            return None;
        },
    };
    let (name, i6) = match parse_string(s, i5) {
        Some(p) => p,
        None => {
            return None;
        },
    };
    let i7 = match expect_lit(s, i6, ",\"decimals\":") {
        Some(j) => j,
        None => {
            return None;
        },
    };
    let (decimals, i8) = match parse_u8(s, i7) {
        Some(p) => p,
        None => {
            return None;
        },
    };
    let i9 = match expect_lit(s, i8, ",\"logoURI\":") {
        Some(j) => j,
        None => {
            return None;
        },
    };
    let (logo, i10) = match parse_string(s, i9) {
        Some(p) => p,
        None => {
            return None;
        },
    };
    let i11 = match expect_lit(s, i10, ",\"tags\":[") {
        Some(j) => j,
        None => {
            return None;
        },
    };
    let (tags, i12) = match parse_tags(s, i11) {
        Some(p) => p,
        None => {
            return None;
        },
    };
    let i13 = match expect_lit(s, i12, "}") {
        Some(j) => j,
        None => {
            return None;
        },
    };
    let entry = DynamicTokenInfo { address, symbol, name, decimals, logoURI: logo, tags };
    Some((entry, i13))
}

/// Reads a record array at the given position, the opening bracket
/// already read.
fn parse_entries(s: &str, i: usize) -> (r: Option<(Vec<DynamicTokenInfo>, usize)>)
    requires
        i <= s@.len(),
    ensures
        match r {
            Some(p) => i < p.1 <= s@.len() && p_entries(s@.skip(i as int)) == Some(
                (p.0.deep_view(), s@.skip(p.1 as int)),
            ),
            None => p_entries(s@.skip(i as int)) is None,
        },
{
    let n = s.unicode_len();
    proof {
        assert(s@.skip(i as int).len() == n - i);
    }
    if i >= n {
        return None;
    }
    let c = s.get_char(i);
    proof {
        assert(s@.skip(i as int)[0] == s@[i as int]);
    }
    if c == ']' {
        let empty: Vec<DynamicTokenInfo> = Vec::new();
        proof {
            assert(s@.skip(i as int).skip(1) =~= s@.skip(i as int + 1));
            assert(empty.deep_view() =~= Seq::<DynamicTokenInfoView>::empty());
        }
        return Some((empty, i + 1));
    }
    let mut acc: Vec<DynamicTokenInfo> = Vec::new();
    let mut k: usize = i;
    proof {
        let q = p_entries_one(s@.skip(i as int));
        if q is Some {
            assert(acc.deep_view() + q->Some_0.0 =~= q->Some_0.0);
        }
    }
    loop
        invariant
            n == s@.len(),
            i <= k <= n,
            s@.skip(i as int).len() > 0,
            s@.skip(i as int)[0] != ']',
            match p_entries_one(s@.skip(k as int)) {
                Some(q) => p_entries_one(s@.skip(i as int)) == Some((acc.deep_view() + q.0, q.1)),
                None => p_entries_one(s@.skip(i as int)) is None,
            },
        decreases n - k,
    {
        let ev = parse_entry_at(s, k);
        match ev {
            None => {
                return None;
            },
            Some((v, j)) => {
                if j <= k {
                    // The reader stood still, so the text it leaves is no
                    // shorter and the sequence reader finds nothing here.
                    proof {
                        assert(j == k);
                        assert(s@.skip(j as int).len() >= s@.skip(k as int).len());
                    }
                    return None;
                }
                proof {
                    assert(s@.skip(j as int).len() < s@.skip(k as int).len());
                }
                if j >= n {
                    proof {
                        assert(s@.skip(j as int).len() == 0);
                    }
                    return None;
                }
                let c2 = s.get_char(j);
                proof {
                    assert(s@.skip(j as int)[0] == s@[j as int]);
                }
                if c2 == ',' {
                    let ghost pre = acc.deep_view();
                    acc.push(v);
                    proof {
                        assert(acc.deep_view() =~= pre.push(v@));
                        assert(s@.skip(j as int).skip(1) =~= s@.skip(j as int + 1));
                        let q = p_entries_one(s@.skip(j as int + 1));
                        if q is Some {
                            assert(pre + (seq![v@] + q->Some_0.0) =~= acc.deep_view()
                                + q->Some_0.0);
                        }
                    }
                    k = j + 1;
                } else if c2 == ']' {
                    let ghost pre = acc.deep_view();
                    acc.push(v);
                    proof {
                        assert(acc.deep_view() =~= pre.push(v@));
                        assert(s@.skip(j as int).skip(1) =~= s@.skip(j as int + 1));
                        assert(p_entries_one(s@.skip(k as int)) == Some(
                            (seq![v@], s@.skip(j as int + 1)),
                        ));
                        assert(pre + seq![v@] =~= acc.deep_view());
                    }
                    return Some((acc, j + 1));
                } else {
                    return None;
                }
            },
        }
    }
}

/// Reads a whole document holding one token record. Text that does not
/// fit the exchange format, among it a document that misses a required
/// field, is answered with a format error, never with a defaulted value.
pub fn entry_from_json(s: &str) -> (r: Result<DynamicTokenInfo, FormatError>)
    ensures
        match r {
            Ok(v) => parse_entry_doc(s@) == Some(v@),
            Err(_) => parse_entry_doc(s@) is None,
        },
{
    proof {
        assert(s@.skip(0) =~= s@);
    }
    let n = s.unicode_len();
    match parse_entry_at(s, 0) {
        Some((v, j)) => {
            if j == n {
                proof {
                    assert(s@.skip(j as int).len() == 0);
                }
                Ok(v)
            } else {
                proof {
                    assert(s@.skip(j as int).len() != 0);
                }
                Err(FormatError)
            }
        },
        None => Err(FormatError),
    }
}

/// Reads a whole document holding a token list. Text that does not fit
/// the exchange format, among it a document whose records miss required
/// fields, is answered with a format error, never with defaulted values.
pub fn list_from_json(s: &str) -> (r: Result<DynamicTokenList, FormatError>)
    ensures
        match r {
            Ok(v) => parse_list_doc(s@) == Some(v@),
            Err(_) => parse_list_doc(s@) is None,
        },
{
    proof {
        assert(s@.skip(0) =~= s@);
    }
    let n = s.unicode_len();
    let i1 = match expect_lit(s, 0, "{\"tokens\":[") {
        Some(j) => j,
        None => {
            return Err(FormatError);
        },
    };
    let (tokens, i2) = match parse_entries(s, i1) {
        Some(p) => p,
        None => {
            return Err(FormatError);
        },
    };
    let i3 = match expect_lit(s, i2, "}") {
        Some(j) => j,
        None => {
            return Err(FormatError);
        },
    };
    if i3 == n {
        proof {
            assert(s@.skip(i3 as int).len() == 0);
        }
        Ok(DynamicTokenList { tokens })
    } else {
        proof {
            assert(s@.skip(i3 as int).len() != 0);
        }
        Err(FormatError)
    }
}

} // verus!
