//! The on-disk form of the credential record: a JSON object with one
//! member per field, in a fixed order, strings escaped, absent options
//! written as null. Encoding and decoding are both verified and
//! decoding inverts encoding exactly. The decoder is tolerant of
//! whitespace between tokens and of the standard string escapes,
//! including `\uXXXX` and surrogate pairs, so records written by a
//! standard JSON serializer read back; reading and writing the file
//! itself is the caller's I/O.

use vstd::prelude::*;
use vstd::string::*;
use vstd::utf8::char_u32_cast;
use vstd::utf8::is_scalar;
use vstd::arithmetic::div_mod::lemma_fundamental_div_mod;

use crate::credentials::view_opt;
use crate::credentials::Credentials;
use crate::credentials::CredentialsView;
use crate::strutil::chars_of;
use crate::strutil::push_char;
use crate::strutil::str_eq;
use crate::strutil::string_of;

verus! {

/// Why a persisted record could not be produced or read back.
#[derive(Debug)]
pub enum StoreError {
    NotFound,
    Corrupt,
    Io(String),
}

// ─── The encoded form, as specification ─────────────────────────────

/// The lower-case hexadecimal digit for a value below sixteen.
pub open spec fn hex_digit(d: int) -> char
    recommends
        0 <= d < 16,
{
    if d < 10 {
        ((48 + d) as u8) as char
    } else {
        ((87 + d) as u8) as char
    }
}

/// The escape of one character inside an encoded string: quote and
/// backslash take a backslash prefix, control characters become a
/// `\u00XX` escape, everything else stands as itself.
pub open spec fn esc_char(c: char) -> Seq<char> {
    if c == '"' {
        seq!['\\', '"']
    } else if c == '\\' {
        seq!['\\', '\\']
    } else if (c as u32) < 32 {
        seq!['\\', 'u', '0', '0', hex_digit((c as u32) as int / 16), hex_digit(
            (c as u32) as int % 16,
        )]
    } else {
        seq![c]
    }
}

/// The escaped body of an encoded string.
pub open spec fn esc_str(s: Seq<char>) -> Seq<char>
    decreases s.len(),
{
    if s.len() == 0 {
        Seq::empty()
    } else {
        esc_char(s[0]) + esc_str(s.drop_first())
    }
}

/// A string value: the escaped body in quotes.
pub open spec fn enc_string(s: Seq<char>) -> Seq<char> {
    seq!['"'] + esc_str(s) + seq!['"']
}

/// An optional string value: the encoded string, or null.
pub open spec fn enc_opt(o: Option<Seq<char>>) -> Seq<char> {
    match o {
        Some(s) => enc_string(s),
        None => "null"@,
    }
}

/// The encoded record: one compact JSON object, members in a fixed
/// order.
pub open spec fn enc_credentials(c: CredentialsView) -> Seq<char> {
    "{\"api_url\":"@ + (enc_string(c.api_url) + (",\"api_key\":"@ + (enc_opt(c.api_key) + (
    ",\"auth_token\":"@ + (enc_opt(c.auth_token) + (",\"tenant_id\":"@ + (enc_opt(c.tenant_id) + (
    ",\"user_id\":"@ + (enc_opt(c.user_id) + (",\"environment_id\":"@ + (enc_opt(
        c.environment_id,
    ) + "}"@)))))))))))
}

// ─── The decoder, as specification ──────────────────────────────────

/// The character a single-letter escape sequence stands for.
pub open spec fn unesc(c: char) -> Option<char> {
    if c == '"' {
        Some('"')
    } else if c == '\\' {
        Some('\\')
    } else if c == '/' {
        Some('/')
    } else if c == 'n' {
        Some('\n')
    } else if c == 't' {
        Some('\t')
    } else if c == 'r' {
        Some('\r')
    } else if c == 'b' {
        Some('\u{8}')
    } else if c == 'f' {
        Some('\u{c}')
    } else {
        None
    }
}

/// The value of one hexadecimal digit, either case.
pub open spec fn hex_val(c: char) -> Option<int> {
    let u = c as u32;
    if 48 <= u && u <= 57 {
        Some(u - 48)
    } else if 97 <= u && u <= 102 {
        Some(u - 87)
    } else if 65 <= u && u <= 70 {
        Some(u - 55)
    } else {
        None
    }
}

/// Four hexadecimal digits at a position, as one value.
pub open spec fn parse_hex4(s: Seq<char>, i: int) -> Option<int> {
    if 0 <= i && i + 4 <= s.len() {
        match (hex_val(s[i]), hex_val(s[i + 1]), hex_val(s[i + 2]), hex_val(s[i + 3])) {
            (Some(a), Some(b), Some(c), Some(d)) => Some(a * 4096 + b * 256 + c * 16 + d),
            _ => None,
        }
    } else {
        None
    }
}

/// The character a surrogate pair encodes.
pub open spec fn pair_char(hi: int, lo: int) -> char {
    ((0x10000 + (hi - 0xD800) * 0x400 + (lo - 0xDC00)) as u32) as char
}

/// JSON's insignificant whitespace.
pub open spec fn is_ws(c: char) -> bool {
    c == ' ' || c == '\t' || c == '\n' || c == '\r'
}

/// The first position at or after `i` that holds no whitespace.
pub open spec fn skip_ws(s: Seq<char>, i: int) -> int
    decreases s.len() - i,
{
    if 0 <= i && i < s.len() && is_ws(s[i]) {
        skip_ws(s, i + 1)
    } else {
        i
    }
}

/// Whether `pat` occurs in `s` at position `i`.
pub open spec fn matches_at(s: Seq<char>, i: int, pat: Seq<char>) -> bool {
    &&& 0 <= i
    &&& i + pat.len() <= s.len()
    &&& forall|k: int| 0 <= k < pat.len() ==> s[i + k] == pat[k]
}

/// Consumes `pat` exactly at position `i`.
pub open spec fn expect_lit(s: Seq<char>, i: int, pat: Seq<char>) -> Option<int> {
    if matches_at(s, i, pat) {
        Some(i + pat.len())
    } else {
        None
    }
}

/// Consumes one expected character, letting whitespace precede it.
pub open spec fn expect_char(s: Seq<char>, i: int, c: char) -> Option<int> {
    let j = skip_ws(s, i);
    if 0 <= j && j < s.len() && s[j] == c {
        Some(j + 1)
    } else {
        None
    }
}

/// Parses the rest of a string value after its opening quote: the
/// contents up to the closing quote, unescaping single-letter and
/// `\uXXXX` escapes (surrogate pairs included) as it goes, and the
/// position after the closing quote.
pub open spec fn parse_string_body(s: Seq<char>, i: int) -> Option<(Seq<char>, int)>
    decreases s.len() - i,
{
    if i < 0 || i >= s.len() {
        None
    } else if s[i] == '"' {
        Some((Seq::empty(), i + 1))
    } else if s[i] == '\\' {
        if i + 1 < s.len() {
            if s[i + 1] == 'u' {
                if i + 6 <= s.len() {
                    match parse_hex4(s, i + 2) {
                        Some(code) => if 0xD800 <= code && code < 0xDC00 {
                            if i + 12 <= s.len() && s[i + 6] == '\\' && s[i + 7] == 'u' {
                                match parse_hex4(s, i + 8) {
                                    Some(low) => if 0xDC00 <= low && low < 0xE000 {
                                        match parse_string_body(s, i + 12) {
                                            Some(t) => Some((seq![pair_char(code, low)] + t.0, t.1)),
                                            None => None,
                                        }
                                    } else {
                                        None
                                    },
                                    None => None,
                                }
                            } else {
                                None
                            }
                        } else if 0xDC00 <= code && code < 0xE000 {
                            None
                        } else {
                            match parse_string_body(s, i + 6) {
                                Some(t) => Some((seq![((code as u32) as char)] + t.0, t.1)),
                                None => None,
                            }
                        },
                        None => None,
                    }
                } else {
                    None
                }
            } else {
                match unesc(s[i + 1]) {
                    Some(c) => match parse_string_body(s, i + 2) {
                        Some(t) => Some((seq![c] + t.0, t.1)),
                        None => None,
                    },
                    None => None,
                }
            }
        } else {
            None
        }
    } else {
        match parse_string_body(s, i + 1) {
            Some(t) => Some((seq![s[i]] + t.0, t.1)),
            None => None,
        }
    }
}

/// Parses a member value: a quoted string, or null for an absent option.
pub open spec fn parse_value(s: Seq<char>, i: int) -> Option<(Option<Seq<char>>, int)> {
    if 0 <= i < s.len() && s[i] == '"' {
        match parse_string_body(s, i + 1) {
            Some(t) => Some((Some(t.0), t.1)),
            None => None,
        }
    } else {
        match expect_lit(s, i, "null"@) {
            Some(j) => Some((None, j)),
            None => None,
        }
    }
}

/// Parses one quoted member key (which must equal `key`) and its colon,
/// whitespace allowed around them.
pub open spec fn parse_key(s: Seq<char>, i: int, key: Seq<char>) -> Option<int> {
    let j = skip_ws(s, i);
    if 0 <= j && j < s.len() && s[j] == '"' {
        match parse_string_body(s, j + 1) {
            Some(t) => if t.0 == key {
                expect_char(s, t.1, ':')
            } else {
                None
            },
            None => None,
        }
    } else {
        None
    }
}

/// Parses one `"key": value` member.
pub open spec fn parse_member(s: Seq<char>, i: int, key: Seq<char>) -> Option<
    (Option<Seq<char>>, int),
> {
    match parse_key(s, i, key) {
        Some(j) => parse_value(s, skip_ws(s, j)),
        None => None,
    }
}

/// Parses a whole encoded record; the text must carry the object's six
/// members in their fixed order, whitespace between tokens allowed, and
/// nothing but whitespace after the closing brace.
pub open spec fn dec_credentials(s: Seq<char>) -> Option<CredentialsView> {
    match expect_char(s, 0, '{') {
        Some(i0) => match parse_member(s, i0, "api_url"@) {
            Some(u) => match u.0 {
                Some(api_url) => match expect_char(s, u.1, ',') {
                    Some(i1) => match parse_member(s, i1, "api_key"@) {
                        Some(k) => match expect_char(s, k.1, ',') {
                            Some(i2) => match parse_member(s, i2, "auth_token"@) {
                                Some(t) => match expect_char(s, t.1, ',') {
                                    Some(i3) => match parse_member(s, i3, "tenant_id"@) {
                                        Some(te) => match expect_char(s, te.1, ',') {
                                            Some(i4) => match parse_member(s, i4, "user_id"@) {
                                                Some(us) => match expect_char(s, us.1, ',') {
                                                    Some(i5) => match parse_member(
                                                        s,
                                                        i5,
                                                        "environment_id"@,
                                                    ) {
                                                        Some(en) => match expect_char(
                                                            s,
                                                            en.1,
                                                            '}',
                                                        ) {
                                                            Some(end) => if skip_ws(s, end)
                                                                == s.len() {
                                                                Some(
                                                                    CredentialsView {
                                                                        api_url: api_url,
                                                                        api_key: k.0,
                                                                        auth_token: t.0,
                                                                        tenant_id: te.0,
                                                                        user_id: us.0,
                                                                        environment_id: en.0,
                                                                    },
                                                                )
                                                            } else {
                                                                None
                                                            },
                                                            None => None,
                                                        },
                                                        None => None,
                                                    },
                                                    None => None,
                                                },
                                                None => None,
                                            },
                                            None => None,
                                        },
                                        None => None,
                                    },
                                    None => None,
                                },
                                None => None,
                            },
                            None => None,
                        },
                        None => None,
                    },
                    None => None,
                },
                None => None,
            },
            None => None,
        },
        None => None,
    }
}

// ─── Inversion: decoding an encoding ────────────────────────────────

/// A pattern found at a position is found piecewise.
proof fn lemma_matches_split(s: Seq<char>, i: int, a: Seq<char>, b: Seq<char>)
    requires
        matches_at(s, i, a + b),
    ensures
        matches_at(s, i, a),
        matches_at(s, i + a.len(), b),
{
    assert forall|k: int| 0 <= k < a.len() implies s[i + k] == a[k] by {
        assert((a + b)[k] == a[k]);
    }
    assert forall|k: int| 0 <= k < b.len() implies s[i + a.len() + k] == b[k] by {
        assert((a + b)[a.len() + k] == b[k]);
    }
}

/// Two adjacent patterns are found as one.
proof fn lemma_matches_join(s: Seq<char>, i: int, a: Seq<char>, b: Seq<char>)
    requires
        matches_at(s, i, a),
        matches_at(s, i + a.len(), b),
    ensures
        matches_at(s, i, a + b),
{
    assert forall|k: int| 0 <= k < (a + b).len() implies s[i + k] == (a + b)[k] by {
        if k < a.len() {
            assert(s[i + k] == a[k]);
        } else {
            assert(s[i + a.len() + (k - a.len())] == b[k - a.len()]);
            assert(i + a.len() + (k - a.len()) == i + k);
        }
    }
}

/// Skipping whitespace stands still on a non-whitespace character.
proof fn lemma_skip_ws_still(s: Seq<char>, i: int)
    requires
        0 <= i < s.len() ==> !is_ws(s[i]),
    ensures
        skip_ws(s, i) == i,
{
}

/// A string of ordinary characters escapes to itself.
proof fn lemma_esc_str_plain(k: Seq<char>)
    requires
        forall|j: int| 0 <= j < k.len() ==> k[j] != '"' && k[j] != '\\' && (k[j] as u32) >= 32,
    ensures
        esc_str(k) == k,
    decreases k.len(),
{
    if k.len() == 0 {
        assert(esc_str(k) =~= k);
    } else {
        assert(esc_char(k[0]) =~= seq![k[0]]);
        lemma_esc_str_plain(k.drop_first());
        assert(esc_str(k) =~= k);
    }
}

/// A hexadecimal digit reads back as its value.
proof fn lemma_hex_digit_val(d: int)
    requires
        0 <= d < 16,
    ensures
        hex_val(hex_digit(d)) == Some(d),
{
}

/// The escaped body followed by a closing quote parses back to the
/// original contents, ending just past the quote.
proof fn lemma_parse_escaped(s: Seq<char>, i: int, content: Seq<char>)
    requires
        matches_at(s, i, esc_str(content) + seq!['"']),
    ensures
        parse_string_body(s, i) == Some((content, i + esc_str(content).len() + 1)),
    decreases content.len(),
{
    let pat = esc_str(content) + seq!['"'];
    if content.len() == 0 {
        assert(pat[0] == '"');
        assert(s[i] == '"');
        assert(content =~= Seq::<char>::empty());
    } else {
        let c = content[0];
        let tail = content.drop_first();
        assert(esc_str(content) == esc_char(c) + esc_str(tail));
        let tailpat = esc_str(tail) + seq!['"'];
        if c == '"' || c == '\\' {
            let e = if c == '"' {
                '"'
            } else {
                '\\'
            };
            assert(esc_char(c) =~= seq!['\\', e]);
            assert(pat =~= seq!['\\', e] + tailpat);
            lemma_matches_split(s, i, seq!['\\', e], tailpat);
            assert(s[i] == '\\') by {
                assert(s[i + 0] == seq!['\\', e][0]);
            }
            assert(s[i + 1] == e) by {
                assert(s[i + 1] == seq!['\\', e][1]);
            }
            assert(unesc(e) == Some(c));
            lemma_parse_escaped(s, i + 2, tail);
            assert(parse_string_body(s, i + 2) == Some((tail, i + 2 + esc_str(tail).len() + 1)));
            assert(seq![c] + tail =~= content);
        } else if (c as u32) < 32 {
            let u = (c as u32) as int;
            let esc6 = seq!['\\', 'u', '0', '0', hex_digit(u / 16), hex_digit(u % 16)];
            assert(esc_char(c) =~= esc6);
            assert(pat =~= esc6 + tailpat);
            lemma_matches_split(s, i, esc6, tailpat);
            assert(s[i] == '\\') by {
                assert(s[i + 0] == esc6[0]);
            }
            assert(s[i + 1] == 'u') by {
                assert(s[i + 1] == esc6[1]);
            }
            assert(s[i + 2] == '0' && s[i + 3] == '0') by {
                assert(s[i + 2] == esc6[2]);
                assert(s[i + 3] == esc6[3]);
            }
            assert(s[i + 4] == hex_digit(u / 16) && s[i + 5] == hex_digit(u % 16)) by {
                assert(s[i + 4] == esc6[4]);
                assert(s[i + 5] == esc6[5]);
            }
            assert(0 <= u / 16 < 16 && 0 <= u % 16 < 16);
            lemma_hex_digit_val(u / 16);
            lemma_hex_digit_val(u % 16);
            assert(hex_val('0') == Some(0int));
            let code = 0 * 4096 + 0 * 256 + (u / 16) * 16 + u % 16;
            assert(parse_hex4(s, i + 2) == Some(code));
            lemma_fundamental_div_mod(u, 16);
            assert(code == u);
            assert(code < 32);
            lemma_parse_escaped(s, i + 6, tail);
            assert(parse_string_body(s, i + 6) == Some((tail, i + 6 + esc_str(tail).len() + 1)));
            assert(((code as u32) as char) == c) by {
                char_u32_cast(c, c as u32);
            }
            assert(seq![((code as u32) as char)] + tail =~= content);
        } else {
            assert(esc_char(c) =~= seq![c]);
            assert(pat =~= seq![c] + tailpat);
            lemma_matches_split(s, i, seq![c], tailpat);
            assert(s[i] == c) by {
                assert(s[i + 0] == seq![c][0]);
            }
            lemma_parse_escaped(s, i + 1, tail);
            assert(parse_string_body(s, i + 1) == Some((tail, i + 1 + esc_str(tail).len() + 1)));
            assert(seq![s[i]] + tail =~= content);
        }
    }
}

/// An encoded string value parses back to its contents.
proof fn lemma_parse_value_string(s: Seq<char>, i: int, content: Seq<char>)
    requires
        matches_at(s, i, enc_string(content)),
    ensures
        parse_value(s, i) == Some((Some(content), i + enc_string(content).len())),
{
    assert(enc_string(content) =~= seq!['"'] + (esc_str(content) + seq!['"']));
    lemma_matches_split(s, i, seq!['"'], esc_str(content) + seq!['"']);
    assert(s[i] == '"') by {
        assert(s[i + 0] == seq!['"'][0]);
    }
    lemma_parse_escaped(s, i + 1, content);
}

/// A null member parses back to an absent option; it does not look like
/// a string.
proof fn lemma_parse_value_null(s: Seq<char>, i: int)
    requires
        matches_at(s, i, "null"@),
    ensures
        parse_value(s, i) == Some((None::<Seq<char>>, i + 4)),
{
    reveal_strlit("null");
    assert(s[i] == 'n') by {
        assert(s[i + 0] == "null"@[0]);
    }
}

/// An encoded member value parses back to the option it encodes.
proof fn lemma_parse_value(s: Seq<char>, i: int, o: Option<Seq<char>>)
    requires
        matches_at(s, i, enc_opt(o)),
    ensures
        parse_value(s, i) == Some((o, i + enc_opt(o).len())),
{
    match o {
        Some(content) => lemma_parse_value_string(s, i, content),
        None => {
            reveal_strlit("null");
            lemma_parse_value_null(s, i);
        },
    }
}

/// An encoded member value starts with a quote or an 'n': never with
/// whitespace.
proof fn lemma_enc_opt_head(o: Option<Seq<char>>)
    ensures
        enc_opt(o).len() > 0,
        !is_ws(enc_opt(o)[0]),
{
    match o {
        Some(content) => {
            assert(enc_opt(o)[0] == '"') by {
                assert((seq!['"'] + esc_str(content) + seq!['"'])[0] == '"');
            }
        },
        None => {
            reveal_strlit("null");
            assert(enc_opt(o)[0] == 'n');
        },
    }
}

/// A `"key": value` text at a position parses back to the member it
/// encodes.
proof fn lemma_parse_member_encoded(s: Seq<char>, i: int, key: Seq<char>, o: Option<Seq<char>>)
    requires
        matches_at(s, i, seq!['"'] + key + seq!['"'] + seq![':'] + enc_opt(o)),
        forall|j: int| 0 <= j < key.len() ==> key[j] != '"' && key[j] != '\\' && (key[j] as u32)
            >= 32,
    ensures
        parse_member(s, i, key) == Some((o, i + key.len() + 3 + enc_opt(o).len())),
{
    let q = seq!['"'];
    let colon = seq![':'];
    let p = enc_opt(o);
    lemma_matches_split(s, i, q + key + q + colon, p);
    lemma_matches_split(s, i, q + key + q, colon);
    lemma_matches_split(s, i, q + key, q);
    lemma_matches_split(s, i, q, key);
    assert(s[i] == '"') by {
        assert(s[i + 0] == q[0]);
    }
    lemma_skip_ws_still(s, i);
    // the quoted key reads back as itself
    lemma_esc_str_plain(key);
    lemma_matches_join(s, i + 1, key, q);
    assert(matches_at(s, i + 1, esc_str(key) + seq!['"']));
    lemma_parse_escaped(s, i + 1, key);
    assert(parse_string_body(s, i + 1) == Some((key, i + key.len() + 2)));
    // the colon follows at once
    assert(s[i + key.len() + 2] == ':') by {
        assert(s[i + (q + key + q).len() + 0] == colon[0]);
    }
    lemma_skip_ws_still(s, i + key.len() + 2);
    assert(expect_char(s, i + key.len() + 2, ':') == Some(i + key.len() + 3));
    assert(parse_key(s, i, key) == Some(i + key.len() + 3));
    // then the value
    let vp = i + key.len() + 3;
    assert(matches_at(s, vp, p)) by {
        assert((q + key + q + colon).len() == key.len() + 3);
    }
    lemma_enc_opt_head(o);
    assert(s[vp] == p[0]) by {
        assert(s[vp + 0] == p[0]);
    }
    lemma_skip_ws_still(s, vp);
    lemma_parse_value(s, vp, o);
}

/// A `,"key":` chunk followed by an encoded value is consumed as one
/// separator and one member.
proof fn lemma_member_chunk(
    s: Seq<char>,
    o: int,
    chunk: Seq<char>,
    key: Seq<char>,
    field: Option<Seq<char>>,
)
    requires
        matches_at(s, o, chunk),
        matches_at(s, o + chunk.len(), enc_opt(field)),
        chunk.len() == key.len() + 4,
        chunk[0] == ',',
        chunk.subrange(1, chunk.len() as int) == seq!['"'] + key + seq!['"'] + seq![':'],
        forall|j: int| 0 <= j < key.len() ==> key[j] != '"' && key[j] != '\\' && (key[j] as u32)
            >= 32,
    ensures
        expect_char(s, o, ',') == Some(o + 1),
        parse_member(s, o + 1, key) == Some((field, o + chunk.len() + enc_opt(field).len())),
{
    assert(s[o] == ',') by {
        assert(s[o + 0] == chunk[0]);
    }
    lemma_skip_ws_still(s, o);
    // the chunk minus its comma is the quoted key and colon
    assert(matches_at(s, o + 1, chunk.subrange(1, chunk.len() as int))) by {
        assert forall|k: int| 0 <= k < chunk.len() - 1 implies s[o + 1 + k] == chunk.subrange(
            1,
            chunk.len() as int,
        )[k] by {
            assert(s[o + (1 + k)] == chunk[1 + k]);
        }
    }
    lemma_matches_join(
        s,
        o + 1,
        seq!['"'] + key + seq!['"'] + seq![':'],
        enc_opt(field),
    );
    lemma_parse_member_encoded(s, o + 1, key, field);
}

/// The opening brace and the first member, read off their chunk.
proof fn lemma_chunk_api_url(s: Seq<char>, o: int, url: Seq<char>)
    requires
        matches_at(s, o, "{\"api_url\":"@),
        matches_at(s, o + "{\"api_url\":"@.len(), enc_string(url)),
    ensures
        expect_char(s, o, '{') == Some(o + 1),
        parse_member(s, o + 1, "api_url"@) == Some(
            (Some(url), o + "{\"api_url\":"@.len() + enc_string(url).len()),
        ),
{
    let chunk = "{\"api_url\":"@;
    reveal_strlit("{\"api_url\":");
    reveal_strlit("api_url");
    assert(s[o] == '{') by {
        assert(s[o + 0] == chunk[0]);
    }
    lemma_skip_ws_still(s, o);
    assert(matches_at(s, o + 1, chunk.subrange(1, 11))) by {
        assert forall|k: int| 0 <= k < 10 implies s[o + 1 + k] == chunk.subrange(1, 11)[k] by {
            assert(s[o + (1 + k)] == chunk[1 + k]);
        }
    }
    assert(chunk.subrange(1, 11) =~= seq!['\"'] + "api_url"@ + seq!['\"'] + seq![':']);
    lemma_matches_join(s, o + 1, seq!['\"'] + "api_url"@ + seq!['\"'] + seq![':'], enc_string(url));
    assert(enc_opt(Some(url)) == enc_string(url));
    lemma_parse_member_encoded(s, o + 1, "api_url"@, Some(url));
}

/// One optional member behind its comma, read off its chunk.
proof fn lemma_chunk_api_key(s: Seq<char>, o: int, field: Option<Seq<char>>)
    requires
        matches_at(s, o, ",\"api_key\":"@),
        matches_at(s, o + ",\"api_key\":"@.len(), enc_opt(field)),
    ensures
        expect_char(s, o, ',') == Some(o + 1),
        parse_member(s, o + 1, "api_key"@) == Some(
            (field, o + ",\"api_key\":"@.len() + enc_opt(field).len()),
        ),
{
    reveal_strlit(",\"api_key\":");
    reveal_strlit("api_key");
    assert(",\"api_key\":"@.subrange(1, 11) =~= seq!['\"'] + "api_key"@ + seq!['\"'] + seq![':']);
    lemma_member_chunk(s, o, ",\"api_key\":"@, "api_key"@, field);
}

proof fn lemma_chunk_auth_token(s: Seq<char>, o: int, field: Option<Seq<char>>)
    requires
        matches_at(s, o, ",\"auth_token\":"@),
        matches_at(s, o + ",\"auth_token\":"@.len(), enc_opt(field)),
    ensures
        expect_char(s, o, ',') == Some(o + 1),
        parse_member(s, o + 1, "auth_token"@) == Some(
            (field, o + ",\"auth_token\":"@.len() + enc_opt(field).len()),
        ),
{
    reveal_strlit(",\"auth_token\":");
    reveal_strlit("auth_token");
    assert(",\"auth_token\":"@.subrange(1, 14) =~= seq!['\"'] + "auth_token"@ + seq!['\"']
        + seq![':']);
    lemma_member_chunk(s, o, ",\"auth_token\":"@, "auth_token"@, field);
}

proof fn lemma_chunk_tenant_id(s: Seq<char>, o: int, field: Option<Seq<char>>)
    requires
        matches_at(s, o, ",\"tenant_id\":"@),
        matches_at(s, o + ",\"tenant_id\":"@.len(), enc_opt(field)),
    ensures
        expect_char(s, o, ',') == Some(o + 1),
        parse_member(s, o + 1, "tenant_id"@) == Some(
            (field, o + ",\"tenant_id\":"@.len() + enc_opt(field).len()),
        ),
{
    reveal_strlit(",\"tenant_id\":");
    reveal_strlit("tenant_id");
    assert(",\"tenant_id\":"@.subrange(1, 13) =~= seq!['\"'] + "tenant_id"@ + seq!['\"']
        + seq![':']);
    lemma_member_chunk(s, o, ",\"tenant_id\":"@, "tenant_id"@, field);
}

proof fn lemma_chunk_user_id(s: Seq<char>, o: int, field: Option<Seq<char>>)
    requires
        matches_at(s, o, ",\"user_id\":"@),
        matches_at(s, o + ",\"user_id\":"@.len(), enc_opt(field)),
    ensures
        expect_char(s, o, ',') == Some(o + 1),
        parse_member(s, o + 1, "user_id"@) == Some(
            (field, o + ",\"user_id\":"@.len() + enc_opt(field).len()),
        ),
{
    reveal_strlit(",\"user_id\":");
    reveal_strlit("user_id");
    assert(",\"user_id\":"@.subrange(1, 11) =~= seq!['\"'] + "user_id"@ + seq!['\"'] + seq![':']);
    lemma_member_chunk(s, o, ",\"user_id\":"@, "user_id"@, field);
}

proof fn lemma_chunk_environment_id(s: Seq<char>, o: int, field: Option<Seq<char>>)
    requires
        matches_at(s, o, ",\"environment_id\":"@),
        matches_at(s, o + ",\"environment_id\":"@.len(), enc_opt(field)),
    ensures
        expect_char(s, o, ',') == Some(o + 1),
        parse_member(s, o + 1, "environment_id"@) == Some(
            (field, o + ",\"environment_id\":"@.len() + enc_opt(field).len()),
        ),
{
    reveal_strlit(",\"environment_id\":");
    reveal_strlit("environment_id");
    assert(",\"environment_id\":"@.subrange(1, 18) =~= seq!['\"'] + "environment_id"@ + seq!['\"']
        + seq![':']);
    lemma_member_chunk(s, o, ",\"environment_id\":"@, "environment_id"@, field);
}

/// Decoding inverts encoding: every credential record is read back
/// unchanged from its encoded form.
pub proof fn lemma_credentials_round_trip(c: CredentialsView)
    ensures
        dec_credentials(enc_credentials(c)) == Some(c),
{
    let l0 = "{\"api_url\":"@;
    let l1 = ",\"api_key\":"@;
    let l2 = ",\"auth_token\":"@;
    let l3 = ",\"tenant_id\":"@;
    let l4 = ",\"user_id\":"@;
    let l5 = ",\"environment_id\":"@;
    let l6 = "}"@;
    let p0 = enc_string(c.api_url);
    let p1 = enc_opt(c.api_key);
    let p2 = enc_opt(c.auth_token);
    let p3 = enc_opt(c.tenant_id);
    let p4 = enc_opt(c.user_id);
    let p5 = enc_opt(c.environment_id);
    let s = enc_credentials(c);
    assert(matches_at(s, 0, s)) by {
        assert(forall|k: int| 0 <= k < s.len() ==> #[trigger] s[0 + k] == s[k]);
    }
    lemma_matches_split(s, 0, l0, p0 + (l1 + (p1 + (l2 + (p2 + (l3 + (p3 + (l4 + (p4 + (l5 + (p5
        + l6)))))))))));
    let o0 = l0.len() as int;
    lemma_matches_split(s, o0, p0, l1 + (p1 + (l2 + (p2 + (l3 + (p3 + (l4 + (p4 + (l5 + (p5
        + l6))))))))));
    let o1 = o0 + p0.len();
    lemma_matches_split(s, o1, l1, p1 + (l2 + (p2 + (l3 + (p3 + (l4 + (p4 + (l5 + (p5 + l6)))))))));
    let o2 = o1 + l1.len();
    lemma_matches_split(s, o2, p1, l2 + (p2 + (l3 + (p3 + (l4 + (p4 + (l5 + (p5 + l6))))))));
    let o3 = o2 + p1.len();
    lemma_matches_split(s, o3, l2, p2 + (l3 + (p3 + (l4 + (p4 + (l5 + (p5 + l6)))))));
    let o4 = o3 + l2.len();
    lemma_matches_split(s, o4, p2, l3 + (p3 + (l4 + (p4 + (l5 + (p5 + l6))))));
    let o5 = o4 + p2.len();
    lemma_matches_split(s, o5, l3, p3 + (l4 + (p4 + (l5 + (p5 + l6)))));
    let o6 = o5 + l3.len();
    lemma_matches_split(s, o6, p3, l4 + (p4 + (l5 + (p5 + l6))));
    let o7 = o6 + p3.len();
    lemma_matches_split(s, o7, l4, p4 + (l5 + (p5 + l6)));
    let o8 = o7 + l4.len();
    lemma_matches_split(s, o8, p4, l5 + (p5 + l6));
    let o9 = o8 + p4.len();
    lemma_matches_split(s, o9, l5, p5 + l6);
    let o10 = o9 + l5.len();
    lemma_matches_split(s, o10, p5, l6);
    let o11 = o10 + p5.len();
    // each chunk and its value are consumed in turn
    lemma_chunk_api_url(s, 0, c.api_url);
    lemma_chunk_api_key(s, o1, c.api_key);
    lemma_chunk_auth_token(s, o3, c.auth_token);
    lemma_chunk_tenant_id(s, o5, c.tenant_id);
    lemma_chunk_user_id(s, o7, c.user_id);
    lemma_chunk_environment_id(s, o9, c.environment_id);
    // the closing brace and the end of the text
    reveal_strlit("}");
    assert(s[o11] == '}') by {
        assert(s[o11 + 0] == l6[0]);
    }
    lemma_skip_ws_still(s, o11);
    assert(expect_char(s, o11, '}') == Some(o11 + 1));
    assert(o11 + 1 == s.len());
    assert(skip_ws(s, o11 + 1) == s.len());
    assert(dec_credentials(s) matches Some(r) && r =~= c);
}

// ─── The executable encoder ─────────────────────────────────────────

/// Escaping distributes over appending one character.
proof fn lemma_esc_str_snoc(s: Seq<char>, c: char)
    ensures
        esc_str(s.push(c)) == esc_str(s) + esc_char(c),
    decreases s.len(),
{
    if s.len() == 0 {
        assert(s.push(c) =~= seq![c]);
        assert(seq![c].drop_first() =~= Seq::<char>::empty());
        assert(esc_str(Seq::<char>::empty()) =~= Seq::<char>::empty());
        assert(esc_str(seq![c]) == esc_char(seq![c][0]) + esc_str(seq![c].drop_first()));
        assert(esc_str(s.push(c)) =~= esc_char(c));
        assert(esc_str(s) + esc_char(c) =~= esc_char(c));
    } else {
        assert(s.push(c).drop_first() =~= s.drop_first().push(c));
        lemma_esc_str_snoc(s.drop_first(), c);
        assert(esc_str(s.push(c)) =~= esc_str(s) + esc_char(c));
    }
}

/// The lower-case hexadecimal digit character of a value below sixteen.
fn hex_char(d: u32) -> (r: char)
    requires
        d < 16,
    ensures
        r == hex_digit(d as int),
{
    if d < 10 {
        ((48 + d) as u8) as char
    } else {
        ((87 + d) as u8) as char
    }
}

/// Appends the encoded form of one string value.
fn encode_string_into(out: &mut String, s: &str)
    ensures
        final(out)@ == old(out)@ + enc_string(s@),
{
    let ghost start = out@;
    push_char(out, '"');
    let v = chars_of(s);
    let mut i: usize = 0;
    while i < v.len()
        invariant
            i <= v.len(),
            v@ == s@,
            out@ == start + seq!['"'] + esc_str(v@.subrange(0, i as int)),
        decreases v.len() - i,
    {
        let c = v[i];
        if c == '"' {
            push_char(out, '\\');
            push_char(out, '"');
        } else if c == '\\' {
            push_char(out, '\\');
            push_char(out, '\\');
        } else if (c as u32) < 32 {
            let u = c as u32;
            push_char(out, '\\');
            push_char(out, 'u');
            push_char(out, '0');
            push_char(out, '0');
            push_char(out, hex_char(u / 16));
            push_char(out, hex_char(u % 16));
        } else {
            push_char(out, c);
        }
        proof {
            lemma_esc_str_snoc(v@.subrange(0, i as int), c);
            assert(v@.subrange(0, i as int).push(c) =~= v@.subrange(0, i + 1));
            assert(out@ =~= start + seq!['"'] + esc_str(v@.subrange(0, i + 1)));
        }
        i += 1;
    }
    push_char(out, '"');
    proof {
        assert(v@.subrange(0, v@.len() as int) =~= s@);
        assert(out@ =~= start + enc_string(s@));
    }
}

/// Appends the encoded form of one optional member.
fn encode_opt_into(out: &mut String, o: &Option<String>)
    ensures
        final(out)@ == old(out)@ + enc_opt(view_opt(*o)),
{
    match o {
        Some(s) => encode_string_into(out, s.as_str()),
        None => out.append("null"),
    }
}

/// Concatenation of character sequences associates.
proof fn lemma_assoc(a: Seq<char>, b: Seq<char>, c: Seq<char>)
    ensures
        (a + b) + c == a + (b + c),
{
    assert((a + b) + c =~= a + (b + c));
}

/// The persisted text of a record: decoding it yields the record back.
pub fn encode_credentials(c: &Credentials) -> (r: String)
    ensures
        r@ == enc_credentials(c@),
{
    let mut out = String::from_str("{\"api_url\":");
    encode_string_into(&mut out, c.api_url.as_str());
    out.append(",\"api_key\":");
    encode_opt_into(&mut out, &c.api_key);
    out.append(",\"auth_token\":");
    encode_opt_into(&mut out, &c.auth_token);
    out.append(",\"tenant_id\":");
    encode_opt_into(&mut out, &c.tenant_id);
    out.append(",\"user_id\":");
    encode_opt_into(&mut out, &c.user_id);
    out.append(",\"environment_id\":");
    encode_opt_into(&mut out, &c.environment_id);
    out.append("}");
    proof {
        let l0 = "{\"api_url\":"@;
        let l1 = ",\"api_key\":"@;
        let l2 = ",\"auth_token\":"@;
        let l3 = ",\"tenant_id\":"@;
        let l4 = ",\"user_id\":"@;
        let l5 = ",\"environment_id\":"@;
        let l6 = "}"@;
        let p0 = enc_string(c@.api_url);
        let p1 = enc_opt(c@.api_key);
        let p2 = enc_opt(c@.auth_token);
        let p3 = enc_opt(c@.tenant_id);
        let p4 = enc_opt(c@.user_id);
        let p5 = enc_opt(c@.environment_id);
        assert(out@ == l0 + p0 + l1 + p1 + l2 + p2 + l3 + p3 + l4 + p4 + l5 + p5 + l6);
        let s12 = p5 + l6;
        lemma_assoc(l0 + p0 + l1 + p1 + l2 + p2 + l3 + p3 + l4 + p4 + l5, p5, l6);
        let s11 = l5 + s12;
        lemma_assoc(l0 + p0 + l1 + p1 + l2 + p2 + l3 + p3 + l4 + p4, l5, s12);
        let s10 = p4 + s11;
        lemma_assoc(l0 + p0 + l1 + p1 + l2 + p2 + l3 + p3 + l4, p4, s11);
        let s9 = l4 + s10;
        lemma_assoc(l0 + p0 + l1 + p1 + l2 + p2 + l3 + p3, l4, s10);
        let s8 = p3 + s9;
        lemma_assoc(l0 + p0 + l1 + p1 + l2 + p2 + l3, p3, s9);
        let s7 = l3 + s8;
        lemma_assoc(l0 + p0 + l1 + p1 + l2 + p2, l3, s8);
        let s6 = p2 + s7;
        lemma_assoc(l0 + p0 + l1 + p1 + l2, p2, s7);
        let s5 = l2 + s6;
        lemma_assoc(l0 + p0 + l1 + p1, l2, s6);
        let s4 = p1 + s5;
        lemma_assoc(l0 + p0 + l1, p1, s5);
        let s3 = l1 + s4;
        lemma_assoc(l0 + p0, l1, s4);
        let s2 = p0 + s3;
        lemma_assoc(l0, p0, s3);
        assert(out@ == l0 + s2);
        assert(enc_credentials(c@) == l0 + s2);
    }
    out
}

// ─── The executable decoder ─────────────────────────────────────────

fn unesc_exec(c: char) -> (r: Option<char>)
    ensures
        r == unesc(c),
{
    if c == '"' {
        Some('"')
    } else if c == '\\' {
        Some('\\')
    } else if c == '/' {
        Some('/')
    } else if c == 'n' {
        Some('\n')
    } else if c == 't' {
        Some('\t')
    } else if c == 'r' {
        Some('\r')
    } else if c == 'b' {
        Some('\u{8}')
    } else if c == 'f' {
        Some('\u{c}')
    } else {
        None
    }
}

fn hex_val_exec(c: char) -> (r: Option<u32>)
    ensures
        r matches Some(x) ==> hex_val(c) == Some(x as int) && x < 16,
        r is None ==> hex_val(c) is None,
{
    let u = c as u32;
    if 48 <= u && u <= 57 {
        Some(u - 48)
    } else if 97 <= u && u <= 102 {
        Some(u - 87)
    } else if 65 <= u && u <= 70 {
        Some(u - 55)
    } else {
        None
    }
}

fn parse_hex4_exec(v: &Vec<char>, i: usize) -> (r: Option<u32>)
    ensures
        r matches Some(x) ==> parse_hex4(v@, i as int) == Some(x as int) && x <= 0xFFFF,
        r is None ==> parse_hex4(v@, i as int) is None,
{
    if i <= v.len() && v.len() - i >= 4 {
        match (hex_val_exec(v[i]), hex_val_exec(v[i + 1]), hex_val_exec(v[i + 2]), hex_val_exec(
            v[i + 3],
        )) {
            (Some(a), Some(b), Some(c), Some(d)) => Some(a * 4096 + b * 256 + c * 16 + d),
            _ => None,
        }
    } else {
        None
    }
}

/// Relies on char::from_u32: it yields a character exactly for Unicode
/// scalar values, and that character's code is the argument.
#[verifier::external_body]
fn char_from_u32(n: u32) -> (r: Option<char>)
    ensures
        (r is Some) == is_scalar(n),
        r matches Some(c) ==> c as u32 == n,
{
    char::from_u32(n)
}

fn skip_ws_exec(v: &Vec<char>, i: usize) -> (r: usize)
    requires
        i <= v@.len(),
    ensures
        r as int == skip_ws(v@, i as int),
        i <= r <= v@.len(),
    decreases v@.len() - i,
{
    if i < v.len() {
        let c = v[i];
        if c == ' ' || c == '\t' || c == '\n' || c == '\r' {
            return skip_ws_exec(v, i + 1);
        }
    }
    i
}

fn parse_string_body_exec(v: &Vec<char>, i: usize) -> (r: Option<(Vec<char>, usize)>)
    ensures
        r matches Some(t) ==> parse_string_body(v@, i as int) == Some((t.0@, t.1 as int)) && i
            < t.1 <= v@.len(),
        r is None ==> parse_string_body(v@, i as int) is None,
    decreases v.len() - i,
{
    if i >= v.len() {
        return None;
    }
    let c = v[i];
    if c == '"' {
        let empty: Vec<char> = Vec::new();
        Some((empty, i + 1))
    } else if c == '\\' {
        if i + 1 < v.len() {
            if v[i + 1] == 'u' {
                if v.len() - i >= 6 {
                    match parse_hex4_exec(v, i + 2) {
                        Some(code) => {
                            if 0xD800 <= code && code < 0xDC00 {
                                if v.len() - i >= 12 && v[i + 6] == '\\' && v[i + 7] == 'u' {
                                    match parse_hex4_exec(v, i + 8) {
                                        Some(low) => {
                                            if 0xDC00 <= low && low < 0xE000 {
                                                let scalar: u32 = 0x10000 + (code - 0xD800) * 0x400
                                                    + (low - 0xDC00);
                                                proof {
                                                    assert(is_scalar(scalar));
                                                }
                                                match char_from_u32(scalar) {
                                                    Some(ch) => {
                                                        match parse_string_body_exec(v, i + 12) {
                                                            Some(t) => {
                                                                let (mut tail, j) = t;
                                                                let mut out: Vec<char> =
                                                                    Vec::new();
                                                                out.push(ch);
                                                                out.append(&mut tail);
                                                                proof {
                                                                    char_u32_cast(ch, scalar);
                                                                    assert(ch == pair_char(
                                                                        code as int,
                                                                        low as int,
                                                                    ));
                                                                    assert(out@ =~= seq![ch]
                                                                        + (parse_string_body(
                                                                        v@,
                                                                        i + 12,
                                                                    )->0).0);
                                                                }
                                                                Some((out, j))
                                                            },
                                                            None => None,
                                                        }
                                                    },
                                                    None => {
                                                        proof {
                                                            assert(false);
                                                        }
                                                        None
                                                    },
                                                }
                                            } else {
                                                None
                                            }
                                        },
                                        None => None,
                                    }
                                } else {
                                    None
                                }
                            } else if 0xDC00 <= code && code < 0xE000 {
                                None
                            } else {
                                proof {
                                    assert(is_scalar(code));
                                }
                                match char_from_u32(code) {
                                    Some(ch) => {
                                        match parse_string_body_exec(v, i + 6) {
                                            Some(t) => {
                                                let (mut tail, j) = t;
                                                let mut out: Vec<char> = Vec::new();
                                                out.push(ch);
                                                out.append(&mut tail);
                                                proof {
                                                    char_u32_cast(ch, code);
                                                    assert(ch == ((code as int as u32) as char));
                                                    assert(out@ =~= seq![ch] + (parse_string_body(
                                                        v@,
                                                        i + 6,
                                                    )->0).0);
                                                }
                                                Some((out, j))
                                            },
                                            None => None,
                                        }
                                    },
                                    None => {
                                        proof {
                                            assert(false);
                                        }
                                        None
                                    },
                                }
                            }
                        },
                        None => None,
                    }
                } else {
                    None
                }
            } else {
                match unesc_exec(v[i + 1]) {
                    Some(u) => match parse_string_body_exec(v, i + 2) {
                        Some(t) => {
                            let (mut tail, j) = t;
                            let mut out: Vec<char> = Vec::new();
                            out.push(u);
                            out.append(&mut tail);
                            proof {
                                assert(out@ =~= seq![u] + (parse_string_body(v@, i + 2)->0).0);
                            }
                            Some((out, j))
                        },
                        None => None,
                    },
                    None => None,
                }
            }
        } else {
            None
        }
    } else {
        match parse_string_body_exec(v, i + 1) {
            Some(t) => {
                let (mut tail, j) = t;
                let mut out: Vec<char> = Vec::new();
                out.push(c);
                out.append(&mut tail);
                proof {
                    assert(out@ =~= seq![v@[i as int]] + (parse_string_body(v@, i + 1)->0).0);
                }
                Some((out, j))
            },
            None => None,
        }
    }
}

fn expect_lit_exec(v: &Vec<char>, i: usize, lit: &str) -> (r: Option<usize>)
    ensures
        r matches Some(j) ==> expect_lit(v@, i as int, lit@) == Some(j as int) && i <= j
            <= v@.len(),
        r is None ==> expect_lit(v@, i as int, lit@) is None,
{
    let n = lit.unicode_len();
    let vn = v.len();
    if i > vn || n > vn - i {
        proof {
            assert(!matches_at(v@, i as int, lit@));
        }
        return None;
    }
    let mut k: usize = 0;
    while k < n
        invariant
            k <= n,
            i + n <= vn,
            vn == v@.len(),
            n == lit@.len(),
            forall|m: int| 0 <= m < k ==> v@[i + m] == lit@[m],
        decreases n - k,
    {
        if v[i + k] != lit.get_char(k) {
            proof {
                assert(!matches_at(v@, i as int, lit@)) by {
                    assert(v@[i + k as int] != lit@[k as int]);
                }
            }
            return None;
        }
        k += 1;
    }
    proof {
        assert(matches_at(v@, i as int, lit@));
    }
    Some(i + n)
}

fn expect_char_exec(v: &Vec<char>, i: usize, c: char) -> (r: Option<usize>)
    requires
        i <= v@.len(),
    ensures
        r matches Some(j) ==> expect_char(v@, i as int, c) == Some(j as int) && j <= v@.len(),
        r is None ==> expect_char(v@, i as int, c) is None,
{
    let j = skip_ws_exec(v, i);
    if j < v.len() && v[j] == c {
        Some(j + 1)
    } else {
        None
    }
}

pub open spec fn view_opt_chars(o: Option<Vec<char>>) -> Option<Seq<char>> {
    match o {
        Some(s) => Some(s@),
        None => None,
    }
}

fn parse_value_exec(v: &Vec<char>, i: usize) -> (r: Option<(Option<Vec<char>>, usize)>)
    ensures
        r matches Some(t) ==> parse_value(v@, i as int) == Some((view_opt_chars(t.0), t.1 as int))
            && t.1 <= v@.len(),
        r is None ==> parse_value(v@, i as int) is None,
{
    if i < v.len() && v[i] == '"' {
        match parse_string_body_exec(v, i + 1) {
            Some(t) => Some((Some(t.0), t.1)),
            None => None,
        }
    } else {
        match expect_lit_exec(v, i, "null") {
            Some(j) => Some((None, j)),
            None => None,
        }
    }
}

fn parse_key_exec(v: &Vec<char>, i: usize, key: &str) -> (r: Option<usize>)
    requires
        i <= v@.len(),
    ensures
        r matches Some(j) ==> parse_key(v@, i as int, key@) == Some(j as int) && j <= v@.len(),
        r is None ==> parse_key(v@, i as int, key@) is None,
{
    let j = skip_ws_exec(v, i);
    if j < v.len() && v[j] == '"' {
        match parse_string_body_exec(v, j + 1) {
            Some(t) => {
                let (k, j2) = t;
                if str_eq(string_of(&k).as_str(), key) {
                    expect_char_exec(v, j2, ':')
                } else {
                    None
                }
            },
            None => None,
        }
    } else {
        None
    }
}

fn parse_member_exec(v: &Vec<char>, i: usize, key: &str) -> (r: Option<(Option<Vec<char>>, usize)>)
    requires
        i <= v@.len(),
    ensures
        r matches Some(t) ==> parse_member(v@, i as int, key@) == Some(
            (view_opt_chars(t.0), t.1 as int),
        ) && t.1 <= v@.len(),
        r is None ==> parse_member(v@, i as int, key@) is None,
{
    match parse_key_exec(v, i, key) {
        Some(j) => {
            let j2 = skip_ws_exec(v, j);
            parse_value_exec(v, j2)
        },
        None => None,
    }
}

fn opt_string_of(o: Option<Vec<char>>) -> (r: Option<String>)
    ensures
        view_opt(r) == view_opt_chars(o),
{
    match o {
        Some(v) => Some(string_of(&v)),
        None => None,
    }
}

/// Reads a record back from its persisted text.
pub fn decode_credentials(s: &str) -> (r: Option<Credentials>)
    ensures
        r matches Some(c) ==> dec_credentials(s@) == Some(c@),
        r is None ==> dec_credentials(s@) is None,
{
    let v = chars_of(s);
    let i0 = match expect_char_exec(&v, 0, '{') {
        Some(j) => j,
        None => {
            return None;
        },
    };
    let (url_opt, j1) = match parse_member_exec(&v, i0, "api_url") {
        Some(t) => t,
        None => {
            return None;
        },
    };
    let url = match url_opt {
        Some(u) => u,
        None => {
            return None;
        },
    };
    let i1 = match expect_char_exec(&v, j1, ',') {
        Some(j) => j,
        None => {
            return None;
        },
    };
    let (key_opt, j2) = match parse_member_exec(&v, i1, "api_key") {
        Some(t) => t,
        None => {
            return None;
        },
    };
    let i2 = match expect_char_exec(&v, j2, ',') {
        Some(j) => j,
        None => {
            return None;
        },
    };
    let (token_opt, j3) = match parse_member_exec(&v, i2, "auth_token") {
        Some(t) => t,
        None => {
            return None;
        },
    };
    let i3 = match expect_char_exec(&v, j3, ',') {
        Some(j) => j,
        None => {
            return None;
        },
    };
    let (tenant_opt, j4) = match parse_member_exec(&v, i3, "tenant_id") {
        Some(t) => t,
        None => {
            return None;
        },
    };
    let i4 = match expect_char_exec(&v, j4, ',') {
        Some(j) => j,
        None => {
            return None;
        },
    };
    let (user_opt, j5) = match parse_member_exec(&v, i4, "user_id") {
        Some(t) => t,
        None => {
            return None;
        },
    };
    let i5 = match expect_char_exec(&v, j5, ',') {
        Some(j) => j,
        None => {
            return None;
        },
    };
    let (env_opt, j6) = match parse_member_exec(&v, i5, "environment_id") {
        Some(t) => t,
        None => {
            return None;
        },
    };
    let end = match expect_char_exec(&v, j6, '}') {
        Some(j) => j,
        None => {
            return None;
        },
    };
    if skip_ws_exec(&v, end) != v.len() {
        return None;
    }
    let c = Credentials {
        api_url: string_of(&url),
        api_key: opt_string_of(key_opt),
        auth_token: opt_string_of(token_opt),
        tenant_id: opt_string_of(tenant_opt),
        user_id: opt_string_of(user_opt),
        environment_id: opt_string_of(env_opt),
    };
    proof {
        assert(dec_credentials(s@) matches Some(d) && d =~= c@);
    }
    Some(c)
}

/// Interprets the text of an existing record file: a record, or the
/// failure that marks it unreadable.
pub fn parse_persisted(s: &str) -> (r: Result<Credentials, StoreError>)
    ensures
        r matches Ok(c) ==> dec_credentials(s@) == Some(c@),
        r matches Err(e) ==> (e matches StoreError::Corrupt) && dec_credentials(s@) is None,
{
    match decode_credentials(s) {
        Some(c) => Ok(c),
        None => Err(StoreError::Corrupt),
    }
}

} // verus!
