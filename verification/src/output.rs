//! Terminal presentation of a status word: the word is classified by
//! its lower-cased form and wrapped in the matching color code.

use vstd::prelude::*;
use vstd::string::*;

use crate::strutil::chars_of;
use crate::strutil::push_char;

verus! {

/// A character with its ASCII upper-case letters lowered.
pub open spec fn lower_char(c: char) -> char {
    if 65 <= c as u32 && c as u32 <= 90 {
        (((c as u32) + 32) as u8) as char
    } else {
        c
    }
}

/// A string with its ASCII upper-case letters lowered.
pub open spec fn lower_str(s: Seq<char>) -> Seq<char> {
    s.map_values(|c: char| lower_char(c))
}

/// Lowers the ASCII upper-case letters of a string.
pub fn ascii_lower(s: &str) -> (r: String)
    ensures
        r@ == lower_str(s@),
{
    let v = chars_of(s);
    let mut out = String::new();
    let mut i: usize = 0;
    while i < v.len()
        invariant
            i <= v.len(),
            v@ == s@,
            out@ == lower_str(s@.subrange(0, i as int)),
        decreases v.len() - i,
    {
        let c = v[i];
        let u = c as u32;
        if 65 <= u && u <= 90 {
            push_char(&mut out, ((u + 32) as u8) as char);
        } else {
            push_char(&mut out, c);
        }
        proof {
            assert(out@ =~= lower_str(s@.subrange(0, i + 1)));
        }
        i += 1;
    }
    proof {
        assert(s@.subrange(0, s@.len() as int) =~= s@);
    }
    out
}

/// How a status word is colored: settled-good words green, words still
/// in progress yellow, terminated words red, transitional words blue,
/// anything else untouched.
#[derive(Debug)]
pub enum StatusClass {
    Positive,
    Pending,
    Negative,
    Info,
    Plain,
}

/// The class of a lower-cased status word.
pub open spec fn status_class_spec(lower: Seq<char>) -> StatusClass {
    if lower == "active"@ || lower == "published"@ || lower == "paid"@ || lower == "finalized"@ {
        StatusClass::Positive
    } else if lower == "draft"@ || lower == "pending"@ {
        StatusClass::Pending
    } else if lower == "cancelled"@ || lower == "canceled"@ || lower == "void"@ || lower
        == "voided"@ || lower == "inactive"@ {
        StatusClass::Negative
    } else if lower == "trialing"@ || lower == "paused"@ {
        StatusClass::Info
    } else {
        StatusClass::Plain
    }
}

/// The badge text: the status wrapped in the color code of its class.
pub open spec fn status_badge_view(s: Seq<char>) -> Seq<char> {
    match status_class_spec(lower_str(s)) {
        StatusClass::Positive => "\u{1b}[1;32m"@ + s + "\u{1b}[0m"@,
        StatusClass::Pending => "\u{1b}[33m"@ + s + "\u{1b}[0m"@,
        StatusClass::Negative => "\u{1b}[31m"@ + s + "\u{1b}[0m"@,
        StatusClass::Info => "\u{1b}[34m"@ + s + "\u{1b}[0m"@,
        StatusClass::Plain => s,
    }
}

fn wrap_code(code: &str, status: &str) -> (r: String)
    ensures
        r@ == code@ + status@ + "\u{1b}[0m"@,
{
    let mut out = String::from_str(code);
    out.append(status);
    out.append("\u{1b}[0m");
    proof {
        assert(out@ =~= code@ + status@ + "\u{1b}[0m"@);
    }
    out
}

/// Colors a status word for terminal output according to its class.
pub fn status_badge(status: &str) -> (r: String)
    ensures
        r@ == status_badge_view(status@),
{
    let lower = ascii_lower(status);
    let l = lower.as_str();
    if crate::strutil::str_eq(l, "active") || crate::strutil::str_eq(l, "published")
        || crate::strutil::str_eq(l, "paid") || crate::strutil::str_eq(l, "finalized") {
        wrap_code("\u{1b}[1;32m", status)
    } else if crate::strutil::str_eq(l, "draft") || crate::strutil::str_eq(l, "pending") {
        wrap_code("\u{1b}[33m", status)
    } else if crate::strutil::str_eq(l, "cancelled") || crate::strutil::str_eq(l, "canceled")
        || crate::strutil::str_eq(l, "void") || crate::strutil::str_eq(l, "voided")
        || crate::strutil::str_eq(l, "inactive") {
        wrap_code("\u{1b}[31m", status)
    } else if crate::strutil::str_eq(l, "trialing") || crate::strutil::str_eq(l, "paused") {
        wrap_code("\u{1b}[34m", status)
    } else {
        String::from_str(status)
    }
}

} // verus!
