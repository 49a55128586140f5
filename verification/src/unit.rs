//! Units of size and the resolution of a unit token to a scale factor.

use vstd::prelude::*;
use vstd::string::*;

verus! {

/// A unit in which a size total can be reported.
#[derive(Clone, Copy, Debug, PartialEq, Eq, Structural)]
pub enum Unit {
    Byte,
    Kilobyte,
    Megabyte,
    Gigabyte,
}

/// The number of bytes that one step of the unit stands for.
pub open spec fn factor_of(u: Unit) -> u64 {
    match u {
        Unit::Byte => 1u64,
        Unit::Kilobyte => 1024u64,
        Unit::Megabyte => 1048576u64,
        Unit::Gigabyte => 1073741824u64,
    }
}

/// The factor that a parse outcome resolves to: a failed parse falls back to
/// bytes, silently.
pub open spec fn factor_of_result(r: Result<Unit, String>) -> u64 {
    match r {
        Ok(u) => factor_of(u),
        Err(_) => 1u64,
    }
}

/// Whether `c` is an ASCII uppercase letter.
pub open spec fn is_ascii_uppercase(c: char) -> bool {
    65 <= c as u32 && c as u32 <= 90
}

/// Whether the token character `c` matches the keyword character `k`, where
/// an ASCII uppercase `c` matches its lowercase counterpart.
pub open spec fn char_matches_ci(c: char, k: char) -> bool {
    c == k || (is_ascii_uppercase(c) && c as u32 + 32 == k as u32)
}

/// Whether the token `s` matches the keyword `k` up to ASCII case.
pub open spec fn token_matches_ci(s: Seq<char>, k: Seq<char>) -> bool {
    s.len() == k.len() && (forall|i: int| 0 <= i < s.len() ==> char_matches_ci(s[i], k[i]))
}

/// The unit that a token names, if any: one of the four keywords, matched
/// case-insensitively.
pub open spec fn unit_of_token(s: Seq<char>) -> Option<Unit> {
    if token_matches_ci(s, "byte"@) {
        Some(Unit::Byte)
    } else if token_matches_ci(s, "kilo"@) {
        Some(Unit::Kilobyte)
    } else if token_matches_ci(s, "mega"@) {
        Some(Unit::Megabyte)
    } else if token_matches_ci(s, "giga"@) {
        Some(Unit::Gigabyte)
    } else {
        None
    }
}

/// The message that reports an unrecognized unit token.
pub open spec fn invalid_unit_message(s: Seq<char>) -> Seq<char> {
    "Invalid unit: "@ + s
}

/// Whether `a` and `b` are the same character up to ASCII case: equal, or an
/// ASCII letter in its two cases.
pub open spec fn same_char_ci(a: char, b: char) -> bool {
    a == b || (is_ascii_uppercase(a) && a as u32 + 32 == b as u32) || (is_ascii_uppercase(b)
        && b as u32 + 32 == a as u32)
}

/// Whether `s` and `t` are the same token up to ASCII case.
pub open spec fn same_token_ci(s: Seq<char>, t: Seq<char>) -> bool {
    s.len() == t.len() && (forall|i: int| 0 <= i < s.len() ==> same_char_ci(s[i], t[i]))
}

proof fn lemma_char_ci_congruence(a: char, b: char, k: char)
    requires
        same_char_ci(a, b),
        !is_ascii_uppercase(k),
    ensures
        char_matches_ci(a, k) == char_matches_ci(b, k),
{
    broadcast use vstd::utf8::char_u32_cast;

}

proof fn lemma_token_ci_congruence(s: Seq<char>, t: Seq<char>, k: Seq<char>)
    requires
        same_token_ci(s, t),
        forall|i: int| 0 <= i < k.len() ==> !is_ascii_uppercase(k[i]),
    ensures
        token_matches_ci(s, k) == token_matches_ci(t, k),
{
    assert forall|i: int| 0 <= i < s.len() && i < k.len() implies char_matches_ci(s[i], k[i])
        == char_matches_ci(t[i], k[i]) by {
        lemma_char_ci_congruence(s[i], t[i], k[i]);
    }
}

proof fn lemma_keyword_lowercase(k: Seq<char>)
    requires
        k == "byte"@ || k == "kilo"@ || k == "mega"@ || k == "giga"@,
    ensures
        forall|i: int| 0 <= i < k.len() ==> !is_ascii_uppercase(k[i]),
{
    reveal_strlit("byte");
    reveal_strlit("kilo");
    reveal_strlit("mega");
    reveal_strlit("giga");
}

/// Law: unit resolution is case-insensitive — two tokens that differ only in
/// the ASCII case of their characters resolve to the same outcome, unit or
/// rejection alike.
pub proof fn lemma_unit_token_case_insensitive(s: Seq<char>, t: Seq<char>)
    requires
        same_token_ci(s, t),
    ensures
        unit_of_token(s) == unit_of_token(t),
{
    lemma_keyword_lowercase("byte"@);
    lemma_keyword_lowercase("kilo"@);
    lemma_keyword_lowercase("mega"@);
    lemma_keyword_lowercase("giga"@);
    lemma_token_ci_congruence(s, t, "byte"@);
    lemma_token_ci_congruence(s, t, "kilo"@);
    lemma_token_ci_congruence(s, t, "mega"@);
    lemma_token_ci_congruence(s, t, "giga"@);
}

fn char_ci_eq(c: char, k: char) -> (r: bool)
    ensures
        r == char_matches_ci(c, k),
{
    if c == k {
        true
    } else {
        let cu = c as u32;
        let ku = k as u32;
        65 <= cu && cu <= 90 && cu + 32 == ku
    }
}

fn token_ci_eq(s: &str, k: &str) -> (r: bool)
    ensures
        r == token_matches_ci(s@, k@),
{
    let sn = s.unicode_len();
    let kn = k.unicode_len();
    if sn != kn {
        return false;
    }
    let mut i: usize = 0;
    while i < sn
        invariant
            sn == s@.len(),
            kn == k@.len(),
            sn == kn,
            i <= sn,
            forall|j: int| 0 <= j < i ==> char_matches_ci(s@[j], k@[j]),
        decreases sn - i,
    {
        if !char_ci_eq(s.get_char(i), k.get_char(i)) {
            return false;
        }
        i = i + 1;
    }
    true
}

impl Unit {
    /// Parses a unit token: one of `byte`, `kilo`, `mega`, `giga`, matched
    /// case-insensitively. Any other token is reported as invalid.
    pub fn from_str(s: &str) -> (r: Result<Unit, String>)
        ensures
            match unit_of_token(s@) {
                Some(u) => r == Ok::<Unit, String>(u),
                None => r matches Err(m) && m@ == invalid_unit_message(s@),
            },
    {
        if token_ci_eq(s, "byte") {
            Ok(Unit::Byte)
        } else if token_ci_eq(s, "kilo") {
            Ok(Unit::Kilobyte)
        } else if token_ci_eq(s, "mega") {
            Ok(Unit::Megabyte)
        } else if token_ci_eq(s, "giga") {
            Ok(Unit::Gigabyte)
        } else {
            let mut msg = String::from_str("Invalid unit: ");
            msg.append(s);
            Err(msg)
        }
    }

    /// The scale factor for a parse outcome. A failed parse is swallowed and
    /// scales as bytes do; the factor is always positive, so dividing by it
    /// is safe.
    pub fn get_factor(unit_result: &Result<Unit, String>) -> (r: u64)
        ensures
            r == factor_of_result(*unit_result),
            r >= 1,
    {
        match unit_result {
            Ok(Unit::Byte) => 1,
            Ok(Unit::Kilobyte) => 1024,
            Ok(Unit::Megabyte) => 1048576,
            Ok(Unit::Gigabyte) => 1073741824,
            Err(_) => 1,
        }
    }
}

/// The factor that a whole argument list resolves to: a unit token is read
/// only from an argument list of exactly three entries, and an absent or
/// unrecognized token falls back to bytes.
pub open spec fn factor_for_args(args: Seq<String>) -> u64 {
    if args.len() == 3 {
        match unit_of_token(args[2]@) {
            Some(u) => factor_of(u),
            None => 1u64,
        }
    } else {
        1u64
    }
}

/// Law: an unrecognized unit token is swallowed — an argument list whose
/// third entry names no unit resolves to the same factor as the same list
/// with the token left off, namely bytes.
pub proof fn lemma_unrecognized_token_same_as_absent(args: Seq<String>)
    requires
        args.len() == 3,
        unit_of_token(args[2]@) is None,
    ensures
        factor_for_args(args) == 1,
        factor_for_args(args.take(2)) == 1,
        factor_for_args(args) == factor_for_args(args.take(2)),
{
}

/// Resolves the unit named by an argument list. Only a list of exactly three
/// arguments (program name, path, unit token) carries a unit token; any other
/// shape falls back to bytes.
pub fn get_unit(args: &Vec<String>) -> (r: Result<Unit, String>)
    ensures
        args@.len() != 3 ==> r == Ok::<Unit, String>(Unit::Byte),
        args@.len() == 3 ==> match unit_of_token(args@[2]@) {
            Some(u) => r == Ok::<Unit, String>(u),
            None => r matches Err(m) && m@ == invalid_unit_message(args@[2]@),
        },
        factor_of_result(r) == factor_for_args(args@),
{
    if args.len() != 3 {
        return Ok(Unit::Byte);
    }
    Unit::from_str(args[2].as_str())
}

} // verus!
