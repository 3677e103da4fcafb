//! Parser for the data-definition language.
//!
//! The concrete syntax is a small structured-literal notation:
//!
//! ```text
//! file     :=  ws decl ws  |  ws '[' decl-list ']' ws
//! decl     :=  'Enum' ws '(' ws 'name' ws ':' ws string ws ','
//!                        ws 'variants' ws ':' ws strlist close
//!           |  'Property' ws '(' ws 'on' ws ':' ws string ws ','
//!                        ws 'name' ws ':' ws string ws ','
//!                        ws 'type' ws ':' ws type ws ','
//!                        ws 'mapping' ws ':' ws mapping close
//! type     :=  'bool' | 'u32' | 'f64' | 'string'
//!           |  'Slice' ws '(' ws type ws ')'
//!           |  'Custom' ws '(' ws string ws ')'
//! mapping  :=  '{' ws ( entry (ws ',' ws entry)* (ws ',')? ws )? '}'
//! entry    :=  key ws ':' ws lit
//! key      :=  string | strlist
//! strlist  :=  '[' ws ( string (ws ',' ws string)* (ws ',')? ws )? ']'
//! lit      :=  string | number | 'true' | 'false'
//!           |  '[' ws ( lit (ws ',' ws lit)* (ws ',')? ws )? ']'
//! number   :=  '-'? digit+ ('.' digit+)?
//! string   :=  '"' any-char-except-quote* '"'
//! ```
//!
//! where `close` is `ws (',' ws)? ')'` and `ws` is any run of blanks, tabs,
//! carriage returns and newlines.  Strings have no escape sequences.
//!
//! Every parsing function is an exact executable mirror of a specification
//! function over the input's character sequence; [`from_str`] succeeds if
//! and only if the whole input derives from `file`, and then returns exactly
//! the declaration tree the grammar assigns to it.

use vstd::prelude::*;
use vstd::string::StrSliceExecFns;
use crate::model::{Lit, LitV, Model, ModelV, ModelFile, ModelFileV, Type, TypeV, VecOrOne,
    VecOrOneV, lemma_push_deep_view};

verus! {

/// A syntax error, with the character index at which parsing stopped.
#[derive(Debug)]
pub struct ParseError {
    pub pos: usize,
}

// ---------------------------------------------------------------------------
// character classes
// ---------------------------------------------------------------------------

pub open spec fn is_ws_char(c: char) -> bool {
    c == ' ' || c == '\n' || c == '\t' || c == '\r'
}

pub open spec fn is_word_char(c: char) -> bool {
    (97 <= c as int && c as int <= 122)  // 'a'..'z'
    || (65 <= c as int && c as int <= 90)  // 'A'..'Z'
    || is_digit_char(c)
    || c == '_'
}

pub open spec fn is_digit_char(c: char) -> bool {
    48 <= c as int && c as int <= 57  // '0'..'9'
}

/// The numeric value of a decimal digit character.
pub open spec fn digit_val(c: char) -> u32 {
    if c as u32 >= 48 {
        (c as u32 - 48) as u32
    } else {
        0
    }
}

fn e_is_ws(c: char) -> (b: bool)
    ensures
        b == is_ws_char(c),
{
    c == ' ' || c == '\n' || c == '\t' || c == '\r'
}

fn e_is_word(c: char) -> (b: bool)
    ensures
        b == is_word_char(c),
{
    let u: u32 = c as u32;
    (97 <= u && u <= 122) || (65 <= u && u <= 90) || e_is_digit(c) || c == '_'
}

fn e_is_digit(c: char) -> (b: bool)
    ensures
        b == is_digit_char(c),
{
    let u: u32 = c as u32;
    48 <= u && u <= 57
}

// ---------------------------------------------------------------------------
// whitespace and words
// ---------------------------------------------------------------------------

/// Index of the first character at or after `i` that is not whitespace.
pub open spec fn sp_ws(s: Seq<char>, i: int) -> int
    decreases s.len() - i,
{
    if 0 <= i < s.len() && is_ws_char(s[i]) {
        sp_ws(s, i + 1)
    } else {
        i
    }
}

fn p_ws(s: &str, len: usize, i: usize) -> (j: usize)
    requires
        len == s@.len(),
        i <= len,
    ensures
        j as int == sp_ws(s@, i as int),
        i <= j <= len,
    decreases len - i,
{
    if i < len && e_is_ws(s.get_char(i)) {
        p_ws(s, len, i + 1)
    } else {
        i
    }
}

/// End of the maximal run of word characters starting at `i`.
pub open spec fn sp_word_end(s: Seq<char>, i: int) -> int
    decreases s.len() - i,
{
    if 0 <= i < s.len() && is_word_char(s[i]) {
        sp_word_end(s, i + 1)
    } else {
        i
    }
}

/// The word starting at `i`: the run of word characters, possibly empty.
pub open spec fn sp_word(s: Seq<char>, i: int) -> Seq<char> {
    s.subrange(i, sp_word_end(s, i))
}

fn p_word_end(s: &str, len: usize, i: usize) -> (j: usize)
    requires
        len == s@.len(),
        i <= len,
    ensures
        j as int == sp_word_end(s@, i as int),
        i <= j <= len,
    decreases len - i,
{
    if i < len && e_is_word(s.get_char(i)) {
        p_word_end(s, len, i + 1)
    } else {
        i
    }
}

fn p_word(s: &str, len: usize, i: usize) -> (r: (String, usize))
    requires
        len == s@.len(),
        i <= len,
    ensures
        r.0@ == sp_word(s@, i as int),
        r.1 as int == sp_word_end(s@, i as int),
        i <= r.1 <= len,
        r.1 as int - i as int == r.0@.len(),
    decreases len - i,
{
    let j = p_word_end(s, len, i);
    (s.substring_char(i, j).to_owned(), j)
}

/// `a` holds exactly the text `b`.
fn str_eq(a: &String, b: &str) -> (r: bool)
    ensures
        r == (a@ == b@),
{
    *a == b.to_owned()
}

// ---------------------------------------------------------------------------
// strings
// ---------------------------------------------------------------------------

/// Index of the first `"` at or after `i`, if any.
pub open spec fn sp_find_quote(s: Seq<char>, i: int) -> Option<int>
    decreases s.len() - i,
{
    if !(0 <= i < s.len()) {
        None
    } else if s[i] == '"' {
        Some(i)
    } else {
        sp_find_quote(s, i + 1)
    }
}

/// A quoted string at `i`: its contents and the index after the closing
/// quote.  There are no escape sequences; the contents are every character
/// up to the next `"`.
pub open spec fn sp_string(s: Seq<char>, i: int) -> Option<(Seq<char>, int)> {
    if 0 <= i < s.len() && s[i] == '"' {
        match sp_find_quote(s, i + 1) {
            Some(j) => Some((s.subrange(i + 1, j), j + 1)),
            None => None,
        }
    } else {
        None
    }
}

fn p_find_quote(s: &str, len: usize, i: usize) -> (r: Result<usize, usize>)
    requires
        len == s@.len(),
        i <= len,
    ensures
        match r {
            Ok(j) => sp_find_quote(s@, i as int) == Some(j as int) && i <= j < len,
            Err(_) => sp_find_quote(s@, i as int) is None,
        },
    decreases len - i,
{
    if i >= len {
        Err(i)
    } else if s.get_char(i) == '"' {
        Ok(i)
    } else {
        p_find_quote(s, len, i + 1)
    }
}

fn p_string(s: &str, len: usize, i: usize) -> (r: Result<(String, usize), usize>)
    requires
        len == s@.len(),
        i <= len,
    ensures
        match r {
            Ok((v, j)) => sp_string(s@, i as int) == Some((v@, j as int)) && i < j <= len,
            Err(_) => sp_string(s@, i as int) is None,
        },
{
    if i < len && s.get_char(i) == '"' {
        match p_find_quote(s, len, i + 1) {
            Ok(j) => Ok((s.substring_char(i + 1, j).to_owned(), j + 1)),
            Err(p) => Err(p),
        }
    } else {
        Err(i)
    }
}

// ---------------------------------------------------------------------------
// numbers
// ---------------------------------------------------------------------------

/// One step of decimal accumulation, saturating at `u32::MAX`.
pub open spec fn sat_mul10_add(acc: u32, d: u32) -> u32 {
    if acc > 429496729 {
        u32::MAX
    } else if d > u32::MAX - acc * 10 {
        u32::MAX
    } else {
        (acc * 10 + d) as u32
    }
}

pub open spec fn sat_add1(acc: u32) -> u32 {
    if acc == u32::MAX {
        u32::MAX
    } else {
        (acc + 1) as u32
    }
}

/// Accumulate the run of digits starting at `i` onto `acc`; returns the
/// accumulated value and the index after the run.
pub open spec fn sp_digits(s: Seq<char>, i: int, acc: u32) -> (u32, int)
    decreases s.len() - i,
{
    if 0 <= i < s.len() && is_digit_char(s[i]) {
        sp_digits(s, i + 1, sat_mul10_add(acc, digit_val(s[i])))
    } else {
        (acc, i)
    }
}

/// A numeric literal at `i`: its source text, its value rounded to the
/// nearest unsigned integer (half away from zero, negative values clamped
/// to zero, saturating at `u32::MAX`), and the index after it.
pub open spec fn sp_number(s: Seq<char>, i: int) -> Option<(Seq<char>, u32, int)> {
    let neg = 0 <= i < s.len() && s[i] == '-';
    let i0 = if neg { i + 1 } else { i };
    if 0 <= i0 < s.len() && is_digit_char(s[i0]) {
        let (ival, i1) = sp_digits(s, i0, 0);
        if i1 + 1 < s.len() && s[i1] == '.' && is_digit_char(s[i1 + 1]) {
            let (_, i2) = sp_digits(s, i1 + 1, 0);
            let up = digit_val(s[i1 + 1]) >= 5;
            let rounded: u32 = if neg { 0 } else if up { sat_add1(ival) } else { ival };
            Some((s.subrange(i, i2), rounded, i2))
        } else {
            Some((s.subrange(i, i1), if neg { 0u32 } else { ival }, i1))
        }
    } else {
        None
    }
}

fn e_sat_mul10_add(acc: u32, d: u32) -> (r: u32)
    ensures
        r == sat_mul10_add(acc, d),
{
    if acc > 429496729 {
        u32::MAX
    } else {
        let t: u32 = acc * 10;
        if d > u32::MAX - t {
            u32::MAX
        } else {
            t + d
        }
    }
}

fn p_digits(s: &str, len: usize, i: usize, acc: u32) -> (r: (u32, usize))
    requires
        len == s@.len(),
        i <= len,
    ensures
        (r.0, r.1 as int) == sp_digits(s@, i as int, acc),
        i <= r.1 <= len,
        (i < len && is_digit_char(s@[i as int])) ==> r.1 > i,
    decreases len - i,
{
    if i < len && e_is_digit(s.get_char(i)) {
        let c = s.get_char(i);
        let d: u32 = (c as u32) - 48;
        assert(d == digit_val(s@[i as int]));
        p_digits(s, len, i + 1, e_sat_mul10_add(acc, d))
    } else {
        (acc, i)
    }
}

fn p_number(s: &str, len: usize, i: usize) -> (r: Result<(String, u32, usize), usize>)
    requires
        len == s@.len(),
        i <= len,
    ensures
        match r {
            Ok((t, v, j)) => sp_number(s@, i as int) == Some((t@, v, j as int)) && i < j <= len,
            Err(_) => sp_number(s@, i as int) is None,
        },
{
    let neg = i < len && s.get_char(i) == '-';
    let i0: usize = if neg { i + 1 } else { i };
    if i0 < len && e_is_digit(s.get_char(i0)) {
        let (ival, i1) = p_digits(s, len, i0, 0);
        if i1 < len && i1 + 1 < len && s.get_char(i1) == '.' && e_is_digit(s.get_char(i1 + 1)) {
            let c1 = s.get_char(i1 + 1);
            let up = (c1 as u32) - 48 >= 5;
            assert(up == (digit_val(s@[i1 + 1]) >= 5));
            let (frac, i2) = p_digits(s, len, i1 + 1, 0);
            let rounded: u32 = if neg {
                0
            } else if up {
                if ival == u32::MAX { u32::MAX } else { ival + 1 }
            } else {
                ival
            };
            Ok((s.substring_char(i, i2).to_owned(), rounded, i2))
        } else {
            Ok((s.substring_char(i, i1).to_owned(), if neg { 0 } else { ival }, i1))
        }
    } else {
        Err(i)
    }
}

// ---------------------------------------------------------------------------
// tokens and field labels
// ---------------------------------------------------------------------------

/// Whitespace, then exactly the character `c`; the index after it.
pub open spec fn sp_tok(s: Seq<char>, i: int, c: char) -> Option<int> {
    let j = sp_ws(s, i);
    if 0 <= j < s.len() && s[j] == c {
        Some(j + 1)
    } else {
        None
    }
}

fn p_tok(s: &str, len: usize, i: usize, c: char) -> (r: Result<usize, usize>)
    requires
        len == s@.len(),
        i <= len,
    ensures
        match r {
            Ok(j) => sp_tok(s@, i as int, c) == Some(j as int) && i < j <= len,
            Err(_) => sp_tok(s@, i as int, c) is None,
        },
{
    let j = p_ws(s, len, i);
    if j < len && s.get_char(j) == c {
        Ok(j + 1)
    } else {
        Err(j)
    }
}

/// Whitespace, the field label `kw`, whitespace, `:`; the index after it.
pub open spec fn sp_field(s: Seq<char>, i: int, kw: Seq<char>) -> Option<int> {
    let j = sp_ws(s, i);
    let w = sp_word(s, j);
    if w == kw {
        sp_tok(s, sp_word_end(s, j), ':')
    } else {
        None
    }
}

fn p_field(s: &str, len: usize, i: usize, kw: &str) -> (r: Result<usize, usize>)
    requires
        len == s@.len(),
        i <= len,
    ensures
        match r {
            Ok(j) => sp_field(s@, i as int, kw@) == Some(j as int) && i < j <= len,
            Err(_) => sp_field(s@, i as int, kw@) is None,
        },
{
    let j = p_ws(s, len, i);
    let (w, j2) = p_word(s, len, j);
    if str_eq(&w, kw) {
        p_tok(s, len, j2, ':')
    } else {
        Err(j)
    }
}

/// The close of a declaration: whitespace, an optional trailing comma,
/// then `)`; the index after it.
pub open spec fn sp_close(s: Seq<char>, i: int) -> Option<int> {
    let j = sp_ws(s, i);
    if 0 <= j < s.len() && s[j] == ')' {
        Some(j + 1)
    } else if 0 <= j < s.len() && s[j] == ',' {
        let k = sp_ws(s, j + 1);
        if k < s.len() && s[k] == ')' {
            Some(k + 1)
        } else {
            None
        }
    } else {
        None
    }
}

fn p_close(s: &str, len: usize, i: usize) -> (r: Result<usize, usize>)
    requires
        len == s@.len(),
        i <= len,
    ensures
        match r {
            Ok(j) => sp_close(s@, i as int) == Some(j as int) && i < j <= len,
            Err(_) => sp_close(s@, i as int) is None,
        },
{
    let j = p_ws(s, len, i);
    if j < len && s.get_char(j) == ')' {
        Ok(j + 1)
    } else if j < len && s.get_char(j) == ',' {
        let k = p_ws(s, len, j + 1);
        if k < len && s.get_char(k) == ')' {
            Ok(k + 1)
        } else {
            Err(k)
        }
    } else {
        Err(j)
    }
}

// ---------------------------------------------------------------------------
// types
// ---------------------------------------------------------------------------

/// A type at `i` (no leading whitespace): the type and the index after it.
pub open spec fn sp_type(s: Seq<char>, i: int) -> Option<(TypeV, int)>
    decreases s.len() - i,
{
    let w = sp_word(s, i);
    let j = sp_word_end(s, i);
    if w == "bool"@ {
        Some((TypeV::Bool, j))
    } else if w == "u32"@ {
        Some((TypeV::U32, j))
    } else if w == "f64"@ {
        Some((TypeV::F64, j))
    } else if w == "string"@ {
        Some((TypeV::Str, j))
    } else if w == "Slice"@ {
        match sp_tok(s, j, '(') {
            Some(k0) => {
                let k = sp_ws(s, k0);
                if i < k && k <= s.len() {
                    match sp_type(s, k) {
                        Some((inner, k1)) => match sp_tok(s, k1, ')') {
                            Some(k2) => Some((TypeV::Slice(Box::new(inner)), k2)),
                            None => None,
                        },
                        None => None,
                    }
                } else {
                    None
                }
            },
            None => None,
        }
    } else if w == "Custom"@ {
        match sp_tok(s, j, '(') {
            Some(k0) => {
                let k = sp_ws(s, k0);
                match sp_string(s, k) {
                    Some((name, k1)) => match sp_tok(s, k1, ')') {
                        Some(k2) => Some((TypeV::Custom(name), k2)),
                        None => None,
                    },
                    None => None,
                }
            },
            None => None,
        }
    } else {
        None
    }
}

fn p_type(s: &str, len: usize, i: usize) -> (r: Result<(Type, usize), usize>)
    requires
        len == s@.len(),
        i <= len,
    ensures
        match r {
            Ok((t, j)) => sp_type(s@, i as int) == Some((t.deep_view(), j as int))
                && i <= j <= len,
            Err(_) => sp_type(s@, i as int) is None,
        },
    decreases len - i,
{
    let (w, j) = p_word(s, len, i);
    if str_eq(&w, "bool") {
        Ok((Type::Bool, j))
    } else if str_eq(&w, "u32") {
        Ok((Type::U32, j))
    } else if str_eq(&w, "f64") {
        Ok((Type::F64, j))
    } else if str_eq(&w, "string") {
        Ok((Type::Str, j))
    } else if str_eq(&w, "Slice") {
        match p_tok(s, len, j, '(') {
            Ok(k0) => {
                let k = p_ws(s, len, k0);
                match p_type(s, len, k) {
                    Ok((inner, k1)) => match p_tok(s, len, k1, ')') {
                        Ok(k2) => Ok((Type::Slice(Box::new(inner)), k2)),
                        Err(p) => Err(p),
                    },
                    Err(p) => Err(p),
                }
            },
            Err(p) => Err(p),
        }
    } else if str_eq(&w, "Custom") {
        match p_tok(s, len, j, '(') {
            Ok(k0) => {
                let k = p_ws(s, len, k0);
                match p_string(s, len, k) {
                    Ok((name, k1)) => match p_tok(s, len, k1, ')') {
                        Ok(k2) => Ok((Type::Custom(name), k2)),
                        Err(p) => Err(p),
                    },
                    Err(p) => Err(p),
                }
            },
            Err(p) => Err(p),
        }
    } else {
        Err(i)
    }
}

// ---------------------------------------------------------------------------
// string lists
// ---------------------------------------------------------------------------

/// The rest of a `[string, ...]` list: either its close, or a comma and a
/// further string; `acc` holds the strings read so far.
pub open spec fn sp_strlist_rest(s: Seq<char>, i: int, acc: Seq<Seq<char>>) -> Option<
    (Seq<Seq<char>>, int),
>
    decreases s.len() - i,
{
    let j = sp_ws(s, i);
    if 0 <= j < s.len() && s[j] == ']' {
        Some((acc, j + 1))
    } else if 0 <= j < s.len() && s[j] == ',' {
        let k = sp_ws(s, j + 1);
        if k < s.len() && s[k] == ']' {
            Some((acc, k + 1))
        } else {
            match sp_string(s, k) {
                Some((v, j2)) => if i < j2 && j2 <= s.len() {
                    sp_strlist_rest(s, j2, acc.push(v))
                } else {
                    None
                },
                None => None,
            }
        }
    } else {
        None
    }
}

/// A `[string, ...]` list at `i` (at its opening bracket).
pub open spec fn sp_strlist(s: Seq<char>, i: int) -> Option<(Seq<Seq<char>>, int)> {
    if 0 <= i < s.len() && s[i] == '[' {
        let k = sp_ws(s, i + 1);
        if k < s.len() && s[k] == ']' {
            Some((Seq::empty(), k + 1))
        } else {
            match sp_string(s, k) {
                Some((v, j)) => if i < j && j <= s.len() {
                    sp_strlist_rest(s, j, seq![v])
                } else {
                    None
                },
                None => None,
            }
        }
    } else {
        None
    }
}

fn p_strlist_rest(s: &str, len: usize, i: usize, acc: Vec<String>) -> (r: Result<
    (Vec<String>, usize),
    usize,
>)
    requires
        len == s@.len(),
        i <= len,
    ensures
        match r {
            Ok((vs, j)) => sp_strlist_rest(s@, i as int, acc.deep_view()) == Some(
                (vs.deep_view(), j as int),
            ) && i < j <= len,
            Err(_) => sp_strlist_rest(s@, i as int, acc.deep_view()) is None,
        },
    decreases len - i,
{
    let j = p_ws(s, len, i);
    if j < len && s.get_char(j) == ']' {
        Ok((acc, j + 1))
    } else if j < len && s.get_char(j) == ',' {
        let k = p_ws(s, len, j + 1);
        if k < len && s.get_char(k) == ']' {
            Ok((acc, k + 1))
        } else {
            match p_string(s, len, k) {
                Ok((v, j2)) => {
                    let ghost acc0 = acc;
                    let ghost vv = v@;
                    let mut acc = acc;
                    acc.push(v);
                    proof {
                        lemma_push_deep_view(acc0, acc, v);
                        assert(v.deep_view() == vv);
                    }
                    p_strlist_rest(s, len, j2, acc)
                },
                Err(p) => Err(p),
            }
        }
    } else {
        Err(j)
    }
}

fn p_strlist(s: &str, len: usize, i: usize) -> (r: Result<(Vec<String>, usize), usize>)
    requires
        len == s@.len(),
        i <= len,
    ensures
        match r {
            Ok((vs, j)) => sp_strlist(s@, i as int) == Some((vs.deep_view(), j as int))
                && i < j <= len,
            Err(_) => sp_strlist(s@, i as int) is None,
        },
{
    if i < len && s.get_char(i) == '[' {
        let k = p_ws(s, len, i + 1);
        if k < len && s.get_char(k) == ']' {
            let vs: Vec<String> = Vec::new();
            proof {
                assert(vs.deep_view() =~= Seq::<Seq<char>>::empty());
            }
            Ok((vs, k + 1))
        } else {
            match p_string(s, len, k) {
                Ok((v, j)) => {
                    let ghost vv = v@;
                    let mut vs: Vec<String> = Vec::new();
                    vs.push(v);
                    proof {
                        assert(vs.deep_view() =~= seq![vv]);
                    }
                    p_strlist_rest(s, len, j, vs)
                },
                Err(p) => Err(p),
            }
        }
    } else {
        Err(i)
    }
}

// ---------------------------------------------------------------------------
// literals
// ---------------------------------------------------------------------------

/// A literal at `i` (no leading whitespace): a string, a number, a boolean
/// word, or a bracketed list of literals.
pub open spec fn sp_lit(s: Seq<char>, i: int) -> Option<(LitV, int)>
    decreases s.len() - i, 1int,
{
    if !(0 <= i < s.len()) {
        None
    } else if s[i] == '"' {
        match sp_string(s, i) {
            Some((v, j)) => Some((LitV::Str(v), j)),
            None => None,
        }
    } else if s[i] == '[' {
        let k = sp_ws(s, i + 1);
        if k < s.len() && s[k] == ']' {
            Some((LitV::List(Seq::empty()), k + 1))
        } else if i < k && k <= s.len() {
            match sp_lit(s, k) {
                Some((v, j)) => if i < j && j <= s.len() {
                    sp_lit_list_rest(s, j, seq![v])
                } else {
                    None
                },
                None => None,
            }
        } else {
            None
        }
    } else if is_digit_char(s[i]) || s[i] == '-' {
        match sp_number(s, i) {
            Some((text, rounded, j)) => Some((LitV::Num { text, rounded }, j)),
            None => None,
        }
    } else {
        let w = sp_word(s, i);
        let j = sp_word_end(s, i);
        if w == "true"@ {
            Some((LitV::Bool(true), j))
        } else if w == "false"@ {
            Some((LitV::Bool(false), j))
        } else {
            None
        }
    }
}

/// The rest of a `[lit, ...]` list: its close, or a comma and a further
/// literal; `acc` holds the literals read so far.
pub open spec fn sp_lit_list_rest(s: Seq<char>, i: int, acc: Seq<LitV>) -> Option<(LitV, int)>
    decreases s.len() - i, 0int,
{
    let j = sp_ws(s, i);
    if 0 <= j < s.len() && s[j] == ']' {
        Some((LitV::List(acc), j + 1))
    } else if 0 <= j < s.len() && s[j] == ',' {
        let k = sp_ws(s, j + 1);
        if k < s.len() && s[k] == ']' {
            Some((LitV::List(acc), k + 1))
        } else if i < k && k <= s.len() {
            match sp_lit(s, k) {
                Some((v, j2)) => if i < j2 && j2 <= s.len() {
                    sp_lit_list_rest(s, j2, acc.push(v))
                } else {
                    None
                },
                None => None,
            }
        } else {
            None
        }
    } else {
        None
    }
}

fn p_lit(s: &str, len: usize, i: usize) -> (r: Result<(Lit, usize), usize>)
    requires
        len == s@.len(),
        i <= len,
    ensures
        match r {
            Ok((v, j)) => sp_lit(s@, i as int) == Some((v.deep_view(), j as int))
                && i < j <= len,
            Err(_) => sp_lit(s@, i as int) is None,
        },
    decreases len - i, 1int,
{
    if i >= len {
        Err(i)
    } else if s.get_char(i) == '"' {
        match p_string(s, len, i) {
            Ok((v, j)) => Ok((Lit::Str(v), j)),
            Err(p) => Err(p),
        }
    } else if s.get_char(i) == '[' {
        let k = p_ws(s, len, i + 1);
        if k < len && s.get_char(k) == ']' {
            let items: Vec<Lit> = Vec::new();
            let out = Lit::List(items);
            proof {
                crate::model::lemma_lit_views_is_deep_view(items);
                assert(items.deep_view() =~= Seq::<LitV>::empty());
            }
            Ok((out, k + 1))
        } else {
            match p_lit(s, len, k) {
                Ok((v, j)) => {
                    let ghost vv = v.deep_view();
                    let mut items: Vec<Lit> = Vec::new();
                    items.push(v);
                    proof {
                        assert(items.deep_view() =~= seq![vv]);
                    }
                    p_lit_list_rest(s, len, j, items)
                },
                Err(p) => Err(p),
            }
        }
    } else if e_is_digit(s.get_char(i)) || s.get_char(i) == '-' {
        match p_number(s, len, i) {
            Ok((text, rounded, j)) => Ok((Lit::Num { text, rounded }, j)),
            Err(p) => Err(p),
        }
    } else {
        let (w, j) = p_word(s, len, i);
        if str_eq(&w, "true") {
            proof {
                reveal_strlit("true");
            }
            Ok((Lit::Bool(true), j))
        } else if str_eq(&w, "false") {
            proof {
                reveal_strlit("false");
            }
            Ok((Lit::Bool(false), j))
        } else {
            Err(i)
        }
    }
}

fn p_lit_list_rest(s: &str, len: usize, i: usize, acc: Vec<Lit>) -> (r: Result<
    (Lit, usize),
    usize,
>)
    requires
        len == s@.len(),
        i <= len,
    ensures
        match r {
            Ok((v, j)) => sp_lit_list_rest(s@, i as int, acc.deep_view()) == Some(
                (v.deep_view(), j as int),
            ) && i < j <= len,
            Err(_) => sp_lit_list_rest(s@, i as int, acc.deep_view()) is None,
        },
    decreases len - i, 0int,
{
    let j = p_ws(s, len, i);
    if j < len && s.get_char(j) == ']' {
        let out = Lit::List(acc);
        proof {
            crate::model::lemma_lit_views_is_deep_view(acc);
        }
        Ok((out, j + 1))
    } else if j < len && s.get_char(j) == ',' {
        let k = p_ws(s, len, j + 1);
        if k < len && s.get_char(k) == ']' {
            let out = Lit::List(acc);
            proof {
                crate::model::lemma_lit_views_is_deep_view(acc);
            }
            Ok((out, k + 1))
        } else {
            match p_lit(s, len, k) {
                Ok((v, j2)) => {
                    let ghost acc0 = acc;
                    let mut acc = acc;
                    acc.push(v);
                    proof {
                        lemma_push_deep_view(acc0, acc, v);
                    }
                    p_lit_list_rest(s, len, j2, acc)
                },
                Err(p) => Err(p),
            }
        }
    } else {
        Err(j)
    }
}

// ---------------------------------------------------------------------------
// mapping entries
// ---------------------------------------------------------------------------

/// A mapping key at `i`: one quoted variant name, or a list of them.
pub open spec fn sp_key(s: Seq<char>, i: int) -> Option<(VecOrOneV<Seq<char>>, int)> {
    if 0 <= i < s.len() && s[i] == '"' {
        match sp_string(s, i) {
            Some((v, j)) => Some((VecOrOneV::One(v), j)),
            None => None,
        }
    } else if 0 <= i < s.len() && s[i] == '[' {
        match sp_strlist(s, i) {
            Some((vs, j)) => Some((VecOrOneV::Many(vs), j)),
            None => None,
        }
    } else {
        None
    }
}

fn p_key(s: &str, len: usize, i: usize) -> (r: Result<(VecOrOne<String>, usize), usize>)
    requires
        len == s@.len(),
        i <= len,
    ensures
        match r {
            Ok((k, j)) => sp_key(s@, i as int) == Some((k.deep_view(), j as int))
                && i < j <= len,
            Err(_) => sp_key(s@, i as int) is None,
        },
{
    if i < len && s.get_char(i) == '"' {
        match p_string(s, len, i) {
            Ok((v, j)) => Ok((VecOrOne::One(v), j)),
            Err(p) => Err(p),
        }
    } else if i < len && s.get_char(i) == '[' {
        match p_strlist(s, len, i) {
            Ok((vs, j)) => Ok((VecOrOne::Many(vs), j)),
            Err(p) => Err(p),
        }
    } else {
        Err(i)
    }
}

/// One mapping entry at `i`: a key, a colon, and a literal.
pub open spec fn sp_entry(s: Seq<char>, i: int) -> Option<((VecOrOneV<Seq<char>>, LitV), int)> {
    match sp_key(s, i) {
        Some((k, j)) => match sp_tok(s, j, ':') {
            Some(j2) => {
                let j3 = sp_ws(s, j2);
                if i < j3 && j3 <= s.len() {
                    match sp_lit(s, j3) {
                        Some((v, j4)) => Some(((k, v), j4)),
                        None => None,
                    }
                } else {
                    None
                }
            },
            None => None,
        },
        None => None,
    }
}

fn p_entry(s: &str, len: usize, i: usize) -> (r: Result<((VecOrOne<String>, Lit), usize), usize>)
    requires
        len == s@.len(),
        i <= len,
    ensures
        match r {
            Ok((e, j)) => sp_entry(s@, i as int) == Some((e.deep_view(), j as int))
                && i < j <= len,
            Err(_) => sp_entry(s@, i as int) is None,
        },
{
    match p_key(s, len, i) {
        Ok((k, j)) => match p_tok(s, len, j, ':') {
            Ok(j2) => {
                let j3 = p_ws(s, len, j2);
                match p_lit(s, len, j3) {
                    Ok((v, j4)) => Ok(((k, v), j4)),
                    Err(p) => Err(p),
                }
            },
            Err(p) => Err(p),
        },
        Err(p) => Err(p),
    }
}

/// The rest of a `{entry, ...}` mapping: its close, or a comma and a
/// further entry; `acc` holds the entries read so far.
pub open spec fn sp_mapping_rest(
    s: Seq<char>,
    i: int,
    acc: Seq<(VecOrOneV<Seq<char>>, LitV)>,
) -> Option<(Seq<(VecOrOneV<Seq<char>>, LitV)>, int)>
    decreases s.len() - i,
{
    let j = sp_ws(s, i);
    if 0 <= j < s.len() && s[j] == '}' {
        Some((acc, j + 1))
    } else if 0 <= j < s.len() && s[j] == ',' {
        let k = sp_ws(s, j + 1);
        if k < s.len() && s[k] == '}' {
            Some((acc, k + 1))
        } else if i < k && k <= s.len() {
            match sp_entry(s, k) {
                Some((e, j2)) => if i < j2 && j2 <= s.len() {
                    sp_mapping_rest(s, j2, acc.push(e))
                } else {
                    None
                },
                None => None,
            }
        } else {
            None
        }
    } else {
        None
    }
}

/// A `{key: lit, ...}` mapping at `i` (at its opening brace).
pub open spec fn sp_mapping(s: Seq<char>, i: int) -> Option<
    (Seq<(VecOrOneV<Seq<char>>, LitV)>, int),
> {
    if 0 <= i < s.len() && s[i] == '{' {
        let k = sp_ws(s, i + 1);
        if k < s.len() && s[k] == '}' {
            Some((Seq::empty(), k + 1))
        } else if i < k && k <= s.len() {
            match sp_entry(s, k) {
                Some((e, j)) => if i < j && j <= s.len() {
                    sp_mapping_rest(s, j, seq![e])
                } else {
                    None
                },
                None => None,
            }
        } else {
            None
        }
    } else {
        None
    }
}

fn p_mapping_rest(s: &str, len: usize, i: usize, acc: Vec<(VecOrOne<String>, Lit)>) -> (r: Result<
    (Vec<(VecOrOne<String>, Lit)>, usize),
    usize,
>)
    requires
        len == s@.len(),
        i <= len,
    ensures
        match r {
            Ok((es, j)) => sp_mapping_rest(s@, i as int, acc.deep_view()) == Some(
                (es.deep_view(), j as int),
            ) && i < j <= len,
            Err(_) => sp_mapping_rest(s@, i as int, acc.deep_view()) is None,
        },
    decreases len - i,
{
    let j = p_ws(s, len, i);
    if j < len && s.get_char(j) == '}' {
        Ok((acc, j + 1))
    } else if j < len && s.get_char(j) == ',' {
        let k = p_ws(s, len, j + 1);
        if k < len && s.get_char(k) == '}' {
            Ok((acc, k + 1))
        } else {
            match p_entry(s, len, k) {
                Ok((e, j2)) => {
                    let ghost acc0 = acc;
                    let mut acc = acc;
                    acc.push(e);
                    proof {
                        lemma_push_deep_view(acc0, acc, e);
                    }
                    p_mapping_rest(s, len, j2, acc)
                },
                Err(p) => Err(p),
            }
        }
    } else {
        Err(j)
    }
}

fn p_mapping(s: &str, len: usize, i: usize) -> (r: Result<
    (Vec<(VecOrOne<String>, Lit)>, usize),
    usize,
>)
    requires
        len == s@.len(),
        i <= len,
    ensures
        match r {
            Ok((es, j)) => sp_mapping(s@, i as int) == Some((es.deep_view(), j as int))
                && i < j <= len,
            Err(_) => sp_mapping(s@, i as int) is None,
        },
{
    if i < len && s.get_char(i) == '{' {
        let k = p_ws(s, len, i + 1);
        if k < len && s.get_char(k) == '}' {
            let es: Vec<(VecOrOne<String>, Lit)> = Vec::new();
            proof {
                assert(es.deep_view() =~= Seq::<(VecOrOneV<Seq<char>>, LitV)>::empty());
            }
            Ok((es, k + 1))
        } else {
            match p_entry(s, len, k) {
                Ok((e, j)) => {
                    let ghost ev = e.deep_view();
                    let mut es: Vec<(VecOrOne<String>, Lit)> = Vec::new();
                    es.push(e);
                    proof {
                        assert(es.deep_view() =~= seq![ev]);
                    }
                    p_mapping_rest(s, len, j, es)
                },
                Err(p) => Err(p),
            }
        }
    } else {
        Err(i)
    }
}

// ---------------------------------------------------------------------------
// declarations
// ---------------------------------------------------------------------------

/// The body of an `Enum` declaration, from just after the word `Enum`.
pub open spec fn sp_enum_body(s: Seq<char>, i: int) -> Option<(ModelV, int)> {
    match sp_tok(s, i, '(') {
        Some(a) => match sp_field(s, a, "name"@) {
            Some(b) => {
                let c = sp_ws(s, b);
                match sp_string(s, c) {
            Some((name, d)) => match sp_tok(s, d, ',') {
                Some(e) => match sp_field(s, e, "variants"@) {
                    Some(f) => {
                        let g = sp_ws(s, f);
                        match sp_strlist(s, g) {
                            Some((variants, h)) => match sp_close(s, h) {
                                Some(z) => Some((ModelV::Enum { name, variants }, z)),
                                None => None,
                            },
                            None => None,
                        }
                    },
                    None => None,
                },
                None => None,
            },
            None => None,
                }
            },
            None => None,
        },
        None => None,
    }
}

/// The body of a `Property` declaration, from just after the word
/// `Property`.
pub open spec fn sp_property_body(s: Seq<char>, i: int) -> Option<(ModelV, int)> {
    match sp_tok(s, i, '(') {
        Some(a) => match sp_field(s, a, "on"@) {
            Some(b) => {
                let c = sp_ws(s, b);
                match sp_string(s, c) {
            Some((on, d)) => match sp_tok(s, d, ',') {
                Some(e) => match sp_field(s, e, "name"@) {
                    Some(f) => {
                        let g = sp_ws(s, f);
                        match sp_string(s, g) {
                    Some((name, h)) => match sp_tok(s, h, ',') {
                        Some(k0) => match sp_field(s, k0, "type"@) {
                            Some(k1) => {
                                let k2 = sp_ws(s, k1);
                                match sp_type(s, k2) {
                            Some((typ, k3)) => match sp_tok(s, k3, ',') {
                                Some(k4) => match sp_field(s, k4, "mapping"@) {
                                    Some(k5) => {
                                        let k6 = sp_ws(s, k5);
                                        match sp_mapping(s, k6) {
                                            Some((mapping, k7)) => match sp_close(s, k7) {
                                                Some(z) => Some(
                                                    (ModelV::Property { on, name, typ, mapping },
                                                    z),
                                                ),
                                                None => None,
                                            },
                                            None => None,
                                        }
                                    },
                                    None => None,
                                },
                                None => None,
                            },
                            None => None,
                                }
                            },
                            None => None,
                        },
                        None => None,
                    },
                    None => None,
                        }
                    },
                    None => None,
                },
                None => None,
            },
            None => None,
                }
            },
            None => None,
        },
        None => None,
    }
}

/// One declaration at `i` (no leading whitespace).
pub open spec fn sp_model(s: Seq<char>, i: int) -> Option<(ModelV, int)> {
    let w = sp_word(s, i);
    let j = sp_word_end(s, i);
    if w == "Enum"@ {
        sp_enum_body(s, j)
    } else if w == "Property"@ {
        sp_property_body(s, j)
    } else {
        None
    }
}

fn p_enum_body(s: &str, len: usize, i: usize) -> (r: Result<(Model, usize), usize>)
    requires
        len == s@.len(),
        i <= len,
    ensures
        match r {
            Ok((m, j)) => sp_enum_body(s@, i as int) == Some((m.deep_view(), j as int))
                && i < j <= len,
            Err(_) => sp_enum_body(s@, i as int) is None,
        },
{
    match p_tok(s, len, i, '(') {
        Ok(a) => match p_field(s, len, a, "name") {
            Ok(b) => {
                let c = p_ws(s, len, b);
                match p_string(s, len, c) {
                    Ok((name, d)) => match p_tok(s, len, d, ',') {
                        Ok(e) => match p_field(s, len, e, "variants") {
                            Ok(f) => {
                                let g = p_ws(s, len, f);
                                match p_strlist(s, len, g) {
                                    Ok((variants, h)) => match p_close(s, len, h) {
                                        Ok(z) => Ok((Model::Enum { name, variants }, z)),
                                        Err(p) => Err(p),
                                    },
                                    Err(p) => Err(p),
                                }
                            },
                            Err(p) => Err(p),
                        },
                        Err(p) => Err(p),
                    },
                    Err(p) => Err(p),
                }
            },
            Err(p) => Err(p),
        },
        Err(p) => Err(p),
    }
}

fn p_property_body(s: &str, len: usize, i: usize) -> (r: Result<(Model, usize), usize>)
    requires
        len == s@.len(),
        i <= len,
    ensures
        match r {
            Ok((m, j)) => sp_property_body(s@, i as int) == Some((m.deep_view(), j as int))
                && i < j <= len,
            Err(_) => sp_property_body(s@, i as int) is None,
        },
{
    match p_tok(s, len, i, '(') {
        Ok(a) => match p_field(s, len, a, "on") {
            Ok(b) => {
                let c = p_ws(s, len, b);
                match p_string(s, len, c) {
                    Ok((on, d)) => match p_tok(s, len, d, ',') {
                        Ok(e) => match p_field(s, len, e, "name") {
                            Ok(f) => {
                                let g = p_ws(s, len, f);
                                match p_string(s, len, g) {
                                    Ok((name, h)) => match p_tok(s, len, h, ',') {
                                        Ok(k0) => match p_field(s, len, k0, "type") {
                                            Ok(k1) => {
                                                let k2 = p_ws(s, len, k1);
                                                match p_type(s, len, k2) {
                                                    Ok((typ, k3)) => match p_tok(
                                                        s, len, k3, ',',
                                                    ) {
                                                        Ok(k4) => match p_field(
                                                            s, len, k4, "mapping",
                                                        ) {
                                                            Ok(k5) => {
                                                                let k6 = p_ws(s, len, k5);
                                                                match p_mapping(s, len, k6) {
                                                                    Ok((mapping, k7)) => match
                                                                        p_close(s, len, k7) {
                                                                        Ok(z) => Ok((
                                                                            Model::Property {
                                                                                on,
                                                                                name,
                                                                                typ,
                                                                                mapping,
                                                                            },
                                                                            z,
                                                                        )),
                                                                        Err(p) => Err(p),
                                                                    },
                                                                    Err(p) => Err(p),
                                                                }
                                                            },
                                                            Err(p) => Err(p),
                                                        },
                                                        Err(p) => Err(p),
                                                    },
                                                    Err(p) => Err(p),
                                                }
                                            },
                                            Err(p) => Err(p),
                                        },
                                        Err(p) => Err(p),
                                    },
                                    Err(p) => Err(p),
                                }
                            },
                            Err(p) => Err(p),
                        },
                        Err(p) => Err(p),
                    },
                    Err(p) => Err(p),
                }
            },
            Err(p) => Err(p),
        },
        Err(p) => Err(p),
    }
}

fn p_model(s: &str, len: usize, i: usize) -> (r: Result<(Model, usize), usize>)
    requires
        len == s@.len(),
        i <= len,
    ensures
        match r {
            Ok((m, j)) => sp_model(s@, i as int) == Some((m.deep_view(), j as int))
                && i < j <= len,
            Err(_) => sp_model(s@, i as int) is None,
        },
{
    let (w, j) = p_word(s, len, i);
    if str_eq(&w, "Enum") {
        p_enum_body(s, len, j)
    } else if str_eq(&w, "Property") {
        p_property_body(s, len, j)
    } else {
        Err(i)
    }
}

// ---------------------------------------------------------------------------
// files
// ---------------------------------------------------------------------------

/// The rest of a `[decl, ...]` list: its close, or a comma and a further
/// declaration; `acc` holds the declarations read so far.
pub open spec fn sp_model_list_rest(s: Seq<char>, i: int, acc: Seq<ModelV>) -> Option<
    (Seq<ModelV>, int),
>
    decreases s.len() - i,
{
    let j = sp_ws(s, i);
    if 0 <= j < s.len() && s[j] == ']' {
        Some((acc, j + 1))
    } else if 0 <= j < s.len() && s[j] == ',' {
        let k = sp_ws(s, j + 1);
        if k < s.len() && s[k] == ']' {
            Some((acc, k + 1))
        } else if i < k && k <= s.len() {
            match sp_model(s, k) {
                Some((m, j2)) => if i < j2 && j2 <= s.len() {
                    sp_model_list_rest(s, j2, acc.push(m))
                } else {
                    None
                },
                None => None,
            }
        } else {
            None
        }
    } else {
        None
    }
}

/// A `[decl, ...]` list at `i` (at its opening bracket).
pub open spec fn sp_model_list(s: Seq<char>, i: int) -> Option<(Seq<ModelV>, int)> {
    if 0 <= i < s.len() && s[i] == '[' {
        let k = sp_ws(s, i + 1);
        if k < s.len() && s[k] == ']' {
            Some((Seq::empty(), k + 1))
        } else if i < k && k <= s.len() {
            match sp_model(s, k) {
                Some((m, j)) => if i < j && j <= s.len() {
                    sp_model_list_rest(s, j, seq![m])
                } else {
                    None
                },
                None => None,
            }
        } else {
            None
        }
    } else {
        None
    }
}

/// A whole definition file: one declaration, or a bracketed list, with
/// nothing but whitespace around it.
pub open spec fn sp_file(s: Seq<char>) -> Option<ModelFileV> {
    let i = sp_ws(s, 0);
    if 0 <= i < s.len() && s[i] == '[' {
        match sp_model_list(s, i) {
            Some((ms, j)) => if sp_ws(s, j) == s.len() {
                Some(ModelFileV::Multiple(ms))
            } else {
                None
            },
            None => None,
        }
    } else {
        match sp_model(s, i) {
            Some((m, j)) => if sp_ws(s, j) == s.len() {
                Some(ModelFileV::Single(m))
            } else {
                None
            },
            None => None,
        }
    }
}

fn p_model_list_rest(s: &str, len: usize, i: usize, acc: Vec<Model>) -> (r: Result<
    (Vec<Model>, usize),
    usize,
>)
    requires
        len == s@.len(),
        i <= len,
    ensures
        match r {
            Ok((ms, j)) => sp_model_list_rest(s@, i as int, acc.deep_view()) == Some(
                (ms.deep_view(), j as int),
            ) && i < j <= len,
            Err(_) => sp_model_list_rest(s@, i as int, acc.deep_view()) is None,
        },
    decreases len - i,
{
    let j = p_ws(s, len, i);
    if j < len && s.get_char(j) == ']' {
        Ok((acc, j + 1))
    } else if j < len && s.get_char(j) == ',' {
        let k = p_ws(s, len, j + 1);
        if k < len && s.get_char(k) == ']' {
            Ok((acc, k + 1))
        } else {
            match p_model(s, len, k) {
                Ok((m, j2)) => {
                    let ghost acc0 = acc;
                    let mut acc = acc;
                    acc.push(m);
                    proof {
                        lemma_push_deep_view(acc0, acc, m);
                    }
                    p_model_list_rest(s, len, j2, acc)
                },
                Err(p) => Err(p),
            }
        }
    } else {
        Err(j)
    }
}

fn p_model_list(s: &str, len: usize, i: usize) -> (r: Result<(Vec<Model>, usize), usize>)
    requires
        len == s@.len(),
        i <= len,
    ensures
        match r {
            Ok((ms, j)) => sp_model_list(s@, i as int) == Some((ms.deep_view(), j as int))
                && i < j <= len,
            Err(_) => sp_model_list(s@, i as int) is None,
        },
{
    if i < len && s.get_char(i) == '[' {
        let k = p_ws(s, len, i + 1);
        if k < len && s.get_char(k) == ']' {
            let ms: Vec<Model> = Vec::new();
            proof {
                assert(ms.deep_view() =~= Seq::<ModelV>::empty());
            }
            Ok((ms, k + 1))
        } else {
            match p_model(s, len, k) {
                Ok((m, j)) => {
                    let ghost mv = m.deep_view();
                    let mut ms: Vec<Model> = Vec::new();
                    ms.push(m);
                    proof {
                        assert(ms.deep_view() =~= seq![mv]);
                    }
                    p_model_list_rest(s, len, j, ms)
                },
                Err(p) => Err(p),
            }
        }
    } else {
        Err(i)
    }
}

/// Parses one definition file.
///
/// Succeeds exactly when the whole input derives from the grammar's `file`
/// production, and then returns exactly the declaration tree the grammar
/// assigns to the input; any other input is a syntax error, reported with
/// the position where parsing stopped.
pub fn from_str(s: &str) -> (r: Result<ModelFile, ParseError>)
    ensures
        match r {
            Ok(mf) => sp_file(s@) == Some(mf.deep_view()),
            Err(_) => sp_file(s@) is None,
        },
{
    let len = s.unicode_len();
    let i = p_ws(s, len, 0);
    if i < len && s.get_char(i) == '[' {
        match p_model_list(s, len, i) {
            Ok((ms, j)) => {
                let j2 = p_ws(s, len, j);
                if j2 == len {
                    Ok(ModelFile::Multiple(ms))
                } else {
                    Err(ParseError { pos: j2 })
                }
            },
            Err(p) => Err(ParseError { pos: p }),
        }
    } else {
        match p_model(s, len, i) {
            Ok((m, j)) => {
                let j2 = p_ws(s, len, j);
                if j2 == len {
                    Ok(ModelFile::Single(m))
                } else {
                    Err(ParseError { pos: j2 })
                }
            },
            Err(p) => Err(ParseError { pos: p }),
        }
    }
}

} // verus!
