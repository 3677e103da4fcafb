//! Placeholder expansion.
//!
//! Strings in declarations may embed placeholders of the form `${name}`,
//! each naming an enumeration of the registry.  Expanding such a string
//! replaces every placeholder by every variant of the named enumeration,
//! producing the cartesian product of the referenced enumerations' variant
//! sets; results are ordered with the leftmost placeholder varying slowest,
//! exactly as nested loops with the leftmost loop outermost would produce
//! them.  A placeholder naming an enumeration the registry does not hold is
//! a fatal [`ErrorKind::UnknownEnumReference`].
//!
//! The expansion pass ([`expand`]) runs once, after all files are loaded:
//! first every enumeration's variant list is expanded and its identifier
//! forms recomputed (phase A), then, for properties whose declared type is
//! `custom`, mapping keys and `custom` mapping values are expanded and
//! zipped back into a mapping (phase B).  Phase B resolves placeholders
//! against the variant lists that phase A made final.

use vstd::prelude::*;
use vstd::string::{StrSliceExecFns, StringExecFns};
use crate::frontend::{Data, Enum, EnumV, ErrorKind, ErrorKindV, Property, PropertyV, Value,
    ValueV, camel_seq, camel_all, sp_find_enum, sp_map_insert, find_enum};
use crate::model::{lemma_push_deep_view};
use crate::text::{char_string, lemma_concat_deep_view};

verus! {

broadcast use vstd::std_specs::vec::axiom_vec_index_decreases, vstd::seq::axiom_seq_index_decreases;

// ---------------------------------------------------------------------------
// scanning a string into segments
// ---------------------------------------------------------------------------

/// Ghost mirror of [`Seg`].
pub enum SegV {
    Text(Seq<char>),
    Ref(Seq<char>),
}

/// One segment of a scanned string: literal text, or a `${name}`
/// placeholder referencing an enumeration.
pub enum Seg {
    Text(String),
    Ref(String),
}

impl DeepView for Seg {
    type V = SegV;

    open spec fn deep_view(&self) -> SegV {
        match self {
            Seg::Text(t) => SegV::Text(t.deep_view()),
            Seg::Ref(n) => SegV::Ref(n.deep_view()),
        }
    }
}

/// Index of the first `}` at or after `i`, if any.
pub open spec fn sp_find_close(s: Seq<char>, i: int) -> Option<int>
    decreases s.len() - i,
{
    if !(0 <= i < s.len()) {
        None
    } else if s[i] == '}' {
        Some(i)
    } else {
        sp_find_close(s, i + 1)
    }
}

/// The segments of a string, scanned left to right from `i`.  `${` followed
/// by a nonempty name and `}` is a placeholder; everything else, including
/// an unterminated or empty `${}`, is literal text.
pub open spec fn sp_scan(s: Seq<char>, i: int) -> Seq<SegV>
    decreases s.len() - i,
{
    if !(0 <= i < s.len()) {
        Seq::empty()
    } else if s[i] == '$' && i + 1 < s.len() && s[i + 1] == '{' && (match sp_find_close(
        s,
        i + 2,
    ) {
        Some(j) => i + 2 < j < s.len(),
        None => false,
    }) {
        let j = sp_find_close(s, i + 2)->Some_0;
        seq![SegV::Ref(s.subrange(i + 2, j))] + sp_scan(s, j + 1)
    } else {
        seq![SegV::Text(seq![s[i]])] + sp_scan(s, i + 1)
    }
}

fn find_close(s: &str, len: usize, i: usize) -> (r: Option<usize>)
    requires
        len == s@.len(),
        i <= len,
    ensures
        match r {
            Some(j) => sp_find_close(s@, i as int) == Some(j as int) && i <= j < len,
            None => sp_find_close(s@, i as int) is None,
        },
    decreases len - i,
{
    if i >= len {
        None
    } else if s.get_char(i) == '}' {
        Some(i)
    } else {
        find_close(s, len, i + 1)
    }
}

fn scan(s: &str, len: usize, i: usize, acc: Vec<Seg>) -> (r: Vec<Seg>)
    requires
        len == s@.len(),
        i <= len,
    ensures
        r.deep_view() == acc.deep_view() + sp_scan(s@, i as int),
    decreases len - i,
{
    if i >= len {
        proof {
            assert(acc.deep_view() + sp_scan(s@, i as int) =~= acc.deep_view());
        }
        acc
    } else {
        let c = s.get_char(i);
        if c == '$' && i + 1 < len && s.get_char(i + 1) == '{' {
            match find_close(s, len, i + 2) {
                Some(j) if j > i + 2 => {
                    let name = s.substring_char(i + 2, j).to_owned();
                    let ghost acc0 = acc;
                    let mut acc = acc;
                    let seg = Seg::Ref(name);
                    acc.push(seg);
                    proof {
                        lemma_push_deep_view(acc0, acc, seg);
                    }
                    let r = scan(s, len, j + 1, acc);
                    proof {
                        assert(acc0.deep_view() + sp_scan(s@, i as int)
                            =~= acc.deep_view() + sp_scan(s@, j as int + 1));
                    }
                    r
                },
                _ => {
                    let ghost acc0 = acc;
                    let mut acc = acc;
                    let seg = Seg::Text(char_string(c));
                    acc.push(seg);
                    proof {
                        lemma_push_deep_view(acc0, acc, seg);
                    }
                    let r = scan(s, len, i + 1, acc);
                    proof {
                        assert(acc0.deep_view() + sp_scan(s@, i as int)
                            =~= acc.deep_view() + sp_scan(s@, i as int + 1));
                    }
                    r
                },
            }
        } else {
            let ghost acc0 = acc;
            let mut acc = acc;
            let seg = Seg::Text(char_string(c));
            acc.push(seg);
            proof {
                lemma_push_deep_view(acc0, acc, seg);
            }
            let r = scan(s, len, i + 1, acc);
            proof {
                assert(acc0.deep_view() + sp_scan(s@, i as int)
                    =~= acc.deep_view() + sp_scan(s@, i as int + 1));
            }
            r
        }
    }
}

// ---------------------------------------------------------------------------
// cartesian expansion of segments
// ---------------------------------------------------------------------------

/// `t` prefixed onto every string of `rs`.
pub open spec fn sp_prepend_all(t: Seq<char>, rs: Seq<Seq<char>>) -> Seq<Seq<char>> {
    Seq::new(rs.len(), |k: int| t + rs[k])
}

/// Every variant of `vs` from index `i` on, prefixed onto every string of
/// `rs`; the variant varies slowest.
pub open spec fn sp_cross(vs: Seq<Seq<char>>, rs: Seq<Seq<char>>, i: int) -> Seq<Seq<char>>
    decreases vs.len() - i,
{
    if 0 <= i < vs.len() {
        sp_prepend_all(vs[i], rs) + sp_cross(vs, rs, i + 1)
    } else {
        Seq::empty()
    }
}

/// The expansions of the segments of `segs` from index `i` on: literal text
/// prefixes every result; a placeholder multiplies the results by the
/// referenced enumeration's variants, the reference to the left varying
/// slowest; an unknown reference fails.
pub open spec fn sp_expand_segs(segs: Seq<SegV>, d: Seq<EnumV>, i: int) -> Result<
    Seq<Seq<char>>,
    ErrorKindV,
>
    decreases segs.len() - i,
{
    if !(0 <= i < segs.len()) {
        Ok(seq![Seq::empty()])
    } else {
        match segs[i] {
            SegV::Text(t) => match sp_expand_segs(segs, d, i + 1) {
                Ok(rs) => Ok(sp_prepend_all(t, rs)),
                Err(e) => Err(e),
            },
            SegV::Ref(n) => match sp_find_enum(d, n, 0) {
                None => Err(ErrorKindV::UnknownEnumReference(n)),
                Some(ei) => match sp_expand_segs(segs, d, i + 1) {
                    Ok(rs) => Ok(sp_cross(d[ei].variants, rs, 0)),
                    Err(e) => Err(e),
                },
            },
        }
    }
}

/// The expansion of one string against the registry `d`.
pub open spec fn sp_expand_expr(s: Seq<char>, d: Seq<EnumV>) -> Result<Seq<Seq<char>>, ErrorKindV> {
    sp_expand_segs(sp_scan(s, 0), d, 0)
}

fn prepend_all(t: &String, rs: &Vec<String>) -> (r: Vec<String>)
    ensures
        r.deep_view() == sp_prepend_all(t@, rs.deep_view()),
{
    let mut r: Vec<String> = Vec::new();
    let mut k: usize = 0;
    while k < rs.len()
        invariant
            k <= rs.len(),
            r.deep_view().len() == k as int,
            forall|m: int| 0 <= m < k ==> r.deep_view()[m] == t@ + rs.deep_view()[m],
        decreases rs.len() - k,
    {
        let ghost r0 = r;
        let x = t.clone().concat(rs[k].as_str());
        r.push(x);
        proof {
            lemma_push_deep_view(r0, r, x);
        }
        k = k + 1;
    }
    proof {
        assert(r.deep_view() =~= sp_prepend_all(t@, rs.deep_view()));
    }
    r
}

fn cross(vs: &Vec<String>, rs: &Vec<String>, i: usize, acc: Vec<String>) -> (r: Vec<String>)
    requires
        i <= vs.len(),
    ensures
        r.deep_view() == acc.deep_view() + sp_cross(vs.deep_view(), rs.deep_view(), i as int),
    decreases vs.len() - i,
{
    if i < vs.len() {
        let part = prepend_all(&vs[i], rs);
        let ghost acc0 = acc;
        let ghost partv = part;
        let mut acc = acc;
        let mut part = part;
        acc.append(&mut part);
        proof {
            lemma_concat_deep_view(acc0, partv, acc);
        }
        let r = cross(vs, rs, i + 1, acc);
        proof {
            assert(acc0.deep_view() + sp_cross(vs.deep_view(), rs.deep_view(), i as int)
                =~= acc.deep_view() + sp_cross(vs.deep_view(), rs.deep_view(), i as int + 1));
        }
        r
    } else {
        proof {
            assert(acc.deep_view() + sp_cross(vs.deep_view(), rs.deep_view(), i as int)
                =~= acc.deep_view());
        }
        acc
    }
}

fn expand_segs(segs: &Vec<Seg>, enums: &Vec<Enum>, i: usize) -> (r: Result<Vec<String>, ErrorKind>)
    requires
        i <= segs.len(),
    ensures
        match r {
            Ok(rs) => sp_expand_segs(segs.deep_view(), enums.deep_view(), i as int)
                == Ok::<Seq<Seq<char>>, ErrorKindV>(rs.deep_view()),
            Err(e) => sp_expand_segs(segs.deep_view(), enums.deep_view(), i as int)
                == Err::<Seq<Seq<char>>, ErrorKindV>(e.deep_view()),
        },
    decreases segs.len() - i,
{
    if i >= segs.len() {
        let mut rs: Vec<String> = Vec::new();
        rs.push(String::new());
        proof {
            assert(rs.deep_view() =~= seq![Seq::<char>::empty()]);
        }
        Ok(rs)
    } else {
        proof {
            assert(segs.deep_view()[i as int] == segs[i as int].deep_view());
        }
        match &segs[i] {
            Seg::Text(t) => match expand_segs(segs, enums, i + 1) {
                Ok(rs) => Ok(prepend_all(t, &rs)),
                Err(e) => Err(e),
            },
            Seg::Ref(n) => match find_enum(enums, n, 0) {
                None => Err(ErrorKind::UnknownEnumReference { name: n.clone() }),
                Some(ei) => match expand_segs(segs, enums, i + 1) {
                    Ok(rs) => {
                        let acc: Vec<String> = Vec::new();
                        proof {
                            assert(acc.deep_view() =~= Seq::<Seq<char>>::empty());
                            assert(Seq::<Seq<char>>::empty() + sp_cross(
                                enums.deep_view()[ei as int].variants,
                                rs.deep_view(),
                                0,
                            ) =~= sp_cross(
                                enums.deep_view()[ei as int].variants,
                                rs.deep_view(),
                                0,
                            ));
                        }
                        Ok(cross(&enums[ei].variants, &rs, 0, acc))
                    },
                    Err(e) => Err(e),
                },
            },
        }
    }
}

/// Expands one string against the registry: the cartesian product of the
/// referenced enumerations' variants, substituted into the string's
/// placeholders, leftmost placeholder varying slowest.
pub fn expand_expr(expr: &str, data: &Data) -> (r: Result<Vec<String>, ErrorKind>)
    ensures
        match r {
            Ok(rs) => sp_expand_expr(expr@, data.deep_view())
                == Ok::<Seq<Seq<char>>, ErrorKindV>(rs.deep_view()),
            Err(e) => sp_expand_expr(expr@, data.deep_view())
                == Err::<Seq<Seq<char>>, ErrorKindV>(e.deep_view()),
        },
{
    let len = expr.unicode_len();
    let acc: Vec<Seg> = Vec::new();
    proof {
        assert(acc.deep_view() =~= Seq::<SegV>::empty());
    }
    let segs = scan(expr, len, 0, acc);
    proof {
        assert(segs.deep_view() =~= sp_scan(expr@, 0));
    }
    expand_segs(&segs, &data.enums, 0)
}

// ---------------------------------------------------------------------------
// phase A: variant lists
// ---------------------------------------------------------------------------

/// The expansions of every string of `vs` from index `i` on, concatenated
/// onto `acc`.
pub open spec fn sp_expand_list(
    vs: Seq<Seq<char>>,
    d: Seq<EnumV>,
    i: int,
    acc: Seq<Seq<char>>,
) -> Result<Seq<Seq<char>>, ErrorKindV>
    decreases vs.len() - i,
{
    if 0 <= i < vs.len() {
        match sp_expand_expr(vs[i], d) {
            Ok(rs) => sp_expand_list(vs, d, i + 1, acc + rs),
            Err(e) => Err(e),
        }
    } else {
        Ok(acc)
    }
}

/// Phase A on one enumeration: its declared variant names are expanded, in
/// order, against the pre-expansion registry `d`, and its identifier forms
/// recomputed from the final names.
pub open spec fn sp_phase_a_enum(e: EnumV, d: Seq<EnumV>) -> Result<EnumV, ErrorKindV> {
    match sp_expand_list(e.variants, d, 0, Seq::empty()) {
        Ok(nv) => Ok(EnumV { variants: nv, variants_camel_case: camel_seq(nv), ..e }),
        Err(err) => Err(err),
    }
}

/// Phase A: every enumeration's variant list expanded, all resolving
/// against the same pre-expansion registry `d0`.
pub open spec fn sp_phase_a(d0: Seq<EnumV>, i: int, acc: Seq<EnumV>) -> Result<
    Seq<EnumV>,
    ErrorKindV,
>
    decreases d0.len() - i,
{
    if 0 <= i < d0.len() {
        match sp_phase_a_enum(d0[i], d0) {
            Ok(e2) => sp_phase_a(d0, i + 1, acc.push(e2)),
            Err(e) => Err(e),
        }
    } else {
        Ok(acc)
    }
}

fn expand_list(vs: &Vec<String>, enums: &Vec<Enum>, i: usize, acc: Vec<String>) -> (r: Result<
    Vec<String>,
    ErrorKind,
>)
    requires
        i <= vs.len(),
    ensures
        match r {
            Ok(nv) => sp_expand_list(vs.deep_view(), enums.deep_view(), i as int, acc.deep_view())
                == Ok::<Seq<Seq<char>>, ErrorKindV>(nv.deep_view()),
            Err(e) => sp_expand_list(vs.deep_view(), enums.deep_view(), i as int, acc.deep_view())
                == Err::<Seq<Seq<char>>, ErrorKindV>(e.deep_view()),
        },
    decreases vs.len() - i,
{
    if i < vs.len() {
        let data_ref = vs[i].as_str();
        match expand_expr_on(data_ref, enums) {
            Ok(rs) => {
                let ghost acc0 = acc;
                let ghost rsv = rs;
                let mut acc = acc;
                let mut rs = rs;
                acc.append(&mut rs);
                proof {
                    lemma_concat_deep_view(acc0, rsv, acc);
                }
                expand_list(vs, enums, i + 1, acc)
            },
            Err(e) => Err(e),
        }
    } else {
        Ok(acc)
    }
}

/// [`expand_expr`] against a bare enumeration list.
fn expand_expr_on(expr: &str, enums: &Vec<Enum>) -> (r: Result<Vec<String>, ErrorKind>)
    ensures
        match r {
            Ok(rs) => sp_expand_expr(expr@, enums.deep_view())
                == Ok::<Seq<Seq<char>>, ErrorKindV>(rs.deep_view()),
            Err(e) => sp_expand_expr(expr@, enums.deep_view())
                == Err::<Seq<Seq<char>>, ErrorKindV>(e.deep_view()),
        },
{
    let len = expr.unicode_len();
    let acc: Vec<Seg> = Vec::new();
    proof {
        assert(acc.deep_view() =~= Seq::<SegV>::empty());
    }
    let segs = scan(expr, len, 0, acc);
    proof {
        assert(segs.deep_view() =~= sp_scan(expr@, 0));
    }
    expand_segs(&segs, enums, 0)
}

fn phase_a_enum(e: &Enum, enums: &Vec<Enum>) -> (r: Result<Enum, ErrorKind>)
    ensures
        match r {
            Ok(e2) => sp_phase_a_enum(e.deep_view(), enums.deep_view())
                == Ok::<EnumV, ErrorKindV>(e2.deep_view()),
            Err(err) => sp_phase_a_enum(e.deep_view(), enums.deep_view())
                == Err::<EnumV, ErrorKindV>(err.deep_view()),
        },
{
    let acc: Vec<String> = Vec::new();
    proof {
        assert(acc.deep_view() =~= Seq::<Seq<char>>::empty());
    }
    match expand_list(&e.variants, enums, 0, acc) {
        Ok(nv) => {
            let ncc = camel_all(&nv);
            Ok(
                Enum {
                    name: e.name.clone(),
                    name_camel_case: e.name_camel_case.clone(),
                    variants: nv,
                    variants_camel_case: ncc,
                    properties: crate::frontend::dup_properties(&e.properties),
                    file: e.file.clone(),
                },
            )
        },
        Err(err) => Err(err),
    }
}

fn phase_a(enums: &Vec<Enum>, i: usize, acc: Vec<Enum>) -> (r: Result<Vec<Enum>, ErrorKind>)
    requires
        i <= enums.len(),
    ensures
        match r {
            Ok(d1) => sp_phase_a(enums.deep_view(), i as int, acc.deep_view())
                == Ok::<Seq<EnumV>, ErrorKindV>(d1.deep_view()),
            Err(e) => sp_phase_a(enums.deep_view(), i as int, acc.deep_view())
                == Err::<Seq<EnumV>, ErrorKindV>(e.deep_view()),
        },
    decreases enums.len() - i,
{
    if i < enums.len() {
        proof {
            assert(enums.deep_view()[i as int] == enums[i as int].deep_view());
        }
        match phase_a_enum(&enums[i], enums) {
            Ok(e2) => {
                let ghost acc0 = acc;
                let mut acc = acc;
                acc.push(e2);
                proof {
                    lemma_push_deep_view(acc0, acc, e2);
                }
                phase_a(enums, i + 1, acc)
            },
            Err(e) => Err(e),
        }
    } else {
        Ok(acc)
    }
}

// ---------------------------------------------------------------------------
// phase B: property keys and values
// ---------------------------------------------------------------------------

/// Custom references to every name of `rs`.
pub open spec fn sp_customs(rs: Seq<Seq<char>>) -> Seq<ValueV> {
    Seq::new(rs.len(), |k: int| ValueV::Custom(rs[k]))
}

/// The expanded keys of a mapping: every key expanded, in order,
/// concatenated onto `acc`.
pub open spec fn sp_expand_keys(
    m: Seq<(Seq<char>, ValueV)>,
    d: Seq<EnumV>,
    i: int,
    acc: Seq<Seq<char>>,
) -> Result<Seq<Seq<char>>, ErrorKindV>
    decreases m.len() - i,
{
    if 0 <= i < m.len() {
        match sp_expand_expr(m[i].0, d) {
            Ok(rs) => sp_expand_keys(m, d, i + 1, acc + rs),
            Err(e) => Err(e),
        }
    } else {
        Ok(acc)
    }
}

/// The expanded values of a mapping: a `custom` reference expands into one
/// reference per result, any other value stands by itself.
pub open spec fn sp_expand_values(
    m: Seq<(Seq<char>, ValueV)>,
    d: Seq<EnumV>,
    i: int,
    acc: Seq<ValueV>,
) -> Result<Seq<ValueV>, ErrorKindV>
    decreases m.len() - i,
{
    if 0 <= i < m.len() {
        match m[i].1 {
            ValueV::Custom(s) => match sp_expand_expr(s, d) {
                Ok(rs) => sp_expand_values(m, d, i + 1, acc + sp_customs(rs)),
                Err(e) => Err(e),
            },
            _ => sp_expand_values(m, d, i + 1, acc.push(m[i].1)),
        }
    } else {
        Ok(acc)
    }
}

/// The expanded keys and values zipped positionally back into a mapping,
/// by insertion; a surplus of either side is dropped.
pub open spec fn sp_zip_insert(
    ks: Seq<Seq<char>>,
    vs: Seq<ValueV>,
    j: int,
    acc: Seq<(Seq<char>, ValueV)>,
) -> Seq<(Seq<char>, ValueV)>
    decreases ks.len() - j,
{
    if 0 <= j < ks.len() && j < vs.len() {
        sp_zip_insert(ks, vs, j + 1, sp_map_insert(acc, ks[j], vs[j]))
    } else {
        acc
    }
}

/// Phase B on one property: only a property whose declared type is
/// `custom` is rewritten; its keys and its `custom` values are expanded
/// against `d` and zipped back into a mapping.
pub open spec fn sp_phase_b_prop(p: PropertyV, d: Seq<EnumV>) -> Result<PropertyV, ErrorKindV> {
    if !(p.typ is Custom) {
        Ok(p)
    } else {
        match sp_expand_keys(p.mapping, d, 0, Seq::empty()) {
            Ok(ks) => match sp_expand_values(p.mapping, d, 0, Seq::empty()) {
                Ok(vs) => Ok(
                    PropertyV { mapping: sp_zip_insert(ks, vs, 0, Seq::empty()), ..p },
                ),
                Err(e) => Err(e),
            },
            Err(e) => Err(e),
        }
    }
}

/// Phase B on one enumeration's properties, in order.
pub open spec fn sp_phase_b_props(
    ps: Seq<PropertyV>,
    d: Seq<EnumV>,
    i: int,
    acc: Seq<PropertyV>,
) -> Result<Seq<PropertyV>, ErrorKindV>
    decreases ps.len() - i,
{
    if 0 <= i < ps.len() {
        match sp_phase_b_prop(ps[i], d) {
            Ok(p2) => sp_phase_b_props(ps, d, i + 1, acc.push(p2)),
            Err(e) => Err(e),
        }
    } else {
        Ok(acc)
    }
}

/// Phase B: every property of every enumeration, all resolving against the
/// registry `d1` that phase A produced.
pub open spec fn sp_phase_b(d1: Seq<EnumV>, i: int, acc: Seq<EnumV>) -> Result<
    Seq<EnumV>,
    ErrorKindV,
>
    decreases d1.len() - i,
{
    if 0 <= i < d1.len() {
        match sp_phase_b_props(d1[i].properties, d1, 0, Seq::empty()) {
            Ok(ps2) => sp_phase_b(d1, i + 1, acc.push(EnumV { properties: ps2, ..d1[i] })),
            Err(e) => Err(e),
        }
    } else {
        Ok(acc)
    }
}

/// The whole expansion pass: phase A, then phase B on its result.
pub open spec fn sp_expand_data(d: Seq<EnumV>) -> Result<Seq<EnumV>, ErrorKindV> {
    match sp_phase_a(d, 0, Seq::empty()) {
        Ok(d1) => sp_phase_b(d1, 0, Seq::empty()),
        Err(e) => Err(e),
    }
}

fn expand_keys(m: &Vec<(String, Value)>, enums: &Vec<Enum>, i: usize, acc: Vec<String>) -> (r:
    Result<Vec<String>, ErrorKind>)
    requires
        i <= m.len(),
    ensures
        match r {
            Ok(ks) => sp_expand_keys(m.deep_view(), enums.deep_view(), i as int, acc.deep_view())
                == Ok::<Seq<Seq<char>>, ErrorKindV>(ks.deep_view()),
            Err(e) => sp_expand_keys(m.deep_view(), enums.deep_view(), i as int, acc.deep_view())
                == Err::<Seq<Seq<char>>, ErrorKindV>(e.deep_view()),
        },
    decreases m.len() - i,
{
    if i < m.len() {
        proof {
            assert(m.deep_view()[i as int] == m[i as int].deep_view());
        }
        match expand_expr_on(m[i].0.as_str(), enums) {
            Ok(rs) => {
                let ghost acc0 = acc;
                let ghost rsv = rs;
                let mut acc = acc;
                let mut rs = rs;
                acc.append(&mut rs);
                proof {
                    lemma_concat_deep_view(acc0, rsv, acc);
                }
                expand_keys(m, enums, i + 1, acc)
            },
            Err(e) => Err(e),
        }
    } else {
        Ok(acc)
    }
}

fn expand_values(m: &Vec<(String, Value)>, enums: &Vec<Enum>, i: usize, acc: Vec<Value>) -> (r:
    Result<Vec<Value>, ErrorKind>)
    requires
        i <= m.len(),
    ensures
        match r {
            Ok(vs) => sp_expand_values(m.deep_view(), enums.deep_view(), i as int, acc.deep_view())
                == Ok::<Seq<ValueV>, ErrorKindV>(vs.deep_view()),
            Err(e) => sp_expand_values(m.deep_view(), enums.deep_view(), i as int, acc.deep_view())
                == Err::<Seq<ValueV>, ErrorKindV>(e.deep_view()),
        },
    decreases m.len() - i,
{
    if i < m.len() {
        proof {
            assert(m.deep_view()[i as int] == m[i as int].deep_view());
        }
        match &m[i].1 {
            Value::Custom(s) => match expand_expr_on(s.as_str(), enums) {
                Ok(rs) => {
                    let ghost acc0 = acc;
                    let ghost rsv = rs.deep_view();
                    let mut acc = acc;
                    let mut k: usize = 0;
                    while k < rs.len()
                        invariant
                            k <= rs.len(),
                            rs.deep_view() == rsv,
                            acc.deep_view().len() == acc0.deep_view().len() + k as int,
                            forall|q: int| 0 <= q < acc0.deep_view().len()
                                ==> acc.deep_view()[q] == acc0.deep_view()[q],
                            forall|q: int| 0 <= q < k
                                ==> acc.deep_view()[acc0.deep_view().len() + q]
                                    == ValueV::Custom(rsv[q]),
                        decreases rs.len() - k,
                    {
                        let ghost acck = acc;
                        let v = Value::Custom(rs[k].clone());
                        acc.push(v);
                        proof {
                            lemma_push_deep_view(acck, acc, v);
                        }
                        k = k + 1;
                    }
                    proof {
                        assert(acc.deep_view() =~= acc0.deep_view() + sp_customs(rsv));
                    }
                    expand_values(m, enums, i + 1, acc)
                },
                Err(e) => Err(e),
            },
            _ => {
                let ghost acc0 = acc;
                let mut acc = acc;
                let v = m[i].1.dup();
                acc.push(v);
                proof {
                    lemma_push_deep_view(acc0, acc, v);
                }
                expand_values(m, enums, i + 1, acc)
            },
        }
    } else {
        Ok(acc)
    }
}

fn zip_insert(ks: &Vec<String>, vs: &Vec<Value>, j: usize, acc: Vec<(String, Value)>) -> (r: Vec<
    (String, Value),
>)
    requires
        j <= ks.len(),
    ensures
        r.deep_view() == sp_zip_insert(ks.deep_view(), vs.deep_view(), j as int, acc.deep_view()),
    decreases ks.len() - j,
{
    if j < ks.len() && j < vs.len() {
        let acc2 = crate::frontend::map_insert(acc, ks[j].clone(), vs[j].dup());
        zip_insert(ks, vs, j + 1, acc2)
    } else {
        acc
    }
}

fn phase_b_prop(p: &Property, enums: &Vec<Enum>) -> (r: Result<Property, ErrorKind>)
    ensures
        match r {
            Ok(p2) => sp_phase_b_prop(p.deep_view(), enums.deep_view())
                == Ok::<PropertyV, ErrorKindV>(p2.deep_view()),
            Err(e) => sp_phase_b_prop(p.deep_view(), enums.deep_view())
                == Err::<PropertyV, ErrorKindV>(e.deep_view()),
        },
{
    let is_custom = match &p.typ {
        crate::model::Type::Custom(_) => true,
        _ => false,
    };
    if !is_custom {
        Ok(p.dup())
    } else {
        let acck: Vec<String> = Vec::new();
        let accv: Vec<Value> = Vec::new();
        let accm: Vec<(String, Value)> = Vec::new();
        proof {
            assert(acck.deep_view() =~= Seq::<Seq<char>>::empty());
            assert(accv.deep_view() =~= Seq::<ValueV>::empty());
            assert(accm.deep_view() =~= Seq::<(Seq<char>, ValueV)>::empty());
        }
        match expand_keys(&p.mapping, enums, 0, acck) {
            Ok(ks) => match expand_values(&p.mapping, enums, 0, accv) {
                Ok(vs) => Ok(
                    Property {
                        name: p.name.clone(),
                        typ: p.typ.dup(),
                        mapping: zip_insert(&ks, &vs, 0, accm),
                    },
                ),
                Err(e) => Err(e),
            },
            Err(e) => Err(e),
        }
    }
}

fn phase_b_props(ps: &Vec<Property>, enums: &Vec<Enum>, i: usize, acc: Vec<Property>) -> (r:
    Result<Vec<Property>, ErrorKind>)
    requires
        i <= ps.len(),
    ensures
        match r {
            Ok(ps2) => sp_phase_b_props(ps.deep_view(), enums.deep_view(), i as int, acc.deep_view())
                == Ok::<Seq<PropertyV>, ErrorKindV>(ps2.deep_view()),
            Err(e) => sp_phase_b_props(ps.deep_view(), enums.deep_view(), i as int, acc.deep_view())
                == Err::<Seq<PropertyV>, ErrorKindV>(e.deep_view()),
        },
    decreases ps.len() - i,
{
    if i < ps.len() {
        proof {
            assert(ps.deep_view()[i as int] == ps[i as int].deep_view());
        }
        match phase_b_prop(&ps[i], enums) {
            Ok(p2) => {
                let ghost acc0 = acc;
                let mut acc = acc;
                acc.push(p2);
                proof {
                    lemma_push_deep_view(acc0, acc, p2);
                }
                phase_b_props(ps, enums, i + 1, acc)
            },
            Err(e) => Err(e),
        }
    } else {
        Ok(acc)
    }
}

fn phase_b(enums: &Vec<Enum>, i: usize, acc: Vec<Enum>) -> (r: Result<Vec<Enum>, ErrorKind>)
    requires
        i <= enums.len(),
    ensures
        match r {
            Ok(d2) => sp_phase_b(enums.deep_view(), i as int, acc.deep_view())
                == Ok::<Seq<EnumV>, ErrorKindV>(d2.deep_view()),
            Err(e) => sp_phase_b(enums.deep_view(), i as int, acc.deep_view())
                == Err::<Seq<EnumV>, ErrorKindV>(e.deep_view()),
        },
    decreases enums.len() - i,
{
    if i < enums.len() {
        proof {
            assert(enums.deep_view()[i as int] == enums[i as int].deep_view());
        }
        let accp: Vec<Property> = Vec::new();
        proof {
            assert(accp.deep_view() =~= Seq::<PropertyV>::empty());
        }
        match phase_b_props(&enums[i].properties, enums, 0, accp) {
            Ok(ps2) => {
                let e = &enums[i];
                let e2 = Enum {
                    name: e.name.clone(),
                    name_camel_case: e.name_camel_case.clone(),
                    variants: crate::text::clone_strings(&e.variants),
                    variants_camel_case: crate::text::clone_strings(&e.variants_camel_case),
                    properties: ps2,
                    file: e.file.clone(),
                };
                let ghost acc0 = acc;
                let mut acc = acc;
                acc.push(e2);
                proof {
                    lemma_push_deep_view(acc0, acc, e2);
                }
                phase_b(enums, i + 1, acc)
            },
            Err(e) => Err(e),
        }
    } else {
        Ok(acc)
    }
}

/// Runs the expansion pass over the registry, in place: phase A rewrites
/// every enumeration's variant list and identifier forms, phase B rewrites
/// the mappings of `custom`-typed properties.  Fails exactly when a
/// placeholder references an enumeration the registry does not hold; the
/// registry is unchanged on failure.
pub fn expand(data: &mut Data) -> (r: Result<(), ErrorKind>)
    ensures
        match r {
            Ok(()) => sp_expand_data(old(data).deep_view())
                == Ok::<Seq<EnumV>, ErrorKindV>(final(data).deep_view()),
            Err(e) => sp_expand_data(old(data).deep_view())
                == Err::<Seq<EnumV>, ErrorKindV>(e.deep_view())
                && *final(data) == *old(data),
        },
{
    let acc: Vec<Enum> = Vec::new();
    proof {
        assert(acc.deep_view() =~= Seq::<EnumV>::empty());
    }
    match phase_a(&data.enums, 0, acc) {
        Ok(d1) => {
            let acc2: Vec<Enum> = Vec::new();
            proof {
                assert(acc2.deep_view() =~= Seq::<EnumV>::empty());
            }
            match phase_b(&d1, 0, acc2) {
                Ok(d2) => {
                    data.enums = d2;
                    Ok(())
                },
                Err(e) => Err(e),
            }
        },
        Err(e) => Err(e),
    }
}

} // verus!
