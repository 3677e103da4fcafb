//! Properties of the pipeline, stated and proved over the specification
//! functions that the executable functions' contracts are written in.

use vstd::prelude::*;
use vstd::set_lib::lemma_len_subset;
use crate::model::{LitV, ModelV, TypeV, VecOrOneV};
use crate::frontend::{DataFileV, EnumV, ErrorKindV, PropertyV, ValueV, sp_add_entries,
    sp_add_model, sp_add_property, sp_apply_enum, sp_find_enum, sp_find_prop, sp_from_slice,
    sp_load_files, sp_load_models};
use crate::model::model_file_models;
use crate::parse::sp_file;
use crate::expand::{sp_expand_data, sp_phase_a, sp_phase_a_enum, sp_phase_b, sp_phase_b_prop,
    sp_phase_b_props};
use crate::expand::{SegV, sp_cross, sp_expand_expr, sp_expand_segs, sp_prepend_all, sp_scan};
use crate::backend::{sp_exhaustive, sp_generate};

verus! {

// ---------------------------------------------------------------------------
// determinism
// ---------------------------------------------------------------------------

/// Compiling identical inputs twice yields identical generated source: the
/// registry and the output units are functions of the definition files
/// alone, so two runs over equal files agree in every unit's name and
/// contents.  Together with the contracts of `from_slice` and `generate`,
/// which pin their results to these functions, this is the idempotence of
/// the whole pipeline.
pub proof fn lemma_generate_deterministic(files1: Seq<DataFileV>, files2: Seq<DataFileV>)
    requires
        files1 == files2,
    ensures
        sp_from_slice(files1) == sp_from_slice(files2),
        match (sp_from_slice(files1), sp_from_slice(files2)) {
            (Ok(d1), Ok(d2)) => sp_generate(d1) == sp_generate(d2),
            _ => true,
        },
{
}

// ---------------------------------------------------------------------------
// exhaustiveness
// ---------------------------------------------------------------------------

/// The keys of a property mapping, in order.
pub open spec fn mapping_keys(m: Seq<(Seq<char>, ValueV)>) -> Seq<Seq<char>> {
    Seq::new(m.len(), |i: int| m[i].0)
}

/// Exhaustiveness: a property whose mapping covers exactly the variants of
/// its enumeration — every key a variant, every variant a key, no key and
/// no variant twice — is recognised as exhaustive, so its accessor is a
/// total match: one arm per variant and no default arm (see
/// [`crate::backend::sp_accessor`], which adds a `_ => None` arm and wraps values in `Some`
/// exactly when the property is not exhaustive).
pub proof fn lemma_accessor_exhaustive(e: EnumV, p: PropertyV)
    requires
        e.variants.no_duplicates(),
        mapping_keys(p.mapping).no_duplicates(),
        forall|i: int| 0 <= i < p.mapping.len() ==> e.variants.contains(#[trigger] p.mapping[i].0),
        forall|v: Seq<char>| e.variants.contains(v) ==> mapping_keys(p.mapping).contains(v),
    ensures
        sp_exhaustive(e, p),
        p.mapping.len() == e.variants.len(),
        forall|v: Seq<char>| e.variants.contains(v)
            ==> exists|k: int| 0 <= k < p.mapping.len() && #[trigger] p.mapping[k].0 == v,
{
    let ks = mapping_keys(p.mapping);
    assert(forall|i: int| 0 <= i < ks.len() ==> e.variants.contains(#[trigger] ks[i]));
    assert(ks.to_set() =~= e.variants.to_set()) by {
        assert forall|v: Seq<char>| ks.to_set().contains(v)
            implies e.variants.to_set().contains(v) by {
            let i = choose|i: int| 0 <= i < ks.len() && ks[i] == v;
            assert(e.variants.contains(ks[i]));
        }
    }
    ks.unique_seq_to_set();
    e.variants.unique_seq_to_set();
    assert(forall|v: Seq<char>| e.variants.contains(v) ==> ks.contains(v));
    assert forall|v: Seq<char>| e.variants.contains(v)
        implies exists|k: int| 0 <= k < p.mapping.len() && #[trigger] p.mapping[k].0 == v by {
        assert(ks.contains(v));
        let k = choose|k: int| 0 <= k < ks.len() && ks[k] == v;
        assert(p.mapping[k].0 == v);
    }
}

/// Partiality: a property whose mapping covers only some of the variants —
/// every key a distinct variant, at least one variant unmapped — is
/// recognised as partial: its mapping is strictly smaller than the variant
/// list, so its accessor returns `Some` for each mapped variant and takes
/// the `_ => None` arm for every other one.
pub proof fn lemma_accessor_partial(e: EnumV, p: PropertyV, missing: Seq<char>)
    requires
        e.variants.no_duplicates(),
        mapping_keys(p.mapping).no_duplicates(),
        forall|i: int| 0 <= i < p.mapping.len() ==> e.variants.contains(#[trigger] p.mapping[i].0),
        e.variants.contains(missing),
        !mapping_keys(p.mapping).contains(missing),
    ensures
        !sp_exhaustive(e, p),
        p.mapping.len() < e.variants.len(),
{
    let ks = mapping_keys(p.mapping);
    assert(forall|i: int| 0 <= i < ks.len() ==> e.variants.contains(#[trigger] ks[i]));
    assert(ks.to_set().subset_of(e.variants.to_set().remove(missing))) by {
        assert forall|v: Seq<char>| ks.to_set().contains(v)
            implies e.variants.to_set().remove(missing).contains(v) by {
            let i = choose|i: int| 0 <= i < ks.len() && ks[i] == v;
            assert(e.variants.contains(ks[i]));
            assert(v != missing);
        }
    }
    ks.unique_seq_to_set();
    e.variants.unique_seq_to_set();
    assert(e.variants.to_set().contains(missing));
    assert(e.variants.to_set().remove(missing).len() == e.variants.to_set().len() - 1);
    lemma_len_subset(ks.to_set(), e.variants.to_set().remove(missing));
}

// ---------------------------------------------------------------------------
// expansion order
// ---------------------------------------------------------------------------

/// Crossing variants with results lists, for each variant in order, that
/// variant prefixed onto every result, the variant varying slowest.
pub proof fn lemma_cross_index(vs: Seq<Seq<char>>, rs: Seq<Seq<char>>, i: int)
    requires
        0 <= i <= vs.len(),
    ensures
        sp_cross(vs, rs, i).len() == (vs.len() - i) * rs.len(),
        forall|p: int, q: int| i <= p < vs.len() && 0 <= q < rs.len()
            ==> sp_cross(vs, rs, i)[(p - i) * rs.len() + q] == vs[p] + rs[q],
    decreases vs.len() - i,
{
    if i < vs.len() {
        lemma_cross_index(vs, rs, i + 1);
        let whole = sp_cross(vs, rs, i);
        let rest = sp_cross(vs, rs, i + 1);
        assert((vs.len() - i) * rs.len() == rs.len() + (vs.len() - (i + 1)) * rs.len())
            by (nonlinear_arith);
        assert forall|p: int, q: int| i <= p < vs.len() && 0 <= q < rs.len()
            implies whole[(p - i) * rs.len() + q] == vs[p] + rs[q] by {
            if p == i {
                assert((p - i) * rs.len() + q == q) by (nonlinear_arith)
                    requires
                        p == i,
                ;
                assert(whole[q] == sp_prepend_all(vs[i], rs)[q]);
            } else {
                assert(rest[(p - (i + 1)) * rs.len() + q] == vs[p] + rs[q]);
                assert((p - i) * rs.len() + q == rs.len() + ((p - (i + 1)) * rs.len() + q))
                    by (nonlinear_arith);
                assert(0 <= (p - (i + 1)) * rs.len() + q < (vs.len() - (i + 1)) * rs.len())
                    by (nonlinear_arith)
                    requires
                        i < p < vs.len(),
                        0 <= q < rs.len(),
                ;
                assert(whole[rs.len() + ((p - (i + 1)) * rs.len() + q)]
                    == rest[(p - (i + 1)) * rs.len() + q]);
            }
        }
    } else {
        assert((vs.len() - i) * rs.len() == 0) by (nonlinear_arith)
            requires
                i == vs.len(),
        ;
    }
}

/// Expansion correctness: a template that references enumeration `na`,
/// then literal text `t`, then enumeration `nb`, expands to one result per
/// pair of variants, in the order that nests the left reference outermost:
/// the result at position `p * |B| + q` is `A[p] + t + B[q]`.
pub proof fn lemma_expansion_order(na: Seq<char>, t: Seq<char>, nb: Seq<char>, d: Seq<EnumV>)
    requires
        sp_find_enum(d, na, 0) is Some,
        sp_find_enum(d, nb, 0) is Some,
    ensures
        match sp_expand_segs(seq![SegV::Ref(na), SegV::Text(t), SegV::Ref(nb)], d, 0) {
            Ok(rs) => {
                let a = d[sp_find_enum(d, na, 0)->Some_0].variants;
                let b = d[sp_find_enum(d, nb, 0)->Some_0].variants;
                rs.len() == a.len() * b.len() && forall|p: int, q: int|
                    0 <= p < a.len() && 0 <= q < b.len()
                        ==> rs[p * b.len() + q] == a[p] + t + b[q]
            },
            Err(_) => false,
        },
{
    let segs = seq![SegV::Ref(na), SegV::Text(t), SegV::Ref(nb)];
    let ia = sp_find_enum(d, na, 0)->Some_0;
    let ib = sp_find_enum(d, nb, 0)->Some_0;
    lemma_find_enum_characterises(d, na, 0);
    lemma_find_enum_characterises(d, nb, 0);
    let a = d[ia].variants;
    let b = d[ib].variants;

    let base = seq![Seq::<char>::empty()];
    assert(sp_expand_segs(segs, d, 3) == Ok::<Seq<Seq<char>>, ErrorKindV>(base));
    assert(segs[2] == SegV::Ref(nb));
    let rs2 = sp_cross(b, base, 0);
    assert(sp_expand_segs(segs, d, 2) == Ok::<Seq<Seq<char>>, ErrorKindV>(rs2));
    lemma_cross_index(b, base, 0);
    assert(rs2.len() == b.len());
    assert(segs[1] == SegV::Text(t));
    let rs1 = sp_prepend_all(t, rs2);
    assert(sp_expand_segs(segs, d, 1) == Ok::<Seq<Seq<char>>, ErrorKindV>(rs1));
    assert(segs[0] == SegV::Ref(na));
    let rs0 = sp_cross(a, rs1, 0);
    assert(sp_expand_segs(segs, d, 0) == Ok::<Seq<Seq<char>>, ErrorKindV>(rs0));
    lemma_cross_index(a, rs1, 0);
    assert(rs0.len() == a.len() * b.len());

    assert forall|p: int, q: int| 0 <= p < a.len() && 0 <= q < b.len()
        implies rs0[p * b.len() + q] == a[p] + t + b[q] by {
        assert(base.len() == 1);
        assert(rs2[(q - 0) * base.len() + 0] == b[q] + base[0]);
        assert(rs2[q] == b[q] + Seq::<char>::empty());
        assert(rs1[q] == t + rs2[q]);
        assert(rs1.len() == b.len());
        assert(rs0[(p - 0) * rs1.len() + q] == a[p] + rs1[q]);
        assert(rs0[p * b.len() + q] == a[p] + (t + (b[q] + Seq::<char>::empty())));
        assert(a[p] + (t + (b[q] + Seq::<char>::empty())) =~= a[p] + t + b[q]);
    }
}

// ---------------------------------------------------------------------------
// duplicate rejection
// ---------------------------------------------------------------------------

/// `sp_find_enum` finds an index exactly when one matches.
pub proof fn lemma_find_enum_characterises(d: Seq<EnumV>, name: Seq<char>, i: int)
    requires
        0 <= i,
    ensures
        match sp_find_enum(d, name, i) {
            Some(j) => i <= j < d.len() && d[j].name == name,
            None => forall|j: int| i <= j < d.len() ==> (#[trigger] d[j]).name != name,
        },
    decreases d.len() - i,
{
    if 0 <= i < d.len() && d[i].name != name {
        lemma_find_enum_characterises(d, name, i + 1);
    }
}

/// `sp_find_prop` finds an index exactly when one matches.
pub proof fn lemma_find_prop_characterises(ps: Seq<PropertyV>, name: Seq<char>, i: int)
    requires
        0 <= i,
    ensures
        match sp_find_prop(ps, name, i) {
            Some(j) => i <= j < ps.len() && ps[j].name == name,
            None => forall|j: int| i <= j < ps.len() ==> (#[trigger] ps[j]).name != name,
        },
    decreases ps.len() - i,
{
    if 0 <= i < ps.len() && ps[i].name != name {
        lemma_find_prop_characterises(ps, name, i + 1);
    }
}

/// Duplicate rejection: in a registry whose enumeration names are unique,
/// declaring a property whose name the target enumeration already carries
/// fails the load with `DuplicateProperty`, whichever file either
/// declaration came from — the registry accumulates across files, so the
/// load order does not matter — provided the declaration's literals
/// themselves convert.
pub proof fn lemma_duplicate_property_rejected(
    d: Seq<EnumV>,
    on: Seq<char>,
    name: Seq<char>,
    typ: TypeV,
    mapping: Seq<(VecOrOneV<Seq<char>>, LitV)>,
    file: Seq<char>,
    witness: int,
)
    requires
        forall|i: int, j: int| 0 <= i < j < d.len()
            ==> (#[trigger] d[i]).name != (#[trigger] d[j]).name,
        0 <= witness < d.len(),
        d[witness].name == on,
        sp_find_prop(d[witness].properties, name, 0) is Some,
        sp_add_entries(mapping, typ, 0, Seq::empty()) is Some,
    ensures
        sp_add_model(d, ModelV::Property { on, name, typ, mapping }, file)
            == Err::<Seq<EnumV>, ErrorKindV>(ErrorKindV::DuplicateProperty(name)),
{
    lemma_find_enum_characterises(d, on, 0);
    match sp_find_enum(d, on, 0) {
        Some(j) => {
            if j < witness {
                assert(d[j].name != d[witness].name);
            } else if witness < j {
                assert(d[witness].name != d[j].name);
            }
            assert(j == witness);
        },
        None => {
            assert(d[witness].name != on);
        },
    }
}

// ---------------------------------------------------------------------------
// unknown-reference rejection
// ---------------------------------------------------------------------------

/// If any segment from `i` on references an enumeration the registry does
/// not hold, expansion fails, and the failure is an unknown-reference
/// error naming an enumeration the registry does not hold.
pub proof fn lemma_segs_unknown_rejected(segs: Seq<SegV>, d: Seq<EnumV>, i: int, k: int)
    requires
        0 <= i <= k < segs.len(),
        segs[k] is Ref,
        sp_find_enum(d, segs[k]->Ref_0, 0) is None,
    ensures
        sp_expand_segs(segs, d, i) is Err,
        sp_expand_segs(segs, d, i) matches Err(e) ==> (e matches
            ErrorKindV::UnknownEnumReference(n) && sp_find_enum(d, n, 0) is None),
    decreases segs.len() - i,
{
    if 0 <= i < segs.len() {
        match segs[i] {
            SegV::Text(_) => {
                assert(k != i);
                lemma_segs_unknown_rejected(segs, d, i + 1, k);
            },
            SegV::Ref(n) => {
                if sp_find_enum(d, n, 0) is None {
                } else {
                    assert(k != i);
                    lemma_segs_unknown_rejected(segs, d, i + 1, k);
                }
            },
        }
    }
}

/// Unknown-reference rejection: a string holding a placeholder that names
/// an enumeration absent from the registry does not expand; the failure is
/// an `UnknownEnumReference` naming an absent enumeration.
pub proof fn lemma_unknown_reference_rejected(s: Seq<char>, d: Seq<EnumV>, k: int)
    requires
        0 <= k < sp_scan(s, 0).len(),
        sp_scan(s, 0)[k] is Ref,
        sp_find_enum(d, sp_scan(s, 0)[k]->Ref_0, 0) is None,
    ensures
        sp_expand_expr(s, d) is Err,
        sp_expand_expr(s, d) matches Err(e) ==> (e matches
            ErrorKindV::UnknownEnumReference(n) && sp_find_enum(d, n, 0) is None),
{
    lemma_segs_unknown_rejected(sp_scan(s, 0), d, 0, k);
}

// ---------------------------------------------------------------------------
// the registry invariant
// ---------------------------------------------------------------------------

/// An enumeration's own invariant: no property name twice.
pub open spec fn enum_wf(e: EnumV) -> bool {
    forall|i: int, j: int| 0 <= i < j < e.properties.len()
        ==> (#[trigger] e.properties[i]).name != (#[trigger] e.properties[j]).name
}

/// The registry invariant: no enumeration name twice, and every
/// enumeration well-formed.
pub open spec fn data_wf(d: Seq<EnumV>) -> bool {
    (forall|i: int, j: int| 0 <= i < j < d.len()
        ==> (#[trigger] d[i]).name != (#[trigger] d[j]).name)
    && (forall|i: int| 0 <= i < d.len() ==> enum_wf(#[trigger] d[i]))
}

/// Applying one declaration preserves the registry invariant.
pub proof fn lemma_add_model_preserves_wf(d: Seq<EnumV>, m: ModelV, file: Seq<char>)
    requires
        data_wf(d),
    ensures
        match sp_add_model(d, m, file) {
            Ok(d2) => data_wf(d2),
            Err(_) => true,
        },
{
    match m {
        ModelV::Enum { name, variants } => {
            lemma_find_enum_characterises(d, name, 0);
            match sp_find_enum(d, name, 0) {
                Some(i) => {
                    let d2 = sp_apply_enum(d, name, variants, file);
                    assert(d2[i].name == d[i].name);
                    assert(d2[i].properties == d[i].properties);
                    assert(forall|k: int| 0 <= k < d.len() && k != i ==> d2[k] == d[k]);
                    assert(data_wf(d2));
                },
                None => {
                    let d2 = sp_apply_enum(d, name, variants, file);
                    assert(forall|k: int| 0 <= k < d.len() ==> d2[k] == d[k]);
                    assert(d2[d.len() as int].name == name);
                    assert(enum_wf(d2[d.len() as int]));
                    assert(data_wf(d2));
                },
            }
        },
        ModelV::Property { on, name, typ, mapping } => {
            match sp_add_entries(mapping, typ, 0, Seq::empty()) {
                Some(kvs) => {
                    lemma_find_enum_characterises(d, on, 0);
                    match sp_find_enum(d, on, 0) {
                        Some(i) => {
                            if sp_find_prop(d[i].properties, name, 0) is Some {
                            } else {
                                lemma_find_prop_characterises(d[i].properties, name, 0);
                                let d2 = match sp_add_property(d, on, name, typ, kvs) {
                                    Ok(d2) => d2,
                                    Err(_) => d,
                                };
                                assert(d2[i].properties == d[i].properties.push(
                                    PropertyV { name, typ, mapping: kvs },
                                ));
                                assert(enum_wf(d2[i]));
                                assert(forall|k: int| 0 <= k < d.len() && k != i
                                    ==> d2[k] == d[k]);
                                assert(data_wf(d2));
                            }
                        },
                        None => {
                            let d2 = match sp_add_property(d, on, name, typ, kvs) {
                                Ok(d2) => d2,
                                Err(_) => d,
                            };
                            assert(forall|k: int| 0 <= k < d.len() ==> d2[k] == d[k]);
                            assert(d2[d.len() as int].name == on);
                            assert(enum_wf(d2[d.len() as int]));
                            assert(data_wf(d2));
                        },
                    }
                },
                None => {},
            }
        },
    }
}

/// Loading a file's declarations in order preserves the invariant.
pub proof fn lemma_load_models_preserves_wf(d: Seq<EnumV>, ms: Seq<ModelV>, file: Seq<char>)
    requires
        data_wf(d),
    ensures
        match sp_load_models(d, ms, file) {
            Ok(d2) => data_wf(d2),
            Err(_) => true,
        },
    decreases ms.len(),
{
    if ms.len() != 0 {
        lemma_add_model_preserves_wf(d, ms[0], file);
        match sp_add_model(d, ms[0], file) {
            Ok(d2) => {
                lemma_load_models_preserves_wf(d2, ms.drop_first(), file);
            },
            Err(_) => {},
        }
    }
}

/// Loading every file in order preserves the invariant.
pub proof fn lemma_load_files_preserves_wf(files: Seq<DataFileV>, i: int, d: Seq<EnumV>)
    requires
        data_wf(d),
    ensures
        match sp_load_files(files, i, d) {
            Ok(d2) => data_wf(d2),
            Err(_) => true,
        },
    decreases files.len() - i,
{
    if 0 <= i < files.len() {
        match sp_file(files[i].contents) {
            Some(mf) => {
                lemma_load_models_preserves_wf(d, model_file_models(mf), files[i].name);
                match sp_load_models(d, model_file_models(mf), files[i].name) {
                    Ok(d2) => {
                        lemma_load_files_preserves_wf(files, i + 1, d2);
                    },
                    Err(_) => {},
                }
            },
            None => {},
        }
    }
}

/// Phase A keeps every enumeration's name and properties in place: the
/// result extends `acc` with one enumeration per remaining entry of `d0`,
/// differing from it only in variant lists and identifier forms.
pub proof fn lemma_phase_a_shape(d0: Seq<EnumV>, i: int, acc: Seq<EnumV>)
    requires
        0 <= i <= d0.len(),
    ensures
        match sp_phase_a(d0, i, acc) {
            Ok(d1) => d1.len() == acc.len() + d0.len() - i
                && (forall|k: int| 0 <= k < acc.len() ==> d1[k] == acc[k])
                && (forall|k: int| acc.len() <= k < d1.len()
                    ==> (#[trigger] d1[k]).name == d0[k - acc.len() + i].name
                        && d1[k].properties == d0[k - acc.len() + i].properties),
            Err(_) => true,
        },
    decreases d0.len() - i,
{
    if i < d0.len() {
        match sp_phase_a_enum(d0[i], d0) {
            Ok(e2) => {
                assert(e2.name == d0[i].name);
                assert(e2.properties == d0[i].properties);
                lemma_phase_a_shape(d0, i + 1, acc.push(e2));
            },
            Err(_) => {},
        }
    }
}

/// Phase B on a property list keeps every property's name in place.
pub proof fn lemma_phase_b_props_shape(
    ps: Seq<PropertyV>,
    d: Seq<EnumV>,
    i: int,
    acc: Seq<PropertyV>,
)
    requires
        0 <= i <= ps.len(),
    ensures
        match sp_phase_b_props(ps, d, i, acc) {
            Ok(ps2) => ps2.len() == acc.len() + ps.len() - i
                && (forall|k: int| 0 <= k < acc.len() ==> ps2[k] == acc[k])
                && (forall|k: int| acc.len() <= k < ps2.len()
                    ==> (#[trigger] ps2[k]).name == ps[k - acc.len() + i].name),
            Err(_) => true,
        },
    decreases ps.len() - i,
{
    if i < ps.len() {
        match sp_phase_b_prop(ps[i], d) {
            Ok(p2) => {
                assert(p2.name == ps[i].name);
                lemma_phase_b_props_shape(ps, d, i + 1, acc.push(p2));
            },
            Err(_) => {},
        }
    }
}

/// Phase B keeps every enumeration's name, and its properties' names, in
/// place.
pub proof fn lemma_phase_b_shape(d1: Seq<EnumV>, i: int, acc: Seq<EnumV>)
    requires
        0 <= i <= d1.len(),
    ensures
        match sp_phase_b(d1, i, acc) {
            Ok(d2) => d2.len() == acc.len() + d1.len() - i
                && (forall|k: int| 0 <= k < acc.len() ==> d2[k] == acc[k])
                && (forall|k: int| acc.len() <= k < d2.len()
                    ==> (#[trigger] d2[k]).name == d1[k - acc.len() + i].name
                        && (enum_wf(d1[k - acc.len() + i]) ==> enum_wf(d2[k]))),
            Err(_) => true,
        },
    decreases d1.len() - i,
{
    if i < d1.len() {
        match sp_phase_b_props(d1[i].properties, d1, 0, Seq::empty()) {
            Ok(ps2) => {
                lemma_phase_b_props_shape(d1[i].properties, d1, 0, Seq::empty());
                let e2 = EnumV { properties: ps2, ..d1[i] };
                assert(enum_wf(d1[i]) ==> enum_wf(e2));
                lemma_phase_b_shape(d1, i + 1, acc.push(e2));
            },
            Err(_) => {},
        }
    }
}

/// The expansion pass preserves the registry invariant.
pub proof fn lemma_expand_preserves_wf(d: Seq<EnumV>)
    requires
        data_wf(d),
    ensures
        match sp_expand_data(d) {
            Ok(d2) => data_wf(d2),
            Err(_) => true,
        },
{
    lemma_phase_a_shape(d, 0, Seq::empty());
    match sp_phase_a(d, 0, Seq::empty()) {
        Ok(d1) => {
            assert(data_wf(d1));
            lemma_phase_b_shape(d1, 0, Seq::empty());
        },
        Err(_) => {},
    }
}

/// The registry invariant holds of every registry the frontend hands
/// out: enumeration names are unique, and no enumeration
/// carries two properties of one name.
pub proof fn lemma_from_slice_wf(files: Seq<DataFileV>)
    ensures
        match sp_from_slice(files) {
            Ok(d) => data_wf(d),
            Err(_) => true,
        },
{
    lemma_load_files_preserves_wf(files, 0, Seq::empty());
    match sp_load_files(files, 0, Seq::empty()) {
        Ok(d) => {
            lemma_expand_preserves_wf(d);
        },
        Err(_) => {},
    }
}

} // verus!
