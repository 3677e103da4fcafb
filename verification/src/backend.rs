//! Code generation.
//!
//! [`generate`] walks the expanded, immutable registry and renders, per
//! source-grouping tag, one output unit of source text declaring the
//! enumerations grouped under the tag and one accessor function per
//! property, plus a manifest unit re-exporting every group.  A property
//! covering every variant of its enumeration becomes a total accessor
//! `E -> T` with no default arm; one covering only some variants becomes
//! `E -> Option<T>` with a final default arm returning `None`.  Output is
//! a pure function of the registry: writing the units to disk, and any
//! formatting pass over them, is the caller's affair.

use vstd::prelude::*;
use vstd::string::{StrSliceExecFns, StringExecFns};
use crate::frontend::{Data, Enum, EnumV, Property, PropertyV, Value, ValueV, camel_of};
use crate::model::{Type, TypeV, lemma_push_deep_view};
use crate::text::push_char;

verus! {

broadcast use vstd::std_specs::vec::axiom_vec_index_decreases, vstd::seq::axiom_seq_index_decreases;

// ---------------------------------------------------------------------------
// literals
// ---------------------------------------------------------------------------

/// The decimal digits of `n`.
pub open spec fn sp_u32_str(n: u32) -> Seq<char>
    decreases n,
{
    let d = seq![((n % 10) + 48) as char];
    if n < 10 {
        d
    } else {
        sp_u32_str(n / 10) + d
    }
}

fn u32_str(n: u32) -> (r: String)
    ensures
        r@ == sp_u32_str(n),
    decreases n,
{
    let d: u32 = (n % 10) + 48;
    if n < 10 {
        let mut s = String::new();
        push_char(&mut s, d as u8 as char);
        proof {
            assert(s@ =~= seq![((n % 10) + 48) as char]);
        }
        s
    } else {
        let mut s = u32_str(n / 10);
        push_char(&mut s, d as u8 as char);
        proof {
            assert(s@ =~= sp_u32_str(n / 10) + seq![((n % 10) + 48) as char]);
        }
        s
    }
}

/// A character of a string literal: quotes, backslashes and line breaks
/// are escaped, everything else stands as itself.
pub open spec fn sp_escape_char(c: char) -> Seq<char> {
    if c == '"' {
        seq!['\\', '"']
    } else if c == '\\' {
        seq!['\\', '\\']
    } else if c == '\n' {
        seq!['\\', 'n']
    } else if c == '\t' {
        seq!['\\', 't']
    } else if c == '\r' {
        seq!['\\', 'r']
    } else {
        seq![c]
    }
}

/// The contents of `s` from `i` on, escaped for a string literal.
pub open spec fn sp_escape(s: Seq<char>, i: int) -> Seq<char>
    decreases s.len() - i,
{
    if 0 <= i < s.len() {
        sp_escape_char(s[i]) + sp_escape(s, i + 1)
    } else {
        Seq::empty()
    }
}

fn escape_into(out: String, s: &str, len: usize, i: usize) -> (r: String)
    requires
        len == s@.len(),
        i <= len,
    ensures
        r@ == out@ + sp_escape(s@, i as int),
    decreases len - i,
{
    if i >= len {
        proof {
            assert(out@ + sp_escape(s@, i as int) =~= out@);
        }
        out
    } else {
        let c = s.get_char(i);
        let mut out = out;
        let ghost out0 = out@;
        if c == '"' {
            out.append("\\\"");
            proof {
                reveal_strlit("\\\"");
                assert(out@ =~= out0 + sp_escape_char(c));
            }
        } else if c == '\\' {
            out.append("\\\\");
            proof {
                reveal_strlit("\\\\");
                assert(out@ =~= out0 + sp_escape_char(c));
            }
        } else if c == '\n' {
            out.append("\\n");
            proof {
                reveal_strlit("\\n");
                assert(out@ =~= out0 + sp_escape_char(c));
            }
        } else if c == '\t' {
            out.append("\\t");
            proof {
                reveal_strlit("\\t");
                assert(out@ =~= out0 + sp_escape_char(c));
            }
        } else if c == '\r' {
            out.append("\\r");
            proof {
                reveal_strlit("\\r");
                assert(out@ =~= out0 + sp_escape_char(c));
            }
        } else {
            push_char(&mut out, c);
            proof {
                assert(out@ =~= out0 + sp_escape_char(c));
            }
        }
        let r = escape_into(out, s, len, i + 1);
        proof {
            assert(out0 + sp_escape(s@, i as int) =~= out@ + sp_escape(s@, i as int + 1));
        }
        r
    }
}

// ---------------------------------------------------------------------------
// types and values
// ---------------------------------------------------------------------------

/// The source text of a declared type: primitives directly, strings and
/// slices as static references, a custom type as a crate-qualified
/// reference to its enumeration's identifier form.
pub open spec fn sp_render_type(t: TypeV) -> Seq<char>
    decreases t,
{
    match t {
        TypeV::Bool => "bool"@,
        TypeV::U32 => "u32"@,
        TypeV::F64 => "f64"@,
        TypeV::Str => "&'static str"@,
        TypeV::Slice(inner) => "&'static ["@ + sp_render_type(*inner) + "]"@,
        TypeV::Custom(name) => "crate::"@ + camel_of(name),
    }
}

pub fn render_type(t: &Type) -> (r: String)
    ensures
        r@ == sp_render_type(t.deep_view()),
    decreases t,
{
    match t {
        Type::Bool => "bool".to_owned(),
        Type::U32 => "u32".to_owned(),
        Type::F64 => "f64".to_owned(),
        Type::Str => "&'static str".to_owned(),
        Type::Slice(inner) => {
            let mut s = "&'static [".to_owned();
            s.append(render_type(inner).as_str());
            s.append("]");
            s
        },
        Type::Custom(name) => {
            let mut s = "crate::".to_owned();
            s.append(crate::frontend::to_camel(name).as_str());
            s
        },
    }
}

/// The source text of a value: booleans and suffixed numeric literals,
/// quoted strings, bracketed slices, and for a custom reference the
/// identifier form of the variant it names — emitted without checking
/// that the variant exists.
pub open spec fn sp_render_value(v: ValueV) -> Seq<char>
    decreases v, 0int, 1int,
{
    match v {
        ValueV::Bool(b) => if b {
            "true"@
        } else {
            "false"@
        },
        ValueV::U32(x) => sp_u32_str(x) + "u32"@,
        ValueV::F64(t) => t + "f64"@,
        ValueV::Str(s) => "\""@ + sp_escape(s, 0) + "\""@,
        ValueV::Slice(items) => "["@ + sp_render_values(items, 0) + "]"@,
        ValueV::Custom(name) => camel_of(name),
    }
}

/// The source texts of the values of `vs` from `i` on, comma-separated.
pub open spec fn sp_render_values(vs: Seq<ValueV>, i: int) -> Seq<char>
    decreases vs, vs.len() - i, 0int,
{
    if 0 <= i < vs.len() {
        if i + 1 == vs.len() {
            sp_render_value(vs[i])
        } else {
            sp_render_value(vs[i]) + ", "@ + sp_render_values(vs, i + 1)
        }
    } else {
        Seq::empty()
    }
}

pub fn render_value(v: &Value) -> (r: String)
    ensures
        r@ == sp_render_value(v.deep_view()),
    decreases v, 0int, 1int,
{
    match v {
        Value::Bool(b) => if *b {
            "true".to_owned()
        } else {
            "false".to_owned()
        },
        Value::U32(x) => {
            let mut s = u32_str(*x);
            s.append("u32");
            s
        },
        Value::F64(t) => {
            let mut s = t.clone();
            s.append("f64");
            s
        },
        Value::Str(inner) => {
            let s = "\"".to_owned();
            let mut s = escape_into(s, inner.as_str(), inner.as_str().unicode_len(), 0);
            s.append("\"");
            s
        },
        Value::Slice(items) => {
            proof {
                crate::frontend::lemma_value_views_is_deep_view(*items);
            }
            let s = "[".to_owned();
            let mut s = render_values(items, 0, s);
            s.append("]");
            s
        },
        Value::Custom(name) => crate::frontend::to_camel(name),
    }
}

fn render_values(vs: &Vec<Value>, i: usize, out: String) -> (r: String)
    requires
        i <= vs.len(),
    ensures
        r@ == out@ + sp_render_values(vs.deep_view(), i as int),
    decreases *vs, vs.len() - i, 1int,
{
    proof {
        crate::frontend::lemma_value_views_is_deep_view(*vs);
    }
    if i < vs.len() {
        proof {
            assert(vs.deep_view()[i as int] == vs[i as int].deep_view());
        }
        let piece = render_value(&vs[i]);
        let mut out = out;
        let ghost out0 = out@;
        out.append(piece.as_str());
        if i + 1 == vs.len() {
            proof {
                assert(out0 + sp_render_values(vs.deep_view(), i as int) =~= out@);
            }
            out
        } else {
            out.append(", ");
            let r = render_values(vs, i + 1, out);
            proof {
                assert(out0 + sp_render_values(vs.deep_view(), i as int)
                    =~= (out0 + piece@ + ", "@) + sp_render_values(vs.deep_view(), i as int + 1));
            }
            r
        }
    } else {
        proof {
            assert(out@ + sp_render_values(vs.deep_view(), i as int) =~= out@);
        }
        out
    }
}

// ---------------------------------------------------------------------------
// accessors
// ---------------------------------------------------------------------------

/// A property is exhaustive when its mapping has one entry per variant of
/// the owning enumeration.
pub open spec fn sp_exhaustive(e: EnumV, p: PropertyV) -> bool {
    p.mapping.len() == e.variants.len()
}

/// One match arm: the key's identifier form, then the value — wrapped in
/// `Some` for a partial accessor.
pub open spec fn sp_arm(entry: (Seq<char>, ValueV), exhaustive: bool) -> Seq<char> {
    if exhaustive {
        "            "@ + camel_of(entry.0) + " => "@ + sp_render_value(entry.1) + ",\n"@
    } else {
        "            "@ + camel_of(entry.0) + " => Some("@ + sp_render_value(entry.1) + "),\n"@
    }
}

/// The match arms of a property's mapping from entry `i` on, in the
/// mapping's own iteration order.
pub open spec fn sp_arms(m: Seq<(Seq<char>, ValueV)>, exhaustive: bool, i: int) -> Seq<char>
    decreases m.len() - i,
{
    if 0 <= i < m.len() {
        sp_arm(m[i], exhaustive) + sp_arms(m, exhaustive, i + 1)
    } else {
        Seq::empty()
    }
}

/// The return type of an accessor: the declared type itself when the
/// property is exhaustive, `Option` of it when it is partial.
pub open spec fn sp_ret_type(t: TypeV, exhaustive: bool) -> Seq<char> {
    if exhaustive {
        sp_render_type(t)
    } else {
        "Option<"@ + sp_render_type(t) + ">"@
    }
}

/// The source text of one accessor function: a match over the mapped
/// variants, with a final `_ => None` arm exactly when the property is
/// partial.
pub open spec fn sp_accessor(e: EnumV, p: PropertyV) -> Seq<char> {
    let exhaustive = sp_exhaustive(e, p);
    let head = "    pub fn "@ + p.name + "(self) -> "@ + sp_ret_type(p.typ, exhaustive)
        + " {\n        use "@ + e.name_camel_case + "::*;\n        match self {\n"@
        + sp_arms(p.mapping, exhaustive, 0);
    let body = if exhaustive {
        head
    } else {
        head + "            _ => None,\n"@
    };
    body + "        }\n    }\n"@
}

/// The accessors of the properties of `ps` from index `i` on.
pub open spec fn sp_accessors(e: EnumV, ps: Seq<PropertyV>, i: int) -> Seq<char>
    decreases ps.len() - i,
{
    if 0 <= i < ps.len() {
        sp_accessor(e, ps[i]) + sp_accessors(e, ps, i + 1)
    } else {
        Seq::empty()
    }
}

fn render_arms(m: &Vec<(String, Value)>, exhaustive: bool, i: usize, out: String) -> (r: String)
    requires
        i <= m.len(),
    ensures
        r@ == out@ + sp_arms(m.deep_view(), exhaustive, i as int),
    decreases m.len() - i,
{
    if i < m.len() {
        proof {
            assert(m.deep_view()[i as int] == m[i as int].deep_view());
        }
        let mut out = out;
        let ghost out0 = out@;
        out.append("            ");
        out.append(crate::frontend::to_camel(&m[i].0).as_str());
        if exhaustive {
            out.append(" => ");
            out.append(render_value(&m[i].1).as_str());
            out.append(",\n");
        } else {
            out.append(" => Some(");
            out.append(render_value(&m[i].1).as_str());
            out.append("),\n");
        }
        proof {
            assert(out@ =~= out0 + sp_arm(m.deep_view()[i as int], exhaustive));
        }
        let r = render_arms(m, exhaustive, i + 1, out);
        proof {
            assert(out0 + sp_arms(m.deep_view(), exhaustive, i as int)
                =~= out@ + sp_arms(m.deep_view(), exhaustive, i as int + 1));
        }
        r
    } else {
        proof {
            assert(out@ + sp_arms(m.deep_view(), exhaustive, i as int) =~= out@);
        }
        out
    }
}

fn render_accessor(e: &Enum, p: &Property, out: String) -> (r: String)
    ensures
        r@ == out@ + sp_accessor(e.deep_view(), p.deep_view()),
{
    let exhaustive = p.mapping.len() == e.variants.len();
    let ret = if exhaustive {
        render_type(&p.typ)
    } else {
        let mut s = "Option<".to_owned();
        s.append(render_type(&p.typ).as_str());
        s.append(">");
        s
    };
    let mut out = out;
    let ghost out0 = out@;
    out.append("    pub fn ");
    out.append(p.name.as_str());
    out.append("(self) -> ");
    out.append(ret.as_str());
    out.append(" {\n        use ");
    out.append(e.name_camel_case.as_str());
    out.append("::*;\n        match self {\n");
    let mut out = render_arms(&p.mapping, exhaustive, 0, out);
    if !exhaustive {
        out.append("            _ => None,\n");
    }
    out.append("        }\n    }\n");
    proof {
        assert(out@ =~= out0 + sp_accessor(e.deep_view(), p.deep_view()));
    }
    out
}

fn render_accessors(e: &Enum, ps: &Vec<Property>, i: usize, out: String) -> (r: String)
    requires
        i <= ps.len(),
    ensures
        r@ == out@ + sp_accessors(e.deep_view(), ps.deep_view(), i as int),
    decreases ps.len() - i,
{
    if i < ps.len() {
        proof {
            assert(ps.deep_view()[i as int] == ps[i as int].deep_view());
        }
        let ghost out0 = out@;
        let out = render_accessor(e, &ps[i], out);
        let r = render_accessors(e, ps, i + 1, out);
        proof {
            assert(out0 + sp_accessors(e.deep_view(), ps.deep_view(), i as int)
                =~= out@ + sp_accessors(e.deep_view(), ps.deep_view(), i as int + 1));
        }
        r
    } else {
        proof {
            assert(out@ + sp_accessors(e.deep_view(), ps.deep_view(), i as int) =~= out@);
        }
        out
    }
}

// ---------------------------------------------------------------------------
// enumerations and units
// ---------------------------------------------------------------------------

/// One declared variant per line.
pub open spec fn sp_variant_lines(vs: Seq<Seq<char>>, i: int) -> Seq<char>
    decreases vs.len() - i,
{
    if 0 <= i < vs.len() {
        "    "@ + vs[i] + ",\n"@ + sp_variant_lines(vs, i + 1)
    } else {
        Seq::empty()
    }
}

/// The derives every generated enumeration carries.
pub open spec fn sp_derive_line() -> Seq<char> {
    "#[derive(Copy, Clone, Debug, PartialEq, Eq, Hash, PartialOrd, Ord, ToPrimitive, FromPrimitive)]\n"@
}

/// The declaration of an enumeration: its derives and one variant
/// identifier per line, in declaration order.
pub open spec fn sp_enum_decl(e: EnumV) -> Seq<char> {
    sp_derive_line() + "pub enum "@ + e.name_camel_case + " {\n"@ + sp_variant_lines(
        e.variants_camel_case,
        0,
    ) + "}\n"@
}

/// The impl block of an enumeration: one accessor per property, in
/// property order.
pub open spec fn sp_enum_impl(e: EnumV) -> Seq<char> {
    "impl "@ + e.name_camel_case + " {\n"@ + sp_accessors(e, e.properties, 0) + "}\n"@
}

/// Everything emitted for one enumeration.
pub open spec fn sp_render_enum(e: EnumV) -> Seq<char> {
    sp_enum_decl(e) + sp_enum_impl(e)
}

fn variant_lines(vs: &Vec<String>, i: usize, out: String) -> (r: String)
    requires
        i <= vs.len(),
    ensures
        r@ == out@ + sp_variant_lines(vs.deep_view(), i as int),
    decreases vs.len() - i,
{
    if i < vs.len() {
        let mut out = out;
        let ghost out0 = out@;
        out.append("    ");
        out.append(vs[i].as_str());
        out.append(",\n");
        let r = variant_lines(vs, i + 1, out);
        proof {
            assert(out0 + sp_variant_lines(vs.deep_view(), i as int)
                =~= out@ + sp_variant_lines(vs.deep_view(), i as int + 1));
        }
        r
    } else {
        proof {
            assert(out@ + sp_variant_lines(vs.deep_view(), i as int) =~= out@);
        }
        out
    }
}

/// The declaration of one enumeration.
pub fn generate_enum_body(e: &Enum) -> (r: String)
    ensures
        r@ == sp_enum_decl(e.deep_view()),
{
    let mut out =
        "#[derive(Copy, Clone, Debug, PartialEq, Eq, Hash, PartialOrd, Ord, ToPrimitive, FromPrimitive)]\n".to_owned();
    out.append("pub enum ");
    out.append(e.name_camel_case.as_str());
    out.append(" {\n");
    let mut out = variant_lines(&e.variants_camel_case, 0, out);
    out.append("}\n");
    proof {
        assert(out@ =~= sp_enum_decl(e.deep_view()));
    }
    out
}

/// The accessor functions of one enumeration.
pub fn generate_enum_functions(e: &Enum) -> (r: String)
    ensures
        r@ == sp_enum_impl(e.deep_view()),
{
    let mut out = "impl ".to_owned();
    out.append(e.name_camel_case.as_str());
    out.append(" {\n");
    let mut out = render_accessors(e, &e.properties, 0, out);
    out.append("}\n");
    proof {
        assert(out@ =~= sp_enum_impl(e.deep_view()));
    }
    out
}

/// Everything emitted for one enumeration: its declaration and its
/// accessors.
pub fn generate_enum(e: &Enum) -> (r: String)
    ensures
        r@ == sp_render_enum(e.deep_view()),
{
    let mut out = generate_enum_body(e);
    out.append(generate_enum_functions(e).as_str());
    out
}

// ---------------------------------------------------------------------------
// output units
// ---------------------------------------------------------------------------

/// The first index at or after `i` of the string `s`.
pub open spec fn sp_find_str(ss: Seq<Seq<char>>, s: Seq<char>, i: int) -> Option<int>
    decreases ss.len() - i,
{
    if !(0 <= i < ss.len()) {
        None
    } else if ss[i] == s {
        Some(i)
    } else {
        sp_find_str(ss, s, i + 1)
    }
}

/// The distinct grouping tags of the registry, in first-occurrence order.
pub open spec fn sp_tags(d: Seq<EnumV>, i: int, acc: Seq<Seq<char>>) -> Seq<Seq<char>>
    decreases d.len() - i,
{
    if 0 <= i < d.len() {
        sp_tags(
            d,
            i + 1,
            if sp_find_str(acc, d[i].file, 0) is Some {
                acc
            } else {
                acc.push(d[i].file)
            },
        )
    } else {
        acc
    }
}

/// The renderings of every enumeration grouped under `tag`, in registry
/// order.
pub open spec fn sp_unit_body(d: Seq<EnumV>, tag: Seq<char>, i: int) -> Seq<char>
    decreases d.len() - i,
{
    if 0 <= i < d.len() {
        if d[i].file == tag {
            sp_render_enum(d[i]) + sp_unit_body(d, tag, i + 1)
        } else {
            sp_unit_body(d, tag, i + 1)
        }
    } else {
        Seq::empty()
    }
}

/// The marker every generated unit begins with.
pub open spec fn sp_marker() -> Seq<char> {
    "// This file is @generated\n"@
}

/// One output unit per tag of `tags` from `j` on.
pub open spec fn sp_units(tags: Seq<Seq<char>>, d: Seq<EnumV>, j: int) -> Seq<GenUnitV>
    decreases tags.len() - j,
{
    if 0 <= j < tags.len() {
        seq![GenUnitV { name: tags[j], contents: sp_marker() + sp_unit_body(d, tags[j], 0) }]
            + sp_units(tags, d, j + 1)
    } else {
        Seq::empty()
    }
}

/// The manifest's module lines, one per tag.
pub open spec fn sp_manifest_body(tags: Seq<Seq<char>>, j: int) -> Seq<char>
    decreases tags.len() - j,
{
    if 0 <= j < tags.len() {
        "mod "@ + tags[j] + ";\npub use "@ + tags[j] + "::*;\n"@ + sp_manifest_body(tags, j + 1)
    } else {
        Seq::empty()
    }
}

/// Everything [`generate`] emits: one unit per distinct grouping tag, in
/// first-occurrence order, each opening with the generated-file marker and
/// holding its enumerations in registry order; then the manifest unit,
/// named `mod`, re-exporting every group.
pub open spec fn sp_generate(d: Seq<EnumV>) -> Seq<GenUnitV> {
    let tags = sp_tags(d, 0, Seq::empty());
    sp_units(tags, d, 0).push(
        GenUnitV { name: "mod"@, contents: sp_marker() + sp_manifest_body(tags, 0) },
    )
}

/// Ghost mirror of [`GenUnit`].
pub struct GenUnitV {
    pub name: Seq<char>,
    pub contents: Seq<char>,
}

/// One generated output unit: the name of the module it becomes, and its
/// source text.
pub struct GenUnit {
    pub name: String,
    pub contents: String,
}

impl DeepView for GenUnit {
    type V = GenUnitV;

    open spec fn deep_view(&self) -> GenUnitV {
        GenUnitV { name: self.name.deep_view(), contents: self.contents.deep_view() }
    }
}

fn find_str(ss: &Vec<String>, s: &String, i: usize) -> (r: Option<usize>)
    requires
        i <= ss.len(),
    ensures
        match r {
            Some(j) => sp_find_str(ss.deep_view(), s@, i as int) == Some(j as int),
            None => sp_find_str(ss.deep_view(), s@, i as int) is None,
        },
    decreases ss.len() - i,
{
    if i < ss.len() {
        if ss[i] == *s {
            Some(i)
        } else {
            find_str(ss, s, i + 1)
        }
    } else {
        None
    }
}

fn unit_body(d: &Vec<Enum>, tag: &String, i: usize, out: String) -> (r: String)
    requires
        i <= d.len(),
    ensures
        r@ == out@ + sp_unit_body(d.deep_view(), tag@, i as int),
    decreases d.len() - i,
{
    if i < d.len() {
        proof {
            assert(d.deep_view()[i as int] == d[i as int].deep_view());
        }
        let ghost out0 = out@;
        if d[i].file == *tag {
            let mut out = out;
            out.append(generate_enum(&d[i]).as_str());
            let r = unit_body(d, tag, i + 1, out);
            proof {
                assert(out0 + sp_unit_body(d.deep_view(), tag@, i as int)
                    =~= out@ + sp_unit_body(d.deep_view(), tag@, i as int + 1));
            }
            r
        } else {
            unit_body(d, tag, i + 1, out)
        }
    } else {
        proof {
            assert(out@ + sp_unit_body(d.deep_view(), tag@, i as int) =~= out@);
        }
        out
    }
}

/// Renders the whole registry: one source unit per grouping tag and the
/// manifest unit, exactly as [`sp_generate`] lays them out.  Generation is
/// a pure function of the registry; the caller writes the units to disk.
pub fn generate(data: &Data) -> (r: Vec<GenUnit>)
    ensures
        r.deep_view() == sp_generate(data.deep_view()),
{
    let ghost ddv = data.deep_view();
    let mut tags: Vec<String> = Vec::new();
    proof {
        assert(tags.deep_view() =~= Seq::<Seq<char>>::empty());
    }
    let mut i: usize = 0;
    while i < data.enums.len()
        invariant
            i <= data.enums.len(),
            ddv == data.deep_view(),
            sp_tags(ddv, 0, Seq::empty()) == sp_tags(ddv, i as int, tags.deep_view()),
        decreases data.enums.len() - i,
    {
        proof {
            assert(ddv[i as int] == data.enums[i as int].deep_view());
        }
        let ghost tags0 = tags;
        match find_str(&tags, &data.enums[i].file, 0) {
            Some(_) => (),
            None => {
                let t = data.enums[i].file.clone();
                tags.push(t);
                proof {
                    lemma_push_deep_view(tags0, tags, t);
                }
            },
        }
        i = i + 1;
    }
    let ghost tagsv = sp_tags(ddv, 0, Seq::empty());
    proof {
        assert(tags.deep_view() == tagsv);
    }

    let mut units: Vec<GenUnit> = Vec::new();
    proof {
        assert(units.deep_view() =~= Seq::<GenUnitV>::empty());
    }
    let mut j: usize = 0;
    while j < tags.len()
        invariant
            j <= tags.len(),
            ddv == data.deep_view(),
            tags.deep_view() == tagsv,
            units.deep_view().len() == j as int,
            forall|k: int| 0 <= k < j ==> units.deep_view()[k].name == tagsv[k]
                && units.deep_view()[k].contents == sp_marker() + sp_unit_body(ddv, tagsv[k], 0),
        decreases tags.len() - j,
    {
        let ghost units0 = units;
        let head = "// This file is @generated\n".to_owned();
        let contents = unit_body(&data.enums, &tags[j], 0, head);
        let u = GenUnit { name: tags[j].clone(), contents };
        units.push(u);
        proof {
            lemma_push_deep_view(units0, units, u);
        }
        j = j + 1;
    }

    let mut manifest = "// This file is @generated\n".to_owned();
    let ghost mhead = manifest@;
    let mut k: usize = 0;
    while k < tags.len()
        invariant
            k <= tags.len(),
            tags.deep_view() == tagsv,
            mhead == sp_marker(),
            mhead + sp_manifest_body(tagsv, 0) == manifest@ + sp_manifest_body(tagsv, k as int),
        decreases tags.len() - k,
    {
        let ghost m0 = manifest@;
        manifest.append("mod ");
        manifest.append(tags[k].as_str());
        manifest.append(";\npub use ");
        manifest.append(tags[k].as_str());
        manifest.append("::*;\n");
        proof {
            assert(mhead + sp_manifest_body(tagsv, 0)
                =~= manifest@ + sp_manifest_body(tagsv, k as int + 1));
        }
        k = k + 1;
    }
    let ghost units1 = units;
    let mu = GenUnit { name: "mod".to_owned(), contents: manifest };
    units.push(mu);
    proof {
        lemma_push_deep_view(units1, units, mu);
        assert(units.deep_view() =~= sp_generate(ddv)) by {
            let su = sp_units(tagsv, ddv, 0);
            lemma_sp_units(tagsv, ddv, 0);
            assert(units.deep_view().len() == sp_generate(ddv).len());
            assert forall|q: int| 0 <= q < units.deep_view().len()
                implies units.deep_view()[q] == sp_generate(ddv)[q] by {
                if q < su.len() {
                    assert(units1.deep_view()[q].name == tagsv[q]);
                }
            }
        };
    }
    units
}

/// `sp_units` lists one unit per remaining tag, in order.
proof fn lemma_sp_units(tags: Seq<Seq<char>>, d: Seq<EnumV>, j: int)
    requires
        0 <= j <= tags.len(),
    ensures
        sp_units(tags, d, j).len() == tags.len() - j,
        forall|k: int| j <= k < tags.len()
            ==> sp_units(tags, d, j)[k - j] == (GenUnitV {
                name: tags[k],
                contents: sp_marker() + sp_unit_body(d, tags[k], 0),
            }),
    decreases tags.len() - j,
{
    if j < tags.len() {
        lemma_sp_units(tags, d, j + 1);
    }
}

} // verus!
