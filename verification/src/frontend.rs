//! Aggregation of parsed declarations into a registry of enumerations.
//!
//! [`from_slice`] consumes an ordered set of definition files.  `Enum`
//! declarations upsert the registry by name: the variant list, identifier
//! forms and source-grouping tag are overwritten by the latest declaration,
//! while properties attached to the name keep accumulating — a deliberate,
//! documented asymmetry of the language.  `Property` declarations resolve
//! (or implicitly create) the target enumeration, expand one-or-many keys
//! into one pair per key, convert the raw literal under the declared type,
//! and insert the pairs into the property's mapping.  Declaring two
//! properties of one name on one enumeration is a fatal error, whichever
//! files they came from.  After all files are loaded a single expansion
//! pass resolves placeholders (see [`crate::expand`]).

use vstd::prelude::*;
use vstd::string::StringExecFns;
use heck::ToUpperCamelCase;
use crate::model::{Lit, LitV, Model, ModelV, ModelFile, Type, TypeV, VecOrOne,
    VecOrOneV, model_file_models, lemma_push_deep_view, lemma_remove_deep_view,
    lemma_insert_deep_view};
use crate::parse::{self, sp_file};

verus! {

broadcast use vstd::std_specs::vec::axiom_vec_index_decreases, vstd::seq::axiom_seq_index_decreases;

// ---------------------------------------------------------------------------
// identifier casing
// ---------------------------------------------------------------------------

/// The UpperCamelCase form of a name, as heck computes it.
pub uninterp spec fn camel_of(s: Seq<char>) -> Seq<char>;

/// Relies on heck's `to_upper_camel_case`: the UpperCamelCase conversion is
/// a function of the input characters alone.
#[verifier::external_body]
pub(crate) fn to_camel(s: &String) -> (r: String)
    ensures
        r@ == camel_of(s@),
{
    s.as_str().to_upper_camel_case()
}

/// The casing transform applied to every element of a sequence of names.
pub open spec fn camel_seq(vs: Seq<Seq<char>>) -> Seq<Seq<char>> {
    Seq::new(vs.len(), |i: int| camel_of(vs[i]))
}

pub(crate) fn camel_all(vs: &Vec<String>) -> (r: Vec<String>)
    ensures
        r.deep_view() == camel_seq(vs.deep_view()),
{
    let mut r: Vec<String> = Vec::new();
    let mut i: usize = 0;
    while i < vs.len()
        invariant
            i <= vs.len(),
            r.deep_view().len() == i as int,
            forall|k: int| 0 <= k < i ==> r.deep_view()[k] == camel_of(vs.deep_view()[k]),
        decreases vs.len() - i,
    {
        let ghost r0 = r;
        let c = to_camel(&vs[i]);
        let ghost cv = c@;
        r.push(c);
        proof {
            lemma_push_deep_view(r0, r, c);
            assert(r.deep_view()[i as int] == cv);
        }
        i = i + 1;
    }
    proof {
        assert(r.deep_view() =~= camel_seq(vs.deep_view()));
    }
    r
}

// ---------------------------------------------------------------------------
// values
// ---------------------------------------------------------------------------

/// Ghost mirror of [`Value`].
pub enum ValueV {
    U32(u32),
    F64(Seq<char>),
    Str(Seq<char>),
    Slice(Seq<ValueV>),
    Bool(bool),
    Custom(Seq<char>),
}

/// A literal checked against its property's declared type.
///
/// `F64` keeps the numeric literal's source text: floating-point values are
/// carried through to the generated source verbatim, never computed on.
/// `Custom` names a variant of another enumeration; it is resolved during
/// expansion, and emitted without further checking.
pub enum Value {
    U32(u32),
    F64(String),
    Str(String),
    Slice(Vec<Value>),
    Bool(bool),
    Custom(String),
}

/// The ghost mirror of a [`Value`].
pub open spec fn value_view(v: Value) -> ValueV
    decreases v, 1int,
{
    match v {
        Value::U32(x) => ValueV::U32(x),
        Value::F64(t) => ValueV::F64(t.deep_view()),
        Value::Str(s) => ValueV::Str(s.deep_view()),
        Value::Slice(items) => ValueV::Slice(value_views(items, 0)),
        Value::Bool(b) => ValueV::Bool(b),
        Value::Custom(s) => ValueV::Custom(s.deep_view()),
    }
}

/// The ghost mirrors of the values of `items` from index `i` on.
pub open spec fn value_views(items: Vec<Value>, i: int) -> Seq<ValueV>
    decreases items, items.len() - i,
{
    if 0 <= i < items.len() {
        seq![value_view(items[i])] + value_views(items, i + 1)
    } else {
        Seq::empty()
    }
}

pub proof fn lemma_value_views(items: Vec<Value>, i: int)
    requires
        0 <= i <= items.len(),
    ensures
        value_views(items, i).len() == items.len() - i,
        forall|k: int| i <= k < items.len()
            ==> value_views(items, i)[k - i] == value_view(items[k]),
    decreases items.len() - i,
{
    if i < items.len() {
        lemma_value_views(items, i + 1);
    }
}

/// From the front, `value_views` is exactly the deep view of the vector.
pub proof fn lemma_value_views_is_deep_view(items: Vec<Value>)
    ensures
        value_views(items, 0) == items.deep_view(),
{
    lemma_value_views(items, 0);
    assert(value_views(items, 0) =~= items.deep_view());
}

impl DeepView for Value {
    type V = ValueV;

    open spec fn deep_view(&self) -> ValueV {
        value_view(*self)
    }
}

impl Value {
    /// A structurally equal copy.
    pub fn dup(&self) -> (r: Value)
        ensures
            r.deep_view() == self.deep_view(),
        decreases self, 1int,
    {
        match self {
            Value::U32(x) => Value::U32(*x),
            Value::F64(t) => Value::F64(t.clone()),
            Value::Str(s) => Value::Str(s.clone()),
            Value::Slice(items) => {
                let copy = dup_values(items, 0, Vec::new());
                proof {
                    lemma_value_views_is_deep_view(copy);
                    assert(Seq::<ValueV>::empty() + value_views(*items, 0)
                        =~= value_views(*items, 0));
                }
                Value::Slice(copy)
            },
            Value::Bool(b) => Value::Bool(*b),
            Value::Custom(s) => Value::Custom(s.clone()),
        }
    }
}

fn dup_values(items: &Vec<Value>, i: usize, acc: Vec<Value>) -> (r: Vec<Value>)
    requires
        i <= items.len(),
    ensures
        r.deep_view() == acc.deep_view() + value_views(*items, i as int),
    decreases *items, items.len() - i,
{
    if i < items.len() {
        let ghost acc0 = acc;
        let mut acc = acc;
        let x = items[i].dup();
        acc.push(x);
        proof {
            lemma_push_deep_view(acc0, acc, x);
        }
        let r = dup_values(items, i + 1, acc);
        proof {
            assert(acc0.deep_view() + value_views(*items, i as int)
                =~= acc.deep_view() + value_views(*items, i as int + 1));
        }
        r
    } else {
        proof {
            assert(acc.deep_view() + value_views(*items, i as int) =~= acc.deep_view());
        }
        acc
    }
}

/// An elementwise copy of a mapping.
pub(crate) fn dup_mapping(m: &Vec<(String, Value)>) -> (r: Vec<(String, Value)>)
    ensures
        r.deep_view() == m.deep_view(),
{
    let mut r: Vec<(String, Value)> = Vec::new();
    let mut i: usize = 0;
    while i < m.len()
        invariant
            i <= m.len(),
            r.deep_view().len() == i as int,
            forall|k: int| 0 <= k < i ==> r.deep_view()[k] == m.deep_view()[k],
        decreases m.len() - i,
    {
        let ghost r0 = r;
        let pair = (m[i].0.clone(), m[i].1.dup());
        r.push(pair);
        proof {
            lemma_push_deep_view(r0, r, pair);
            assert(m.deep_view()[i as int] == m[i as int].deep_view());
        }
        i = i + 1;
    }
    proof {
        assert(r.deep_view() =~= m.deep_view());
    }
    r
}

// ---------------------------------------------------------------------------
// literal conversion
// ---------------------------------------------------------------------------

/// Conversion of a raw literal under a declared type, `None` on a shape
/// that cannot satisfy the type:
/// - a numeric literal under `u32` is the rounded unsigned value, and under
///   `f64` its source text;
/// - a string literal under `string` is a string value, and under any other
///   type a reference to a variant of another enumeration;
/// - a boolean literal is a boolean value;
/// - a sequence literal under `slice<T>` converts its elements under `T`.
pub open spec fn sp_value_of_lit(l: LitV, t: TypeV) -> Option<ValueV>
    decreases l, 0int, 1int,
{
    match l {
        LitV::Num { text, rounded } => match t {
            TypeV::U32 => Some(ValueV::U32(rounded)),
            TypeV::F64 => Some(ValueV::F64(text)),
            _ => None,
        },
        LitV::Str(s) => if t == TypeV::Str {
            Some(ValueV::Str(s))
        } else {
            Some(ValueV::Custom(s))
        },
        LitV::Bool(b) => Some(ValueV::Bool(b)),
        LitV::List(items) => match t {
            TypeV::Slice(inner) => match sp_values_of_lits(items, *inner, 0, Seq::empty()) {
                Some(vs) => Some(ValueV::Slice(vs)),
                None => None,
            },
            _ => None,
        },
    }
}

/// Elementwise conversion of the literals of `ls` from index `i` on,
/// appended to `acc`.
pub open spec fn sp_values_of_lits(ls: Seq<LitV>, t: TypeV, i: int, acc: Seq<ValueV>) -> Option<
    Seq<ValueV>,
>
    decreases ls, ls.len() - i, 0int,
{
    if 0 <= i < ls.len() {
        match sp_value_of_lit(ls[i], t) {
            Some(v) => sp_values_of_lits(ls, t, i + 1, acc.push(v)),
            None => None,
        }
    } else {
        Some(acc)
    }
}

impl Value {
    /// Converts a raw literal under the declared type `t`, by the rules of
    /// [`sp_value_of_lit`]; fails exactly when the literal's shape cannot
    /// satisfy the type.
    pub fn from_lit(l: &Lit, t: &Type) -> (r: Result<Value, ErrorKind>)
        ensures
            match r {
                Ok(v) => sp_value_of_lit(l.deep_view(), t.deep_view()) == Some(v.deep_view()),
                Err(e) => sp_value_of_lit(l.deep_view(), t.deep_view()) is None
                    && e is TypeMismatch,
            },
        decreases l, 0int, 1int,
    {
        match l {
            Lit::Num { text, rounded } => match t {
                Type::U32 => Ok(Value::U32(*rounded)),
                Type::F64 => Ok(Value::F64(text.clone())),
                _ => Err(ErrorKind::TypeMismatch),
            },
            Lit::Str(s) => match t {
                Type::Str => Ok(Value::Str(s.clone())),
                _ => Ok(Value::Custom(s.clone())),
            },
            Lit::Bool(b) => Ok(Value::Bool(*b)),
            Lit::List(items) => match t {
                Type::Slice(inner) => {
                    let acc: Vec<Value> = Vec::new();
                    proof {
                        crate::model::lemma_lit_views_is_deep_view(*items);
                        assert(acc.deep_view() =~= Seq::<ValueV>::empty());
                    }
                    match values_from_lits(items, inner, 0, acc) {
                        Ok(vs) => {
                            proof {
                                lemma_value_views_is_deep_view(vs);
                            }
                            Ok(Value::Slice(vs))
                        },
                        Err(e) => Err(e),
                    }
                },
                _ => Err(ErrorKind::TypeMismatch),
            },
        }
    }
}

fn values_from_lits(ls: &Vec<Lit>, t: &Type, i: usize, acc: Vec<Value>) -> (r: Result<
    Vec<Value>,
    ErrorKind,
>)
    requires
        i <= ls.len(),
    ensures
        match r {
            Ok(vs) => sp_values_of_lits(ls.deep_view(), t.deep_view(), i as int, acc.deep_view())
                == Some(vs.deep_view()),
            Err(e) => sp_values_of_lits(ls.deep_view(), t.deep_view(), i as int, acc.deep_view())
                is None && e is TypeMismatch,
        },
    decreases *ls, ls.len() - i, 0int,
{
    if i < ls.len() {
        proof {
            assert(ls.deep_view()[i as int] == ls[i as int].deep_view());
        }
        match Value::from_lit(&ls[i], t) {
            Ok(v) => {
                let ghost acc0 = acc;
                let mut acc = acc;
                acc.push(v);
                proof {
                    lemma_push_deep_view(acc0, acc, v);
                }
                values_from_lits(ls, t, i + 1, acc)
            },
            Err(e) => Err(e),
        }
    } else {
        Ok(acc)
    }
}

// ---------------------------------------------------------------------------
// the registry
// ---------------------------------------------------------------------------

/// Ghost mirror of [`Property`].
pub struct PropertyV {
    pub name: Seq<char>,
    pub typ: TypeV,
    pub mapping: Seq<(Seq<char>, ValueV)>,
}

/// A named, typed, per-variant lookup table attached to an enumeration.
/// The mapping runs from variant names to checked values, in insertion
/// order, with no key twice.
pub struct Property {
    pub name: String,
    pub typ: Type,
    pub mapping: Vec<(String, Value)>,
}

impl DeepView for Property {
    type V = PropertyV;

    open spec fn deep_view(&self) -> PropertyV {
        PropertyV {
            name: self.name.deep_view(),
            typ: self.typ.deep_view(),
            mapping: self.mapping.deep_view(),
        }
    }
}

impl Property {
    /// A structurally equal copy.
    pub fn dup(&self) -> (r: Property)
        ensures
            r.deep_view() == self.deep_view(),
    {
        Property {
            name: self.name.clone(),
            typ: self.typ.dup(),
            mapping: dup_mapping(&self.mapping),
        }
    }
}

/// An elementwise copy of a vector of properties.
pub(crate) fn dup_properties(ps: &Vec<Property>) -> (r: Vec<Property>)
    ensures
        r.deep_view() == ps.deep_view(),
{
    let mut r: Vec<Property> = Vec::new();
    let mut i: usize = 0;
    while i < ps.len()
        invariant
            i <= ps.len(),
            r.deep_view().len() == i as int,
            forall|k: int| 0 <= k < i ==> r.deep_view()[k] == ps.deep_view()[k],
        decreases ps.len() - i,
    {
        let ghost r0 = r;
        let p = ps[i].dup();
        r.push(p);
        proof {
            lemma_push_deep_view(r0, r, p);
            assert(ps.deep_view()[i as int] == ps[i as int].deep_view());
        }
        i = i + 1;
    }
    proof {
        assert(r.deep_view() =~= ps.deep_view());
    }
    r
}

/// Ghost mirror of [`Enum`].
pub struct EnumV {
    pub name: Seq<char>,
    pub name_camel_case: Seq<char>,
    pub variants: Seq<Seq<char>>,
    pub variants_camel_case: Seq<Seq<char>>,
    pub properties: Seq<PropertyV>,
    pub file: Seq<char>,
}

/// One enumeration of the registry: its name and identifier form, its
/// ordered variant names with their identifier forms, its properties in
/// declaration order, and the source-grouping tag naming the output unit
/// it belongs to.
pub struct Enum {
    pub name: String,
    pub name_camel_case: String,
    pub variants: Vec<String>,
    pub variants_camel_case: Vec<String>,
    pub properties: Vec<Property>,
    pub file: String,
}

impl DeepView for Enum {
    type V = EnumV;

    open spec fn deep_view(&self) -> EnumV {
        EnumV {
            name: self.name.deep_view(),
            name_camel_case: self.name_camel_case.deep_view(),
            variants: self.variants.deep_view(),
            variants_camel_case: self.variants_camel_case.deep_view(),
            properties: self.properties.deep_view(),
            file: self.file.deep_view(),
        }
    }
}

/// The registry: every enumeration, in first-declaration order, each name
/// at most once.
pub struct Data {
    pub enums: Vec<Enum>,
}

impl DeepView for Data {
    type V = Seq<EnumV>;

    open spec fn deep_view(&self) -> Seq<EnumV> {
        self.enums.deep_view()
    }
}

/// One definition file handed to the aggregator: its text and the logical
/// source name that becomes the grouping tag of the enums it declares.
pub struct DataFile {
    pub contents: String,
    pub name: String,
}

/// Ghost mirror of [`DataFile`].
pub struct DataFileV {
    pub contents: Seq<char>,
    pub name: Seq<char>,
}

impl DeepView for DataFile {
    type V = DataFileV;

    open spec fn deep_view(&self) -> DataFileV {
        DataFileV { contents: self.contents.deep_view(), name: self.name.deep_view() }
    }
}

// ---------------------------------------------------------------------------
// errors
// ---------------------------------------------------------------------------

/// Ghost mirror of [`ErrorKind`]; a parse error's position is abstracted
/// away.
pub enum ErrorKindV {
    Parse,
    TypeMismatch,
    DuplicateProperty(Seq<char>),
    UnknownEnumReference(Seq<char>),
}

/// What went wrong: malformed declaration text, a literal whose shape does
/// not fit its declared type, one property name declared twice on one
/// enumeration, or a placeholder naming an enumeration the registry does
/// not hold.
#[derive(Debug)]
pub enum ErrorKind {
    Parse { pos: usize },
    TypeMismatch,
    DuplicateProperty { name: String },
    UnknownEnumReference { name: String },
}

impl DeepView for ErrorKind {
    type V = ErrorKindV;

    open spec fn deep_view(&self) -> ErrorKindV {
        match self {
            ErrorKind::Parse { .. } => ErrorKindV::Parse,
            ErrorKind::TypeMismatch => ErrorKindV::TypeMismatch,
            ErrorKind::DuplicateProperty { name } => ErrorKindV::DuplicateProperty(
                name.deep_view(),
            ),
            ErrorKind::UnknownEnumReference { name } => ErrorKindV::UnknownEnumReference(
                name.deep_view(),
            ),
        }
    }
}

/// Ghost mirror of [`CompileError`].
pub struct CompileErrorV {
    pub file: Option<Seq<char>>,
    pub kind: ErrorKindV,
}

/// An error of the whole compilation, carrying the logical name of the
/// offending file where one is to blame.
#[derive(Debug)]
pub struct CompileError {
    pub file: Option<String>,
    pub kind: ErrorKind,
}

impl DeepView for CompileError {
    type V = CompileErrorV;

    open spec fn deep_view(&self) -> CompileErrorV {
        CompileErrorV { file: self.file.deep_view(), kind: self.kind.deep_view() }
    }
}

// ---------------------------------------------------------------------------
// lookups
// ---------------------------------------------------------------------------

/// The first index at or after `i` of the enumeration named `name`.
pub open spec fn sp_find_enum(d: Seq<EnumV>, name: Seq<char>, i: int) -> Option<int>
    decreases d.len() - i,
{
    if !(0 <= i < d.len()) {
        None
    } else if d[i].name == name {
        Some(i)
    } else {
        sp_find_enum(d, name, i + 1)
    }
}

/// The first index at or after `i` of the property named `name`.
pub open spec fn sp_find_prop(ps: Seq<PropertyV>, name: Seq<char>, i: int) -> Option<int>
    decreases ps.len() - i,
{
    if !(0 <= i < ps.len()) {
        None
    } else if ps[i].name == name {
        Some(i)
    } else {
        sp_find_prop(ps, name, i + 1)
    }
}

/// The first index at or after `i` of the mapping key `k`.
pub open spec fn sp_find_key(m: Seq<(Seq<char>, ValueV)>, k: Seq<char>, i: int) -> Option<int>
    decreases m.len() - i,
{
    if !(0 <= i < m.len()) {
        None
    } else if m[i].0 == k {
        Some(i)
    } else {
        sp_find_key(m, k, i + 1)
    }
}

pub(crate) fn find_enum(enums: &Vec<Enum>, name: &String, i: usize) -> (r: Option<usize>)
    requires
        i <= enums.len(),
    ensures
        match r {
            Some(j) => sp_find_enum(enums.deep_view(), name@, i as int) == Some(j as int)
                && i <= j < enums.len(),
            None => sp_find_enum(enums.deep_view(), name@, i as int) is None,
        },
    decreases enums.len() - i,
{
    if i < enums.len() {
        if enums[i].name == *name {
            Some(i)
        } else {
            find_enum(enums, name, i + 1)
        }
    } else {
        None
    }
}

fn find_prop(ps: &Vec<Property>, name: &String, i: usize) -> (r: Option<usize>)
    requires
        i <= ps.len(),
    ensures
        match r {
            Some(j) => sp_find_prop(ps.deep_view(), name@, i as int) == Some(j as int)
                && i <= j < ps.len(),
            None => sp_find_prop(ps.deep_view(), name@, i as int) is None,
        },
    decreases ps.len() - i,
{
    if i < ps.len() {
        if ps[i].name == *name {
            Some(i)
        } else {
            find_prop(ps, name, i + 1)
        }
    } else {
        None
    }
}

fn find_key(m: &Vec<(String, Value)>, k: &String, i: usize) -> (r: Option<usize>)
    requires
        i <= m.len(),
    ensures
        match r {
            Some(j) => sp_find_key(m.deep_view(), k@, i as int) == Some(j as int)
                && i <= j < m.len(),
            None => sp_find_key(m.deep_view(), k@, i as int) is None,
        },
    decreases m.len() - i,
{
    if i < m.len() {
        if m[i].0 == *k {
            Some(i)
        } else {
            find_key(m, k, i + 1)
        }
    } else {
        None
    }
}

// ---------------------------------------------------------------------------
// building property mappings
// ---------------------------------------------------------------------------

/// Insertion into a mapping: an existing key's value is replaced in place,
/// a new key is appended.
pub open spec fn sp_map_insert(
    m: Seq<(Seq<char>, ValueV)>,
    k: Seq<char>,
    v: ValueV,
) -> Seq<(Seq<char>, ValueV)> {
    match sp_find_key(m, k, 0) {
        Some(i) => m.update(i, (k, v)),
        None => m.push((k, v)),
    }
}

/// The variant names a mapping key stands for, in order.
pub open spec fn keys_of(k: VecOrOneV<Seq<char>>) -> Seq<Seq<char>> {
    match k {
        VecOrOneV::Many(ks) => ks,
        VecOrOneV::One(one) => seq![one],
    }
}

/// Insertion of `(k, v)` for every key of `ks` from index `j` on.
pub open spec fn sp_insert_keys(
    acc: Seq<(Seq<char>, ValueV)>,
    ks: Seq<Seq<char>>,
    j: int,
    v: ValueV,
) -> Seq<(Seq<char>, ValueV)>
    decreases ks.len() - j,
{
    if 0 <= j < ks.len() {
        sp_insert_keys(sp_map_insert(acc, ks[j], v), ks, j + 1, v)
    } else {
        acc
    }
}

/// The mapping a property declaration denotes: each entry's literal is
/// converted under the declared type, the shorthand one-or-many keys are
/// expanded into one pair per key, and the pairs are inserted in order.
/// `None` on the first literal whose shape cannot satisfy the type.
pub open spec fn sp_add_entries(
    entries: Seq<(VecOrOneV<Seq<char>>, LitV)>,
    t: TypeV,
    i: int,
    acc: Seq<(Seq<char>, ValueV)>,
) -> Option<Seq<(Seq<char>, ValueV)>>
    decreases entries.len() - i,
{
    if 0 <= i < entries.len() {
        match sp_value_of_lit(entries[i].1, t) {
            Some(v) => sp_add_entries(entries, t, i + 1, sp_insert_keys(acc, keys_of(entries[i].0), 0, v)),
            None => None,
        }
    } else {
        Some(acc)
    }
}

pub(crate) fn map_insert(m: Vec<(String, Value)>, k: String, v: Value) -> (r: Vec<(String, Value)>)
    ensures
        r.deep_view() == sp_map_insert(m.deep_view(), k@, v.deep_view()),
{
    match find_key(&m, &k, 0) {
        Some(i) => {
            let ghost m0 = m;
            let mut m = m;
            let _old = m.remove(i);
            let ghost m1 = m;
            m.insert(i, (k, v));
            proof {
                lemma_remove_deep_view(m0, m1, i as int);
                lemma_insert_deep_view(m1, m, i as int, (k, v));
                assert(m.deep_view() =~= m0.deep_view().update(i as int, (k@, v.deep_view())));
            }
            m
        },
        None => {
            let ghost m0 = m;
            let mut m = m;
            m.push((k, v));
            proof {
                lemma_push_deep_view(m0, m, (k, v));
            }
            m
        },
    }
}

fn insert_many(acc: Vec<(String, Value)>, ks: &Vec<String>, j: usize, v: &Value) -> (r: Vec<
    (String, Value),
>)
    requires
        j <= ks.len(),
    ensures
        r.deep_view() == sp_insert_keys(acc.deep_view(), ks.deep_view(), j as int, v.deep_view()),
    decreases ks.len() - j,
{
    if j < ks.len() {
        let k = ks[j].clone();
        let acc2 = map_insert(acc, k, v.dup());
        insert_many(acc2, ks, j + 1, v)
    } else {
        acc
    }
}

fn insert_keys(acc: Vec<(String, Value)>, key: &VecOrOne<String>, v: Value) -> (r: Vec<
    (String, Value),
>)
    ensures
        r.deep_view() == sp_insert_keys(
            acc.deep_view(),
            keys_of(key.deep_view()),
            0,
            v.deep_view(),
        ),
{
    match key {
        VecOrOne::One(k) => {
            let ghost accv = acc.deep_view();
            let ghost kv = k@;
            let ghost vv = v.deep_view();
            let r = map_insert(acc, k.clone(), v);
            proof {
                assert(keys_of(key.deep_view()) =~= seq![kv]);
                assert(sp_insert_keys(accv, seq![kv], 0, vv)
                    == sp_insert_keys(sp_map_insert(accv, kv, vv), seq![kv], 1, vv));
            }
            r
        },
        VecOrOne::Many(ks) => insert_many(acc, ks, 0, &v),
    }
}

fn build_mapping(entries: &Vec<(VecOrOne<String>, Lit)>, t: &Type, i: usize, acc: Vec<
    (String, Value),
>) -> (r: Result<Vec<(String, Value)>, ErrorKind>)
    requires
        i <= entries.len(),
    ensures
        match r {
            Ok(m) => sp_add_entries(entries.deep_view(), t.deep_view(), i as int, acc.deep_view())
                == Some(m.deep_view()),
            Err(e) => sp_add_entries(entries.deep_view(), t.deep_view(), i as int, acc.deep_view())
                is None && e is TypeMismatch,
        },
    decreases entries.len() - i,
{
    if i < entries.len() {
        proof {
            assert(entries.deep_view()[i as int] == entries[i as int].deep_view());
        }
        match Value::from_lit(&entries[i].1, t) {
            Ok(v) => {
                let acc2 = insert_keys(acc, &entries[i].0, v);
                build_mapping(entries, t, i + 1, acc2)
            },
            Err(e) => Err(e),
        }
    } else {
        Ok(acc)
    }
}

// ---------------------------------------------------------------------------
// applying declarations
// ---------------------------------------------------------------------------

/// The upsert an `Enum` declaration performs: the variant list, both
/// identifier forms and the grouping tag are overwritten, while an already
/// known enumeration keeps its accumulated properties.
pub open spec fn sp_apply_enum(
    d: Seq<EnumV>,
    name: Seq<char>,
    variants: Seq<Seq<char>>,
    file: Seq<char>,
) -> Seq<EnumV> {
    let e = EnumV {
        name: name,
        name_camel_case: camel_of(name),
        variants: variants,
        variants_camel_case: camel_seq(variants),
        properties: Seq::empty(),
        file: file,
    };
    match sp_find_enum(d, name, 0) {
        Some(i) => d.update(
            i,
            EnumV { properties: d[i].properties, ..e },
        ),
        None => d.push(e),
    }
}

/// The insertion a `Property` declaration performs.  The target
/// enumeration is created, empty and grouped under no file, when the
/// registry does not hold it yet; a second property of one name on one
/// enumeration is refused.
pub open spec fn sp_add_property(
    d: Seq<EnumV>,
    on: Seq<char>,
    name: Seq<char>,
    typ: TypeV,
    mapping: Seq<(Seq<char>, ValueV)>,
) -> Result<Seq<EnumV>, ErrorKindV> {
    let p = PropertyV { name: name, typ: typ, mapping: mapping };
    match sp_find_enum(d, on, 0) {
        Some(i) => if sp_find_prop(d[i].properties, name, 0) is Some {
            Err(ErrorKindV::DuplicateProperty(name))
        } else {
            Ok(d.update(i, EnumV { properties: d[i].properties.push(p), ..d[i] }))
        },
        None => Ok(
            d.push(
                EnumV {
                    name: on,
                    name_camel_case: camel_of(on),
                    variants: Seq::empty(),
                    variants_camel_case: Seq::empty(),
                    properties: seq![p],
                    file: Seq::empty(),
                },
            ),
        ),
    }
}

/// What one declaration does to the registry.
pub open spec fn sp_add_model(d: Seq<EnumV>, m: ModelV, file: Seq<char>) -> Result<
    Seq<EnumV>,
    ErrorKindV,
> {
    match m {
        ModelV::Enum { name, variants } => Ok(sp_apply_enum(d, name, variants, file)),
        ModelV::Property { on, name, typ, mapping } => match sp_add_entries(
            mapping, typ, 0, Seq::empty(),
        ) {
            Some(kvs) => sp_add_property(d, on, name, typ, kvs),
            None => Err(ErrorKindV::TypeMismatch),
        },
    }
}

/// What a file's declarations, applied in order, do to the registry;
/// the first error aborts.
pub open spec fn sp_load_models(d: Seq<EnumV>, ms: Seq<ModelV>, file: Seq<char>) -> Result<
    Seq<EnumV>,
    ErrorKindV,
>
    decreases ms.len(),
{
    if ms.len() == 0 {
        Ok(d)
    } else {
        match sp_add_model(d, ms[0], file) {
            Ok(d2) => sp_load_models(d2, ms.drop_first(), file),
            Err(e) => Err(e),
        }
    }
}

/// What one definition file does to the registry: parse, then apply each
/// declaration in order.
pub open spec fn sp_add_file(d: Seq<EnumV>, contents: Seq<char>, file: Seq<char>) -> Result<
    Seq<EnumV>,
    ErrorKindV,
> {
    match sp_file(contents) {
        Some(mf) => sp_load_models(d, model_file_models(mf), file),
        None => Err(ErrorKindV::Parse),
    }
}

fn apply_enum(data: &mut Data, name: String, variants: Vec<String>, file: &String)
    ensures
        final(data).deep_view() == sp_apply_enum(
            old(data).deep_view(),
            name@,
            variants.deep_view(),
            file@,
        ),
{
    let name_camel_case = to_camel(&name);
    let variants_camel_case = camel_all(&variants);
    match find_enum(&data.enums, &name, 0) {
        Some(i) => {
            let ghost v0 = data.enums;
            let e = data.enums.remove(i);
            let ghost v1 = data.enums;
            let e2 = Enum {
                name,
                name_camel_case,
                variants,
                variants_camel_case,
                properties: e.properties,
                file: file.clone(),
            };
            data.enums.insert(i, e2);
            proof {
                lemma_remove_deep_view(v0, v1, i as int);
                lemma_insert_deep_view(v1, data.enums, i as int, e2);
                assert(data.enums.deep_view() =~= sp_apply_enum(
                    v0.deep_view(),
                    name@,
                    variants.deep_view(),
                    file@,
                ));
            }
        },
        None => {
            let ghost v0 = data.enums;
            let e2 = Enum {
                name,
                name_camel_case,
                variants,
                variants_camel_case,
                properties: Vec::new(),
                file: file.clone(),
            };
            data.enums.push(e2);
            proof {
                lemma_push_deep_view(v0, data.enums, e2);
                assert(e2.deep_view().properties =~= Seq::<PropertyV>::empty());
            }
        },
    }
}

fn add_property(data: &mut Data, on: String, name: String, typ: Type, mapping: Vec<
    (String, Value),
>) -> (r: Result<(), ErrorKind>)
    ensures
        match r {
            Ok(()) => sp_add_property(
                old(data).deep_view(),
                on@,
                name@,
                typ.deep_view(),
                mapping.deep_view(),
            ) == Ok::<Seq<EnumV>, ErrorKindV>(final(data).deep_view()),
            Err(e) => sp_add_property(
                old(data).deep_view(),
                on@,
                name@,
                typ.deep_view(),
                mapping.deep_view(),
            ) == Err::<Seq<EnumV>, ErrorKindV>(e.deep_view()),
        },
{
    let ghost pv = PropertyV { name: name@, typ: typ.deep_view(), mapping: mapping.deep_view() };
    match find_enum(&data.enums, &on, 0) {
        Some(i) => {
            if find_prop(&data.enums[i].properties, &name, 0).is_some() {
                Err(ErrorKind::DuplicateProperty { name })
            } else {
                let ghost v0 = data.enums;
                let mut e = data.enums.remove(i);
                let ghost v1 = data.enums;
                let ghost ps0 = e.properties;
                let p = Property { name, typ, mapping };
                e.properties.push(p);
                proof {
                    lemma_push_deep_view(ps0, e.properties, p);
                }
                data.enums.insert(i, e);
                proof {
                    lemma_remove_deep_view(v0, v1, i as int);
                    lemma_insert_deep_view(v1, data.enums, i as int, e);
                    assert(data.enums.deep_view() =~= v0.deep_view().update(
                        i as int,
                        EnumV { properties: v0.deep_view()[i as int].properties.push(pv), ..v0.deep_view()[i as int] },
                    ));
                }
                Ok(())
            }
        },
        None => {
            let ghost v0 = data.enums;
            let camel = to_camel(&on);
            let mut properties: Vec<Property> = Vec::new();
            properties.push(Property { name, typ, mapping });
            let e2 = Enum {
                name: on,
                name_camel_case: camel,
                variants: Vec::new(),
                variants_camel_case: Vec::new(),
                properties,
                file: String::new(),
            };
            data.enums.push(e2);
            proof {
                lemma_push_deep_view(v0, data.enums, e2);
                assert(e2.deep_view().properties =~= seq![pv]);
                assert(e2.deep_view().variants =~= Seq::<Seq<char>>::empty());
                assert(e2.deep_view().variants_camel_case =~= Seq::<Seq<char>>::empty());
                assert(e2.deep_view().file =~= Seq::<char>::empty());
            }
            Ok(())
        },
    }
}

fn add_model(data: &mut Data, m: Model, file: &String) -> (r: Result<(), ErrorKind>)
    ensures
        match r {
            Ok(()) => sp_add_model(old(data).deep_view(), m.deep_view(), file@)
                == Ok::<Seq<EnumV>, ErrorKindV>(final(data).deep_view()),
            Err(e) => sp_add_model(old(data).deep_view(), m.deep_view(), file@)
                == Err::<Seq<EnumV>, ErrorKindV>(e.deep_view()),
        },
{
    match m {
        Model::Enum { name, variants } => {
            apply_enum(data, name, variants, file);
            Ok(())
        },
        Model::Property { on, name, typ, mapping } => {
            let acc: Vec<(String, Value)> = Vec::new();
            proof {
                assert(acc.deep_view() =~= Seq::<(Seq<char>, ValueV)>::empty());
            }
            match build_mapping(&mapping, &typ, 0, acc) {
                Ok(kvs) => add_property(data, on, name, typ, kvs),
                Err(e) => Err(e),
            }
        },
    }
}

fn add_models(data: &mut Data, ms: Vec<Model>, file: &String) -> (r: Result<(), ErrorKind>)
    ensures
        match r {
            Ok(()) => sp_load_models(old(data).deep_view(), ms.deep_view(), file@)
                == Ok::<Seq<EnumV>, ErrorKindV>(final(data).deep_view()),
            Err(e) => sp_load_models(old(data).deep_view(), ms.deep_view(), file@)
                == Err::<Seq<EnumV>, ErrorKindV>(e.deep_view()),
        },
    decreases ms.len(),
{
    if ms.len() == 0 {
        Ok(())
    } else {
        let ghost ms0 = ms;
        let mut ms = ms;
        let m = ms.remove(0);
        proof {
            lemma_remove_deep_view(ms0, ms, 0);
            assert(ms.deep_view() =~= ms0.deep_view().drop_first());
            assert(ms0.deep_view()[0] == m.deep_view());
        }
        match add_model(data, m, file) {
            Ok(()) => add_models(data, ms, file),
            Err(e) => Err(e),
        }
    }
}

/// Loads one definition file into the registry: parses `file` and applies
/// its declarations in order, stopping at the first error.  On an error
/// the registry may be left partially updated; the caller discards it.
pub fn add_to_data(file: &str, file_name: &str, data: &mut Data) -> (r: Result<(), ErrorKind>)
    ensures
        match r {
            Ok(()) => sp_add_file(old(data).deep_view(), file@, file_name@)
                == Ok::<Seq<EnumV>, ErrorKindV>(final(data).deep_view()),
            Err(e) => sp_add_file(old(data).deep_view(), file@, file_name@)
                == Err::<Seq<EnumV>, ErrorKindV>(e.deep_view()),
        },
{
    let name = file_name.to_owned();
    match parse::from_str(file) {
        Ok(ModelFile::Single(m)) => {
            let ghost d0 = data.deep_view();
            let ghost mv = m.deep_view();
            let r = add_model(data, m, &name);
            proof {
                assert(seq![mv].drop_first() =~= Seq::<ModelV>::empty());
                assert(sp_load_models(d0, seq![mv], name@) == match sp_add_model(d0, mv, name@) {
                    Ok(d2) => sp_load_models(d2, seq![mv].drop_first(), name@),
                    Err(e) => Err(e),
                });
            }
            r
        },
        Ok(ModelFile::Multiple(ms)) => add_models(data, ms, &name),
        Err(pe) => Err(ErrorKind::Parse { pos: pe.pos }),
    }
}

/// What loading files from index `i` on does to the registry; the first
/// error aborts, wrapped with the offending file's name.
pub open spec fn sp_load_files(files: Seq<DataFileV>, i: int, d: Seq<EnumV>) -> Result<
    Seq<EnumV>,
    CompileErrorV,
>
    decreases files.len() - i,
{
    if 0 <= i < files.len() {
        match sp_add_file(d, files[i].contents, files[i].name) {
            Ok(d2) => sp_load_files(files, i + 1, d2),
            Err(k) => Err(CompileErrorV { file: Some(files[i].name), kind: k }),
        }
    } else {
        Ok(d)
    }
}

/// The whole frontend: every file loaded in order, then the expansion pass.
pub open spec fn sp_from_slice(files: Seq<DataFileV>) -> Result<Seq<EnumV>, CompileErrorV> {
    match sp_load_files(files, 0, Seq::empty()) {
        Ok(d) => match crate::expand::sp_expand_data(d) {
            Ok(d2) => Ok(d2),
            Err(k) => Err(CompileErrorV { file: None, kind: k }),
        },
        Err(e) => Err(e),
    }
}

fn load_files(files: &[DataFile], i: usize, data: Data) -> (r: Result<Data, CompileError>)
    requires
        i <= files@.len(),
    ensures
        match r {
            Ok(d) => sp_load_files(files.deep_view(), i as int, data.deep_view())
                == Ok::<Seq<EnumV>, CompileErrorV>(d.deep_view()),
            Err(e) => sp_load_files(files.deep_view(), i as int, data.deep_view())
                == Err::<Seq<EnumV>, CompileErrorV>(e.deep_view()),
        },
    decreases files@.len() - i,
{
    if i < files.len() {
        proof {
            assert(files.deep_view()[i as int] == files@[i as int].deep_view());
        }
        let mut data = data;
        let f = &files[i];
        match add_to_data(f.contents.as_str(), f.name.as_str(), &mut data) {
            Ok(()) => load_files(files, i + 1, data),
            Err(k) => Err(CompileError { file: Some(f.name.clone()), kind: k }),
        }
    } else {
        Ok(data)
    }
}

/// Builds the registry from an ordered set of definition files: each file
/// is parsed and its declarations applied in order, then the expansion
/// pass resolves every placeholder.  Fails, naming the offending file
/// where one is to blame, exactly on the first malformed file, ill-typed
/// literal, duplicate property or unknown placeholder reference.
pub fn from_slice(files: &[DataFile]) -> (r: Result<Data, CompileError>)
    ensures
        match r {
            Ok(d) => sp_from_slice(files.deep_view())
                == Ok::<Seq<EnumV>, CompileErrorV>(d.deep_view()),
            Err(e) => sp_from_slice(files.deep_view())
                == Err::<Seq<EnumV>, CompileErrorV>(e.deep_view()),
        },
{
    let empty = Data { enums: Vec::new() };
    proof {
        assert(empty.deep_view() =~= Seq::<EnumV>::empty());
    }
    match load_files(files, 0, empty) {
        Ok(mut data) => match crate::expand::expand(&mut data) {
            Ok(()) => Ok(data),
            Err(k) => Err(CompileError { file: None, kind: k }),
        },
        Err(e) => Err(e),
    }
}

} // verus!
