//! The declaration tree of the data-definition language.
//!
//! A definition file holds one declaration or a list of declarations
//! ([`ModelFile`]).  A declaration ([`Model`]) either introduces an
//! enumeration (a name and an ordered list of raw variant names) or attaches
//! a property to an enumeration: a name, a declared [`Type`], and a mapping
//! from one-or-many variant-name keys to a raw literal ([`Lit`]).
//!
//! Each executable type has a ghost mirror (`...V`) over `Seq`/`int`, reached
//! through `DeepView`; all contracts in this crate speak of those mirrors.

use vstd::prelude::*;

verus! {

broadcast use vstd::std_specs::vec::axiom_vec_index_decreases;

/// Ghost mirror of [`Type`].
pub enum TypeV {
    Slice(Box<TypeV>),
    U32,
    F64,
    Str,
    Bool,
    Custom(Seq<char>),
}

/// A declared property type: `bool`, `u32`, `f64`, `string`, `slice<T>`
/// (recursive) or `custom(enum-name)`.  The enum name of `Custom` is
/// resolved later, during expansion, not at parse time.
pub enum Type {
    Slice(Box<Type>),
    U32,
    F64,
    Str,
    Bool,
    Custom(String),
}

/// The ghost mirror of a [`Type`] value.
pub open spec fn type_view(t: Type) -> TypeV
    decreases t,
{
    match t {
        Type::Slice(inner) => TypeV::Slice(Box::new(type_view(*inner))),
        Type::U32 => TypeV::U32,
        Type::F64 => TypeV::F64,
        Type::Str => TypeV::Str,
        Type::Bool => TypeV::Bool,
        Type::Custom(name) => TypeV::Custom(name.deep_view()),
    }
}

impl DeepView for Type {
    type V = TypeV;

    open spec fn deep_view(&self) -> TypeV {
        type_view(*self)
    }
}

/// Ghost mirror of [`Lit`].
pub enum LitV {
    /// A numeric literal: its source text, and the rounded saturating
    /// unsigned value used when the declared type is `u32`.
    Num { text: Seq<char>, rounded: u32 },
    Str(Seq<char>),
    Bool(bool),
    List(Seq<LitV>),
}

/// A raw literal as it stands in a definition file, before it is checked
/// against a declared [`Type`].
///
/// A numeric literal keeps its source text (floating-point values are
/// carried through to the generated source verbatim, never computed on)
/// together with its value rounded to the nearest unsigned integer,
/// saturating at `u32::MAX`, which is what a `u32`-typed property uses.
pub enum Lit {
    Num { text: String, rounded: u32 },
    Str(String),
    Bool(bool),
    List(Vec<Lit>),
}

/// The ghost mirror of a [`Lit`] value.
pub open spec fn lit_view(l: Lit) -> LitV
    decreases l, 1int,
{
    match l {
        Lit::Num { text, rounded } => LitV::Num { text: text.deep_view(), rounded },
        Lit::Str(s) => LitV::Str(s.deep_view()),
        Lit::Bool(b) => LitV::Bool(b),
        Lit::List(items) => LitV::List(lit_views(items, 0)),
    }
}

/// The ghost mirrors of the literals of `items` from index `i` on.
pub open spec fn lit_views(items: Vec<Lit>, i: int) -> Seq<LitV>
    decreases items, items.len() - i,
{
    if 0 <= i < items.len() {
        seq![lit_view(items[i])] + lit_views(items, i + 1)
    } else {
        Seq::empty()
    }
}

/// `lit_views` lists one mirror per remaining literal, in order.
pub proof fn lemma_lit_views(items: Vec<Lit>, i: int)
    requires
        0 <= i <= items.len(),
    ensures
        lit_views(items, i).len() == items.len() - i,
        forall|k: int| i <= k < items.len() ==> lit_views(items, i)[k - i] == lit_view(items[k]),
    decreases items.len() - i,
{
    if i < items.len() {
        lemma_lit_views(items, i + 1);
    }
}

impl DeepView for Lit {
    type V = LitV;

    open spec fn deep_view(&self) -> LitV {
        lit_view(*self)
    }
}

/// Ghost mirror of [`VecOrOne`].
pub enum VecOrOneV<V> {
    Many(Seq<V>),
    One(V),
}

/// A mapping key: either one variant name or a list of variant names that
/// all map to the same literal.
pub enum VecOrOne<T> {
    Many(Vec<T>),
    One(T),
}

impl<T: DeepView> DeepView for VecOrOne<T> {
    type V = VecOrOneV<T::V>;

    open spec fn deep_view(&self) -> VecOrOneV<T::V> {
        match self {
            VecOrOne::Many(items) => VecOrOneV::Many(items.deep_view()),
            VecOrOne::One(item) => VecOrOneV::One(item.deep_view()),
        }
    }
}

/// Ghost mirror of [`Model`].
pub enum ModelV {
    Enum { name: Seq<char>, variants: Seq<Seq<char>> },
    Property {
        on: Seq<char>,
        name: Seq<char>,
        typ: TypeV,
        mapping: Seq<(VecOrOneV<Seq<char>>, LitV)>,
    },
}

/// One declaration: an enumeration, or a property attached to one.
pub enum Model {
    Enum { name: String, variants: Vec<String> },
    Property {
        on: String,
        name: String,
        typ: Type,
        mapping: Vec<(VecOrOne<String>, Lit)>,
    },
}

impl DeepView for Model {
    type V = ModelV;

    open spec fn deep_view(&self) -> ModelV {
        match self {
            Model::Enum { name, variants } => ModelV::Enum {
                name: name.deep_view(),
                variants: variants.deep_view(),
            },
            Model::Property { on, name, typ, mapping } => ModelV::Property {
                on: on.deep_view(),
                name: name.deep_view(),
                typ: typ.deep_view(),
                mapping: mapping.deep_view(),
            },
        }
    }
}

/// Ghost mirror of [`ModelFile`].
pub enum ModelFileV {
    Single(ModelV),
    Multiple(Seq<ModelV>),
}

/// One parsed definition file: a single declaration or an ordered list.
pub enum ModelFile {
    Single(Model),
    Multiple(Vec<Model>),
}

impl DeepView for ModelFile {
    type V = ModelFileV;

    open spec fn deep_view(&self) -> ModelFileV {
        match self {
            ModelFile::Single(m) => ModelFileV::Single(m.deep_view()),
            ModelFile::Multiple(ms) => ModelFileV::Multiple(ms.deep_view()),
        }
    }
}

/// The declarations of a file, in order, whichever form the file used.
pub open spec fn model_file_models(mf: ModelFileV) -> Seq<ModelV> {
    match mf {
        ModelFileV::Single(m) => seq![m],
        ModelFileV::Multiple(ms) => ms,
    }
}

/// From the front, `lit_views` is exactly the deep view of the vector.
pub proof fn lemma_lit_views_is_deep_view(items: Vec<Lit>)
    ensures
        lit_views(items, 0) == items.deep_view(),
{
    lemma_lit_views(items, 0);
    assert(lit_views(items, 0) =~= items.deep_view());
}

/// Pushing onto a vector pushes its element's mirror onto the deep view.
pub proof fn lemma_push_deep_view<T: DeepView>(v1: Vec<T>, v2: Vec<T>, x: T)
    requires
        v2@ == v1@.push(x),
    ensures
        v2.deep_view() == v1.deep_view().push(x.deep_view()),
{
    assert(v2.deep_view() =~= v1.deep_view().push(x.deep_view()));
}

impl Type {
    /// A structurally equal copy.
    pub fn dup(&self) -> (r: Type)
        ensures
            r.deep_view() == self.deep_view(),
        decreases self,
    {
        match self {
            Type::Slice(inner) => Type::Slice(Box::new(inner.dup())),
            Type::U32 => Type::U32,
            Type::F64 => Type::F64,
            Type::Str => Type::Str,
            Type::Bool => Type::Bool,
            Type::Custom(name) => Type::Custom(name.clone()),
        }
    }
}

/// Removing an element removes its mirror from the deep view.
pub proof fn lemma_remove_deep_view<T: DeepView>(v1: Vec<T>, v2: Vec<T>, i: int)
    requires
        0 <= i < v1@.len(),
        v2@ == v1@.remove(i),
    ensures
        v2.deep_view() == v1.deep_view().remove(i),
{
    assert(v2.deep_view() =~= v1.deep_view().remove(i));
}

/// Inserting an element inserts its mirror into the deep view.
pub proof fn lemma_insert_deep_view<T: DeepView>(v1: Vec<T>, v2: Vec<T>, i: int, x: T)
    requires
        0 <= i <= v1@.len(),
        v2@ == v1@.insert(i, x),
    ensures
        v2.deep_view() == v1.deep_view().insert(i, x.deep_view()),
{
    assert(v2.deep_view() =~= v1.deep_view().insert(i, x.deep_view()));
}

} // verus!
