//! Small helpers for building and copying strings.

use vstd::prelude::*;

verus! {

/// Relies on `String::push`: appends exactly one character.
#[verifier::external_body]
pub(crate) fn push_char(s: &mut String, c: char)
    ensures
        final(s)@ == old(s)@.push(c),
{
    s.push(c);
}

/// A one-character string.
pub(crate) fn char_string(c: char) -> (r: String)
    ensures
        r@ == seq![c],
{
    let mut s = String::new();
    push_char(&mut s, c);
    proof {
        assert(s@ =~= seq![c]);
    }
    s
}

/// An elementwise copy of a vector of strings.
pub(crate) fn clone_strings(vs: &Vec<String>) -> (r: Vec<String>)
    ensures
        r.deep_view() == vs.deep_view(),
{
    let mut r: Vec<String> = Vec::new();
    let mut i: usize = 0;
    while i < vs.len()
        invariant
            i <= vs.len(),
            r.deep_view().len() == i as int,
            forall|k: int| 0 <= k < i ==> r.deep_view()[k] == vs.deep_view()[k],
        decreases vs.len() - i,
    {
        let ghost r0 = r;
        let c = vs[i].clone();
        r.push(c);
        proof {
            crate::model::lemma_push_deep_view(r0, r, c);
        }
        i = i + 1;
    }
    proof {
        assert(r.deep_view() =~= vs.deep_view());
    }
    r
}

/// Concatenation of vectors concatenates their deep views.
pub proof fn lemma_concat_deep_view<T: DeepView>(v1: Vec<T>, v2: Vec<T>, v3: Vec<T>)
    requires
        v3@ == v1@ + v2@,
    ensures
        v3.deep_view() == v1.deep_view() + v2.deep_view(),
{
    assert(v3.deep_view() =~= v1.deep_view() + v2.deep_view());
}

} // verus!
