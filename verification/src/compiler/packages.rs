//! Package expansion: every package gives way, in place and depth first, to
//! the runes it holds.

use vstd::prelude::*;
use crate::rune::{Rune, RuneView, lemma_package_view, stream_view};

verus! {

/// Whether no rune of the stream is a package.
pub open spec fn is_flat(runes: Seq<RuneView>) -> bool {
    forall|i: int| 0 <= i < runes.len() ==> !(#[trigger] runes[i] is Package)
}

/// The runes that one rune stands for: the flattened contents of a package,
/// and any other rune itself.
pub open spec fn flatten_rune(rune: RuneView) -> Seq<RuneView>
    decreases rune, 0nat,
{
    match rune {
        RuneView::Package(inner) => flatten(inner),
        _ => seq![rune],
    }
}

/// The stream with every package replaced, in place and depth first, by the
/// runes it holds.
pub open spec fn flatten(runes: Seq<RuneView>) -> Seq<RuneView>
    decreases runes, 1nat,
{
    if runes.len() == 0 {
        Seq::empty()
    } else {
        flatten(runes.drop_last()) + flatten_rune(runes.last())
    }
}

/// Flattening a stream leaves no package in it.
pub proof fn lemma_flatten_is_flat(runes: Seq<RuneView>)
    ensures
        is_flat(flatten(runes)),
    decreases runes,
{
    if runes.len() > 0 {
        let front = flatten(runes.drop_last());
        let back = flatten_rune(runes.last());
        lemma_flatten_is_flat(runes.drop_last());
        match runes.last() {
            RuneView::Package(inner) => {
                lemma_flatten_is_flat(inner);
            },
            _ => {},
        }
        assert(is_flat(back));
        assert forall|i: int| 0 <= i < (front + back).len() implies !(#[trigger] (front + back)[i]
            is Package) by {
            if i >= front.len() {
                assert(!(back[i - front.len()] is Package));
            }
        }
    }
}

/// Flattening a stream that holds no package returns it unchanged.
pub proof fn lemma_flatten_flat(runes: Seq<RuneView>)
    requires
        is_flat(runes),
    ensures
        flatten(runes) == runes,
    decreases runes.len(),
{
    if runes.len() > 0 {
        lemma_flatten_flat(runes.drop_last());
        assert(!(runes[runes.len() - 1] is Package));
        assert(flatten_rune(runes.last()) == seq![runes.last()]);
        assert(runes.drop_last() + seq![runes.last()] =~= runes);
    } else {
        assert(flatten(runes) =~= runes);
    }
}

/// Expansion is in place: a stream made of two flattens to what its parts
/// flatten to, one after the other.
pub proof fn lemma_flatten_concat(front: Seq<RuneView>, back: Seq<RuneView>)
    ensures
        flatten(front + back) == flatten(front) + flatten(back),
    decreases back.len(),
{
    if back.len() == 0 {
        assert(front + back =~= front);
        assert(flatten(front) + flatten(back) =~= flatten(front));
    } else {
        lemma_flatten_concat(front, back.drop_last());
        assert((front + back).drop_last() =~= front + back.drop_last());
        assert((front + back).last() == back.last());
        assert(flatten(front + back) =~= flatten(front) + flatten(back));
    }
}

/// Flattening twice is flattening once.
pub proof fn lemma_flatten_idempotent(runes: Seq<RuneView>)
    ensures
        flatten(flatten(runes)) == flatten(runes),
{
    lemma_flatten_is_flat(runes);
    lemma_flatten_flat(flatten(runes));
}

/// Flattening a prefix one rune longer appends what that rune stands for.
proof fn lemma_flatten_step(runes: Seq<RuneView>, i: int)
    requires
        0 <= i < runes.len(),
    ensures
        flatten(runes.subrange(0, i + 1)) == flatten(runes.subrange(0, i)) + flatten_rune(runes[i]),
{
    assert(runes.subrange(0, i + 1).drop_last() =~= runes.subrange(0, i));
}

/// Appends to `out` the runes that `runes` flattens to.
fn expand_into(runes: &Vec<Rune>, out: &mut Vec<Rune>)
    ensures
        stream_view(final(out)@) == stream_view(old(out)@) + flatten(stream_view(runes@)),
    decreases runes,
{
    let ghost source = stream_view(runes@);
    let mut i: usize = 0;
    assert(stream_view(out@) =~= stream_view(old(out)@) + flatten(source.subrange(0, 0)));
    while i < runes.len()
        invariant
            i <= runes.len(),
            source == stream_view(runes@),
            stream_view(out@) == stream_view(old(out)@) + flatten(source.subrange(0, i as int)),
        decreases runes.len() - i,
    {
        let ghost before = stream_view(out@);
        proof {
            lemma_flatten_step(source, i as int);
        }
        match &runes[i] {
            Rune::Package(inner) => {
                proof {
                    lemma_package_view(runes[i as int]);
                }
                expand_into(inner, out);
            },
            Rune::Stat(a) => {
                out.push(Rune::Stat(*a));
                assert(stream_view(out@) =~= before + seq![runes[i as int]@]);
            },
            Rune::Verb(a, b) => {
                out.push(Rune::Verb(*a, *b));
                assert(stream_view(out@) =~= before + seq![runes[i as int]@]);
            },
            Rune::Noun(a, bullet) => {
                out.push(Rune::Noun(*a, *bullet));
                assert(stream_view(out@) =~= before + seq![runes[i as int]@]);
            },
            Rune::With(a, trigger) => {
                out.push(Rune::With(*a, *trigger));
                assert(stream_view(out@) =~= before + seq![runes[i as int]@]);
            },
            Rune::Label(a, name) => {
                out.push(Rune::Label(*a, name.clone()));
                assert(stream_view(out@) =~= before + seq![runes[i as int]@]);
            },
            Rune::Process(a, predicate) => {
                out.push(Rune::Process(*a, *predicate));
                assert(stream_view(out@) =~= before + seq![runes[i as int]@]);
            },
            Rune::End => {
                out.push(Rune::End);
                assert(stream_view(out@) =~= before + seq![runes[i as int]@]);
            },
        }
        assert(stream_view(out@) =~= stream_view(old(out)@) + flatten(
            source.subrange(0, i as int + 1),
        ));
        i += 1;
    }
    assert(source.subrange(0, runes.len() as int) =~= source);
}

/// Package expansion: replaces every package, in place and depth first, by
/// the runes it holds. A stream without packages comes back unchanged.
pub fn expand(runes: &Vec<Rune>) -> (flat: Vec<Rune>)
    ensures
        stream_view(flat@) == flatten(stream_view(runes@)),
        is_flat(stream_view(flat@)),
        is_flat(stream_view(runes@)) ==> stream_view(flat@) == stream_view(runes@),
{
    let mut flat: Vec<Rune> = Vec::new();
    expand_into(runes, &mut flat);
    proof {
        assert(stream_view(Seq::<Rune>::empty()) + flatten(stream_view(runes@)) =~= flatten(
            stream_view(runes@),
        ));
        lemma_flatten_is_flat(stream_view(runes@));
        if is_flat(stream_view(runes@)) {
            lemma_flatten_flat(stream_view(runes@));
        }
    }
    flat
}

} // verus!
