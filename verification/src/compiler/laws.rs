//! What holds of every compilation: how a stream without loops compiles, and
//! on which streams each error is certain.

use vstd::prelude::*;
use crate::compiler::{CompileError, Token, compile_spec};
use crate::compiler::labels::{
    check_labels_spec, fault_at, is_anchor, lemma_first_fault, lemma_two_terminals,
};
use crate::compiler::linear::{fold_from, fold_spec, lemma_fold_needs_noun};
use crate::compiler::loops::{
    jump_target, lemma_unroll_overflows, lemma_unroll_without_process, no_process, token_of,
    tokens_of, tokens_upto,
};
use crate::compiler::packages::{is_flat, lemma_flatten_flat};
use crate::rune::{Attribute, Bullet, LoopPredicate, Modifiable, RuneView};
use crate::spell::{SpellRuneView, SpellView};

verus! {

/// Whether the stream holds neither a label nor a `Process`.
pub open spec fn is_loop_free(runes: Seq<RuneView>) -> bool {
    forall|i: int|
        0 <= i < runes.len() ==> !(#[trigger] runes[i] is Process) && !(runes[i] is Label)
}

/// In a flat stream without labels or processes every rune leaves its token,
/// at its own position.
pub proof fn lemma_tokens_of_loop_free(runes: Seq<RuneView>, upto: int)
    requires
        is_flat(runes),
        is_loop_free(runes),
        0 <= upto <= runes.len(),
    ensures
        tokens_upto(runes, upto).len() == upto,
        forall|i: int|
            0 <= i < upto ==> token_of(runes[i]) == Some(#[trigger] tokens_upto(runes, upto)[i]),
    decreases upto,
{
    if upto > 0 {
        lemma_tokens_of_loop_free(runes, upto - 1);
        assert(!(runes[upto - 1] is Process) && !(runes[upto - 1] is Label));
        assert(!(runes[upto - 1] is Package));
    }
}

/// A flat stream without labels or processes compiles to the fold of its
/// runes' tokens, whatever the environment reports.
pub proof fn lemma_compile_loop_free(runes: Seq<RuneView>, abundance: Option<(i32, i32, i32)>)
    requires
        is_flat(runes),
        is_loop_free(runes),
    ensures
        compile_spec(runes, abundance) == fold_spec(tokens_of(runes)),
{
    lemma_flatten_flat(runes);
    lemma_first_fault(runes, 0);
    assert(check_labels_spec(runes) is Ok) by {
        if check_labels_spec(runes) is Err {
            let error = check_labels_spec(runes)->Err_0;
            let i = choose|i: int|
                0 <= i < runes.len() && #[trigger] fault_at(runes, i) == Some(error);
            assert(!(runes[i] is Process) && !(runes[i] is Label));
        }
    }
    assert(no_process(runes)) by {
        assert forall|i: int| 0 <= i < runes.len() implies !(#[trigger] runes[i] is Process) by {
            assert(!(runes[i] is Process) && !(runes[i] is Label));
        }
    }
    lemma_unroll_without_process(runes, abundance);
}

/// A flat stream without labels or processes, in which a `Verb` or a `With`
/// comes before any `Noun`, fails to compile with `NoPrecedingNoun`.
pub proof fn lemma_compile_needs_noun(
    runes: Seq<RuneView>,
    abundance: Option<(i32, i32, i32)>,
    at: int,
)
    requires
        is_flat(runes),
        is_loop_free(runes),
        0 <= at < runes.len(),
        runes[at] is Verb || runes[at] is With,
        forall|j: int| 0 <= j < at ==> !(#[trigger] runes[j] is Noun),
    ensures
        compile_spec(runes, abundance) == Err::<SpellView, CompileError>(
            CompileError::NoPrecedingNoun,
        ),
{
    lemma_compile_loop_free(runes, abundance);
    lemma_tokens_of_loop_free(runes, runes.len() as int);
    let tokens = tokens_of(runes);
    assert(token_of(runes[at]) == Some(tokens[at]));
    assert forall|j: int| 0 <= j < at implies !(#[trigger] tokens[j] is Noun) by {
        assert(token_of(runes[j]) == Some(tokens[j]));
        assert(!(runes[j] is Noun));
    }
    lemma_fold_needs_noun(tokens, at);
}

/// A flat stream in which every `Process` follows a label, and in which two
/// labels of one name are terminal, fails to compile with `DanglingLoop`.
pub proof fn lemma_two_terminals_dangle(
    runes: Seq<RuneView>,
    abundance: Option<(i32, i32, i32)>,
    name: Seq<char>,
    i: int,
    j: int,
)
    requires
        is_flat(runes),
        forall|k: int|
            0 <= k < runes.len() && #[trigger] runes[k] is Process ==> k > 0 && runes[k - 1]
                is Label,
        i != j,
        is_anchor(runes, name, i),
        is_anchor(runes, name, j),
    ensures
        compile_spec(runes, abundance) == Err::<SpellView, CompileError>(
            CompileError::DanglingLoop,
        ),
{
    lemma_flatten_flat(runes);
    lemma_two_terminals(runes, name, i, j);
    assert(fault_at(runes, i) == Some(CompileError::DanglingLoop));
    lemma_first_fault(runes, 0);
    let checked = check_labels_spec(runes);
    assert(checked is Err);
    let first = choose|k: int|
        0 <= k < runes.len() && #[trigger] fault_at(runes, k) == Some(checked->Err_0);
    assert(runes[first] is Process ==> first > 0 && runes[first - 1] is Label);
}

/// A flat stream that passes label resolution does not compile where its
/// first `Process` always holds and jumps back: unrolling stops at the limit
/// and fails with `LoopOverflow`.
pub proof fn lemma_always_overflows(
    runes: Seq<RuneView>,
    abundance: Option<(i32, i32, i32)>,
    at: int,
)
    requires
        is_flat(runes),
        check_labels_spec(runes) is Ok,
        0 <= at < runes.len(),
        runes[at] matches RuneView::Process(_, predicate) && predicate == LoopPredicate::Always,
        forall|k: int| 0 <= k < at ==> !(#[trigger] runes[k] is Process),
        jump_target(runes, at) matches Some(target) && target < at,
    ensures
        compile_spec(runes, abundance) == Err::<SpellView, CompileError>(
            CompileError::LoopOverflow,
        ),
{
    lemma_flatten_flat(runes);
    lemma_unroll_overflows(runes, abundance, at);
}

/// The stream `Stat(a), Noun(b, bullet), Verb(c, d)` compiles to a spell
/// whose totals are `a + b + c` and whose one node holds `bullet` modified by
/// `d`, with nothing attached.
pub proof fn lemma_stat_noun_verb(
    a: Attribute,
    b: Attribute,
    bullet: Bullet,
    c: Attribute,
    d: Attribute,
    abundance: Option<(i32, i32, i32)>,
)
    ensures
        compile_spec(
            seq![RuneView::Stat(a), RuneView::Noun(b, bullet), RuneView::Verb(c, d)],
            abundance,
        ) == Ok::<SpellView, CompileError>(
            SpellView {
                attr: a.plus(b).plus(c),
                rune_list: seq![
                    SpellRuneView { bullet: bullet.modified(d), trigger_spell: None },
                ],
            },
        ),
{
    let runes = seq![RuneView::Stat(a), RuneView::Noun(b, bullet), RuneView::Verb(c, d)];
    let tokens = seq![Token::Stat(a), Token::Noun(b, bullet), Token::Verb(c, d)];
    assert(is_flat(runes));
    assert(is_loop_free(runes));
    lemma_compile_loop_free(runes, abundance);
    lemma_tokens_of_loop_free(runes, 3);
    assert(tokens_of(runes) =~= tokens) by {
        assert(token_of(runes[0]) == Some(tokens_of(runes)[0]));
        assert(token_of(runes[1]) == Some(tokens_of(runes)[1]));
        assert(token_of(runes[2]) == Some(tokens_of(runes)[2]));
    }
    let first = SpellView::empty().stat(a);
    let second = first.noun(b, bullet);
    let third = second.verb(c, d);
    assert(fold_from(tokens, 3, third) == Ok::<SpellView, CompileError>(third));
    assert(fold_from(tokens, 2, second) == fold_from(tokens, 3, third));
    assert(fold_from(tokens, 1, first) == fold_from(tokens, 2, second));
    assert(fold_from(tokens, 0, SpellView::empty()) == fold_from(tokens, 1, first));
    Attribute::lemma_plus_zero(a);
    assert(third.rune_list =~= seq![
        SpellRuneView { bullet: bullet.modified(d), trigger_spell: None },
    ]);
}

} // verus!
