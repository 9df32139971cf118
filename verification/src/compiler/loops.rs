//! Loop resolution: the walk of the read pointer over a flattened stream,
//! which jumps where a `Process` tells it to and reads every rune it passes.

use vstd::prelude::*;
use crate::compiler::{CompileError, Token};
use crate::compiler::labels::{
    anchor, check_labels_spec, fault_at, find_anchor, is_anchor, lemma_anchor_from,
    lemma_anchor_unique, lemma_first_fault,
};
use crate::rune::{LoopPredicate, Rune, RuneView, stream_view};

verus! {

/// The most jumps that unrolling may take before it gives up.
pub const LOOP_LIMIT: i32 = 1024;

/// The token that a rune leaves in the unrolled stream. Labels and processes
/// leave none, and neither does a package.
pub open spec fn token_of(rune: RuneView) -> Option<Token> {
    match rune {
        RuneView::Stat(a) => Some(Token::Stat(a)),
        RuneView::Verb(a, b) => Some(Token::Verb(a, b)),
        RuneView::Noun(a, bullet) => Some(Token::Noun(a, bullet)),
        RuneView::With(a, trigger) => Some(Token::With(a, trigger)),
        RuneView::End => Some(Token::End),
        RuneView::Label(_, _) => None,
        RuneView::Process(_, _) => None,
        RuneView::Package(_) => None,
    }
}

/// Where the `Process` at `pc` jumps to when its condition holds: the anchor
/// of the label that stands before it.
pub open spec fn jump_target(runes: Seq<RuneView>, pc: int) -> Option<int> {
    if 0 < pc < runes.len() && runes[pc] is Process && runes[pc - 1] is Label {
        anchor(runes, runes[pc - 1]->Label_1)
    } else {
        None
    }
}

/// Whether the read pointer jumps at `pc`: the rune there is a `Process`
/// with an anchor to go to, and its condition holds of what the environment
/// reports, the jumps taken so far, and the jumps taken to that anchor.
pub open spec fn jumps_at(
    runes: Seq<RuneView>,
    abundance: Option<(i32, i32, i32)>,
    pc: int,
    current_loop: i32,
    label_loops: Seq<i32>,
) -> bool {
    match jump_target(runes, pc) {
        Some(target) => runes[pc]->Process_1.holds(abundance, current_loop, label_loops[target]),
        None => false,
    }
}

/// The read pointer's walk from `pc` on. `current_loop` counts the jumps
/// taken so far, `label_loops[t]` those taken to the anchor at `t`, and
/// `out` holds the tokens read so far.
///
/// A rune that is no jumping `Process` leaves its token, if it has one, and
/// the pointer moves on. A `Process` that jumps sends the pointer back to its
/// anchor and counts the jump, unless `LOOP_LIMIT` jumps were taken already:
/// then the walk fails.
pub open spec fn unroll_from(
    runes: Seq<RuneView>,
    abundance: Option<(i32, i32, i32)>,
    pc: int,
    current_loop: i32,
    label_loops: Seq<i32>,
    out: Seq<Token>,
) -> Result<Seq<Token>, CompileError>
    decreases LOOP_LIMIT - current_loop, runes.len() - pc,
{
    if pc < 0 || pc >= runes.len() {
        Ok(out)
    } else if jumps_at(runes, abundance, pc, current_loop, label_loops) {
        let target = jump_target(runes, pc)->Some_0;
        if current_loop >= LOOP_LIMIT {
            Err(CompileError::LoopOverflow)
        } else {
            unroll_from(
                runes,
                abundance,
                target,
                (current_loop + 1) as i32,
                label_loops.update(target, (label_loops[target] + 1) as i32),
                out,
            )
        }
    } else {
        match token_of(runes[pc]) {
            Some(token) => unroll_from(
                runes,
                abundance,
                pc + 1,
                current_loop,
                label_loops,
                out.push(token),
            ),
            None => unroll_from(runes, abundance, pc + 1, current_loop, label_loops, out),
        }
    }
}

/// Loop resolution: the tokens that the read pointer reads on its walk from
/// the start of the stream, with no jump taken yet.
pub open spec fn unroll_spec(runes: Seq<RuneView>, abundance: Option<(i32, i32, i32)>) -> Result<
    Seq<Token>,
    CompileError,
> {
    unroll_from(runes, abundance, 0, 0, Seq::new(runes.len(), |i: int| 0i32), Seq::empty())
}

/// Whether no rune of the stream is a `Process`.
pub open spec fn no_process(runes: Seq<RuneView>) -> bool {
    forall|i: int| 0 <= i < runes.len() ==> !(#[trigger] runes[i] is Process)
}

/// The tokens that the first `upto` runes leave, in order.
pub open spec fn tokens_upto(runes: Seq<RuneView>, upto: int) -> Seq<Token>
    decreases upto,
{
    if upto <= 0 {
        Seq::empty()
    } else {
        match token_of(runes[upto - 1]) {
            Some(token) => tokens_upto(runes, upto - 1).push(token),
            None => tokens_upto(runes, upto - 1),
        }
    }
}

/// The tokens that the runes of a stream leave, in order.
pub open spec fn tokens_of(runes: Seq<RuneView>) -> Seq<Token> {
    tokens_upto(runes, runes.len() as int)
}

/// A stream without a `Process` unrolls to the tokens of its runes: walking
/// on from `pc` with the tokens of the runes before it gives them all.
proof fn lemma_walk_without_process(
    runes: Seq<RuneView>,
    abundance: Option<(i32, i32, i32)>,
    pc: int,
    current_loop: i32,
    label_loops: Seq<i32>,
)
    requires
        no_process(runes),
        0 <= pc <= runes.len(),
    ensures
        unroll_from(runes, abundance, pc, current_loop, label_loops, tokens_upto(runes, pc)) == Ok::<
            Seq<Token>,
            CompileError,
        >(tokens_of(runes)),
    decreases runes.len() - pc,
{
    if pc < runes.len() {
        assert(!(runes[pc] is Process));
        assert(!jumps_at(runes, abundance, pc, current_loop, label_loops));
        lemma_walk_without_process(runes, abundance, pc + 1, current_loop, label_loops);
    }
}

/// A stream without a `Process` unrolls to the tokens of its runes.
pub proof fn lemma_unroll_without_process(
    runes: Seq<RuneView>,
    abundance: Option<(i32, i32, i32)>,
)
    requires
        no_process(runes),
    ensures
        unroll_spec(runes, abundance) == Ok::<Seq<Token>, CompileError>(tokens_of(runes)),
{
    lemma_walk_without_process(
        runes,
        abundance,
        0,
        0,
        Seq::new(runes.len(), |i: int| 0i32),
    );
}

/// The walk fails with `LoopOverflow` from any place up to a `Process` that
/// always jumps back, where no other `Process` stands before it.
proof fn lemma_walk_overflows(
    runes: Seq<RuneView>,
    abundance: Option<(i32, i32, i32)>,
    at: int,
    pc: int,
    current_loop: i32,
    label_loops: Seq<i32>,
    out: Seq<Token>,
)
    requires
        0 <= pc <= at < runes.len(),
        0 <= current_loop <= LOOP_LIMIT,
        runes[at] matches RuneView::Process(_, predicate) && predicate == LoopPredicate::Always,
        forall|k: int| 0 <= k < at ==> !(#[trigger] runes[k] is Process),
        jump_target(runes, at) matches Some(target) && 0 <= target < at,
    ensures
        unroll_from(runes, abundance, pc, current_loop, label_loops, out) == Err::<
            Seq<Token>,
            CompileError,
        >(CompileError::LoopOverflow),
    decreases LOOP_LIMIT - current_loop, at - pc,
{
    if pc < at {
        assert(!(runes[pc] is Process));
        assert(!jumps_at(runes, abundance, pc, current_loop, label_loops));
        match token_of(runes[pc]) {
            Some(token) => lemma_walk_overflows(
                runes,
                abundance,
                at,
                pc + 1,
                current_loop,
                label_loops,
                out.push(token),
            ),
            None => lemma_walk_overflows(
                runes,
                abundance,
                at,
                pc + 1,
                current_loop,
                label_loops,
                out,
            ),
        }
    } else {
        let target = jump_target(runes, at)->Some_0;
        assert(jumps_at(runes, abundance, pc, current_loop, label_loops));
        if current_loop < LOOP_LIMIT {
            lemma_walk_overflows(
                runes,
                abundance,
                at,
                target,
                (current_loop + 1) as i32,
                label_loops.update(target, (label_loops[target] + 1) as i32),
                out,
            );
        }
    }
}

/// A stream does not unroll where its first `Process` always holds and
/// jumps back: the walk stops at the limit and fails with `LoopOverflow`.
pub proof fn lemma_unroll_overflows(
    runes: Seq<RuneView>,
    abundance: Option<(i32, i32, i32)>,
    at: int,
)
    requires
        0 <= at < runes.len(),
        runes[at] matches RuneView::Process(_, predicate) && predicate == LoopPredicate::Always,
        forall|k: int| 0 <= k < at ==> !(#[trigger] runes[k] is Process),
        jump_target(runes, at) matches Some(target) && target < at,
    ensures
        unroll_spec(runes, abundance) == Err::<Seq<Token>, CompileError>(
            CompileError::LoopOverflow,
        ),
{
    lemma_anchor_from(runes, runes[at - 1]->Label_1, 0);
    lemma_walk_overflows(
        runes,
        abundance,
        at,
        0,
        0,
        Seq::new(runes.len(), |i: int| 0i32),
        Seq::empty(),
    );
}

/// Where label resolution has passed, every `Process` has its anchor: the
/// one terminal label that bears the name of the label before it.
pub proof fn lemma_resolved_jump(runes: Seq<RuneView>, pc: int)
    requires
        check_labels_spec(runes) is Ok,
        0 <= pc < runes.len(),
        runes[pc] is Process,
    ensures
        pc > 0,
        runes[pc - 1] is Label,
        jump_target(runes, pc) matches Some(target) && is_anchor(
            runes,
            runes[pc - 1]->Label_1,
            target,
        ),
        forall|other: int| #[trigger]
            is_anchor(runes, runes[pc - 1]->Label_1, other) ==> jump_target(runes, pc) == Some(
                other,
            ),
{
    lemma_first_fault(runes, 0);
    assert(fault_at(runes, pc) is None);
    assert(fault_at(runes, pc - 1) is None);
    lemma_anchor_unique(runes, runes[pc - 1]->Label_1);
}

/// Where the `Process` at `pc` jumps to.
fn find_jump_target(runes: &Vec<Rune>, pc: usize) -> (found: Option<usize>)
    requires
        pc < runes.len(),
        runes[pc as int] is Process,
    ensures
        match found {
            Some(at) => jump_target(stream_view(runes@), pc as int) == Some(at as int) && at
                < runes.len(),
            None => jump_target(stream_view(runes@), pc as int) is None,
        },
{
    if pc > 0 {
        match &runes[pc - 1] {
            Rune::Label(_, name) => find_anchor(runes, name),
            _ => None,
        }
    } else {
        None
    }
}

/// A vector of `len` zeros.
fn zeros(len: usize) -> (counts: Vec<i32>)
    ensures
        counts@ == Seq::new(len as nat, |i: int| 0i32),
{
    let mut counts: Vec<i32> = Vec::new();
    let mut i: usize = 0;
    while i < len
        invariant
            i <= len,
            counts@ == Seq::new(i as nat, |i: int| 0i32),
        decreases len - i,
    {
        counts.push(0);
        assert(counts@ =~= Seq::new((i + 1) as nat, |i: int| 0i32));
        i += 1;
    }
    counts
}

/// What `unroll` returns, with the tokens as a sequence.
pub open spec fn tokens_view(unrolled: Result<Vec<Token>, CompileError>) -> Result<
    Seq<Token>,
    CompileError,
> {
    match unrolled {
        Ok(tokens) => Ok(tokens@),
        Err(error) => Err(error),
    }
}

/// Loop resolution: walks the read pointer over a flattened stream and
/// returns the tokens it reads. Where the condition of a `Process` holds the
/// pointer jumps back to the anchor of the label before it, so that the runes
/// in between are read again. Fails with `LoopOverflow` where a jump would be
/// the first past `LOOP_LIMIT`.
pub fn unroll(runes: &Vec<Rune>, abundance: Option<(i32, i32, i32)>) -> (unrolled: Result<
    Vec<Token>,
    CompileError,
>)
    ensures
        tokens_view(unrolled) == unroll_spec(stream_view(runes@), abundance),
{
    let ghost source = stream_view(runes@);
    let mut out: Vec<Token> = Vec::new();
    let mut label_loops = zeros(runes.len());
    let mut current_loop: i32 = 0;
    let mut pc: usize = 0;
    while pc < runes.len()
        invariant
            pc <= runes.len(),
            source == stream_view(runes@),
            0 <= current_loop <= LOOP_LIMIT,
            label_loops.len() == runes.len(),
            forall|t: int| 0 <= t < label_loops.len() ==> #[trigger] label_loops[t] <= current_loop,
            unroll_spec(source, abundance) == unroll_from(
                source,
                abundance,
                pc as int,
                current_loop,
                label_loops@,
                out@,
            ),
        decreases LOOP_LIMIT - current_loop, runes.len() - pc,
    {
        let mut jumped = false;
        match &runes[pc] {
            Rune::Process(_, predicate) => {
                match find_jump_target(runes, pc) {
                    Some(target) => {
                        if predicate.eval(abundance, current_loop, label_loops[target]) {
                            if current_loop >= LOOP_LIMIT {
                                return Err(CompileError::LoopOverflow);
                            }
                            let count = label_loops[target];
                            label_loops.set(target, count + 1);
                            current_loop = current_loop + 1;
                            pc = target;
                            jumped = true;
                        }
                    },
                    None => {},
                }
            },
            Rune::Stat(a) => {
                out.push(Token::Stat(*a));
            },
            Rune::Verb(a, b) => {
                out.push(Token::Verb(*a, *b));
            },
            Rune::Noun(a, bullet) => {
                out.push(Token::Noun(*a, *bullet));
            },
            Rune::With(a, trigger) => {
                out.push(Token::With(*a, *trigger));
            },
            Rune::End => {
                out.push(Token::End);
            },
            Rune::Label(_, _) => {},
            Rune::Package(_) => {},
        }
        if !jumped {
            pc += 1;
        }
    }
    Ok(out)
}

} // verus!
