//! Label resolution: which labels are anchors, and whether every `Process`
//! has one to jump to.

use vstd::prelude::*;
use crate::compiler::CompileError;
use crate::rune::{Rune, RuneView, stream_view};

verus! {

/// Whether the rune at `i` is a label that no `Process` follows.
pub open spec fn is_terminal(runes: Seq<RuneView>, i: int) -> bool {
    &&& 0 <= i < runes.len()
    &&& runes[i] is Label
    &&& !(i + 1 < runes.len() && runes[i + 1] is Process)
}

/// Whether the rune at `i` is the terminal label of the given name.
pub open spec fn is_anchor(runes: Seq<RuneView>, name: Seq<char>, i: int) -> bool {
    is_terminal(runes, i) && runes[i]->Label_1 == name
}

/// How many of the first `upto` runes are terminal labels of the given name.
pub open spec fn terminals(runes: Seq<RuneView>, name: Seq<char>, upto: int) -> nat
    decreases upto,
{
    if upto <= 0 {
        0
    } else if is_anchor(runes, name, upto - 1) {
        terminals(runes, name, upto - 1) + 1
    } else {
        terminals(runes, name, upto - 1)
    }
}

/// What is wrong with the rune at `i`, if anything: a `Process` that follows
/// no label, or a label whose name does not have exactly one terminal label
/// in the stream.
pub open spec fn fault_at(runes: Seq<RuneView>, i: int) -> Option<CompileError> {
    match runes[i] {
        RuneView::Process(_, _) => if i == 0 || !(runes[i - 1] is Label) {
            Some(CompileError::OrphanProcess)
        } else {
            None
        },
        RuneView::Label(_, name) => if terminals(runes, name, runes.len() as int) != 1 {
            Some(CompileError::DanglingLoop)
        } else {
            None
        },
        _ => None,
    }
}

/// The first fault at or after `from`, in stream order.
pub open spec fn check_from(runes: Seq<RuneView>, from: int) -> Result<(), CompileError>
    decreases runes.len() - from,
{
    if from >= runes.len() {
        Ok(())
    } else {
        match fault_at(runes, from) {
            Some(error) => Err(error),
            None => check_from(runes, from + 1),
        }
    }
}

/// Label resolution: the first fault of the stream, or `Ok` where every
/// `Process` follows a label and every label's name has exactly one terminal
/// label.
pub open spec fn check_labels_spec(runes: Seq<RuneView>) -> Result<(), CompileError> {
    check_from(runes, 0)
}

/// The position of the first terminal label of the given name at or after
/// `from`.
pub open spec fn anchor_from(runes: Seq<RuneView>, name: Seq<char>, from: int) -> Option<int>
    decreases runes.len() - from,
{
    if from >= runes.len() {
        None
    } else if is_anchor(runes, name, from) {
        Some(from)
    } else {
        anchor_from(runes, name, from + 1)
    }
}

/// The anchor of a name: the position of its terminal label. Where label
/// resolution has passed, the name has one terminal label only.
pub open spec fn anchor(runes: Seq<RuneView>, name: Seq<char>) -> Option<int> {
    anchor_from(runes, name, 0)
}

/// Label resolution reports the first fault in stream order: it passes where
/// no rune has a fault, and fails with the fault of the first rune that has
/// one.
pub proof fn lemma_first_fault(runes: Seq<RuneView>, from: int)
    requires
        0 <= from,
    ensures
        match check_from(runes, from) {
            Ok(_) => forall|i: int| from <= i < runes.len() ==> fault_at(runes, i) is None,
            Err(error) => exists|i: int|
                {
                    &&& from <= i < runes.len()
                    &&& #[trigger] fault_at(runes, i) == Some(error)
                    &&& forall|j: int| from <= j < i ==> fault_at(runes, j) is None
                },
        },
    decreases runes.len() - from,
{
    if from < runes.len() {
        match fault_at(runes, from) {
            Some(error) => {
                assert(fault_at(runes, from) == Some(error));
            },
            None => {
                lemma_first_fault(runes, from + 1);
                match check_from(runes, from + 1) {
                    Ok(_) => {},
                    Err(error) => {
                        let i = choose|i: int|
                            {
                                &&& from + 1 <= i < runes.len()
                                &&& #[trigger] fault_at(runes, i) == Some(error)
                                &&& forall|j: int| from + 1 <= j < i ==> fault_at(runes, j) is None
                            };
                        assert(fault_at(runes, i) == Some(error));
                    },
                }
            },
        }
    }
}

/// An anchor found at or after `from` is a terminal label of the name, in
/// the stream.
pub proof fn lemma_anchor_from(runes: Seq<RuneView>, name: Seq<char>, from: int)
    requires
        0 <= from,
    ensures
        anchor_from(runes, name, from) matches Some(at) ==> from <= at < runes.len() && is_anchor(
            runes,
            name,
            at,
        ),
    decreases runes.len() - from,
{
    if from < runes.len() && !is_anchor(runes, name, from) {
        lemma_anchor_from(runes, name, from + 1);
    }
}

/// The search for an anchor finds one where there is one to find, and none
/// before the one it finds.
proof fn lemma_anchor_found(runes: Seq<RuneView>, name: Seq<char>, from: int, at: int)
    requires
        0 <= from <= at,
        is_anchor(runes, name, at),
    ensures
        anchor_from(runes, name, from) matches Some(found) && from <= found <= at,
    decreases at - from,
{
    if !is_anchor(runes, name, from) {
        lemma_anchor_found(runes, name, from + 1, at);
    }
}

/// Where the search finds no anchor, the name has no terminal label.
proof fn lemma_terminals_none(runes: Seq<RuneView>, name: Seq<char>, upto: int)
    requires
        anchor_from(runes, name, 0) is None,
        upto <= runes.len(),
    ensures
        terminals(runes, name, upto) == 0,
    decreases upto,
{
    if upto > 0 {
        lemma_terminals_none(runes, name, upto - 1);
        if is_anchor(runes, name, upto - 1) {
            lemma_anchor_found(runes, name, 0, upto - 1);
        }
    }
}

/// Two terminal labels of one name among the first `upto` runes count as two
/// at least.
proof fn lemma_terminals_two(runes: Seq<RuneView>, name: Seq<char>, i: int, j: int, upto: int)
    requires
        0 <= i < j < runes.len(),
        is_anchor(runes, name, i),
        is_anchor(runes, name, j),
    ensures
        i < upto ==> terminals(runes, name, upto) >= 1,
        j < upto ==> terminals(runes, name, upto) >= 2,
    decreases upto,
{
    if upto > 0 {
        lemma_terminals_two(runes, name, i, j, upto - 1);
    }
}

/// Two terminal labels of one name make the name's count two at least.
pub proof fn lemma_two_terminals(runes: Seq<RuneView>, name: Seq<char>, i: int, j: int)
    requires
        i != j,
        is_anchor(runes, name, i),
        is_anchor(runes, name, j),
    ensures
        terminals(runes, name, runes.len() as int) >= 2,
{
    if i < j {
        lemma_terminals_two(runes, name, i, j, runes.len() as int);
    } else {
        lemma_terminals_two(runes, name, j, i, runes.len() as int);
    }
}

/// A name with exactly one terminal label has that label for its anchor,
/// and no other.
pub proof fn lemma_anchor_unique(runes: Seq<RuneView>, name: Seq<char>)
    requires
        terminals(runes, name, runes.len() as int) == 1,
    ensures
        anchor(runes, name) matches Some(at) && is_anchor(runes, name, at),
        forall|other: int| #[trigger]
            is_anchor(runes, name, other) ==> anchor(runes, name) == Some(other),
{
    lemma_anchor_from(runes, name, 0);
    if anchor(runes, name) is None {
        lemma_terminals_none(runes, name, runes.len() as int);
    }
    let at = anchor(runes, name)->Some_0;
    assert forall|other: int| #[trigger] is_anchor(runes, name, other) implies other == at by {
        if other != at {
            lemma_two_terminals(runes, name, other, at);
        }
    }
}

/// Whether the rune at `i` is a terminal label.
fn terminal_at(runes: &Vec<Rune>, i: usize) -> (terminal: bool)
    requires
        i < runes.len(),
    ensures
        terminal == is_terminal(stream_view(runes@), i as int),
{
    match &runes[i] {
        Rune::Label(_, _) => {
            if i + 1 < runes.len() {
                match &runes[i + 1] {
                    Rune::Process(_, _) => false,
                    _ => true,
                }
            } else {
                true
            }
        },
        _ => false,
    }
}

/// Whether the rune at `i` is the terminal label of the given name.
fn anchor_at(runes: &Vec<Rune>, name: &String, i: usize) -> (found: bool)
    requires
        i < runes.len(),
    ensures
        found == is_anchor(stream_view(runes@), name@, i as int),
{
    if terminal_at(runes, i) {
        match &runes[i] {
            Rune::Label(_, other) => *other == *name,
            _ => false,
        }
    } else {
        false
    }
}

/// Counts the terminal labels of the given name.
fn count_terminals(runes: &Vec<Rune>, name: &String) -> (count: usize)
    ensures
        count == terminals(stream_view(runes@), name@, runes.len() as int),
{
    let mut count: usize = 0;
    let mut i: usize = 0;
    while i < runes.len()
        invariant
            i <= runes.len(),
            count <= i,
            count == terminals(stream_view(runes@), name@, i as int),
        decreases runes.len() - i,
    {
        if anchor_at(runes, name, i) {
            count += 1;
        }
        i += 1;
    }
    count
}

/// Label resolution: checks a flattened stream, in stream order, for a
/// `Process` that follows no label and for a label whose name does not have
/// exactly one terminal label, and reports the first fault.
pub fn check_labels(runes: &Vec<Rune>) -> (checked: Result<(), CompileError>)
    ensures
        checked == check_labels_spec(stream_view(runes@)),
{
    let ghost source = stream_view(runes@);
    let mut i: usize = 0;
    while i < runes.len()
        invariant
            i <= runes.len(),
            source == stream_view(runes@),
            check_labels_spec(source) == check_from(source, i as int),
        decreases runes.len() - i,
    {
        match &runes[i] {
            Rune::Process(_, _) => {
                let mut follows_label = false;
                if i > 0 {
                    match &runes[i - 1] {
                        Rune::Label(_, _) => {
                            follows_label = true;
                        },
                        _ => {},
                    }
                }
                if !follows_label {
                    return Err(CompileError::OrphanProcess);
                }
            },
            Rune::Label(_, name) => {
                if count_terminals(runes, name) != 1 {
                    return Err(CompileError::DanglingLoop);
                }
            },
            _ => {},
        }
        i += 1;
    }
    Ok(())
}

/// Finds the anchor of a name.
pub(crate) fn find_anchor(runes: &Vec<Rune>, name: &String) -> (found: Option<usize>)
    ensures
        match found {
            Some(at) => anchor(stream_view(runes@), name@) == Some(at as int) && at < runes.len(),
            None => anchor(stream_view(runes@), name@) is None,
        },
{
    let mut i: usize = 0;
    while i < runes.len()
        invariant
            i <= runes.len(),
            anchor(stream_view(runes@), name@) == anchor_from(stream_view(runes@), name@, i as int),
        decreases runes.len() - i,
    {
        if anchor_at(runes, name, i) {
            return Some(i);
        }
        i += 1;
    }
    None
}

} // verus!
