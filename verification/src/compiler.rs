//! The rune compiler. A stream of runes becomes a spell in four phases:
//! packages are expanded, labels resolved, loops unrolled, and the unrolled
//! stream is folded into the spell.

use vstd::prelude::*;
use crate::compiler::labels::{check_labels, check_labels_spec};
use crate::compiler::linear::{fold, fold_spec};
use crate::compiler::loops::{unroll, unroll_spec};
use crate::compiler::packages::{expand, flatten};
use crate::rune::{Attribute, Bullet, Rune, RuneView, Trigger, Veiwable, stream_view};
use crate::spell::{Spell, SpellView};

pub mod labels;
pub mod laws;
pub mod linear;
pub mod loops;
pub mod packages;

verus! {

/// Why a stream of runes does not compile.
#[derive(Clone, Copy, Debug, PartialEq, Eq, Structural)]
pub enum CompileError {
    /// A `Verb` or a `With` stands where no noun is open.
    NoPrecedingNoun,
    /// A `Process` does not directly follow a `Label`.
    OrphanProcess,
    /// Of the labels of one name, none or more than one is not followed by a
    /// `Process`.
    DanglingLoop,
    /// Unrolling the loops took more jumps than the limit allows.
    LoopOverflow,
    /// The unrolled stream holds more runes than the wand has room for.
    CapacityExceeded,
}

/// A rune of the unrolled stream: what is left once packages are expanded
/// and labels and processes are resolved.
#[derive(Clone, Copy, Debug, PartialEq, Eq, Structural)]
pub enum Token {
    Stat(Attribute),
    Verb(Attribute, Attribute),
    Noun(Attribute, Bullet),
    With(Attribute, Trigger),
    End,
}

/// What a compilation returns, with the spell taken by its view.
pub open spec fn spell_view(compiled: Result<Spell, CompileError>) -> Result<
    SpellView,
    CompileError,
> {
    match compiled {
        Ok(spell) => Ok(spell@),
        Err(error) => Err(error),
    }
}

/// Compilation for a wand with room for `capacity` runes, or for no wand in
/// particular: package expansion, then label resolution, then loop
/// resolution, then the fold. The first phase that fails gives the error.
/// Between loop resolution and the fold, an unrolled stream with more tokens
/// than the wand has room for fails with `CapacityExceeded`.
pub open spec fn compile_within(
    runes: Seq<RuneView>,
    abundance: Option<(i32, i32, i32)>,
    capacity: Option<i32>,
) -> Result<SpellView, CompileError> {
    let flat = flatten(runes);
    match check_labels_spec(flat) {
        Err(error) => Err(error),
        Ok(_) => match unroll_spec(flat, abundance) {
            Err(error) => Err(error),
            Ok(tokens) => if capacity is Some && tokens.len() > capacity->Some_0 {
                Err(CompileError::CapacityExceeded)
            } else {
                fold_spec(tokens)
            },
        },
    }
}

/// The spell that a stream of runes compiles to, in an environment that
/// reports `abundance`.
pub open spec fn compile_spec(runes: Seq<RuneView>, abundance: Option<(i32, i32, i32)>) -> Result<
    SpellView,
    CompileError,
> {
    compile_within(runes, abundance, None)
}

/// Whether a stream of `len` tokens is more than `capacity` runes.
fn exceeds(len: usize, capacity: i32) -> (over: bool)
    ensures
        over == (len > capacity),
{
    capacity < 0 || len > capacity as usize
}

/// Compiles a stream of runes for a wand with room for `capacity` runes, or
/// for no wand in particular.
pub fn compile_for(
    runes: &Vec<Rune>,
    abundance: Option<(i32, i32, i32)>,
    capacity: Option<i32>,
) -> (compiled: Result<Spell, CompileError>)
    ensures
        spell_view(compiled) == compile_within(stream_view(runes@), abundance, capacity),
{
    let flat = expand(runes);
    match check_labels(&flat) {
        Err(error) => Err(error),
        Ok(_) => match unroll(&flat, abundance) {
            Err(error) => Err(error),
            Ok(tokens) => {
                let over = match capacity {
                    Some(room) => exceeds(tokens.len(), room),
                    None => false,
                };
                if over {
                    Err(CompileError::CapacityExceeded)
                } else {
                    fold(&tokens)
                }
            },
        },
    }
}

/// Compiles a stream of runes into a spell, in an environment that reports
/// `abundance`. Nothing is built where the stream does not compile.
pub fn compile(runes: &Vec<Rune>, abundance: Option<(i32, i32, i32)>) -> (compiled: Result<
    Spell,
    CompileError,
>)
    ensures
        spell_view(compiled) == compile_spec(stream_view(runes@), abundance),
{
    compile_for(runes, abundance, None)
}

/// Compiles a stream of runes as `viewer` perceives the environment: asks the
/// viewer once, and returns what it reported with the compilation that went
/// by it.
pub fn compile_in<V: Veiwable>(runes: &Vec<Rune>, viewer: &V) -> (out: (
    Option<(i32, i32, i32)>,
    Result<Spell, CompileError>,
))
    ensures
        spell_view(out.1) == compile_spec(stream_view(runes@), out.0),
{
    let seen = viewer.env_element_abundance();
    (seen, compile(runes, seen))
}

} // verus!
