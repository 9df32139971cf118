//! The wand and the raw, uncompiled stream of runes it is loaded with.

use vstd::prelude::*;
use crate::compiler::{CompileError, compile, compile_for, compile_spec, compile_within, spell_view};
use crate::rune::{Attribute, Rune, RuneView, Veiwable, stream_view};
use crate::spell::Spell;

verus! {

/// A wand: how many runes it has room for, and what it contributes by itself
/// to the timing and cost of whatever it casts.
#[derive(Clone, Copy, Debug, PartialEq, Eq, Structural)]
pub struct Wand {
    pub rune_capacity: i32,
    pub attr: Attribute,
}

/// The source of a spell: runes in order, and the cursor of the editor that
/// writes them.
#[derive(Debug, PartialEq, Eq)]
pub struct RuneCollection {
    pub rune_list: Vec<Rune>,
    pub rune_index: usize,
}

impl View for RuneCollection {
    type V = Seq<RuneView>;

    /// The runes, in order. The cursor is no part of what is compiled.
    open spec fn view(&self) -> Seq<RuneView> {
        stream_view(self.rune_list@)
    }
}

impl RuneCollection {
    /// Compiles the collection into a spell, in an environment that reports
    /// `abundance`.
    pub fn compile(&self, abundance: Option<(i32, i32, i32)>) -> (compiled: Result<
        Spell,
        CompileError,
    >)
        ensures
            spell_view(compiled) == compile_spec(self@, abundance),
    {
        compile(&self.rune_list, abundance)
    }
}

/// A wand perceives nothing by itself.
impl Veiwable for Wand {

}

impl Wand {
    /// Compiles a collection for this wand: as `RuneCollection::compile`
    /// does, but the unrolled stream must fit the wand, or the compilation
    /// fails with `CapacityExceeded`.
    pub fn compile(&self, runes: &RuneCollection, abundance: Option<(i32, i32, i32)>) -> (compiled:
        Result<Spell, CompileError>)
        ensures
            spell_view(compiled) == compile_within(runes@, abundance, Some(self.rune_capacity)),
    {
        compile_for(&runes.rune_list, abundance, Some(self.rune_capacity))
    }
}

} // verus!
