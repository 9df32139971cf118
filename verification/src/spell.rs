//! The compiled artifact: a tree of projectile templates, each with the
//! sub-wand that its trigger arms.

use vstd::prelude::*;
use crate::rune::{Attribute, Bullet, Trigger};

verus! {

/// One node of a compiled spell: a projectile template and, where a trigger
/// is attached, the trigger with the spell it arms. The node owns that spell.
#[derive(Debug, PartialEq, Eq)]
pub struct SpellRune {
    pub bullet: Bullet,
    pub trigger_spell: Option<(Trigger, Spell)>,
}

/// A compiled wand: the sum of what its runes contribute, and its projectiles
/// in the order in which the runes introduced them.
#[derive(Debug, PartialEq, Eq)]
pub struct Spell {
    pub attr: Attribute,
    pub rune_list: Vec<SpellRune>,
}

/// What a `SpellRune` is.
pub struct SpellRuneView {
    pub bullet: Bullet,
    pub trigger_spell: Option<(Trigger, SpellView)>,
}

/// What a `Spell` is, with its nodes as a sequence.
pub struct SpellView {
    pub attr: Attribute,
    pub rune_list: Seq<SpellRuneView>,
}

impl View for SpellRune {
    type V = SpellRuneView;

    open spec fn view(&self) -> SpellRuneView
        decreases self,
    {
        SpellRuneView {
            bullet: self.bullet,
            trigger_spell: match self.trigger_spell {
                Some((trigger, spell)) => Some((trigger, spell.view())),
                None => None,
            },
        }
    }
}

impl View for Spell {
    type V = SpellView;

    open spec fn view(&self) -> SpellView
        decreases self,
    {
        SpellView {
            attr: self.attr,
            rune_list: Seq::new(
                self.rune_list.len() as nat,
                |i: int|
                    if 0 <= i < self.rune_list.len() {
                        self.rune_list[i].view()
                    } else {
                        arbitrary()
                    },
            ),
        }
    }
}

/// A sequence of nodes, each taken by its view.
pub open spec fn nodes_view(nodes: Seq<SpellRune>) -> Seq<SpellRuneView> {
    nodes.map_values(|node: SpellRune| node@)
}

impl SpellView {
    /// The spell of the empty stream: nothing contributed, no projectile.
    pub open spec fn empty() -> SpellView {
        SpellView { attr: Attribute::zero(), rune_list: Seq::empty() }
    }
}

/// The view of a spell holds the views of its nodes.
pub proof fn lemma_spell_view(spell: Spell)
    ensures
        spell@ == (SpellView { attr: spell.attr, rune_list: nodes_view(spell.rune_list@) }),
{
    reveal_with_fuel(<Spell as View>::view, 2);
    assert(spell@.rune_list =~= nodes_view(spell.rune_list@));
}

} // verus!
