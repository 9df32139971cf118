//! The linear fold: an unrolled stream, read from left to right, builds the
//! spell.

use vstd::prelude::*;
use core::ops::AddAssign;
use crate::compiler::{CompileError, Token, spell_view};
use crate::rune::{Attribute, Bullet, Modifiable, Trigger};
use crate::spell::{Spell, SpellRune, SpellRuneView, SpellView, lemma_spell_view, nodes_view};

verus! {

/// The position of the `End` that closes a `With` whose runes begin at
/// `from`, where `depth` further `With`s are open; the length of the stream
/// where no `End` closes it.
pub open spec fn closing(tokens: Seq<Token>, from: int, depth: nat) -> int
    decreases tokens.len() - from,
{
    if from >= tokens.len() {
        tokens.len() as int
    } else {
        match tokens[from] {
            Token::With(_, _) => closing(tokens, from + 1, depth + 1),
            Token::End => if depth == 0 {
                from
            } else {
                closing(tokens, from + 1, (depth - 1) as nat)
            },
            _ => closing(tokens, from + 1, depth),
        }
    }
}

/// The closing position lies between the start of the search and the end of
/// the stream.
pub proof fn lemma_closing_bounds(tokens: Seq<Token>, from: int, depth: nat)
    requires
        0 <= from <= tokens.len(),
    ensures
        from <= closing(tokens, from, depth) <= tokens.len(),
    decreases tokens.len() - from,
{
    if from < tokens.len() {
        match tokens[from] {
            Token::With(_, _) => lemma_closing_bounds(tokens, from + 1, depth + 1),
            Token::End => if depth != 0 {
                lemma_closing_bounds(tokens, from + 1, (depth - 1) as nat)
            },
            _ => lemma_closing_bounds(tokens, from + 1, depth),
        }
    }
}

impl SpellView {
    /// A `Stat` adds to the totals.
    pub open spec fn stat(self, a: Attribute) -> SpellView {
        SpellView { attr: self.attr.plus(a), rune_list: self.rune_list }
    }

    /// A `Noun` adds to the totals and opens a node with a copy of its
    /// projectile; the node before it is thereby closed.
    pub open spec fn noun(self, a: Attribute, bullet: Bullet) -> SpellView {
        SpellView {
            attr: self.attr.plus(a),
            rune_list: self.rune_list.push(SpellRuneView { bullet, trigger_spell: None }),
        }
    }

    /// A `Verb` adds `a` to the totals and applies `b` to the projectile of
    /// the open node, which is the last.
    pub open spec fn verb(self, a: Attribute, b: Attribute) -> SpellView {
        let open = self.rune_list.last();
        SpellView {
            attr: self.attr.plus(a),
            rune_list: self.rune_list.update(
                self.rune_list.len() - 1,
                SpellRuneView { bullet: open.bullet.modified(b), trigger_spell: open.trigger_spell },
            ),
        }
    }

    /// A `With` adds to the totals and attaches the trigger, with the spell
    /// it arms, to the open node; what was attached before is replaced.
    pub open spec fn with(self, a: Attribute, trigger: Trigger, nested: SpellView) -> SpellView {
        let open = self.rune_list.last();
        SpellView {
            attr: self.attr.plus(a),
            rune_list: self.rune_list.update(
                self.rune_list.len() - 1,
                SpellRuneView { bullet: open.bullet, trigger_spell: Some((trigger, nested)) },
            ),
        }
    }
}

/// The fold of the tokens from `from` on into the spell `acc` built so far,
/// whose last node is the open one.
///
/// `Verb` and `With` fail where no node is open. The tokens after a `With`,
/// up to the `End` that closes it, are folded on their own into the spell
/// that its trigger arms, and the fold goes on behind that `End`; where no
/// `End` closes it, they are all the tokens that are left. An `End` that
/// closes nothing is passed over.
pub open spec fn fold_from(tokens: Seq<Token>, from: int, acc: SpellView) -> Result<
    SpellView,
    CompileError,
>
    decreases tokens.len(), tokens.len() - from,
{
    if from < 0 || from >= tokens.len() {
        Ok(acc)
    } else {
        match tokens[from] {
            Token::Stat(a) => fold_from(tokens, from + 1, acc.stat(a)),
            Token::Noun(a, bullet) => fold_from(tokens, from + 1, acc.noun(a, bullet)),
            Token::Verb(a, b) => if acc.rune_list.len() == 0 {
                Err(CompileError::NoPrecedingNoun)
            } else {
                fold_from(tokens, from + 1, acc.verb(a, b))
            },
            Token::With(a, trigger) => if acc.rune_list.len() == 0 {
                Err(CompileError::NoPrecedingNoun)
            } else {
                let close = closing(tokens, from + 1, 0);
                proof {
                    lemma_closing_bounds(tokens, from + 1, 0);
                }
                match fold_from(tokens.subrange(from + 1, close), 0, SpellView::empty()) {
                    Ok(nested) => if close < tokens.len() {
                        fold_from(tokens, close + 1, acc.with(a, trigger, nested))
                    } else {
                        Ok(acc.with(a, trigger, nested))
                    },
                    Err(error) => Err(error),
                }
            },
            Token::End => fold_from(tokens, from + 1, acc),
        }
    }
}

/// The linear fold: the spell that a stream of tokens builds.
pub open spec fn fold_spec(tokens: Seq<Token>) -> Result<SpellView, CompileError> {
    fold_from(tokens, 0, SpellView::empty())
}

/// Folding on from `from` into a spell without nodes fails where a `Verb` or
/// a `With` comes before any `Noun`.
proof fn lemma_fold_from_needs_noun(tokens: Seq<Token>, from: int, at: int, acc: SpellView)
    requires
        0 <= from <= at < tokens.len(),
        tokens[at] is Verb || tokens[at] is With,
        forall|j: int| 0 <= j < at ==> !(#[trigger] tokens[j] is Noun),
        acc.rune_list.len() == 0,
    ensures
        fold_from(tokens, from, acc) == Err::<SpellView, CompileError>(
            CompileError::NoPrecedingNoun,
        ),
    decreases at - from,
{
    match tokens[from] {
        Token::Stat(a) => {
            lemma_fold_from_needs_noun(tokens, from + 1, at, acc.stat(a));
        },
        Token::End => {
            lemma_fold_from_needs_noun(tokens, from + 1, at, acc);
        },
        Token::Noun(_, _) => {
            assert(!(tokens[from] is Noun));
        },
        Token::Verb(_, _) => {},
        Token::With(_, _) => {},
    }
}

/// A stream of tokens in which a `Verb` or a `With` comes before any `Noun`
/// does not fold: it fails with `NoPrecedingNoun`.
pub proof fn lemma_fold_needs_noun(tokens: Seq<Token>, at: int)
    requires
        0 <= at < tokens.len(),
        tokens[at] is Verb || tokens[at] is With,
        forall|j: int| 0 <= j < at ==> !(#[trigger] tokens[j] is Noun),
    ensures
        fold_spec(tokens) == Err::<SpellView, CompileError>(CompileError::NoPrecedingNoun),
{
    lemma_fold_from_needs_noun(tokens, 0, at, SpellView::empty());
}

/// Finds the `End` that closes a `With` whose runes begin at `from`.
fn find_closing(tokens: &Vec<Token>, from: usize) -> (close: usize)
    requires
        from <= tokens.len(),
    ensures
        close == closing(tokens@, from as int, 0),
        from <= close <= tokens.len(),
{
    let mut depth: usize = 0;
    let mut i: usize = from;
    while i < tokens.len()
        invariant
            from <= i <= tokens.len(),
            depth <= i - from,
            closing(tokens@, from as int, 0) == closing(tokens@, i as int, depth as nat),
        decreases tokens.len() - i,
    {
        match tokens[i] {
            Token::With(_, _) => {
                depth += 1;
            },
            Token::End => {
                if depth == 0 {
                    return i;
                }
                depth -= 1;
            },
            _ => {},
        }
        i += 1;
    }
    i
}

/// Copies the tokens from `from` up to `to`.
fn copy_range(tokens: &Vec<Token>, from: usize, to: usize) -> (copy: Vec<Token>)
    requires
        from <= to <= tokens.len(),
    ensures
        copy@ == tokens@.subrange(from as int, to as int),
{
    let mut copy: Vec<Token> = Vec::new();
    let mut i: usize = from;
    while i < to
        invariant
            from <= i <= to <= tokens.len(),
            copy@ == tokens@.subrange(from as int, i as int),
        decreases to - i,
    {
        copy.push(tokens[i]);
        assert(copy@ =~= tokens@.subrange(from as int, i as int + 1));
        i += 1;
    }
    copy
}

/// The linear fold: walks an unrolled stream from left to right and builds
/// the spell. `Stat`, `Noun`, `Verb` and `With` add their first record to the
/// spell's totals; a `Noun` opens a node, a `Verb` modifies the open node's
/// projectile, a `With` attaches to it the spell folded from the tokens up to
/// the closing `End`. Fails with `NoPrecedingNoun` at a `Verb` or `With`
/// where no node is open.
pub fn fold(tokens: &Vec<Token>) -> (folded: Result<Spell, CompileError>)
    ensures
        spell_view(folded) == fold_spec(tokens@),
    decreases tokens.len(),
{
    let mut attr = Attribute::default();
    let mut nodes: Vec<SpellRune> = Vec::new();
    let mut i: usize = 0;
    assert(nodes_view(nodes@) =~= Seq::empty());
    while i < tokens.len()
        invariant
            i <= tokens.len(),
            fold_spec(tokens@) == fold_from(
                tokens@,
                i as int,
                SpellView { attr, rune_list: nodes_view(nodes@) },
            ),
        decreases tokens.len() - i,
    {
        let ghost acc = SpellView { attr, rune_list: nodes_view(nodes@) };
        match tokens[i] {
            Token::Stat(a) => {
                attr.add_assign(a);
                i += 1;
            },
            Token::Noun(a, bullet) => {
                attr.add_assign(a);
                nodes.push(SpellRune { bullet, trigger_spell: None });
                assert(nodes_view(nodes@) =~= acc.noun(a, bullet).rune_list);
                i += 1;
            },
            Token::Verb(a, b) => {
                match nodes.pop() {
                    None => {
                        return Err(CompileError::NoPrecedingNoun);
                    },
                    Some(open) => {
                        let mut bullet = open.bullet;
                        bullet.modify(b);
                        attr.add_assign(a);
                        nodes.push(SpellRune { bullet, trigger_spell: open.trigger_spell });
                        assert(nodes_view(nodes@) =~= acc.verb(a, b).rune_list);
                    },
                }
                i += 1;
            },
            Token::With(a, trigger) => {
                match nodes.pop() {
                    None => {
                        return Err(CompileError::NoPrecedingNoun);
                    },
                    Some(open) => {
                        let close = find_closing(tokens, i + 1);
                        let inner = copy_range(tokens, i + 1, close);
                        match fold(&inner) {
                            Err(error) => {
                                return Err(error);
                            },
                            Ok(nested) => {
                                attr.add_assign(a);
                                nodes.push(
                                    SpellRune {
                                        bullet: open.bullet,
                                        trigger_spell: Some((trigger, nested)),
                                    },
                                );
                                assert(nodes_view(nodes@) =~= acc.with(
                                    a,
                                    trigger,
                                    nested@,
                                ).rune_list);
                            },
                        }
                        if close < tokens.len() {
                            i = close + 1;
                        } else {
                            i = close;
                        }
                    },
                }
            },
            Token::End => {
                i += 1;
            },
        }
    }
    let spell = Spell { attr, rune_list: nodes };
    proof {
        lemma_spell_view(spell);
    }
    Ok(spell)
}

} // verus!
