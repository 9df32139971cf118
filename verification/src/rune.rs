//! The rune algebra: the additive `Attribute` record, the projectile and
//! trigger templates, and the tokens a wand is written in.

use vstd::prelude::*;
use core::ops::AddAssign;

verus! {

/// Every modifier a rune can contribute: timing, cost and projectile physics.
///
/// All quantities are whole numbers of the game's smallest unit. Sums wrap
/// around at the width of the field, so addition is total and the records
/// form a commutative group under it.
#[derive(Clone, Copy, Debug, PartialEq, Eq, Structural)]
pub struct Attribute {
    /// Runes consumed to produce this contribution.
    pub rune_num: i32,
    /// Preparation time before the first cast of a sequence.
    pub init_time: i64,
    /// Cooldown between two casts.
    pub back_time: i64,
    /// Cooldown between two rounds.
    pub round_time: i64,
    /// Casts permitted per round.
    pub round_num: i32,
    /// Initial angular offset of the projectile; lower is better.
    pub deflection: i64,
    /// Stamina spent by a cast.
    pub stamina_cost: i64,
    /// Balance spent by a cast.
    pub balance_cost: i64,
    /// Magicka spent by a cast.
    pub magicka_cost: i64,
    /// Launch force; with the projectile's weight it gives launch velocity.
    pub shoot_force: i64,
    /// Change to the projectile's sharpness.
    pub bullet_sharp: i64,
    /// Change to the projectile's lifetime.
    pub bullet_lifetime: i64,
}

impl Attribute {
    /// The record with every field zero: the identity of addition.
    pub open spec fn zero() -> Attribute {
        Attribute {
            rune_num: 0,
            init_time: 0,
            back_time: 0,
            round_time: 0,
            round_num: 0,
            deflection: 0,
            stamina_cost: 0,
            balance_cost: 0,
            magicka_cost: 0,
            shoot_force: 0,
            bullet_sharp: 0,
            bullet_lifetime: 0,
        }
    }

    /// Field-wise sum; each field wraps on its own.
    pub open spec fn plus(self, rhs: Attribute) -> Attribute {
        Attribute {
            rune_num: self.rune_num.wrapping_add(rhs.rune_num),
            init_time: self.init_time.wrapping_add(rhs.init_time),
            back_time: self.back_time.wrapping_add(rhs.back_time),
            round_time: self.round_time.wrapping_add(rhs.round_time),
            round_num: self.round_num.wrapping_add(rhs.round_num),
            deflection: self.deflection.wrapping_add(rhs.deflection),
            stamina_cost: self.stamina_cost.wrapping_add(rhs.stamina_cost),
            balance_cost: self.balance_cost.wrapping_add(rhs.balance_cost),
            magicka_cost: self.magicka_cost.wrapping_add(rhs.magicka_cost),
            shoot_force: self.shoot_force.wrapping_add(rhs.shoot_force),
            bullet_sharp: self.bullet_sharp.wrapping_add(rhs.bullet_sharp),
            bullet_lifetime: self.bullet_lifetime.wrapping_add(rhs.bullet_lifetime),
        }
    }

    /// `(a + b) + c == a + (b + c)`.
    pub proof fn lemma_plus_associative(a: Attribute, b: Attribute, c: Attribute)
        ensures
            a.plus(b).plus(c) == a.plus(b.plus(c)),
    {
    }

    /// `a + b == b + a`.
    pub proof fn lemma_plus_commutative(a: Attribute, b: Attribute)
        ensures
            a.plus(b) == b.plus(a),
    {
    }

    /// `a + zero == a`, and `zero + a == a`.
    pub proof fn lemma_plus_zero(a: Attribute)
        ensures
            a.plus(Attribute::zero()) == a,
            Attribute::zero().plus(a) == a,
    {
    }
}

impl Default for Attribute {
    fn default() -> (zero: Attribute)
        ensures
            zero == Attribute::zero(),
    {
        Attribute {
            rune_num: 0,
            init_time: 0,
            back_time: 0,
            round_time: 0,
            round_num: 0,
            deflection: 0,
            stamina_cost: 0,
            balance_cost: 0,
            magicka_cost: 0,
            shoot_force: 0,
            bullet_sharp: 0,
            bullet_lifetime: 0,
        }
    }
}

impl AddAssign for Attribute {
    /// Adds `rhs` to `self`, field by field.
    fn add_assign(&mut self, rhs: Attribute)
        ensures
            *final(self) == old(self).plus(rhs),
    {
        self.rune_num = self.rune_num.wrapping_add(rhs.rune_num);
        self.init_time = self.init_time.wrapping_add(rhs.init_time);
        self.back_time = self.back_time.wrapping_add(rhs.back_time);
        self.round_time = self.round_time.wrapping_add(rhs.round_time);
        self.round_num = self.round_num.wrapping_add(rhs.round_num);
        self.deflection = self.deflection.wrapping_add(rhs.deflection);
        self.stamina_cost = self.stamina_cost.wrapping_add(rhs.stamina_cost);
        self.balance_cost = self.balance_cost.wrapping_add(rhs.balance_cost);
        self.magicka_cost = self.magicka_cost.wrapping_add(rhs.magicka_cost);
        self.shoot_force = self.shoot_force.wrapping_add(rhs.shoot_force);
        self.bullet_sharp = self.bullet_sharp.wrapping_add(rhs.bullet_sharp);
        self.bullet_lifetime = self.bullet_lifetime.wrapping_add(rhs.bullet_lifetime);
    }
}

/// Anything that an `Attribute` can be applied to, in place and without
/// failing.
pub trait Modifiable: Sized {
    /// The value that `self` becomes when `attr` is applied to it.
    spec fn modified(self, attr: Attribute) -> Self;

    /// Applies `attr` to `self`.
    fn modify(&mut self, attr: Attribute)
        ensures
            *final(self) == old(self).modified(attr),
    ;
}

/// Anything that can perceive its surroundings: a user, a wand, an enemy,
/// the environment itself.
pub trait Veiwable {
    /// The abundance of up to three elements of the environment, where the
    /// viewer can sense it. A viewer that senses nothing answers `None`.
    fn env_element_abundance(&self) -> (seen: Option<(i32, i32, i32)>)
        default_ensures
            seen is None,
    {
        None
    }
}

/// A projectile template.
#[derive(Clone, Copy, Debug, PartialEq, Eq, Structural)]
pub struct Bullet {
    /// Initial angular offset; lower is better.
    pub deflection: i64,
    /// Launch velocity.
    pub velocity: i64,
    /// Weight; with launch force it gives launch velocity.
    pub weight: i64,
    /// Sharpness; with velocity it gives cutting damage.
    pub sharp: i64,
    /// How long the projectile lives once fired.
    pub lifetime: i64,
    /// Whether the projectile takes part in collisions.
    pub entity: bool,
    /// Damage it absorbs before it is destroyed.
    pub health: i64,
}

impl Modifiable for Bullet {
    /// Deflection, sharpness and lifetime add directly. Velocity grows by
    /// `shoot_force / weight`, and only where both are strictly positive.
    open spec fn modified(self, attr: Attribute) -> Bullet {
        Bullet {
            deflection: self.deflection.wrapping_add(attr.deflection),
            velocity: if self.weight > 0 && attr.shoot_force > 0 {
                self.velocity.wrapping_add((attr.shoot_force / self.weight) as i64)
            } else {
                self.velocity
            },
            weight: self.weight,
            sharp: self.sharp.wrapping_add(attr.bullet_sharp),
            lifetime: self.lifetime.wrapping_add(attr.bullet_lifetime),
            entity: self.entity,
            health: self.health,
        }
    }

    /// Applies `attr` to the projectile. Velocity is untouched where the
    /// projectile has no weight or the record no force: force with nothing to
    /// accelerate, or mass with nothing to push it, changes nothing.
    fn modify(&mut self, attr: Attribute)
        ensures
            old(self).weight <= 0 || attr.shoot_force <= 0 ==> final(self).velocity == old(
                self,
            ).velocity,
            old(self).weight > 0 && attr.shoot_force > 0 ==> final(self).velocity == old(
                self,
            ).velocity.wrapping_add((attr.shoot_force / old(self).weight) as i64),
            final(self).weight == old(self).weight,
            final(self).entity == old(self).entity,
            final(self).health == old(self).health,
    {
        self.deflection = self.deflection.wrapping_add(attr.deflection);
        if self.weight > 0 && attr.shoot_force > 0 {
            self.velocity = self.velocity.wrapping_add(attr.shoot_force / self.weight);
        }
        self.sharp = self.sharp.wrapping_add(attr.bullet_sharp);
        self.lifetime = self.lifetime.wrapping_add(attr.bullet_lifetime);
    }
}

/// A delayed, bounded re-cast of the sub-wand attached to a projectile.
#[derive(Clone, Copy, Debug, PartialEq, Eq, Structural)]
pub struct Trigger {
    /// How many times the trigger may fire.
    pub iter_limit: i32,
    /// Applied to the sub-wand's timing when the trigger fires.
    pub trigger_attr: Attribute,
    /// Time that passes before the trigger can fire.
    pub delay_trigger: i64,
}

/// One of the three elements whose abundance the environment reports.
#[derive(Clone, Copy, Debug, PartialEq, Eq, Structural)]
pub enum Element {
    First,
    Second,
    Third,
}

/// The condition of a `Process` rune, as a value: it is asked with what the
/// environment reports, the number of jumps the compilation has taken so far
/// and the number of jumps taken to this rune's label.
#[derive(Clone, Copy, Debug, PartialEq, Eq, Structural)]
pub enum LoopPredicate {
    /// Never holds.
    Never,
    /// Always holds.
    Always,
    /// Holds while the label has been jumped to fewer times than this.
    LabelLoopBelow(i32),
    /// Holds while the compilation has jumped fewer times than this.
    CurrentLoopBelow(i32),
    /// Holds where the environment reports at least this much of the element;
    /// an environment that reports nothing never satisfies it.
    AbundanceAtLeast(Element, i32),
}

impl LoopPredicate {
    /// Whether the condition holds.
    pub open spec fn holds(
        self,
        abundance: Option<(i32, i32, i32)>,
        current_loop: i32,
        label_loop: i32,
    ) -> bool {
        match self {
            LoopPredicate::Never => false,
            LoopPredicate::Always => true,
            LoopPredicate::LabelLoopBelow(n) => label_loop < n,
            LoopPredicate::CurrentLoopBelow(n) => current_loop < n,
            LoopPredicate::AbundanceAtLeast(element, least) => match abundance {
                None => false,
                Some((first, second, third)) => match element {
                    Element::First => first >= least,
                    Element::Second => second >= least,
                    Element::Third => third >= least,
                },
            },
        }
    }

    /// Evaluates the condition.
    pub fn eval(
        &self,
        abundance: Option<(i32, i32, i32)>,
        current_loop: i32,
        label_loop: i32,
    ) -> (held: bool)
        ensures
            held == self.holds(abundance, current_loop, label_loop),
    {
        match *self {
            LoopPredicate::Never => false,
            LoopPredicate::Always => true,
            LoopPredicate::LabelLoopBelow(n) => label_loop < n,
            LoopPredicate::CurrentLoopBelow(n) => current_loop < n,
            LoopPredicate::AbundanceAtLeast(element, least) => match abundance {
                None => false,
                Some((first, second, third)) => match element {
                    Element::First => first >= least,
                    Element::Second => second >= least,
                    Element::Third => third >= least,
                },
            },
        }
    }
}

/// A token of the language a wand is written in. Runes exist only until the
/// wand is compiled.
#[derive(Debug, PartialEq, Eq)]
pub enum Rune {
    /// A modifier with no projectile.
    Stat(Attribute),
    /// Redefines the noun before it: the first record goes to the spell's
    /// totals, the second is applied to the noun's projectile.
    Verb(Attribute, Attribute),
    /// A projectile.
    Noun(Attribute, Bullet),
    /// Packs the runes that follow, up to the matching `End`, into a sub-wand
    /// attached to the noun before it.
    With(Attribute, Trigger),
    /// A named anchor. Of the labels of one name exactly one is not followed
    /// by a `Process`: the one that jumps go to.
    Label(Attribute, String),
    /// Follows a label; where its condition holds the read pointer jumps to
    /// the anchor of that label's name.
    Process(Attribute, LoopPredicate),
    /// A compound rune, which stands for the runes it holds.
    Package(Vec<Rune>),
    /// Closes the innermost open `With`.
    End,
}

/// What a `Rune` is, with its name as a sequence of characters and its
/// package as a sequence of runes.
pub enum RuneView {
    Stat(Attribute),
    Verb(Attribute, Attribute),
    Noun(Attribute, Bullet),
    With(Attribute, Trigger),
    Label(Attribute, Seq<char>),
    Process(Attribute, LoopPredicate),
    Package(Seq<RuneView>),
    End,
}

impl View for Rune {
    type V = RuneView;

    open spec fn view(&self) -> RuneView
        decreases self,
    {
        match self {
            Rune::Stat(a) => RuneView::Stat(*a),
            Rune::Verb(a, b) => RuneView::Verb(*a, *b),
            Rune::Noun(a, bullet) => RuneView::Noun(*a, *bullet),
            Rune::With(a, trigger) => RuneView::With(*a, *trigger),
            Rune::Label(a, name) => RuneView::Label(*a, name@),
            Rune::Process(a, predicate) => RuneView::Process(*a, *predicate),
            Rune::Package(runes) => RuneView::Package(
                Seq::new(
                    runes.len() as nat,
                    |i: int|
                        if 0 <= i < runes.len() {
                            runes[i].view()
                        } else {
                            arbitrary()
                        },
                ),
            ),
            Rune::End => RuneView::End,
        }
    }
}

/// A stream of runes, each taken by its view.
pub open spec fn stream_view(runes: Seq<Rune>) -> Seq<RuneView> {
    runes.map_values(|rune: Rune| rune@)
}

/// The view of a package is the package of its runes' views.
pub proof fn lemma_package_view(rune: Rune)
    requires
        rune is Package,
    ensures
        rune@ == RuneView::Package(stream_view(rune->Package_0@)),
{
    reveal_with_fuel(<Rune as View>::view, 2);
    assert(rune@->Package_0 =~= stream_view(rune->Package_0@));
}

} // verus!
