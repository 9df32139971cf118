//! The casting state machine: walks a compiled spell under the timing gates
//! of its wand and says when it fires. A clock outside the library drives it;
//! nothing here waits.

use vstd::prelude::*;
use core::ops::AddAssign;
use crate::rune::{Attribute, Bullet, Trigger};
use crate::spell::{Spell, SpellRuneView, SpellView, lemma_spell_view};

verus! {

/// Where a casting sequence stands.
#[derive(Clone, Copy, Debug, PartialEq, Eq, Structural)]
pub enum Phase {
    /// No cast was requested; the next request starts a fresh sequence.
    Idle,
    /// Held for the preparation time of the sequence's first cast.
    Preparing,
    /// Free to fire as soon as a cast is requested.
    Ready,
    /// Fired at the last advance.
    Firing,
    /// Held between two casts of a round.
    Cooling,
    /// Held between two rounds.
    RoundCooling,
}

/// What the caster has left to spend.
#[derive(Clone, Copy, Debug, PartialEq, Eq, Structural)]
pub struct Reserve {
    pub stamina: i64,
    pub balance: i64,
    pub magicka: i64,
}

/// The answer to a cast request.
#[derive(Clone, Copy, Debug, PartialEq, Eq, Structural)]
pub enum CastOutcome {
    /// The request stands until the sequence fires.
    Accepted,
    /// The caster cannot pay for the cast; nothing changed.
    Denied,
}

/// A trigger that a fired projectile carries, with its schedule.
#[derive(Clone, Copy, Debug, PartialEq, Eq, Structural)]
pub struct ArmedTrigger {
    /// When the trigger fires next.
    pub due: i64,
    /// When the projectile that carries it dies.
    pub expires: i64,
    /// How many times it may still fire.
    pub remaining: i32,
    /// The time between two firings.
    pub delay: i64,
    /// What the trigger contributes to the timing of the spell it casts.
    pub attr: Attribute,
}

/// What has come of an armed trigger at some time.
#[derive(Clone, Copy, Debug, PartialEq, Eq, Structural)]
pub enum TriggerEvent {
    /// It is not due yet.
    Waiting,
    /// It fired: the spell it arms is to be cast as a sequence of its own.
    Fired,
    /// Its projectile died before it came due; it will not fire any more.
    Lapsed,
    /// It has fired as often as it may.
    Spent,
}

/// What a firing wand asks of the world.
#[derive(Clone, Copy, Debug, PartialEq, Eq, Structural)]
pub enum FireEvent {
    /// A live projectile, copied from the template of the spell's node `rune`.
    Spawn { rune: usize, bullet: Bullet },
    /// The trigger of the node `rune`, armed on the projectile just spawned.
    Arm { rune: usize, armed: ArmedTrigger },
}

/// The state of one casting sequence.
#[derive(Clone, Copy, Debug, PartialEq, Eq, Structural)]
pub struct WandState {
    pub phase: Phase,
    /// The timing and cost of a cast: what the wand and the spell contribute
    /// together.
    pub timing: Attribute,
    /// When the hold of the current phase ends.
    pub next_eligible: i64,
    /// Whether a cast was requested that has not fired yet.
    pub requested: bool,
    /// Casts fired in the current round.
    pub fired: i32,
}

/// The time `hold` after `now`, kept within the range of the clock.
pub open spec fn after(now: i64, hold: i64) -> i64 {
    if now + hold > i64::MAX {
        i64::MAX
    } else if now + hold < i64::MIN {
        i64::MIN
    } else {
        (now + hold) as i64
    }
}

/// The time `hold` after `now`.
pub fn deadline(now: i64, hold: i64) -> (at: i64)
    ensures
        at == after(now, hold),
{
    if hold >= 0 {
        if now > i64::MAX - hold {
            i64::MAX
        } else {
            now + hold
        }
    } else {
        if now < i64::MIN - hold {
            i64::MIN
        } else {
            now + hold
        }
    }
}

/// The trigger as it is armed on a projectile spawned at `now`: due after its
/// delay, for as many firings as its limit allows, on a projectile that dies
/// when its lifetime is over.
pub open spec fn armed_at(trigger: Trigger, bullet: Bullet, now: i64) -> ArmedTrigger {
    ArmedTrigger {
        due: after(now, trigger.delay_trigger),
        expires: after(now, bullet.lifetime),
        remaining: trigger.iter_limit,
        delay: trigger.delay_trigger,
        attr: trigger.trigger_attr,
    }
}

/// The events of one node: its projectile and, where it has a trigger, the
/// trigger armed.
pub open spec fn node_events(node: SpellRuneView, rune: usize, now: i64) -> Seq<FireEvent> {
    match node.trigger_spell {
        None => seq![FireEvent::Spawn { rune, bullet: node.bullet }],
        Some((trigger, _)) => seq![
            FireEvent::Spawn { rune, bullet: node.bullet },
            FireEvent::Arm { rune, armed: armed_at(trigger, node.bullet, now) },
        ],
    }
}

/// The events of the first `upto` top-level nodes of a spell, in order.
pub open spec fn events_upto(spell: SpellView, upto: int, now: i64) -> Seq<FireEvent>
    decreases upto,
{
    if upto <= 0 {
        Seq::empty()
    } else {
        events_upto(spell, upto - 1, now) + node_events(
            spell.rune_list[upto - 1],
            (upto - 1) as usize,
            now,
        )
    }
}

/// The events of one cast of a spell at `now`: every top-level node fires.
pub open spec fn fire_events(spell: SpellView, now: i64) -> Seq<FireEvent> {
    events_upto(spell, spell.rune_list.len() as int, now)
}

impl ArmedTrigger {
    /// What comes of the trigger at `now`.
    pub open spec fn event_at(self, now: i64) -> TriggerEvent {
        if self.remaining <= 0 {
            TriggerEvent::Spent
        } else if now < self.due {
            TriggerEvent::Waiting
        } else if self.expires < self.due {
            TriggerEvent::Lapsed
        } else {
            TriggerEvent::Fired
        }
    }

    /// The trigger after it was polled at `now`: one firing spent and armed
    /// again where it fired, spent for good where it lapsed, and unchanged
    /// otherwise.
    pub open spec fn polled(self, now: i64) -> ArmedTrigger {
        match self.event_at(now) {
            TriggerEvent::Fired => ArmedTrigger {
                due: after(self.due, self.delay),
                remaining: (self.remaining - 1) as i32,
                ..self
            },
            TriggerEvent::Lapsed => ArmedTrigger { remaining: 0, ..self },
            _ => self,
        }
    }

    /// Asks the trigger whether it fires at `now`. On `Fired` the caller
    /// casts the spell that the trigger arms, as a sequence of its own.
    pub fn poll(&mut self, now: i64) -> (event: TriggerEvent)
        ensures
            event == old(self).event_at(now),
            *final(self) == old(self).polled(now),
    {
        if self.remaining <= 0 {
            TriggerEvent::Spent
        } else if now < self.due {
            TriggerEvent::Waiting
        } else if self.expires < self.due {
            self.remaining = 0;
            TriggerEvent::Lapsed
        } else {
            self.remaining = self.remaining - 1;
            self.due = deadline(self.due, self.delay);
            TriggerEvent::Fired
        }
    }
}

impl WandState {
    /// A fresh sequence for a spell: idle, with the timing that `base` (a
    /// wand's own record, or a trigger's) and the spell contribute together.
    pub open spec fn fresh(base: Attribute, spell: SpellView) -> WandState {
        WandState {
            phase: Phase::Idle,
            timing: base.plus(spell.attr),
            next_eligible: 0,
            requested: false,
            fired: 0,
        }
    }

    /// Whether the caster can pay for a cast.
    pub open spec fn affordable(self, reserve: Reserve) -> bool {
        &&& self.timing.stamina_cost <= reserve.stamina
        &&& self.timing.balance_cost <= reserve.balance
        &&& self.timing.magicka_cost <= reserve.magicka
    }

    /// The state once every hold that has ended by `now` is left behind.
    /// A sequence that fired goes to cooling, between rounds where the round
    /// is used up; a hold that is over gives way to `Ready`. The end of a
    /// round starts the count of casts anew, and passes through preparation
    /// without a hold: only the first cast of a sequence is prepared.
    pub open spec fn settled(self, now: i64) -> WandState {
        let cooling = if self.phase is Firing {
            WandState {
                phase: if self.fired >= self.timing.round_num {
                    Phase::RoundCooling
                } else {
                    Phase::Cooling
                },
                ..self
            }
        } else {
            self
        };
        if now < cooling.next_eligible {
            cooling
        } else {
            match cooling.phase {
                Phase::Preparing => WandState { phase: Phase::Ready, ..cooling },
                Phase::Cooling => WandState { phase: Phase::Ready, ..cooling },
                Phase::RoundCooling => WandState { phase: Phase::Ready, fired: 0, ..cooling },
                _ => cooling,
            }
        }
    }

    /// The state after an accepted request at `now`: the request stands, and
    /// an idle sequence starts to prepare, for its preparation time.
    pub open spec fn requested_at(self, now: i64) -> WandState {
        if self.phase is Idle {
            WandState {
                phase: Phase::Preparing,
                next_eligible: after(now, self.timing.init_time),
                requested: true,
                fired: 0,
                ..self
            }.settled(now)
        } else {
            WandState { requested: true, ..self }.settled(now)
        }
    }

    /// Whether the sequence fires when it is advanced to `now`: it is ready
    /// by then, and a cast is requested.
    pub open spec fn fires(self, now: i64) -> bool {
        self.settled(now).phase is Ready && self.settled(now).requested
    }

    /// The state after an advance to `now`. Where the sequence fires, the
    /// request is served and the cast counted (the count stops at the largest
    /// number it can hold); the next hold lasts the
    /// cooldown between casts, or the cooldown between rounds where this cast
    /// used the round up. Otherwise the state is what has settled by `now`.
    pub open spec fn advanced(self, now: i64) -> WandState {
        let ready = self.settled(now);
        if self.fires(now) {
            let fired = if ready.fired < i32::MAX {
                (ready.fired + 1) as i32
            } else {
                ready.fired
            };
            WandState {
                phase: Phase::Firing,
                timing: ready.timing,
                next_eligible: after(
                    now,
                    if fired >= ready.timing.round_num {
                        ready.timing.round_time
                    } else {
                        ready.timing.back_time
                    },
                ),
                requested: false,
                fired,
            }
        } else {
            ready
        }
    }

    /// Only the first cast of a sequence is prepared: a request to a
    /// sequence that is under way moves no deadline, and neither a request
    /// nor an advance sends such a sequence back to preparation or to idle.
    pub proof fn lemma_prepares_once(self, now: i64)
        requires
            !(self.phase is Idle),
        ensures
            self.requested_at(now).next_eligible == self.next_eligible,
            self.requested_at(now).phase is Preparing ==> self.phase is Preparing,
            self.advanced(now).phase is Preparing ==> self.phase is Preparing,
            !(self.requested_at(now).phase is Idle),
            !(self.advanced(now).phase is Idle),
    {
    }

    /// A cast that fires serves the request and is followed by a hold of the
    /// cooldown between casts or between rounds, counted from the time of the
    /// cast. Until a cast is requested again, nothing more fires.
    pub proof fn lemma_fire_then_hold(self, now: i64)
        requires
            self.fires(now),
        ensures
            self.advanced(now).phase is Firing,
            !self.advanced(now).requested,
            self.advanced(now).next_eligible == after(now, self.timing.back_time)
                || self.advanced(now).next_eligible == after(now, self.timing.round_time),
            forall|later: i64| !(#[trigger] self.advanced(now).fires(later)),
    {
    }

    /// Starts a sequence for a spell, idle.
    pub fn begin(base: Attribute, spell: &Spell) -> (state: WandState)
        ensures
            state == WandState::fresh(base, spell@),
    {
        let mut timing = base;
        timing.add_assign(spell.attr);
        proof {
            lemma_spell_view(*spell);
        }
        WandState { phase: Phase::Idle, timing, next_eligible: 0, requested: false, fired: 0 }
    }

    /// Leaves behind every hold that has ended by `now`.
    pub fn settle(&mut self, now: i64)
        ensures
            *final(self) == old(self).settled(now),
    {
        if self.phase == Phase::Firing {
            if self.fired >= self.timing.round_num {
                self.phase = Phase::RoundCooling;
            } else {
                self.phase = Phase::Cooling;
            }
        }
        if now >= self.next_eligible {
            match self.phase {
                Phase::Preparing => {
                    self.phase = Phase::Ready;
                },
                Phase::Cooling => {
                    self.phase = Phase::Ready;
                },
                Phase::RoundCooling => {
                    self.phase = Phase::Ready;
                    self.fired = 0;
                },
                _ => {},
            }
        }
    }

    /// Requests a cast at `now`. The request is denied, and nothing changes,
    /// where the caster cannot pay what a cast costs. Otherwise it stands
    /// until the sequence fires; an idle sequence starts to prepare.
    pub fn request(&mut self, now: i64, reserve: Reserve) -> (outcome: CastOutcome)
        ensures
            outcome == if old(self).affordable(reserve) {
                CastOutcome::Accepted
            } else {
                CastOutcome::Denied
            },
            *final(self) == if old(self).affordable(reserve) {
                old(self).requested_at(now)
            } else {
                *old(self)
            },
    {
        if self.timing.stamina_cost > reserve.stamina || self.timing.balance_cost > reserve.balance
            || self.timing.magicka_cost > reserve.magicka {
            return CastOutcome::Denied;
        }
        if self.phase == Phase::Idle {
            self.phase = Phase::Preparing;
            self.next_eligible = deadline(now, self.timing.init_time);
            self.fired = 0;
        }
        self.requested = true;
        self.settle(now);
        CastOutcome::Accepted
    }

    /// Cancels the sequence: it is idle again, and the next request starts a
    /// fresh one.
    pub fn cancel(&mut self)
        ensures
            *final(self) == (WandState {
                phase: Phase::Idle,
                requested: false,
                fired: 0,
                ..*old(self)
            }),
    {
        self.phase = Phase::Idle;
        self.requested = false;
        self.fired = 0;
    }

    /// Advances the sequence to `now` and returns what it fires: nothing, or
    /// one cast of the spell, in which every top-level node spawns a copy of
    /// its projectile and arms its trigger.
    pub fn advance(&mut self, spell: &Spell, now: i64) -> (events: Vec<FireEvent>)
        ensures
            *final(self) == old(self).advanced(now),
            events@ == if old(self).fires(now) {
                fire_events(spell@, now)
            } else {
                Seq::empty()
            },
    {
        let mut events: Vec<FireEvent> = Vec::new();
        self.settle(now);
        if self.phase == Phase::Ready && self.requested {
            if self.fired < i32::MAX {
                self.fired = self.fired + 1;
            }
            let hold = if self.fired >= self.timing.round_num {
                self.timing.round_time
            } else {
                self.timing.back_time
            };
            self.next_eligible = deadline(now, hold);
            self.requested = false;
            self.phase = Phase::Firing;
            proof {
                lemma_spell_view(*spell);
            }
            let mut i: usize = 0;
            while i < spell.rune_list.len()
                invariant
                    i <= spell.rune_list.len(),
                    spell@.rune_list.len() == spell.rune_list.len(),
                    forall|k: int|
                        0 <= k < spell.rune_list.len() ==> spell@.rune_list[k]
                            == #[trigger] spell.rune_list[k]@,
                    events@ == events_upto(spell@, i as int, now),
                decreases spell.rune_list.len() - i,
            {
                let node = &spell.rune_list[i];
                let ghost before = events@;
                let ghost view = spell.rune_list[i as int]@;
                assert(spell@.rune_list[i as int] == view);
                assert(view.bullet == node.bullet);
                assert(view.trigger_spell is Some == node.trigger_spell is Some);
                assert(node.trigger_spell matches Some((trigger, _)) ==> view.trigger_spell->Some_0.0
                    == trigger);
                events.push(FireEvent::Spawn { rune: i, bullet: node.bullet });
                match &node.trigger_spell {
                    Some((trigger, _)) => {
                        let armed = ArmedTrigger {
                            due: deadline(now, trigger.delay_trigger),
                            expires: deadline(now, node.bullet.lifetime),
                            remaining: trigger.iter_limit,
                            delay: trigger.delay_trigger,
                            attr: trigger.trigger_attr,
                        };
                        events.push(FireEvent::Arm { rune: i, armed });
                    },
                    None => {},
                }
                assert(events@ =~= before + node_events(view, i, now));
                i += 1;
            }
        }
        events
    }
}

} // verus!
