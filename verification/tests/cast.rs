use rune_wand::cast::{
    deadline, ArmedTrigger, CastOutcome, FireEvent, Phase, Reserve, TriggerEvent, WandState,
};
use rune_wand::compiler::compile;
use rune_wand::rune::{Attribute, Bullet, Rune, Trigger};
use rune_wand::spell::{Spell, SpellRune};
use rune_wand::wand::Wand;

fn zero() -> Attribute {
    Attribute::default()
}

fn bullet(n: i64) -> Bullet {
    Bullet { deflection: n, velocity: 10 * n, weight: 2, sharp: n, lifetime: 100 + n, entity: true, health: 5 }
}

fn timing(init: i64, back: i64, round: i64, casts: i32) -> Attribute {
    let mut a = zero();
    a.init_time = init;
    a.back_time = back;
    a.round_time = round;
    a.round_num = casts;
    a
}

fn two_runes() -> Spell {
    Spell {
        attr: zero(),
        rune_list: vec![
            SpellRune { bullet: bullet(1), trigger_spell: None },
            SpellRune { bullet: bullet(2), trigger_spell: None },
        ],
    }
}

fn both() -> Vec<FireEvent> {
    vec![
        FireEvent::Spawn { rune: 0, bullet: bullet(1) },
        FireEvent::Spawn { rune: 1, bullet: bullet(2) },
    ]
}

fn plenty() -> Reserve {
    Reserve { stamina: 1000, balance: 1000, magicka: 1000 }
}

#[test]
fn wand_casts_by_its_timing_gates() {
    let wand = Wand { rune_capacity: 8, attr: timing(100, 20, 200, 2) };
    let spell = two_runes();
    let mut state = WandState::begin(wand.attr, &spell);
    assert_eq!(state.phase, Phase::Idle);
    assert_eq!(state.advance(&spell, 0), vec![]);
    assert_eq!(state.phase, Phase::Idle);

    // the first cast of the sequence is prepared for init_time
    assert_eq!(state.request(0, plenty()), CastOutcome::Accepted);
    assert_eq!(state.phase, Phase::Preparing);
    assert_eq!(state.next_eligible, 100);
    assert_eq!(state.advance(&spell, 99), vec![]);
    assert_eq!(state.phase, Phase::Preparing);
    assert_eq!(state.advance(&spell, 100), both());
    assert_eq!(state.phase, Phase::Firing);
    assert_eq!(state.next_eligible, 120);
    assert_eq!(state.fired, 1);

    // the second waits for back_time, not for init_time again
    assert_eq!(state.request(100, plenty()), CastOutcome::Accepted);
    assert_eq!(state.phase, Phase::Cooling);
    assert_eq!(state.advance(&spell, 119), vec![]);
    assert_eq!(state.phase, Phase::Cooling);
    assert_eq!(state.advance(&spell, 120), both());
    assert_eq!(state.phase, Phase::Firing);
    assert_eq!(state.fired, 2);
    assert_eq!(state.next_eligible, 320);

    // the round is used up: nothing fires before round_time is over
    assert_eq!(state.request(120, plenty()), CastOutcome::Accepted);
    assert_eq!(state.phase, Phase::RoundCooling);
    assert_eq!(state.advance(&spell, 140), vec![]);
    assert_eq!(state.advance(&spell, 220), vec![]);
    assert_eq!(state.advance(&spell, 319), vec![]);
    assert_eq!(state.phase, Phase::RoundCooling);
    assert_eq!(state.advance(&spell, 320), both());
    assert_eq!(state.fired, 1);
    assert_eq!(state.next_eligible, 340);
}

#[test]
fn nothing_fires_without_a_request() {
    let spell = two_runes();
    let mut state = WandState::begin(timing(10, 5, 50, 3), &spell);
    assert_eq!(state.request(0, plenty()), CastOutcome::Accepted);
    assert_eq!(state.advance(&spell, 10), both());
    assert_eq!(state.advance(&spell, 1000), vec![]);
    assert_eq!(state.phase, Phase::Ready);
    assert!(!state.requested);
    // a late request is served at once: the cooldown is long over
    assert_eq!(state.request(1000, plenty()), CastOutcome::Accepted);
    assert_eq!(state.phase, Phase::Ready);
    assert_eq!(state.advance(&spell, 1000), both());
    assert_eq!(state.next_eligible, 1005);
}

#[test]
fn one_advance_fires_once() {
    let spell = two_runes();
    let mut state = WandState::begin(timing(0, 0, 0, 5), &spell);
    assert_eq!(state.request(7, plenty()), CastOutcome::Accepted);
    assert_eq!(state.phase, Phase::Ready);
    assert_eq!(state.advance(&spell, 7), both());
    assert_eq!(state.advance(&spell, 7), vec![]);
    assert_eq!(state.phase, Phase::Ready);
}

#[test]
fn a_round_has_at_least_one_cast() {
    let spell = two_runes();
    let mut state = WandState::begin(timing(0, 3, 40, 0), &spell);
    state.request(0, plenty());
    assert_eq!(state.advance(&spell, 0), both());
    assert_eq!(state.next_eligible, 40);
    state.request(0, plenty());
    assert_eq!(state.phase, Phase::RoundCooling);
    assert_eq!(state.advance(&spell, 39), vec![]);
    assert_eq!(state.advance(&spell, 40), both());
}

#[test]
fn timing_is_what_wand_and_spell_contribute() {
    let mut spell = two_runes();
    spell.attr = timing(1, 2, 3, 4);
    spell.attr.stamina_cost = 5;
    let state = WandState::begin(timing(10, 20, 30, 40), &spell);
    let mut expected = timing(11, 22, 33, 44);
    expected.stamina_cost = 5;
    assert_eq!(
        state,
        WandState { phase: Phase::Idle, timing: expected, next_eligible: 0, requested: false, fired: 0 }
    );
}

#[test]
fn request_is_denied_where_the_caster_cannot_pay() {
    let spell = two_runes();
    let mut cost = timing(10, 5, 50, 3);
    cost.stamina_cost = 4;
    cost.balance_cost = 5;
    cost.magicka_cost = 6;
    let fresh = WandState::begin(cost, &spell);
    for short in [
        Reserve { stamina: 3, balance: 5, magicka: 6 },
        Reserve { stamina: 4, balance: 4, magicka: 6 },
        Reserve { stamina: 4, balance: 5, magicka: 5 },
    ] {
        let mut state = fresh;
        assert_eq!(state.request(0, short), CastOutcome::Denied);
        assert_eq!(state, fresh);
        assert_eq!(state.advance(&spell, 1000), vec![]);
    }
    let mut state = fresh;
    assert_eq!(state.request(0, Reserve { stamina: 4, balance: 5, magicka: 6 }), CastOutcome::Accepted);
    assert_eq!(state.advance(&spell, 10), both());
}

#[test]
fn cancel_starts_the_sequence_afresh() {
    let spell = two_runes();
    let mut state = WandState::begin(timing(100, 20, 200, 2), &spell);
    state.request(0, plenty());
    assert_eq!(state.advance(&spell, 100), both());
    state.request(100, plenty());
    state.cancel();
    assert_eq!(state.phase, Phase::Idle);
    assert!(!state.requested);
    assert_eq!(state.fired, 0);
    assert_eq!(state.advance(&spell, 500), vec![]);
    // a fresh sequence is prepared again
    state.request(500, plenty());
    assert_eq!(state.phase, Phase::Preparing);
    assert_eq!(state.advance(&spell, 599), vec![]);
    assert_eq!(state.advance(&spell, 600), both());
}

#[test]
fn settle_leaves_finished_holds_behind() {
    let spell = two_runes();
    let mut state = WandState::begin(timing(100, 20, 200, 1), &spell);
    state.settle(1000);
    assert_eq!(state.phase, Phase::Idle);
    state.request(0, plenty());
    state.settle(99);
    assert_eq!(state.phase, Phase::Preparing);
    state.settle(100);
    assert_eq!(state.phase, Phase::Ready);
    state.advance(&spell, 100);
    assert_eq!((state.phase, state.fired, state.next_eligible), (Phase::Firing, 1, 300));
    state.settle(100);
    assert_eq!((state.phase, state.fired), (Phase::RoundCooling, 1));
    state.settle(300);
    assert_eq!((state.phase, state.fired), (Phase::Ready, 0));
}

#[test]
fn firing_arms_the_triggers() {
    let trigger = Trigger { iter_limit: 2, trigger_attr: timing(1, 2, 3, 4), delay_trigger: 30 };
    let runes = vec![
        Rune::Noun(zero(), bullet(1)),
        Rune::With(zero(), trigger),
        Rune::Noun(zero(), bullet(7)),
        Rune::End,
        Rune::Noun(zero(), bullet(2)),
    ];
    let spell = compile(&runes, None).unwrap();
    let mut state = WandState::begin(zero(), &spell);
    state.request(50, plenty());
    let events = state.advance(&spell, 50);
    let armed = ArmedTrigger { due: 80, expires: 151, remaining: 2, delay: 30, attr: timing(1, 2, 3, 4) };
    assert_eq!(
        events,
        vec![
            FireEvent::Spawn { rune: 0, bullet: bullet(1) },
            FireEvent::Arm { rune: 0, armed },
            FireEvent::Spawn { rune: 1, bullet: bullet(2) },
        ]
    );
    // the spell is a template: casting leaves it as it was
    assert_eq!(spell, compile(&runes, None).unwrap());
}

#[test]
fn trigger_fires_when_due_and_as_often_as_it_may() {
    let mut armed = ArmedTrigger { due: 80, expires: 151, remaining: 2, delay: 30, attr: zero() };
    assert_eq!(armed.poll(79), TriggerEvent::Waiting);
    assert_eq!(armed, ArmedTrigger { due: 80, expires: 151, remaining: 2, delay: 30, attr: zero() });
    assert_eq!(armed.poll(80), TriggerEvent::Fired);
    assert_eq!(armed, ArmedTrigger { due: 110, expires: 151, remaining: 1, delay: 30, attr: zero() });
    assert_eq!(armed.poll(80), TriggerEvent::Waiting);
    assert_eq!(armed.poll(200), TriggerEvent::Fired);
    assert_eq!(armed, ArmedTrigger { due: 140, expires: 151, remaining: 0, delay: 30, attr: zero() });
    assert_eq!(armed.poll(200), TriggerEvent::Spent);
    assert_eq!(armed.remaining, 0);
}

#[test]
fn trigger_lapses_with_its_projectile() {
    let mut armed = ArmedTrigger { due: 80, expires: 79, remaining: 2, delay: 30, attr: zero() };
    assert_eq!(armed.poll(50), TriggerEvent::Waiting);
    assert_eq!(armed.poll(80), TriggerEvent::Lapsed);
    assert_eq!(armed.remaining, 0);
    assert_eq!(armed.poll(80), TriggerEvent::Spent);
    // a projectile that dies just as the trigger comes due still sets it off
    let mut armed = ArmedTrigger { due: 80, expires: 80, remaining: 1, delay: 30, attr: zero() };
    assert_eq!(armed.poll(80), TriggerEvent::Fired);
}

#[test]
fn trigger_without_firings_is_spent() {
    for limit in [0, -3] {
        let mut armed = ArmedTrigger { due: 0, expires: 10, remaining: limit, delay: 1, attr: zero() };
        assert_eq!(armed.poll(5), TriggerEvent::Spent);
        assert_eq!(armed.remaining, limit);
    }
}

#[test]
fn triggered_spell_is_cast_as_a_sequence_of_its_own() {
    let trigger = Trigger { iter_limit: 1, trigger_attr: timing(5, 0, 0, 1), delay_trigger: 30 };
    let nested = Spell { attr: timing(2, 0, 0, 0), rune_list: vec![SpellRune { bullet: bullet(7), trigger_spell: None }] };
    let mut state = WandState::begin(trigger.trigger_attr, &nested);
    assert_eq!(state.timing.init_time, 7);
    state.request(80, plenty());
    assert_eq!(state.advance(&nested, 86), vec![]);
    assert_eq!(state.advance(&nested, 87), vec![FireEvent::Spawn { rune: 0, bullet: bullet(7) }]);
}

#[test]
fn deadlines_stay_within_the_clock() {
    assert_eq!(deadline(100, 20), 120);
    assert_eq!(deadline(100, -120), -20);
    assert_eq!(deadline(i64::MAX - 5, 6), i64::MAX);
    assert_eq!(deadline(i64::MAX - 5, 5), i64::MAX);
    assert_eq!(deadline(i64::MIN + 5, -6), i64::MIN);
    assert_eq!(deadline(i64::MIN, i64::MAX), -1);
}
