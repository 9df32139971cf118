use rune_wand::rune::{Attribute, Bullet, Modifiable};

fn ones() -> Attribute {
    Attribute {
        rune_num: 1,
        init_time: 1,
        back_time: 1,
        round_time: 1,
        round_num: 1,
        deflection: 1,
        stamina_cost: 1,
        balance_cost: 1,
        magicka_cost: 1,
        shoot_force: 1,
        bullet_sharp: 1,
        bullet_lifetime: 1,
    }
}

fn sample(seed: i64) -> Attribute {
    Attribute {
        rune_num: (seed * 3) as i32,
        init_time: seed * 5 - 7,
        back_time: -seed,
        round_time: seed * seed,
        round_num: (seed - 2) as i32,
        deflection: 11 - seed,
        stamina_cost: seed * 13,
        balance_cost: seed + 1,
        magicka_cost: -3 * seed,
        shoot_force: seed * 17,
        bullet_sharp: seed - 19,
        bullet_lifetime: 23 * seed,
    }
}

fn sum(mut a: Attribute, b: Attribute) -> Attribute {
    a += b;
    a
}

fn bullet() -> Bullet {
    Bullet { deflection: 5, velocity: 10, weight: 4, sharp: 2, lifetime: 100, entity: true, health: 9 }
}

#[test]
fn test_add() {
    let mut source = Attribute::default();
    let target = ones();

    source += target;

    assert_eq!(source, target);
}

#[test]
fn default_is_all_zero() {
    let zero = Attribute::default();
    assert_eq!(
        zero,
        Attribute {
            rune_num: 0,
            init_time: 0,
            back_time: 0,
            round_time: 0,
            round_num: 0,
            deflection: 0,
            stamina_cost: 0,
            balance_cost: 0,
            magicka_cost: 0,
            shoot_force: 0,
            bullet_sharp: 0,
            bullet_lifetime: 0,
        }
    );
}

#[test]
fn add_adds_every_field() {
    let got = sum(sample(2), sample(5));
    assert_eq!(
        got,
        Attribute {
            rune_num: 21,
            init_time: 21,
            back_time: -7,
            round_time: 29,
            round_num: 3,
            deflection: 15,
            stamina_cost: 91,
            balance_cost: 9,
            magicka_cost: -21,
            shoot_force: 119,
            bullet_sharp: -31,
            bullet_lifetime: 161,
        }
    );
}

#[test]
fn add_is_associative() {
    let (a, b, c) = (sample(3), sample(-8), sample(21));
    assert_eq!(sum(sum(a, b), c), sum(a, sum(b, c)));
}

#[test]
fn add_is_commutative() {
    let (a, b) = (sample(4), sample(-9));
    assert_eq!(sum(a, b), sum(b, a));
}

#[test]
fn zero_is_the_identity() {
    let a = sample(6);
    assert_eq!(sum(a, Attribute::default()), a);
    assert_eq!(sum(Attribute::default(), a), a);
}

#[test]
fn add_wraps_at_the_width_of_the_field() {
    let mut a = Attribute::default();
    a.rune_num = i32::MAX;
    a.init_time = i64::MIN;
    let mut b = Attribute::default();
    b.rune_num = 1;
    b.init_time = -1;
    let got = sum(a, b);
    assert_eq!(got.rune_num, i32::MIN);
    assert_eq!(got.init_time, i64::MAX);
    // associativity holds across the wrap
    let mut c = Attribute::default();
    c.rune_num = -1;
    c.init_time = 1;
    assert_eq!(sum(sum(a, b), c), sum(a, sum(b, c)));
    assert_eq!(sum(sum(a, b), c), a);
}

#[test]
fn modify_divides_force_by_weight() {
    let mut b = bullet();
    let mut attr = Attribute::default();
    attr.shoot_force = 30;
    attr.deflection = -2;
    attr.bullet_sharp = 3;
    attr.bullet_lifetime = 50;
    b.modify(attr);
    assert_eq!(
        b,
        Bullet { deflection: 3, velocity: 17, weight: 4, sharp: 5, lifetime: 150, entity: true, health: 9 }
    );
}

#[test]
fn modify_leaves_velocity_without_weight() {
    for weight in [0, -4] {
        let mut b = bullet();
        b.weight = weight;
        let mut attr = Attribute::default();
        attr.shoot_force = 30;
        b.modify(attr);
        assert_eq!(b.velocity, 10);
        assert_eq!(b.weight, weight);
    }
}

#[test]
fn modify_leaves_velocity_without_force() {
    for force in [0, -30] {
        let mut b = bullet();
        let mut attr = Attribute::default();
        attr.shoot_force = force;
        b.modify(attr);
        assert_eq!(b.velocity, 10);
    }
}

#[test]
fn modify_by_zero_changes_nothing() {
    let mut b = bullet();
    b.modify(Attribute::default());
    assert_eq!(b, bullet());
}

#[test]
fn modify_ignores_timing_and_cost() {
    let mut b = bullet();
    let mut attr = Attribute::default();
    attr.rune_num = 3;
    attr.init_time = 4;
    attr.back_time = 5;
    attr.round_time = 6;
    attr.round_num = 7;
    attr.stamina_cost = 8;
    attr.balance_cost = 9;
    attr.magicka_cost = 10;
    b.modify(attr);
    assert_eq!(b, bullet());
}

#[test]
fn modify_wraps_like_addition() {
    let mut b = bullet();
    b.velocity = i64::MAX;
    b.weight = 1;
    b.lifetime = i64::MAX;
    let mut attr = Attribute::default();
    attr.shoot_force = 1;
    attr.bullet_lifetime = 1;
    b.modify(attr);
    assert_eq!(b.velocity, i64::MIN);
    assert_eq!(b.lifetime, i64::MIN);
}
