use digital_rain::chars::CharacterPool;
use digital_rain::options::DigitalRainOptions;
use digital_rain::rain_drop::RainDrop;
use digital_rain::style::RainDropStyle;

fn get_sane_options() -> DigitalRainOptions {
    DigitalRainOptions::new(10, 20)
}

#[test]
fn create_new_and_reset() {
    let mut rng = rand::rng();
    let pool = CharacterPool::new();
    let mut new_drop = RainDrop::new((100, 100), &get_sane_options(), 1, &pool, &mut rng);
    assert!(!new_drop.body.is_empty());
    assert!(new_drop.speed > 0);

    new_drop.reset((100, 100), &get_sane_options(), &pool, &mut rng);
    assert_eq!(new_drop.fy, 0);
    assert_eq!(new_drop.drop_id, 1);
    assert_eq!(new_drop.body.len(), 1);
}

#[test]
fn generate_a_lot_of_drops() {
    let mut rng = rand::rng();
    let pool = CharacterPool::new();
    let mut drops = vec![];
    for index in 1..=1000 {
        drops.push(RainDrop::new(
            (100, 100),
            &get_sane_options(),
            index,
            &pool,
            &mut rng,
        ));
    }
    assert_eq!(drops.len(), 1000);
}

#[test]
fn to_point() {
    // 10.8 rows, in milli-rows
    let new_drop = RainDrop::from_values(1, vec!['a'], RainDropStyle::Gradient, 10, 10_800, 20, 10);
    let (x, y) = new_drop.to_point();
    assert_eq!(x, 10);
    assert_eq!(y, 11);
}

#[test]
fn to_point_vec() {
    let new_drop = RainDrop::from_values(
        1,
        vec!['a', 'b', 'c'],
        RainDropStyle::Fading,
        10,
        10_000,
        10,
        8,
    );
    let points = new_drop.to_points_vec();
    assert_eq!(points.len(), 3);
    assert_eq!(points[0], (10, 10, 'a'));
}

#[test]
fn grow() {
    let mut rng = rand::rng();
    let pool = CharacterPool::new();
    let mut new_drop = RainDrop::from_values(1, vec!['a'], RainDropStyle::Front, 10, 10_800, 20, 10);
    new_drop.grow(10, &pool, &mut rng);
    assert_eq!(new_drop.body.len(), 1);
    assert_eq!(new_drop.body.first(), Some(&'a'));

    let mut new_drop = RainDrop::from_values(1, vec!['b'], RainDropStyle::Middle, 10, 10_800, 20, 4);
    new_drop.grow(12, &pool, &mut rng);
    assert_eq!(new_drop.body.len(), 2);
    assert_eq!(new_drop.body.get(1), Some(&'b'));
    new_drop.grow(11, &pool, &mut rng);
    assert_eq!(new_drop.body.len(), 2);

    let mut new_drop = RainDrop::from_values(1, vec!['c'], RainDropStyle::Back, 10, 10_800, 3, 4);
    for _ in 1..10 {
        new_drop.grow(12, &pool, &mut rng);
    }
    assert_eq!(new_drop.body.len(), 3);
}

#[test]
fn update() {
    let mut rng = rand::rng();
    let pool = CharacterPool::new();

    // nothing special, a plain tick: 10.8 rows, speed 10, one second
    let mut new_drop = RainDrop::from_values(1, vec!['c'], RainDropStyle::Back, 10, 10_800, 3, 10);
    new_drop.update((100, 100), &get_sane_options(), 1000, &pool, &mut rng);
    assert_eq!(new_drop.to_point().1, 21);
    assert_eq!(new_drop.body.len(), 3);

    // edge case when body len is 0
    let mut new_drop = RainDrop::from_values(1, vec![], RainDropStyle::Middle, 10, 10_800, 3, 8);
    new_drop.update((100, 100), &get_sane_options(), 1000, &pool, &mut rng);
    assert_eq!(new_drop.body.len(), 1);
    assert_eq!(new_drop.fy, 0); // recycled

    // when the tail row is still negative: 2.0 rows, speed 2
    let mut new_drop = RainDrop::from_values(
        1,
        vec!['a', 'b', 'c', 'd'],
        RainDropStyle::Fading,
        10,
        2_000,
        5,
        2,
    );
    new_drop.update((100, 100), &get_sane_options(), 1000, &pool, &mut rng);
    assert_eq!(new_drop.body.len(), 5);
    assert!((new_drop.fy as i64) - (new_drop.body.len() as i64) * 1000 < 0);

    // when the head row passed the screen height: 30.8 rows on a 100-row
    // surface is still inside; two slow ticks keep it growing
    let mut new_drop = RainDrop::from_values(
        1,
        vec!['a', 'b', 'c', 'd'],
        RainDropStyle::Fading,
        10,
        30_800,
        5,
        2,
    );
    new_drop.update((100, 100), &get_sane_options(), 1000, &pool, &mut rng);
    assert_eq!(new_drop.body.len(), 5);
    assert!(new_drop.fy > 30_000);

    // when the head passes the height with body len 2: 29.0 rows, speed 2
    let mut new_drop = RainDrop::from_values(1, vec!['a', 'b'], RainDropStyle::Fading, 10, 29_000, 5, 2);
    new_drop.update((100, 100), &get_sane_options(), 1000, &pool, &mut rng);
    assert_eq!(new_drop.body.len(), 3);
    assert_eq!(new_drop.fy, 31_000);
    new_drop.update((100, 100), &get_sane_options(), 1000, &pool, &mut rng);
    assert_eq!(new_drop.fy, 33_000);
}

#[test]
fn out_of_bounds() {
    let mut rng = rand::rng();
    let pool = CharacterPool::new();
    let mut drops = vec![];
    for i in 1..=10 {
        drops.push(RainDrop::new((100, 100), &get_sane_options(), i, &pool, &mut rng));
    }
    assert_eq!(drops.len(), 10);

    for _ in 1..=1000 {
        for drop in drops.iter_mut() {
            drop.update((100, 100), &get_sane_options(), 100, &pool, &mut rng)
        }
    }
}
