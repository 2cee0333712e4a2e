use panicvtt_engine::mechanics::dice::{Dice, Rng};

#[test]
fn roll() {
    let dice = [Dice::D100, Dice::D20, Dice::D12, Dice::D10, Dice::D8, Dice::D6, Dice::D4];
    for die in dice {
        let upper = die.max();
        let mut rng = Rng::new(0, 5);

        for i in 0..1000u64 {
            // Expect to roll ((i * 5 % 255) % Dn) + 1
            let roll = die.roll(&mut rng);
            let a = i * 5;
            let b = a as u8;
            let c = b % upper;
            let d = c.wrapping_add(1);

            assert_eq!(roll, d);
        }
    }
}

#[test]
fn max() {
    let expected = [100, 20, 12, 10, 8, 6, 4];
    let dice = [Dice::D100, Dice::D20, Dice::D12, Dice::D10, Dice::D8, Dice::D6, Dice::D4];

    for (e, d) in std::iter::zip(expected, dice) {
        assert_eq!(d.max(), e);
    }
}

#[test]
fn roll_from_raw_bits() {
    assert_eq!(Dice::D20.roll_from(0), 1);
    assert_eq!(Dice::D20.roll_from(19), 20);
    assert_eq!(Dice::D20.roll_from(20), 1);
    // only the low eight bits count: 0x1FF -> 255 -> 255 % 100 + 1
    assert_eq!(Dice::D100.roll_from(0x1FF), 56);
    assert_eq!(Dice::D4.roll_from(u32::MAX), 4);
    assert_eq!(Dice::D6.roll_from(256), 1);
}

#[test]
fn entropy_rolls_stay_on_the_die() {
    let mut rng = Rng::from_entropy();
    for _ in 0..200 {
        let face = Dice::D8.roll(&mut rng);
        assert!((1..=8).contains(&face));
    }
}

#[test]
fn a_stepping_source_adds_its_increment() {
    let mut rng = Rng::new(2, 3);
    assert_eq!(rng.next_u32(), 2);
    assert_eq!(rng.next_u32(), 5);
    assert_eq!(rng.next_u32(), 8);

    // the sum wraps at 64 bits
    let mut top = Rng::new(u64::MAX, 2);
    assert_eq!(rng_bits(&mut top), u32::MAX);
    assert_eq!(rng_bits(&mut top), 1);
    assert_eq!(rng_bits(&mut top), 3);

    // only the low 32 bits are handed out
    let mut high = Rng::new(0x1_0000_0007, 0x1_0000_0000);
    assert_eq!(rng_bits(&mut high), 7);
    assert_eq!(rng_bits(&mut high), 7);

    let mut constant = Rng::new(9, 0);
    assert_eq!(rng_bits(&mut constant), 9);
    assert_eq!(rng_bits(&mut constant), 9);
    assert!(matches!(constant, Rng::Step { state: 9, increment: 0 }));
    assert!(matches!(Rng::new(4, 6), Rng::Step { state: 4, increment: 6 }));
    assert!(matches!(Rng::from_entropy(), Rng::Std(_)));
}

fn rng_bits(rng: &mut Rng) -> u32 {
    rng.next_u32()
}

#[test]
fn a_roll_is_one_draw() {
    let mut rng = Rng::new(0, 5);
    let faces: Vec<u8> = (0..5).map(|_| Dice::D20.roll(&mut rng)).collect();
    assert_eq!(faces, [1, 6, 11, 16, 1]);
    assert!(matches!(rng, Rng::Step { state: 25, increment: 5 }));
}
