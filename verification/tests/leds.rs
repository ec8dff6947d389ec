use drone_flight_controller::leds::{LedRing, LedRoulette, LedStep, RouletteStep, LED_COUNT};

#[test]
fn ring_moves_one_led_per_tick() {
    let mut r = LedRing::new();
    assert_eq!(r.current(), 0);
    assert_eq!(r.advance(), LedStep { off: 0, on: 1 });
    assert_eq!(r.advance(), LedStep { off: 1, on: 2 });
    assert_eq!(r.current(), 2);
}

#[test]
fn ring_wraps_after_eight_ticks() {
    let mut r = LedRing::new();
    let mut lit = [false; LED_COUNT];
    for tick in 1..=20usize {
        let s = r.advance();
        lit[s.off] = false;
        lit[s.on] = true;
        assert_eq!(s.on, tick % 8);
        assert_eq!(lit.iter().filter(|&&l| l).count(), 1);
    }
    assert_eq!(r.current(), 20 % 8);
    let s = (0..4).map(|_| r.advance()).last().unwrap();
    assert_eq!(s, LedStep { off: 7, on: 0 });
}

#[test]
fn roulette_chases_a_pair() {
    let mut r = LedRoulette::new();
    assert_eq!(r.step(), RouletteStep { on: 0, off: 6 });
    assert_eq!(r.step(), RouletteStep { on: 1, off: 7 });
    assert_eq!(r.step(), RouletteStep { on: 2, off: 0 });
    let mut lit = [false; LED_COUNT];
    let mut r = LedRoulette::new();
    for step in 1..=30usize {
        let s = r.step();
        lit[s.on] = true;
        lit[s.off] = false;
        let count = lit.iter().filter(|&&l| l).count();
        if step == 1 {
            assert_eq!(count, 1);
        } else {
            assert_eq!(count, 2);
            assert!(lit[(step - 1) % 8] && lit[(step - 2) % 8]);
        }
    }
}
