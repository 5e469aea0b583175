use rusty_rover::{blink, blink_delay_ms, toggle_leds, IndicatorLeds, LockError, SharedCell, TaskPriority};

#[test]
fn delay_formula_values() {
    assert_eq!(blink_delay_ms(0), 1000);
    assert_eq!(blink_delay_ms(1), 500);
    assert_eq!(blink_delay_ms(3), 250);
    assert_eq!(blink_delay_ms(6), 142);
    assert_eq!(blink_delay_ms(255), 3);
}

#[test]
fn leds_alternate() {
    assert_eq!(toggle_leds(true), IndicatorLeds { led1: false, led2: true });
    assert_eq!(toggle_leds(false), IndicatorLeds { led1: true, led2: false });
}

#[test]
fn rate_write_changes_next_delay() {
    let blink_prio = TaskPriority::new(1).unwrap();
    let writer_prio = TaskPriority::new(2).unwrap();
    let mut rate = SharedCell::new(0u8, &[blink_prio, writer_prio]);
    let step = blink(false, &rate, &blink_prio).unwrap();
    assert_eq!(step.delay_ms, 1000);
    assert_eq!(step.leds, IndicatorLeds { led1: true, led2: false });
    rate.write(&writer_prio, 3).unwrap();
    let step = blink(true, &rate, &blink_prio).unwrap();
    assert_eq!(step.delay_ms, 250);
    assert_eq!(step.leds, IndicatorLeds { led1: false, led2: true });
}

#[test]
fn blink_above_ceiling_is_refused() {
    let blink_prio = TaskPriority::new(1).unwrap();
    let other = TaskPriority::new(3).unwrap();
    let rate = SharedCell::new(0u8, &[blink_prio]);
    assert_eq!(
        blink(false, &rate, &other),
        Err(LockError::AboveCeiling { caller: 3, ceiling: 1 })
    );
}
