use tm1637_gpio_driver::gpio_api::setup_dummy;
use tm1637_gpio_driver::fourdigit7segdis::{display_stopwatch, display_timer};
use tm1637_gpio_driver::{Brightness, DisplayState};

#[test]
fn test() {
    let mut f = setup_dummy();
    // the banner itself never ends, so the adapter is only made here
    f.set_display_state(DisplayState::ON);
}

#[test]
fn dummy_runs_every_operation() {
    let mut f = setup_dummy();
    f.set_display_state(DisplayState::OFF);
    f.set_brightness(Brightness::L2);
    f.write_segment_raw(0x3F, 0);
    f.write_segments_raw(&[1, 2, 3, 4, 5, 6, 7, 8], 4);
    f.write_segments_raw(&[], 0);
    f.write_display_state();
    f.clear();
    display_stopwatch(&mut f, &|| {}, 20, true);
    display_timer(&mut f, &|| {}, 5);
}
