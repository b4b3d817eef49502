use std::cell::Cell;

use tm1637_gpio_driver::fourdigit7segdis::{
    display_stopwatch, display_text_banner, display_time, display_timer, encode_banner_text,
    DISPLAY_COUNT, STOPWATCH_MAX,
};
use tm1637_gpio_driver::gpio_api::Recorder;
use tm1637_gpio_driver::GpioPinValue::{HIGH, LOW};
use tm1637_gpio_driver::PinOp::{Delay, ReadData, WriteClock, WriteData};
use tm1637_gpio_driver::{Brightness, DisplayState, PinOp, TM1637Adapter};

// The chip's side of the wire: the bytes of each transfer between a start
// and a stop condition. Both lines are low when it begins.

fn transfers(trace: &[PinOp]) -> Vec<Vec<u8>> {
    let mut clock = LOW;
    let mut data = LOW;
    let mut done: Vec<Vec<u8>> = Vec::new();
    let mut current: Option<Vec<u8>> = None;
    let mut bits: Vec<bool> = Vec::new();
    for op in trace {
        match *op {
            WriteClock(level) => {
                if clock == LOW && level == HIGH {
                    if let Some(bytes) = current.as_mut() {
                        if bits.len() == 8 {
                            let mut value = 0u8;
                            for (i, bit) in bits.iter().enumerate() {
                                if *bit {
                                    value |= 1 << i;
                                }
                            }
                            bytes.push(value);
                            bits.clear();
                        } else {
                            bits.push(data == HIGH);
                        }
                    }
                }
                clock = level;
            }
            WriteData(level) => {
                if clock == HIGH && data == HIGH && level == LOW {
                    current = Some(Vec::new());
                    bits.clear();
                } else if clock == HIGH && data == LOW && level == HIGH {
                    if let Some(bytes) = current.take() {
                        assert!(bits.len() <= 1, "stop in the middle of a byte");
                        done.push(bytes);
                    }
                    bits.clear();
                }
                data = level;
            }
            ReadData | Delay => {}
        }
    }
    assert!(current.is_none(), "transfer without a stop");
    done
}

// The frames that were shown: for each write, the start register, the
// bytes, and the display control byte that followed.

fn frames(adapter: &TM1637Adapter<Recorder>) -> Vec<(u8, Vec<u8>, u8)> {
    let all = transfers(adapter.backend().ops());
    assert_eq!(all.len() % 3, 0);
    let mut frames = Vec::new();
    for t in all.chunks(3) {
        assert_eq!(t[0], vec![0x40]);
        assert_eq!(t[1][0] & 0xF0, 0xC0);
        assert_eq!(t[2].len(), 1);
        frames.push((t[1][0] & 0x0F, t[1][1..].to_vec(), t[2][0]));
    }
    frames
}

fn fresh() -> TM1637Adapter<Recorder> {
    TM1637Adapter::with_backend(Recorder::new())
}

fn dimmed() -> TM1637Adapter<Recorder> {
    let mut adapter = fresh();
    adapter.set_display_state(DisplayState::OFF);
    adapter.set_brightness(Brightness::L1);
    adapter
}

#[test]
fn constants() {
    assert_eq!(DISPLAY_COUNT, 4);
    assert_eq!(STOPWATCH_MAX, 10_000);
}

#[test]
fn stopwatch_counts_up_without_blinking() {
    let naps = Cell::new(0usize);
    let mut adapter = dimmed();
    display_stopwatch(&mut adapter, &|| naps.set(naps.get() + 1), 12, false);
    let shown = frames(&adapter);
    assert_eq!(shown.len(), 12);
    assert_eq!(naps.get(), 12);
    for (i, (register, bytes, control)) in shown.iter().enumerate() {
        assert_eq!(*register, 0);
        assert_eq!(*control, 0x8F);
        assert_eq!(bytes[..], TM1637Adapter::encode_number(i as u16)[..]);
    }
    assert_eq!(shown[11].1, vec![0x3F, 0x3F, 0x06, 0x06]);
}

#[test]
fn stopwatch_blinks_on_every_other_count() {
    let mut adapter = fresh();
    display_stopwatch(&mut adapter, &|| {}, 5, true);
    let shown = frames(&adapter);
    assert_eq!(
        shown,
        vec![
            (0, vec![0x3F, 0x3F, 0x3F, 0x3F], 0x8F),
            (0, vec![0x3F, 0xBF, 0x3F, 0x06], 0x8F),
            (0, vec![0x3F, 0x3F, 0x3F, 0x5B], 0x8F),
            (0, vec![0x3F, 0xBF, 0x3F, 0x4F], 0x8F),
            (0, vec![0x3F, 0x3F, 0x3F, 0x66], 0x8F),
        ]
    );
}

#[test]
fn stopwatch_to_zero_shows_nothing_but_sets_the_state() {
    let naps = Cell::new(0usize);
    let mut adapter = dimmed();
    display_stopwatch(&mut adapter, &|| naps.set(naps.get() + 1), 0, true);
    assert_eq!(frames(&adapter), vec![]);
    assert_eq!(naps.get(), 0);
    adapter.write_display_state();
    assert_eq!(transfers(adapter.backend().ops()), vec![vec![0x8F]]);
}

#[test]
fn stopwatch_wraps_after_four_digits() {
    let mut adapter = fresh();
    display_stopwatch(&mut adapter, &|| {}, 10_002, false);
    let shown = frames(&adapter);
    assert_eq!(shown.len(), 10_002);
    assert_eq!(shown[9_999].1, vec![0x6F, 0x6F, 0x6F, 0x6F]);
    assert_eq!(shown[10_000].1, vec![0x3F, 0x3F, 0x3F, 0x3F]);
    assert_eq!(shown[10_001].1, vec![0x3F, 0x3F, 0x3F, 0x06]);
}

#[test]
fn timer_counts_down_blinks_and_clears() {
    let naps = Cell::new(0usize);
    let mut adapter = dimmed();
    display_timer(&mut adapter, &|| naps.set(naps.get() + 1), 3);
    assert_eq!(naps.get(), 4 + 4);
    assert_eq!(
        frames(&adapter),
        vec![
            (0, vec![0x3F, 0x3F, 0x3F, 0x4F], 0x8F),
            (0, vec![0x3F, 0x3F, 0x3F, 0x5B], 0x8F),
            (0, vec![0x3F, 0x3F, 0x3F, 0x06], 0x8F),
            (0, vec![0x3F, 0x3F, 0x3F, 0x3F], 0x8F),
            (0, vec![0x00, 0x00, 0x00, 0x00], 0x8F),
            (0, vec![0x3F, 0x3F, 0x3F, 0x3F], 0x8F),
            (0, vec![0x00, 0x00, 0x00, 0x00], 0x8F),
            (0, vec![0x3F, 0x3F, 0x3F, 0x3F], 0x8F),
            (0, vec![0x00, 0x00, 0x00, 0x00, 0x00, 0x00], 0x8F),
        ]
    );
}

#[test]
fn timer_from_zero() {
    let mut adapter = fresh();
    display_timer(&mut adapter, &|| {}, 0);
    let shown = frames(&adapter);
    assert_eq!(shown.len(), 1 + 4 + 1);
    assert_eq!(shown[0].1, vec![0x3F, 0x3F, 0x3F, 0x3F]);
    assert_eq!(shown[5].1, vec![0; 6]);
}

#[test]
fn timer_from_a_large_value() {
    let mut adapter = fresh();
    display_timer(&mut adapter, &|| {}, 12_345);
    let shown = frames(&adapter);
    assert_eq!(shown.len(), 12_346 + 4 + 1);
    assert_eq!(shown[0].1[..], TM1637Adapter::encode_number(2_345)[..]);
    assert_eq!(shown[2_345].1[..], TM1637Adapter::encode_number(0)[..]);
    assert_eq!(shown[2_346].1[..], TM1637Adapter::encode_number(9_999)[..]);
    assert_eq!(shown[12_345].1[..], TM1637Adapter::encode_number(0)[..]);
}

#[test]
fn banner_text_shows_dots_as_spaces() {
    assert_eq!(encode_banner_text(""), Vec::<u8>::new());
    assert_eq!(encode_banner_text("a.b"), vec![0x5F, 0x00, 0x7C]);
    assert_eq!(encode_banner_text("...."), vec![0, 0, 0, 0]);
    assert_eq!(encode_banner_text("Hallo"), TM1637Adapter::encode_string("Hallo"));
    assert_eq!(encode_banner_text("1.5 = x"), TM1637Adapter::encode_string("1 5 = x"));
}

#[test]
fn banner_moves_from_right_to_left() {
    let naps = Cell::new(0usize);
    let data = encode_banner_text("    Hi.  ");
    assert_eq!(data, vec![0, 0, 0, 0, 0x76, 0x30, 0, 0, 0]);
    let mut adapter = dimmed();
    display_text_banner(&mut adapter, &data, &|| naps.set(naps.get() + 1));
    assert_eq!(naps.get(), 6);
    assert_eq!(
        frames(&adapter),
        vec![
            (0, vec![0x00, 0x00, 0x00, 0x00], 0x81),
            (0, vec![0x00, 0x00, 0x00, 0x76], 0x81),
            (0, vec![0x00, 0x00, 0x76, 0x30], 0x81),
            (0, vec![0x00, 0x76, 0x30, 0x00], 0x81),
            (0, vec![0x76, 0x30, 0x00, 0x00], 0x81),
            (0, vec![0x30, 0x00, 0x00, 0x00], 0x81),
        ]
    );
}

#[test]
fn pace_functions_may_be_trait_objects() {
    let naps = Cell::new(0usize);
    let nap = || naps.set(naps.get() + 1);
    let sleep_fn: &dyn Fn() = &nap;
    let mut adapter = fresh();
    display_text_banner(&mut adapter, &[1, 2, 3, 4, 5], sleep_fn);
    display_stopwatch(&mut adapter, sleep_fn, 3, false);
    display_timer(&mut adapter, sleep_fn, 1);
    assert_eq!(naps.get(), 2 + 3 + 2 + 4);
    assert_eq!(frames(&adapter).len(), 2 + 3 + 2 + 4 + 1);
}

#[test]
fn banner_of_four_bytes_is_one_frame() {
    let mut adapter = fresh();
    display_text_banner(&mut adapter, &[1, 2, 3, 4], &|| {});
    assert_eq!(frames(&adapter), vec![(0, vec![1, 2, 3, 4], 0x8F)]);
}

#[test]
fn time_with_and_without_the_double_point() {
    let mut adapter = fresh();
    display_time(&mut adapter, "12", "34", false);
    display_time(&mut adapter, "12", "34", true);
    display_time(&mut adapter, "07", "59", true);
    assert_eq!(
        frames(&adapter),
        vec![
            (0, vec![0x06, 0x5B, 0x4F, 0x66], 0x8F),
            (0, vec![0x06, 0xDB, 0x4F, 0x66], 0x8F),
            (0, vec![0x3F, 0x87, 0x6D, 0x6F], 0x8F),
        ]
    );
}

#[test]
fn time_takes_the_first_two_characters_of_each_side() {
    let mut adapter = dimmed();
    display_time(&mut adapter, "ab:", "üd and more", false);
    assert_eq!(frames(&adapter), vec![(0, vec![0x5F, 0x7C, 0x00, 0x5E], 0x81)]);
}
