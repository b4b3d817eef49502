//! Utility functions on top of the TM1637 driver to display content on a
//! 4-digit 7-segment display. You can use them but you don't have to. They
//! show how the driver works and could be used.
//!
//! Each function writes a series of frames, four segment bytes at
//! position 0, and calls the function it is given after each of them. That
//! function sets the pace; it usually sleeps.

use vstd::prelude::*;
use crate::adapter::TM1637Adapter;
use crate::commands::Brightness;
use crate::commands::DisplayState;
use crate::mappings::SegmentBits;
use crate::pins::PinBackend;
use crate::pins::PinOp;

verus! {

/// We have 4 displays so we can display 4 digits.
pub const DISPLAY_COUNT: usize = 4;

/// Maximum value for stopwatch.
pub const STOPWATCH_MAX: u16 = 10_000;

/// The pin operations that show one frame: a write at position 0.
#[verifier::opaque]
pub open spec fn frame_ops(frame: Seq<u8>, display: DisplayState, brightness: Brightness) -> Seq<
    PinOp,
> {
    crate::protocol::write_segments_ops(frame, 0, display, brightness)
}

/// The frame with the double point lit. The double point belongs to the
/// second digit.
pub open spec fn with_point(frame: Seq<u8>) -> Seq<u8> {
    frame.update(1, frame[1] | SegmentBits::SegPoint.spec_bits())
}

/// The segment bytes of a banner text: those of the text, with each dot
/// shown as a space, because the display only has the double point, which
/// looks weird in a text.
pub open spec fn banner_segments(text: Seq<char>) -> Seq<u8> {
    Seq::new(
        text.len(),
        |i: int|
            crate::encoding::char_segments(
                if text[i] == '.' {
                    ' '
                } else {
                    text[i]
                },
            ),
    )
}

/// The first `n` frames of a banner that moves across the display from
/// right to left: frame `i` shows the four bytes that start at `i`.
pub open spec fn banner_ops(
    data: Seq<u8>,
    n: nat,
    display: DisplayState,
    brightness: Brightness,
) -> Seq<PinOp>
    decreases n,
{
    if n == 0 {
        Seq::empty()
    } else {
        banner_ops(data, (n - 1) as nat, display, brightness) + frame_ops(
            data.subrange(n - 1, (n + 3) as int),
            display,
            brightness,
        )
    }
}

/// The frame that shows a time: two characters left of the double point,
/// two right of it.
pub open spec fn time_frame(l: Seq<char>, r: Seq<char>, show_dots: bool) -> Seq<u8> {
    let frame = seq![
        crate::encoding::char_segments(l[0]),
        crate::encoding::char_segments(l[1]),
        crate::encoding::char_segments(r[0]),
        crate::encoding::char_segments(r[1]),
    ];
    if show_dots {
        with_point(frame)
    } else {
        frame
    }
}

/// Frame `i` of a stopwatch: the count `i`, with the double point lit on
/// every other frame if the stopwatch blinks.
pub open spec fn stopwatch_frame(i: nat, blink: bool) -> Seq<u8> {
    if blink && i % 2 == 1 {
        with_point(crate::encoding::number_segments(i))
    } else {
        crate::encoding::number_segments(i)
    }
}

/// The first `n` frames of a stopwatch, at full brightness.
pub open spec fn stopwatch_ops(n: nat, blink: bool) -> Seq<PinOp>
    decreases n,
{
    if n == 0 {
        Seq::empty()
    } else {
        stopwatch_ops((n - 1) as nat, blink) + frame_ops(
            stopwatch_frame((n - 1) as nat, blink),
            DisplayState::ON,
            Brightness::L7,
        )
    }
}

/// The first `n` frames of a timer that counts down from `from`, at full
/// brightness.
pub open spec fn countdown_ops(from: nat, n: nat) -> Seq<PinOp>
    decreases n,
{
    if n == 0 {
        Seq::empty()
    } else {
        countdown_ops(from, (n - 1) as nat) + frame_ops(
            crate::encoding::number_segments((from - (n - 1)) as nat),
            DisplayState::ON,
            Brightness::L7,
        )
    }
}

/// The first `n` frames with which a timer shows that it is done: blank and
/// four zeros in turn.
pub open spec fn timer_done_ops(n: nat) -> Seq<PinOp>
    decreases n,
{
    if n == 0 {
        Seq::empty()
    } else {
        timer_done_ops((n - 1) as nat) + frame_ops(
            if (n - 1) % 2 == 0 {
                seq![0u8, 0u8, 0u8, 0u8]
            } else {
                Seq::new(4, |i: int| crate::encoding::digit_segments(0))
            },
            DisplayState::ON,
            Brightness::L7,
        )
    }
}

/// All that a timer from `from` puts on the wire: the countdown down to
/// zero, the four frames that blink, then the display cleared.
pub open spec fn timer_ops(from: nat) -> Seq<PinOp> {
    countdown_ops(from, from + 1) + timer_done_ops(4) + crate::protocol::write_segments_ops(
        seq![0u8, 0u8, 0u8, 0u8, 0u8, 0u8],
        0,
        DisplayState::ON,
        Brightness::L7,
    )
}

/// Shows one frame: writes it at position 0.
fn show_frame<B: PinBackend>(adapter: &mut TM1637Adapter<B>, frame: &[u8])
    ensures
        final(adapter)@ == old(adapter)@.after(
            frame_ops(frame@, old(adapter)@.display, old(adapter)@.brightness),
        ),
{
    reveal(frame_ops);
    adapter.write_segments_raw(frame, 0);
}

/// Lights the double point of a frame.
fn light_point(data: &mut [u8; 4])
    ensures
        final(data)@ == with_point(old(data)@),
{
    let lit: u8 = data[1] | SegmentBits::SegPoint.bits();
    data[1] = lit;
    assert(data@ =~= with_point(old(data)@));
}

/// Frame `i` of a stopwatch.
fn encode_stopwatch_frame(i: u16, blink: bool) -> (data: [u8; 4])
    ensures
        data@ == stopwatch_frame(i as nat, blink),
{
    let mut data: [u8; 4] = TM1637Adapter::encode_number(i);
    if blink && i % 2 == 1 {
        light_point(&mut data);
    }
    data
}

/// Encodes the text of a banner: like `encode_string`, but each dot
/// becomes a space.
pub fn encode_banner_text(text: &str) -> (data: Vec<u8>)
    ensures
        data@ == banner_segments(text@),
{
    let mut data: Vec<u8> = Vec::new();
    for c in chars: text.chars()
        invariant
            chars.seq() == text@,
            data@ == banner_segments(text@.take(chars.index() as int)),
    {
        // remove dots because this display only has one double point which looks weird.
        let shown: char = if c == '.' {
            ' '
        } else {
            c
        };
        data.push(TM1637Adapter::encode_char(shown));
    }
    data
}

/// Moves the encoded text once across the screen from right to left: shows
/// each window of four bytes, from the first to the last, and calls
/// `sleep_fn` after each. To display a text over and over again, call this
/// over and over again.
///
/// The text must fill the display: `data` holds at least four bytes.
pub fn display_text_banner<B: PinBackend, F: Fn() + ?Sized>(
    adapter: &mut TM1637Adapter<B>,
    data: &[u8],
    sleep_fn: &F,
)
    requires
        data@.len() >= DISPLAY_COUNT,
        call_requires(sleep_fn, ()),
    ensures
        final(adapter)@ == old(adapter)@.after(
            banner_ops(
                data@,
                (data@.len() - 3) as nat,
                old(adapter)@.display,
                old(adapter)@.brightness,
            ),
        ),
{
    // +1 because the upper border in a range is exclusive
    // otherwise last char is lost!
    let to: usize = (data.len() - DISPLAY_COUNT) + 1;
    let ghost display = adapter@.display;
    let ghost brightness = adapter@.brightness;

    let mut x: usize = 0;
    proof {
        adapter@.lemma_after_after(Seq::empty(), Seq::empty());
    }
    while x < to
        invariant
            x <= to,
            to == data@.len() - 3,
            data@.len() <= usize::MAX,
            call_requires(sleep_fn, ()),
            adapter@ == old(adapter)@.after(banner_ops(data@, x as nat, display, brightness)),
            display == old(adapter)@.display,
            brightness == old(adapter)@.brightness,
        decreases to - x,
    {
        let data_slice: &[u8] = vstd::slice::slice_subrange(data, x, x + DISPLAY_COUNT);
        show_frame(adapter, data_slice);
        sleep_fn();
        proof {
            old(adapter)@.lemma_after_after(
                banner_ops(data@, x as nat, display, brightness),
                frame_ops(data_slice@, display, brightness),
            );
        }
        x += 1;
    }
}

/// Displays "hh:mm": the first two characters of `l`, the double point if
/// `show_dots` says so, and the first two characters of `r`. For a clock
/// with a blinking double point, call this once per tick with `show_dots`
/// toggled.
///
/// Each side must hold two characters at least.
pub fn display_time<B: PinBackend>(
    adapter: &mut TM1637Adapter<B>,
    l: &str,
    r: &str,
    show_dots: bool,
)
    requires
        l@.len() >= 2,
        r@.len() >= 2,
    ensures
        final(adapter)@ == old(adapter)@.after(
            frame_ops(
                time_frame(l@, r@, show_dots),
                old(adapter)@.display,
                old(adapter)@.brightness,
            ),
        ),
{
    let mut data: [u8; 4] = [
        TM1637Adapter::encode_char(l.get_char(0)),
        TM1637Adapter::encode_char(l.get_char(1)),
        TM1637Adapter::encode_char(r.get_char(0)),
        TM1637Adapter::encode_char(r.get_char(1)),
    ];

    assert(data@ =~= time_frame(l@, r@, false));
    if show_dots {
        light_point(&mut data);
    }

    show_frame(adapter, data.as_slice());
}

/// Starts a stopwatch aka counter from 0 up to, but without, `to`, at full
/// brightness. With `blink` the double point is lit on every other count.
/// You need to provide a `sleep_fn` that waits 1s (for a stopwatch).
pub fn display_stopwatch<B: PinBackend, F: Fn() + ?Sized>(
    adapter: &mut TM1637Adapter<B>,
    sleep_fn: &F,
    to: u16,
    blink: bool,
)
    requires
        call_requires(sleep_fn, ()),
    ensures
        final(adapter)@ == old(adapter)@.with_display(DisplayState::ON).with_brightness(
            Brightness::L7,
        ).after(stopwatch_ops(to as nat, blink)),
{
    adapter.set_display_state(DisplayState::ON);
    adapter.set_brightness(Brightness::L7);
    let ghost ready = adapter@;
    proof {
        ready.lemma_after_after(Seq::empty(), Seq::empty());
    }

    // 0 to 9999
    let mut i: u16 = 0;
    while i < to
        invariant
            i <= to,
            call_requires(sleep_fn, ()),
            ready.display == DisplayState::ON,
            ready.brightness == Brightness::L7,
            adapter@ == ready.after(stopwatch_ops(i as nat, blink)),
        decreases to - i,
    {
        let data: [u8; 4] = encode_stopwatch_frame(i, blink);
        show_frame(adapter, data.as_slice());
        sleep_fn();  // probably this is always a function that sleeps 1s => 1Hz frequency
        proof {
            ready.lemma_after_after(
                stopwatch_ops(i as nat, blink),
                frame_ops(stopwatch_frame(i as nat, blink), DisplayState::ON, Brightness::L7),
            );
        }
        i += 1;
    }
}

/// Starts a timer from `from_val` down to 0, at full brightness. Needs a
/// `sleep_fn` (probably one that sleeps for one second). Displays pure
/// seconds, no minutes:seconds, and therefore never lights the double
/// point. When the timer is done, it blinks with zeros and clears the
/// display.
pub fn display_timer<B: PinBackend, F: Fn() + ?Sized>(
    adapter: &mut TM1637Adapter<B>,
    sleep_fn: &F,
    from_val: u16,
)
    requires
        from_val < u16::MAX,
        call_requires(sleep_fn, ()),
    ensures
        final(adapter)@ == old(adapter)@.with_display(DisplayState::ON).with_brightness(
            Brightness::L7,
        ).after(timer_ops(from_val as nat)),
{
    adapter.set_display_state(DisplayState::ON);
    adapter.set_brightness(Brightness::L7);
    let ghost ready = adapter@;
    proof {
        ready.lemma_after_after(Seq::empty(), Seq::empty());
    }

    let mut i: u16 = 0;
    while i < from_val + 1
        invariant
            i <= from_val + 1,
            from_val < u16::MAX,
            call_requires(sleep_fn, ()),
            ready.display == DisplayState::ON,
            ready.brightness == Brightness::L7,
            adapter@ == ready.after(countdown_ops(from_val as nat, i as nat)),
        decreases from_val + 1 - i,
    {
        let data: [u8; 4] = TM1637Adapter::encode_number(from_val - i);
        show_frame(adapter, data.as_slice());
        sleep_fn();  // probably this is always a function that sleeps 1s => 1Hz frequency
        proof {
            ready.lemma_after_after(
                countdown_ops(from_val as nat, i as nat),
                frame_ops(
                    crate::encoding::number_segments((from_val - i) as nat),
                    DisplayState::ON,
                    Brightness::L7,
                ),
            );
        }
        i += 1;
    }

    // blinking with just zeros to show that timer is done
    let ghost counted = adapter@;
    proof {
        counted.lemma_after_after(Seq::empty(), Seq::empty());
    }
    let mut k: u8 = 0;
    while k < 4
        invariant
            k <= 4,
            call_requires(sleep_fn, ()),
            counted.display == DisplayState::ON,
            counted.brightness == Brightness::L7,
            adapter@ == counted.after(timer_done_ops(k as nat)),
        decreases 4 - k,
    {
        let zero: u8 = TM1637Adapter::encode_digit(0);
        let data: [u8; 4] = if k % 2 == 0 {
            [0, 0, 0, 0]
        } else {
            [zero, zero, zero, zero]
        };
        assert(k % 2 == 0 ==> data@ =~= seq![0u8, 0u8, 0u8, 0u8]);
        assert(k % 2 != 0 ==> data@ =~= Seq::new(4, |i: int| crate::encoding::digit_segments(0)));
        show_frame(adapter, data.as_slice());
        sleep_fn();  // probably this is always a function that sleeps 1s => 1Hz frequency
        proof {
            counted.lemma_after_after(
                timer_done_ops(k as nat),
                frame_ops(data@, DisplayState::ON, Brightness::L7),
            );
        }
        k += 1;
    }
    adapter.clear();
    proof {
        let cleared = crate::protocol::write_segments_ops(
            seq![0u8, 0u8, 0u8, 0u8, 0u8, 0u8],
            0,
            DisplayState::ON,
            Brightness::L7,
        );
        counted.lemma_after_after(timer_done_ops(4), cleared);
        ready.lemma_after_after(
            countdown_ops(from_val as nat, from_val as nat + 1),
            timer_done_ops(4) + cleared,
        );
        assert(timer_ops(from_val as nat) =~= countdown_ops(from_val as nat, from_val as nat + 1)
            + (timer_done_ops(4) + cleared));
    }
}

} // verus!
