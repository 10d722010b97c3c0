//! The on-screen overlay: its texts, how long it stays, the countdown it
//! runs, and how it is sized and placed.
use vstd::prelude::*;

use crate::text::{chars_of, decimal, decimal_string, join3};

verus! {

pub const MAX_FONT_SIZE: i32 = 120;

pub const MIN_FONT_SIZE: i32 = 16;

pub const FONT_STEP: i32 = 4;

pub const HORIZONTAL_PADDING: i32 = 80;

pub const VERTICAL_PADDING: i32 = 40;

pub const MIN_WIDTH: i32 = 320;

pub const SCREEN_MARGIN: i32 = 40;

pub const TOP_MARGIN: i32 = 40;

pub const RIGHT_MARGIN: i32 = 40;

pub const SINGLE_LINE_DURATION_MS: u32 = 1600;

pub const MULTILINE_DURATION_MS: u32 = 5000;

pub const COUNTDOWN_TICK_MS: u32 = 1000;

pub const CLEARED_DURATION_MS: u32 = 900;

/// What the countdown shows once the clipboard has been cleared.
pub const CLEARED_TEXT: &'static str = "PASSWORD OUT\n\nCLEARED\n\nCLIPBOARD EMPTY";

/// `n` in decimal with at least two digits, as `{:02}` writes it.
pub open spec fn two_digits(n: nat) -> Seq<char> {
    if n < 10 {
        "0"@ + decimal(n)
    } else {
        decimal(n)
    }
}

/// The countdown text for the seconds left.
pub open spec fn countdown_message(remaining_seconds: u64) -> Seq<char> {
    "PASSWORD OUT\n\n"@ + two_digits(remaining_seconds as nat) + " SEC\n\nAUTO CLEAR"@
}

/// The countdown text for the seconds left.
pub fn countdown_text(remaining_seconds: u64) -> (text: String)
    ensures
        text@ == countdown_message(remaining_seconds),
{
    let number = decimal_string(remaining_seconds);
    let mut digits = if remaining_seconds < 10 {
        String::from_str("0")
    } else {
        String::new()
    };
    assert(remaining_seconds >= 10 ==> digits@ =~= Seq::<char>::empty());
    digits.append(number.as_str());
    join3("PASSWORD OUT\n\n", digits.as_str(), " SEC\n\nAUTO CLEAR")
}

/// The number of lines `str::lines` yields: a line starts at the beginning
/// of the text and after each line feed that is not the last character.
pub open spec fn line_count(text: Seq<char>) -> nat
    decreases text.len(),
{
    if text.len() == 0 {
        0
    } else if text.len() == 1 || text[text.len() - 2] == '\n' {
        line_count(text.drop_last()) + 1
    } else {
        line_count(text.drop_last())
    }
}

proof fn lemma_line_count_step(text: Seq<char>, i: int)
    requires
        0 <= i < text.len(),
    ensures
        line_count(text.take(i + 1)) == line_count(text.take(i)) + (if i == 0 || text[i - 1]
            == '\n' {
            1int
        } else {
            0int
        }),
{
    let prefix = text.take(i + 1);
    assert(prefix.drop_last() =~= text.take(i));
    assert(prefix.last() == text[i]);
    if i > 0 {
        assert(prefix[prefix.len() - 2] == text[i - 1]);
    }
}

/// How long a message stays on screen: longer when it has more than one
/// line.
pub fn message_duration_ms(message: &str) -> (duration: u32)
    ensures
        line_count(message@) > 1 ==> duration == MULTILINE_DURATION_MS,
        line_count(message@) <= 1 ==> duration == SINGLE_LINE_DURATION_MS,
{
    let chars = chars_of(message);
    let mut count: usize = 0;
    let mut index: usize = 0;
    assert(message@.take(0) =~= Seq::<char>::empty());
    while index < chars.len()
        invariant
            chars@ == message@,
            index <= chars@.len(),
            count == line_count(message@.take(index as int)),
            count <= index,
        decreases chars.len() - index,
    {
        proof {
            lemma_line_count_step(message@, index as int);
        }
        if index == 0 || chars[index - 1] == '\n' {
            count = count + 1;
        }
        index = index + 1;
    }
    assert(message@.take(chars@.len() as int) =~= message@);
    if count > 1 {
        MULTILINE_DURATION_MS
    } else {
        SINGLE_LINE_DURATION_MS
    }
}

/// What an overlay window is doing.
#[derive(Debug, Clone, Copy, PartialEq, Eq, Structural)]
pub enum OverlayMode {
    /// A message shown once, for a fixed time.
    Message,
    /// A countdown to the clipboard being cleared, then a "cleared" notice.
    Countdown { remaining_seconds: u64, showing_cleared: bool },
}

/// What a timer tick asks the window to do.
#[derive(Debug, Clone, PartialEq, Eq)]
pub enum TimerAction {
    /// Close the window.
    Close,
    /// Show this text and keep ticking.
    Redraw(String),
    /// Show this text and restart the timer with this interval.
    RedrawAndRestart(String, u32),
}

/// One timer tick of an overlay: a message closes; a countdown counts down a
/// second, shows the cleared notice once it reaches zero, and closes after
/// showing it.
pub fn timer_tick(mode: &mut OverlayMode) -> (action: TimerAction)
    ensures
        match *old(mode) {
            OverlayMode::Message => action == TimerAction::Close && *final(mode) == *old(mode),
            OverlayMode::Countdown { remaining_seconds, showing_cleared } => if showing_cleared {
                action == TimerAction::Close && *final(mode) == *old(mode)
            } else {
                let left = if remaining_seconds > 0 {
                    (remaining_seconds - 1) as u64
                } else {
                    0u64
                };
                if left == 0 {
                    *final(mode) == (OverlayMode::Countdown {
                        remaining_seconds: 0,
                        showing_cleared: true,
                    }) && (action matches TimerAction::RedrawAndRestart(text, interval) && text@
                        == CLEARED_TEXT@ && interval == CLEARED_DURATION_MS)
                } else {
                    *final(mode) == (OverlayMode::Countdown {
                        remaining_seconds: left,
                        showing_cleared: false,
                    }) && (action matches TimerAction::Redraw(text) && text@ == countdown_message(
                        left,
                    ))
                }
            },
        },
{
    match *mode {
        OverlayMode::Message => TimerAction::Close,
        OverlayMode::Countdown { remaining_seconds, showing_cleared } => {
            if showing_cleared {
                return TimerAction::Close;
            }
            let left: u64 = if remaining_seconds > 0 {
                remaining_seconds - 1
            } else {
                0
            };
            if left == 0 {
                *mode = OverlayMode::Countdown { remaining_seconds: 0, showing_cleared: true };
                TimerAction::RedrawAndRestart(String::from_str(CLEARED_TEXT), CLEARED_DURATION_MS)
            } else {
                *mode = OverlayMode::Countdown { remaining_seconds: left, showing_cleared: false };
                TimerAction::Redraw(countdown_text(left))
            }
        },
    }
}

/// The largest size an overlay may take on a screen of this size.
pub open spec fn overlay_limits(screen_width: int, screen_height: int) -> (int, int) {
    let width = screen_width - SCREEN_MARGIN * 2;
    let height = screen_height - TOP_MARGIN - SCREEN_MARGIN;
    (if width > MIN_WIDTH {
        width
    } else {
        MIN_WIDTH as int
    }, if height > 1 {
        height
    } else {
        1
    })
}

pub fn overlay_bounds(screen_width: i32, screen_height: i32) -> (bounds: (i32, i32))
    requires
        screen_width >= i32::MIN + 80,
        screen_height >= i32::MIN + 80,
    ensures
        bounds.0 as int == overlay_limits(screen_width as int, screen_height as int).0,
        bounds.1 as int == overlay_limits(screen_width as int, screen_height as int).1,
{
    let width = screen_width - SCREEN_MARGIN * 2;
    let height = screen_height - TOP_MARGIN - SCREEN_MARGIN;
    (if width > MIN_WIDTH {
        width
    } else {
        MIN_WIDTH
    }, if height > 1 {
        height
    } else {
        1
    })
}

/// The window size a font size gives, if the text fits the limits or no
/// smaller font is left: the text's widest line and its lines with their
/// spacing, plus padding.
pub open spec fn fitted_size(
    font_size: int,
    line_width: int,
    line_height: int,
    line_count: int,
    maximum_width: int,
    maximum_height: int,
) -> Option<(int, int)> {
    let spacing = if font_size / 10 > 2 {
        font_size / 10
    } else {
        2
    };
    let gaps = if line_count - 1 > 0 {
        line_count - 1
    } else {
        0
    };
    let required_width = line_width + HORIZONTAL_PADDING;
    let required_height = line_height * line_count + spacing * gaps + VERTICAL_PADDING;
    if (required_width <= maximum_width && required_height <= maximum_height) || font_size
        <= MIN_FONT_SIZE {
        let wide = if required_width > MIN_WIDTH {
            required_width
        } else {
            MIN_WIDTH as int
        };
        Some(
            (if wide < maximum_width {
                wide
            } else {
                maximum_width
            }, if required_height < maximum_height {
                required_height
            } else {
                maximum_height
            }),
        )
    } else {
        None
    }
}

/// Whether the sizing arithmetic stays within `i32`.
pub open spec fn sizing_in_range(
    font_size: int,
    line_width: int,
    line_height: int,
    line_count: int,
) -> bool {
    &&& 0 <= font_size <= MAX_FONT_SIZE
    &&& 0 <= line_width <= i32::MAX - HORIZONTAL_PADDING
    &&& 0 <= line_height
    &&& 1 <= line_count
    &&& line_height * line_count + MAX_FONT_SIZE * line_count + VERTICAL_PADDING <= i32::MAX
}

/// Decides whether the measured text fits at this font size, and the
/// window size if so.
pub fn fit_overlay(
    font_size: i32,
    line_width: i32,
    line_height: i32,
    line_count: i32,
    maximum_width: i32,
    maximum_height: i32,
) -> (size: Option<(i32, i32)>)
    requires
        sizing_in_range(font_size as int, line_width as int, line_height as int, line_count as int),
    ensures
        match fitted_size(
            font_size as int,
            line_width as int,
            line_height as int,
            line_count as int,
            maximum_width as int,
            maximum_height as int,
        ) {
            Some((width, height)) => size matches Some((w, h)) && w as int == width && h as int
                == height,
            None => size is None,
        },
{
    let spacing: i32 = if font_size / 10 > 2 {
        font_size / 10
    } else {
        2
    };
    let gaps: i32 = if line_count - 1 > 0 {
        line_count - 1
    } else {
        0
    };
    assert(line_height * line_count <= i32::MAX) by (nonlinear_arith)
        requires
            line_height * line_count + MAX_FONT_SIZE * line_count + VERTICAL_PADDING <= i32::MAX,
            line_count >= 1,
            line_height >= 0,
    ;
    assert(spacing * gaps <= MAX_FONT_SIZE * line_count) by (nonlinear_arith)
        requires
            0 <= spacing <= MAX_FONT_SIZE,
            0 <= gaps <= line_count,
    ;
    assert(0 <= spacing * gaps) by (nonlinear_arith)
        requires
            0 <= spacing,
            0 <= gaps,
    ;
    assert(0 <= line_height * line_count) by (nonlinear_arith)
        requires
            0 <= line_height,
            0 <= line_count,
    ;
    let required_width = line_width + HORIZONTAL_PADDING;
    let required_height = line_height * line_count + spacing * gaps + VERTICAL_PADDING;
    if (required_width <= maximum_width && required_height <= maximum_height) || font_size
        <= MIN_FONT_SIZE {
        let wide = if required_width > MIN_WIDTH {
            required_width
        } else {
            MIN_WIDTH
        };
        Some(
            (if wide < maximum_width {
                wide
            } else {
                maximum_width
            }, if required_height < maximum_height {
                required_height
            } else {
                maximum_height
            }),
        )
    } else {
        None
    }
}

/// The next, smaller font size to try.
pub fn next_font_size(font_size: i32) -> (next: i32)
    requires
        font_size >= i32::MIN + FONT_STEP,
    ensures
        next == (if font_size - FONT_STEP > MIN_FONT_SIZE {
            font_size - FONT_STEP
        } else {
            MIN_FONT_SIZE as int
        }),
{
    let smaller = font_size - FONT_STEP;
    if smaller > MIN_FONT_SIZE {
        smaller
    } else {
        MIN_FONT_SIZE
    }
}

/// Where the overlay goes: against the right edge with a margin, near the
/// top of the screen.
pub open spec fn overlay_origin(screen_width: int, screen_height: int, width: int, height: int) -> (
    int,
    int,
) {
    let x = screen_width - width - RIGHT_MARGIN;
    let below = screen_height - height;
    (if x > 0 {
        x
    } else {
        0
    }, if below > 0 {
        if TOP_MARGIN < below {
            TOP_MARGIN as int
        } else {
            below
        }
    } else {
        0
    })
}

pub fn overlay_position(screen_width: i32, screen_height: i32, width: i32, height: i32) -> (origin:
    (i32, i32))
    requires
        i32::MIN + 40 <= screen_width - width <= i32::MAX,
        i32::MIN <= screen_height - height <= i32::MAX,
    ensures
        origin.0 as int == overlay_origin(
            screen_width as int,
            screen_height as int,
            width as int,
            height as int,
        ).0,
        origin.1 as int == overlay_origin(
            screen_width as int,
            screen_height as int,
            width as int,
            height as int,
        ).1,
{
    let x = screen_width - width - RIGHT_MARGIN;
    let below = screen_height - height;
    (if x > 0 {
        x
    } else {
        0
    }, if below > 0 {
        if TOP_MARGIN < below {
            TOP_MARGIN
        } else {
            below
        }
    } else {
        0
    })
}

} // verus!
