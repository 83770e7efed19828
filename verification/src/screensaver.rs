//! What the screensaver decides.
//!
//! The screensaver takes over the display when no button was pressed for a
//! while and lets the hostname wander over the screen. Waiting, drawing and
//! listening to buttons are the caller's part. This module holds the
//! arithmetic of the wandering text and the decisions.

use vstd::prelude::*;

verus! {

/// How long no button has to be pressed for the screensaver to take over, in
/// seconds.
pub const TIMEOUT_SECONDS: u64 = 600;

/// The time between two steps of the wandering text, in milliseconds.
pub const STEP_MILLIS: u64 = 100;

/// The width of the area in which the text wanders, in pixels.
pub const DANCE_WIDTH: i32 = 230;

/// The height of the area in which the text wanders, in pixels.
pub const DANCE_HEIGHT: i32 = 240;

/// The value of a triangle wave at position `i`: it starts at `range`, falls
/// to 0 within `range` steps, rises to `range` again and so on. Without a
/// positive range the wave is flat at 0. A position in the period that does
/// not fit into an `i32` counts as `range`, where the wave is at 0.
pub open spec fn bounce_spec(i: u32, range: i32) -> int {
    if range > 0 {
        let place = i as int % (2 * range);
        if place > i32::MAX {
            0
        } else if place >= range {
            place - range
        } else {
            range - place
        }
    } else {
        0
    }
}

/// The value of the triangle wave with amplitude `range` at position `i`.
pub fn bounce(i: u32, range: i32) -> (height: i32)
    ensures
        height == bounce_spec(i, range),
        0 <= height,
        range > 0 ==> height <= range,
{
    if range > 0 {
        let period: u32 = 2 * (range as u32);
        let place: u32 = i % period;
        let place: i32 = if place > i32::MAX as u32 {
            range
        } else {
            place as i32
        };
        let offset: i32 = place - range;
        if offset < 0 {
            -offset
        } else {
            offset
        }
    } else {
        0
    }
}

/// Where the text stands at step `i` of its walk, given its size in pixels:
/// the horizontal position and the vertical position of its baseline. The
/// text bounces between the edges of the area; a text that does not fit
/// stays at the edge.
pub fn dance_position(i: u32, width: u32, height: u32) -> (place: (i32, i32))
    requires
        width <= i32::MAX,
        height <= i32::MAX,
    ensures
        place.0 == bounce_spec(i, (DANCE_WIDTH - width) as i32),
        place.1 == bounce_spec(i, (DANCE_HEIGHT - height) as i32) + height,
{
    let w: i32 = width as i32;
    let h: i32 = height as i32;
    let x: i32 = bounce(i, DANCE_WIDTH - w);
    let y: i32 = bounce(i, DANCE_HEIGHT - h);
    (x, y + h)
}

/// The longest text, in characters, that is measured and placed.
pub const MAX_TEXT: usize = 4096;

/// The width and the height in pixels of the box around `text` when it is set
/// in the font of the screensaver: what `embedded_graphics` measures.
pub uninterp spec fn text_extent(text: Seq<char>) -> (u32, u32);

/// Calls `Dimensions::bounding_box` of `embedded_graphics` on `text`, set at
/// the origin in the font `FONT_10X20` with the default text style, and
/// returns the width and the height of the box. The box depends on the text
/// alone. The text is short enough for the pixel arithmetic of the crate not
/// to overflow.
#[verifier::external_body]
fn measure_text(text: &str) -> (size: (u32, u32))
    requires
        text@.len() <= MAX_TEXT,
    ensures
        size == text_extent(text@),
{
    let style = embedded_graphics::mono_font::MonoTextStyle::new(
        &embedded_graphics::mono_font::ascii::FONT_10X20,
        embedded_graphics::pixelcolor::BinaryColor::On,
    );
    let origin = embedded_graphics::geometry::Point::new(0, 0);
    let size = embedded_graphics::geometry::Dimensions::bounding_box(
        &embedded_graphics::text::Text::new(text, origin, style),
    ).size;
    (size.width, size.height)
}

/// Where `text` stands at step `i` of its walk, or nothing for a text that
/// is not placed: one of more than `MAX_TEXT` characters, or one whose box
/// does not fit a signed coordinate.
pub open spec fn text_place(i: u32, text: Seq<char>) -> Option<(i32, i32)> {
    let (width, height) = text_extent(text);
    if text.len() <= MAX_TEXT && width <= i32::MAX && height <= i32::MAX {
        Some(
            (
                bounce_spec(i, (DANCE_WIDTH - width) as i32) as i32,
                (bounce_spec(i, (DANCE_HEIGHT - height) as i32) + height) as i32,
            ),
        )
    } else {
        None
    }
}

/// Measures `text` and finds where it stands at step `i` of its walk.
pub fn place_text(i: u32, text: &str) -> (place: Option<(i32, i32)>)
    ensures
        place == text_place(i, text@),
{
    if text.unicode_len() > MAX_TEXT {
        return None;
    }
    let (width, height) = measure_text(text);
    if width > i32::MAX as u32 || height > i32::MAX as u32 {
        return None;
    }
    Some(dance_position(i, width, height))
}

/// The step of the walk that follows step `i`. The count wraps around.
pub fn next_step(i: u32) -> (next: u32)
    ensures
        next == (if i == u32::MAX {
            0
        } else {
            i + 1
        }),
{
    i.wrapping_add(1)
}

/// What the watcher of the buttons heard while it waited.
#[derive(Clone, Copy, Debug, PartialEq, Eq, Structural)]
pub enum Idle {
    /// A button was pressed.
    Pressed,
    /// The time ran out without a button press.
    TimedOut,
    /// The source of button presses has ended.
    Ended,
}

/// What the watcher of the buttons does next.
#[derive(Clone, Copy, Debug, PartialEq, Eq, Structural)]
pub enum Watch {
    /// Wait again.
    Again,
    /// Switch to the screensaver if the current screen allows it, then wait
    /// again.
    Activate,
    /// Stop watching.
    Stop,
}

/// Decides what the watcher of the buttons does after it heard `idle`.
pub fn after_idle(idle: Idle) -> (watch: Watch)
    ensures
        watch == match idle {
            Idle::Pressed => Watch::Again,
            Idle::TimedOut => Watch::Activate,
            Idle::Ended => Watch::Stop,
        },
{
    match idle {
        Idle::Pressed => Watch::Again,
        Idle::TimedOut => Watch::Activate,
        Idle::Ended => Watch::Stop,
    }
}

/// Whether the display switches to the screensaver, given whether the screen
/// shown now allows it. Without a screen shown, it does not.
pub fn takes_over(allows: Option<bool>) -> (switch: bool)
    ensures
        switch == (allows == Some(true)),
{
    match allows {
        Some(allowed) => allowed,
        None => false,
    }
}

/// The state of the locator light after its button was pressed: the
/// opposite of what it was, on if it had no state yet.
pub fn toggled(previous: Option<bool>) -> (now: bool)
    ensures
        now == match previous {
            Some(was) => !was,
            None => true,
        },
{
    match previous {
        Some(was) => !was,
        None => true,
    }
}

} // verus!
