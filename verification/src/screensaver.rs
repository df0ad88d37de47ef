//! What the screensaver windows do on each window event, and which screens
//! get a clock.

use vstd::prelude::*;
use crate::display_type::DisplayType;
use crate::settings::FlipItSettings;
use crate::number::{dec2, int_text, push_dec2, push_int};
use crate::text::push_str;

verus! {

/// An event of a screensaver window.
#[derive(Debug, Clone, Copy, PartialEq, Eq, Structural)]
pub enum SaverEvent {
    Create,
    Paint,
    Timer,
    /// The mouse moved; the packed cursor position.
    MouseMove(isize),
    ButtonDown,
    KeyDown,
    Destroy,
    /// Any other message.
    Other,
}

/// What a screensaver window does about an event.
#[derive(Debug, Clone, Copy, PartialEq, Eq, Structural)]
pub enum SaverAction {
    /// Nothing.
    Ignore,
    /// Draws the clock.
    Draw,
    /// Marks the window for redrawing.
    Invalidate,
    /// Stores a new mouse-move counter in the window.
    StoreCounter(isize),
    /// Ends the screensaver.
    Quit,
    /// Leaves the message to the default handling.
    Default,
}

/// The full-screen window's answer to `event`, given the mouse-move
/// counter kept in the window (0 at first). The first three mouse moves
/// only count up; the fourth stores the cursor position; from then on a
/// move to another position ends the screensaver. A click or a key ends it.
pub open spec fn saver_step(counter: isize, event: SaverEvent) -> SaverAction {
    match event {
        SaverEvent::Create => SaverAction::Ignore,
        SaverEvent::Paint => SaverAction::Draw,
        SaverEvent::Timer => SaverAction::Invalidate,
        SaverEvent::MouseMove(pos) => if counter < 3 {
            SaverAction::StoreCounter((counter + 1) as isize)
        } else if counter == 3 {
            SaverAction::StoreCounter(pos)
        } else if counter == pos {
            SaverAction::Ignore
        } else {
            SaverAction::Quit
        },
        SaverEvent::ButtonDown => SaverAction::Quit,
        SaverEvent::KeyDown => SaverAction::Quit,
        SaverEvent::Destroy => SaverAction::Quit,
        SaverEvent::Other => SaverAction::Default,
    }
}

/// The full-screen window's answer to `event` (`saver_step`).
pub fn saver_action(counter: isize, event: SaverEvent) -> (r: SaverAction)
    ensures
        r == saver_step(counter, event),
{
    match event {
        SaverEvent::Create => SaverAction::Ignore,
        SaverEvent::Paint => SaverAction::Draw,
        SaverEvent::Timer => SaverAction::Invalidate,
        SaverEvent::MouseMove(pos) => {
            if counter < 3 {
                SaverAction::StoreCounter(counter + 1)
            } else if counter == 3 {
                SaverAction::StoreCounter(pos)
            } else if counter == pos {
                SaverAction::Ignore
            } else {
                SaverAction::Quit
            }
        },
        SaverEvent::ButtonDown | SaverEvent::KeyDown | SaverEvent::Destroy => SaverAction::Quit,
        SaverEvent::Other => SaverAction::Default,
    }
}

/// The preview window's answer to `event`: it draws, redraws on the timer
/// and ends when destroyed; everything else goes to the default handling.
pub fn preview_action(event: SaverEvent) -> (r: SaverAction)
    ensures
        r == match event {
            SaverEvent::Paint => SaverAction::Draw,
            SaverEvent::Timer => SaverAction::Invalidate,
            SaverEvent::Destroy => SaverAction::Quit,
            _ => SaverAction::Default,
        },
{
    match event {
        SaverEvent::Paint => SaverAction::Draw,
        SaverEvent::Timer => SaverAction::Invalidate,
        SaverEvent::Destroy => SaverAction::Quit,
        _ => SaverAction::Default,
    }
}

/// Whether the monitor with index `i` gets a clock: it has a screen
/// setting, and that screen shows something.
pub fn shows_clock(settings: &FlipItSettings, i: usize) -> (r: bool)
    ensures
        r == (i < settings.screen_settings@.len() && settings.screen_settings@[i as int].display_type
            != DisplayType::Nothing),
{
    i < settings.screen_settings.len() && settings.screen_settings[i].display_type
        != DisplayType::Nothing
}

/// The colour the clock text is drawn in, as ARGB: the opacity's low byte
/// on top of the colour's low three bytes.
pub fn font_color_argb(font_alpha: u32, font_color: u32) -> (r: u32)
    ensures
        r == (font_alpha % 256) * 0x1000000 + font_color % 0x1000000,
{
    let r = (font_alpha << 24) | (font_color & 0xffffff);
    assert(r == (font_alpha % 256) * 0x1000000 + font_color % 0x1000000) by (bit_vector)
        requires
            r == (font_alpha << 24) | (font_color & 0xffffff),
    ;
    r
}

/// Once the position is stored, only a move to another position ends the
/// screensaver: the same position, however often, changes nothing.
pub proof fn lemma_still_mouse_keeps_running(pos: isize)
    requires
        pos > 3,
    ensures
        saver_step(pos, SaverEvent::MouseMove(pos)) == SaverAction::Ignore,
        forall|other: isize| other != pos ==> saver_step(pos, SaverEvent::MouseMove(other))
            == SaverAction::Quit,
{
}

/// The clock's two texts for the local time `hour:minute`: each two digits
/// (`%H` and `%M`).
pub fn clock_digits(hour: u32, minute: u32) -> (r: (String, String))
    requires
        hour < 24,
        minute < 60,
    ensures
        r.0@ == dec2(hour as nat),
        r.1@ == dec2(minute as nat),
{
    let mut h = String::new();
    push_dec2(&mut h, hour as u64);
    let mut m = String::new();
    push_dec2(&mut m, minute as u64);
    assert(h@ =~= dec2(hour as nat));
    assert(m@ =~= dec2(minute as nat));
    (h, m)
}

/// The screens for the monitor rectangles `rects` (left, top, right,
/// bottom), in order: the `i`-th numbered `i + 1`, named `DISPLAY` and that
/// number, as wide and high as its rectangle. With no monitor, the primary
/// screen alone: `DISPLAY1`, `width` by `height`.
pub open spec fn screen_list(
    rects: Seq<(i32, i32, i32, i32)>,
    width: i32,
    height: i32,
) -> Seq<(int, Seq<char>, int, int)> {
    if rects.len() == 0 {
        seq![(1int, "DISPLAY"@ + int_text(1), width as int, height as int)]
    } else {
        Seq::new(
            rects.len(),
            |i: int| (i + 1, "DISPLAY"@ + int_text(i + 1), rects[i].2 - rects[i].0, rects[i].3 - rects[i].1),
        )
    }
}

/// The screens as numbers, names and sizes, seen as plain values.
pub open spec fn screens_view(v: Seq<(i32, String, i32, i32)>) -> Seq<(int, Seq<char>, int, int)> {
    Seq::new(v.len(), |i: int| (v[i].0 as int, v[i].1@, v[i].2 as int, v[i].3 as int))
}

/// The name `DISPLAY` and the number `n`.
fn display_name(n: i64) -> (r: String)
    ensures
        r@ == "DISPLAY"@ + int_text(n as int),
{
    let mut r = String::new();
    push_str(&mut r, "DISPLAY");
    push_int(&mut r, n);
    r
}

/// The screens for the monitor rectangles `rects`, or for the primary
/// screen when there is none (`screen_list`).
pub fn screen_devices(rects: &[(i32, i32, i32, i32)], width: i32, height: i32) -> (r: Vec<(i32, String, i32, i32)>)
    requires
        rects@.len() < i32::MAX,
        forall|i: int|
            0 <= i < rects@.len() ==> i32::MIN <= (#[trigger] rects@[i]).2 - rects@[i].0 <= i32::MAX
                && i32::MIN <= rects@[i].3 - rects@[i].1 <= i32::MAX,
    ensures
        screens_view(r@) == screen_list(rects@, width, height),
{
    let mut out: Vec<(i32, String, i32, i32)> = Vec::new();
    let n = rects.len();
    if n == 0 {
        out.push((1, display_name(1), width, height));
        assert(screens_view(out@) =~= screen_list(rects@, width, height));
        return out;
    }
    for i in 0..n
        invariant
            n == rects@.len(),
            n < i32::MAX,
            forall|t: int|
                0 <= t < rects@.len() ==> i32::MIN <= (#[trigger] rects@[t]).2 - rects@[t].0 <= i32::MAX
                    && i32::MIN <= rects@[t].3 - rects@[t].1 <= i32::MAX,
            out@.len() == i,
            screens_view(out@) =~= screen_list(rects@, width, height).take(i as int),
    {
        assert(screen_list(rects@, width, height).len() == n);
        let (l, t, rt, b) = rects[i];
        assert(rects@[i as int] == (l, t, rt, b));
        let num = (i + 1) as i32;
        let name = display_name((i + 1) as i64);
        let ghost before = out@;
        out.push((num, name, rt - l, b - t));
        proof {
            let full = screen_list(rects@, width, height);
            assert(rects@.len() > 0);
            assert(full[i as int] == (i + 1, "DISPLAY"@ + int_text(i + 1), rt - l, b - t));
            assert(screens_view(out@)[i as int] == full[i as int]);
            assert forall|j: int| 0 <= j < i implies screens_view(out@)[j] == full[j] by {
                assert(out@[j] == before[j]);
                assert(screens_view(before)[j] == full.take(i as int)[j]);
            }
            assert(screens_view(out@) =~= full.take(i + 1));
        }
    }
    assert(screen_list(rects@, width, height).take(n as int) =~= screen_list(rects@, width, height));
    out
}

/// The mouse moves from a fresh window, in order: the counter kept and
/// whether one of them ended the screensaver.
pub open spec fn after_moves(counter: isize, moves: Seq<isize>) -> (isize, bool)
    decreases moves.len(),
{
    if moves.len() == 0 {
        (counter, false)
    } else {
        let (c, quit) = after_moves(counter, moves.drop_last());
        if quit {
            (c, true)
        } else {
            match saver_step(c, SaverEvent::MouseMove(moves.last())) {
                SaverAction::StoreCounter(n) => (n, false),
                SaverAction::Quit => (c, true),
                _ => (c, false),
            }
        }
    }
}

/// The first four mouse moves of a fresh window never end the screensaver,
/// wherever the mouse is; clicks and keys always end it, and drawing never
/// does.
pub proof fn lemma_warm_up_moves(moves: Seq<isize>, counter: isize)
    requires
        moves.len() <= 4,
    ensures
        !after_moves(0, moves).1,
        moves.len() < 4 ==> after_moves(0, moves).0 == moves.len(),
        saver_step(counter, SaverEvent::ButtonDown) == SaverAction::Quit,
        saver_step(counter, SaverEvent::KeyDown) == SaverAction::Quit,
        saver_step(counter, SaverEvent::Paint) == SaverAction::Draw,
        saver_step(counter, SaverEvent::Timer) == SaverAction::Invalidate,
    decreases moves.len(),
{
    if moves.len() > 0 {
        lemma_warm_up_moves(moves.drop_last(), counter);
    }
}

} // verus!
