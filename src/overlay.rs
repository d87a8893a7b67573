use vstd::prelude::*;

verus! {

/// The character of a decimal digit.
pub open spec fn digit_char(d: nat) -> char {
    if d == 0 { '0' }
    else if d == 1 { '1' }
    else if d == 2 { '2' }
    else if d == 3 { '3' }
    else if d == 4 { '4' }
    else if d == 5 { '5' }
    else if d == 6 { '6' }
    else if d == 7 { '7' }
    else if d == 8 { '8' }
    else { '9' }
}

/// The decimal digits of `n`, without leading zeros.
pub open spec fn decimal(n: nat) -> Seq<char>
    decreases n,
{
    if n < 10 {
        seq![digit_char(n)]
    } else {
        decimal(n / 10).push(digit_char(n % 10))
    }
}

/// `n` in decimal, with a minus sign when it is negative.
pub open spec fn signed_decimal(n: int) -> Seq<char> {
    if n < 0 {
        seq!['-'] + decimal((-n) as nat)
    } else {
        decimal(n as nat)
    }
}

/// `n` hundredths, written with two decimals.
pub open spec fn hundredths(n: nat) -> Seq<char> {
    decimal(n / 100) + seq!['.', digit_char((n % 100) / 10), digit_char(n % 10)]
}

/// Microseconds as milliseconds with two decimals, the last one rounded half
/// up.
pub open spec fn millis_text(us: nat) -> Seq<char> {
    hundredths((us + 5) / 10)
}

fn digit_str(d: u64) -> (r: &'static str)
    requires
        d < 10,
    ensures
        r@ == seq![digit_char(d as nat)],
{
    proof {
        reveal_strlit("0");
        reveal_strlit("1");
        reveal_strlit("2");
        reveal_strlit("3");
        reveal_strlit("4");
        reveal_strlit("5");
        reveal_strlit("6");
        reveal_strlit("7");
        reveal_strlit("8");
        reveal_strlit("9");
    }
    if d == 0 { "0" }
    else if d == 1 { "1" }
    else if d == 2 { "2" }
    else if d == 3 { "3" }
    else if d == 4 { "4" }
    else if d == 5 { "5" }
    else if d == 6 { "6" }
    else if d == 7 { "7" }
    else if d == 8 { "8" }
    else { "9" }
}

fn push_decimal(s: &mut String, n: u64)
    ensures
        final(s)@ == old(s)@ + decimal(n as nat),
    decreases n,
{
    if n >= 10 {
        push_decimal(s, n / 10);
    }
    s.append(digit_str(n % 10));
    assert(final(s)@ =~= old(s)@ + decimal(n as nat));
}

/// A line of text of the overlay, at a place in pixels.
#[derive(Clone, Debug, PartialEq, Eq)]
pub struct TextLine {
    pub text: String,
    pub x: u32,
    pub y: u32,
    pub size: u16,
}

pub open spec fn is_line(l: TextLine, text: Seq<char>, x: u32, y: u32, size: u16) -> bool {
    l.text@ == text && l.x == x && l.y == y && l.size == size
}

/// The overlay of the frame rate, as "FPS: <fps>".
pub fn fps_text(fps: i32) -> (r: String)
    ensures
        r@ == "FPS: "@ + signed_decimal(fps as int),
{
    let mut s = "FPS: ".to_owned();
    if fps < 0 {
        proof {
            reveal_strlit("-");
        }
        s.append("-");
        let magnitude: u64 = (0 - (fps as i64)) as u64;
        push_decimal(&mut s, magnitude);
        assert(s@ =~= "FPS: "@ + signed_decimal(fps as int));
    } else {
        push_decimal(&mut s, fps as u64);
    }
    s
}

/// The overlay of the frame time, as "Frame Time: <ms> ms" with two decimals.
pub fn frame_time_text(frame_time_us: u64) -> (r: String)
    ensures
        r@ == "Frame Time: "@ + millis_text(frame_time_us as nat) + " ms"@,
{
    let h: u64 = frame_time_us / 10 + if frame_time_us % 10 >= 5 { 1 } else { 0 };
    assert(h == (frame_time_us + 5) / 10);
    let mut s = "Frame Time: ".to_owned();
    push_decimal(&mut s, h / 100);
    proof {
        reveal_strlit(".");
    }
    s.append(".");
    s.append(digit_str((h % 100) / 10));
    s.append(digit_str(h % 10));
    s.append(" ms");
    assert(s@ =~= "Frame Time: "@ + millis_text(frame_time_us as nat) + " ms"@);
    s
}

/// The two lines of the timing overlay: the frame rate at (20, 50) and the
/// frame time at (20, 80), both at size 30.
pub fn fps_draw_system(frame_time_us: u64, fps: i32) -> (r: Vec<TextLine>)
    ensures
        r@.len() == 2,
        is_line(r@[0], "FPS: "@ + signed_decimal(fps as int), 20, 50, 30),
        is_line(r@[1], "Frame Time: "@ + millis_text(frame_time_us as nat) + " ms"@, 20, 80, 30),
{
    let mut lines: Vec<TextLine> = Vec::new();
    lines.push(TextLine { text: fps_text(fps), x: 20, y: 50, size: 30 });
    lines.push(TextLine { text: frame_time_text(frame_time_us), x: 20, y: 80, size: 30 });
    lines
}

} // verus!
