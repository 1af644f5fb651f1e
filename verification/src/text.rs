//! The status line shown on each window's bottom panel: frame rate and
//! number of balls, in decimal.

use vstd::prelude::*;

verus! {

/// The character of decimal digit `d`.
pub open spec fn digit_char(d: int) -> char {
    if d == 0 {
        '0'
    } else if d == 1 {
        '1'
    } else if d == 2 {
        '2'
    } else if d == 3 {
        '3'
    } else if d == 4 {
        '4'
    } else if d == 5 {
        '5'
    } else if d == 6 {
        '6'
    } else if d == 7 {
        '7'
    } else if d == 8 {
        '8'
    } else {
        '9'
    }
}

/// The decimal notation of `n`, without leading zeros, as `{}` writes it.
pub open spec fn decimal(n: nat) -> Seq<char>
    decreases n,
{
    if n < 10 {
        seq![digit_char(n as int)]
    } else {
        decimal(n / 10).push(digit_char((n % 10) as int))
    }
}

/// `s` followed by spaces up to `w` characters, as `{:<w}` writes it.
pub open spec fn pad_right(s: Seq<char>, w: nat) -> Seq<char> {
    if s.len() >= w {
        s
    } else {
        s + Seq::new((w - s.len()) as nat, |_i: int| ' ')
    }
}

/// The CPU window's status line, `format!("FPS: {:<3}  B: {:<3}", fps, balls)`.
pub open spec fn cpu_status_text(fps: nat, balls: nat) -> Seq<char> {
    seq!['F', 'P', 'S', ':', ' '] + pad_right(decimal(fps), 3) + seq![' ', ' ', 'B', ':', ' ']
        + pad_right(decimal(balls), 3)
}

/// The GPU window's status line, `format!("FPS: {}  \u{428}: {:<3}", fps, balls)`.
pub open spec fn gpu_status_text(fps: nat, balls: nat) -> Seq<char> {
    seq!['F', 'P', 'S', ':', ' '] + decimal(fps) + seq![' ', ' ', '\u{428}', ':', ' ']
        + pad_right(decimal(balls), 3)
}

/// The sixteen code points the shader reads: the first sixteen characters
/// of `s`, then zeros.
pub open spec fn shader_codes(s: Seq<char>) -> Seq<u32> {
    Seq::new(16, |i: int| if i < s.len() { s[i] as u32 } else { 0u32 })
}

/// The digit character of `d`.
fn digit(d: u64) -> (c: char)
    requires
        d < 10,
    ensures
        c == digit_char(d as int),
{
    if d == 0 {
        '0'
    } else if d == 1 {
        '1'
    } else if d == 2 {
        '2'
    } else if d == 3 {
        '3'
    } else if d == 4 {
        '4'
    } else if d == 5 {
        '5'
    } else if d == 6 {
        '6'
    } else if d == 7 {
        '7'
    } else if d == 8 {
        '8'
    } else {
        '9'
    }
}

/// Appends the decimal notation of `n`.
fn push_decimal(out: &mut Vec<char>, n: u64)
    ensures
        final(out)@ == old(out)@ + decimal(n as nat),
    decreases n,
{
    if n < 10 {
        out.push(digit(n));
    } else {
        push_decimal(out, n / 10);
        out.push(digit(n % 10));
    }
}

/// A number has at least one digit.
proof fn decimal_nonempty(n: nat)
    ensures
        decimal(n).len() >= 1,
    decreases n,
{
    if n >= 10 {
        decimal_nonempty(n / 10);
    }
}

/// Appends the decimal notation of `n`, padded with spaces to `w`
/// characters.
fn push_padded_decimal(out: &mut Vec<char>, n: u64, w: usize)
    ensures
        final(out)@ == old(out)@ + pad_right(decimal(n as nat), w as nat),
{
    let start = out.len();
    push_decimal(out, n);
    let ghost digits = decimal(n as nat);
    assert(out@ == old(out)@ + digits);
    let mut k: usize = out.len() - start;
    assert(k == digits.len());
    while k < w
        invariant
            k <= w || k == digits.len(),
            digits.len() <= k,
            out@ == old(out)@ + digits + Seq::new((k - digits.len()) as nat, |_i: int| ' '),
        decreases w - k,
    {
        out.push(' ');
        k = k + 1;
        assert(old(out)@ + digits + Seq::new((k - digits.len()) as nat, |_i: int| ' ') =~= old(
            out,
        )@ + digits + Seq::new((k - 1 - digits.len()) as nat, |_i: int| ' ').push(' '));
    }
    proof {
        if digits.len() >= w {
            assert(Seq::new((k - digits.len()) as nat, |_i: int| ' ') =~= Seq::<char>::empty());
            assert(out@ =~= old(out)@ + digits);
        } else {
            assert(k == w);
            assert(out@ =~= old(out)@ + (digits + Seq::new(
                (w - digits.len()) as nat,
                |_i: int| ' ',
            )));
        }
    }
}

/// The CPU window's status line for the given frame rate and ball count.
pub fn cpu_status_line(fps: u32, balls: usize) -> (s: Vec<char>)
    ensures
        s@ == cpu_status_text(fps as nat, balls as nat),
{
    let mut s: Vec<char> = Vec::new();
    s.push('F');
    s.push('P');
    s.push('S');
    s.push(':');
    s.push(' ');
    push_padded_decimal(&mut s, fps as u64, 3);
    s.push(' ');
    s.push(' ');
    s.push('B');
    s.push(':');
    s.push(' ');
    push_padded_decimal(&mut s, balls as u64, 3);
    assert(s@ =~= cpu_status_text(fps as nat, balls as nat));
    s
}

/// The GPU window's status line for the given frame rate and ball count.
pub fn gpu_status_line(fps: u32, balls: usize) -> (s: Vec<char>)
    ensures
        s@ == gpu_status_text(fps as nat, balls as nat),
{
    let mut s: Vec<char> = Vec::new();
    s.push('F');
    s.push('P');
    s.push('S');
    s.push(':');
    s.push(' ');
    push_decimal(&mut s, fps as u64);
    s.push(' ');
    s.push(' ');
    s.push('\u{428}');
    s.push(':');
    s.push(' ');
    push_padded_decimal(&mut s, balls as u64, 3);
    assert(s@ =~= gpu_status_text(fps as nat, balls as nat));
    s
}

/// The sixteen code points of the GPU window's status line, as the shader's
/// uniform block holds them.
pub fn gpu_status_codes(fps: u32, balls: usize) -> (codes: Vec<u32>)
    ensures
        codes@ == shader_codes(gpu_status_text(fps as nat, balls as nat)),
        codes@.len() == 16,
{
    let s = gpu_status_line(fps, balls);
    let mut codes: Vec<u32> = Vec::new();
    let mut i: usize = 0;
    while i < 16
        invariant
            i <= 16,
            s@ == gpu_status_text(fps as nat, balls as nat),
            codes@ == shader_codes(s@).take(i as int),
        decreases 16 - i,
    {
        if i < s.len() {
            codes.push(s[i] as u32);
        } else {
            codes.push(0);
        }
        assert(codes@ =~= shader_codes(s@).take(i + 1));
        i = i + 1;
    }
    assert(codes@ =~= shader_codes(s@));
    codes
}

/// Each number of the CPU status line takes at least three characters, so
/// the line is never shorter than 16 characters, and it is exactly 16 long
/// while both numbers stay below 1000.
pub proof fn cpu_status_length(fps: nat, balls: nat)
    ensures
        cpu_status_text(fps, balls).len() >= 16,
        fps < 1000 && balls < 1000 ==> cpu_status_text(fps, balls).len() == 16,
{
    decimal_nonempty(fps);
    decimal_nonempty(balls);
    if fps < 1000 {
        decimal_short(fps);
    }
    if balls < 1000 {
        decimal_short(balls);
    }
}

/// Numbers below 1000 have at most three digits.
proof fn decimal_short(n: nat)
    requires
        n < 1000,
    ensures
        decimal(n).len() <= 3,
{
    if n >= 10 {
        let m = n / 10;
        if m >= 10 {
            assert(m / 10 < 10);
            assert(decimal(m / 10).len() == 1);
            assert(decimal(m).len() == 2);
        } else {
            assert(decimal(m).len() == 1);
        }
    }
}

} // verus!
