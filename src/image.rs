use vstd::prelude::*;

verus! {

/// The character of a decimal digit.
pub open spec fn digit_char(d: nat) -> char {
    if d == 0 { '0' }
    else if d == 1 { '1' }
    else if d == 2 { '2' }
    else if d == 3 { '3' }
    else if d == 4 { '4' }
    else if d == 5 { '5' }
    else if d == 6 { '6' }
    else if d == 7 { '7' }
    else if d == 8 { '8' }
    else { '9' }
}

/// The decimal notation of `n`, most significant digit first, with no leading zeros.
pub open spec fn decimal(n: nat) -> Seq<char>
    decreases n,
{
    if n < 10 {
        seq![digit_char(n)]
    } else {
        decimal(n / 10).push(digit_char(n % 10))
    }
}

/// Appends the character of the digit `d` to `s`.
fn append_digit(s: &mut String, d: u64)
    requires
        d < 10,
    ensures
        final(s)@ == old(s)@.push(digit_char(d as nat)),
{
    let ghost before = s@;
    if d == 0 {
        s.append("0");
        proof { reveal_strlit("0"); }
    } else if d == 1 {
        s.append("1");
        proof { reveal_strlit("1"); }
    } else if d == 2 {
        s.append("2");
        proof { reveal_strlit("2"); }
    } else if d == 3 {
        s.append("3");
        proof { reveal_strlit("3"); }
    } else if d == 4 {
        s.append("4");
        proof { reveal_strlit("4"); }
    } else if d == 5 {
        s.append("5");
        proof { reveal_strlit("5"); }
    } else if d == 6 {
        s.append("6");
        proof { reveal_strlit("6"); }
    } else if d == 7 {
        s.append("7");
        proof { reveal_strlit("7"); }
    } else if d == 8 {
        s.append("8");
        proof { reveal_strlit("8"); }
    } else {
        s.append("9");
        proof { reveal_strlit("9"); }
    }
    assert(s@ =~= before.push(digit_char(d as nat)));
}

/// Appends the decimal notation of `n` to `s`.
pub fn append_decimal(s: &mut String, n: u64)
    ensures
        final(s)@ == old(s)@ + decimal(n as nat),
    decreases n,
{
    if n >= 10 {
        append_decimal(s, n / 10);
        append_digit(s, n % 10);
        assert(s@ =~= old(s)@ + decimal(n as nat));
    } else {
        append_digit(s, n);
        assert(s@ =~= old(s)@ + decimal(n as nat));
    }
}

/// An 8-bit-range pixel: red, green and blue channels.
#[derive(Clone, Copy, Debug, PartialEq, Eq, Structural)]
pub struct Rgb(pub u64, pub u64, pub u64);

/// The text form of a pixel: its three channels in decimal, separated by single spaces.
pub open spec fn rgb_text(r: nat, g: nat, b: nat) -> Seq<char> {
    decimal(r) + seq![' '] + decimal(g) + seq![' '] + decimal(b)
}

/// Appends one space to `s`.
fn append_space(s: &mut String)
    ensures
        final(s)@ == old(s)@.push(' '),
{
    s.append(" ");
    proof { reveal_strlit(" "); }
    assert(s@ =~= old(s)@.push(' '));
}

impl Rgb {
    /// The pixel as the text `"r g b"`, as an image writer prints it.
    pub fn to_text(&self) -> (r: String)
        ensures
            r@ == rgb_text(self.0 as nat, self.1 as nat, self.2 as nat),
    {
        let mut s = String::new();
        append_decimal(&mut s, self.0);
        append_space(&mut s);
        append_decimal(&mut s, self.1);
        append_space(&mut s);
        append_decimal(&mut s, self.2);
        assert(s@ =~= rgb_text(self.0 as nat, self.1 as nat, self.2 as nat));
        s
    }
}

/// The header of a plain-text PPM image of `width` by `height` pixels with channels
/// up to 255, each of its three lines ended by a newline.
pub open spec fn ppm_header_text(width: nat, height: nat) -> Seq<char> {
    seq!['P', '3', '\n'] + decimal(width) + seq![' '] + decimal(height) + seq!['\n', '2', '5', '5', '\n']
}

/// The header that starts a plain-text PPM image of `width` by `height` pixels.
pub fn ppm_header(width: u64, height: u64) -> (r: String)
    ensures
        r@ == ppm_header_text(width as nat, height as nat),
{
    let mut s = String::new();
    s.append("P3\n");
    proof { reveal_strlit("P3\n"); }
    append_decimal(&mut s, width);
    append_space(&mut s);
    append_decimal(&mut s, height);
    s.append("\n255\n");
    proof { reveal_strlit("\n255\n"); }
    assert(s@ =~= ppm_header_text(width as nat, height as nat));
    s
}

} // verus!
