//! Lines of text in a buffer of fixed capacity, and the number formats
//! that the records and the views are written in.

use vstd::prelude::*;
use vstd::utf8::{encode_utf8, is_ascii_chars};

verus! {

/// The capacity of a [`Line`], in bytes.
pub const LINE_CAP: usize = 96;

/// A string of the `heapless` crate: text in a buffer of fixed capacity
/// that lives wherever the value lives, without an allocator.
#[verifier::external_type_specification]
#[verifier::external_body]
pub struct ExHeaplessString<const N: usize>(heapless::String<N>);

/// A line of text of at most [`LINE_CAP`] bytes.
pub type Line = heapless::String<96>;

/// The text that a line holds, which is what `heapless::String::as_str`
/// returns of it.
pub uninterp spec fn line_text(line: Line) -> Seq<char>;

/// `heapless::String::new`: a line that holds no text.
#[verifier::external_body]
pub(crate) fn line_new() -> (line: Line)
    ensures
        line_text(line) == Seq::<char>::empty(),
{
    heapless::String::new()
}

/// `heapless::String::push`, for a character of one byte: the character
/// is appended if the line holds fewer bytes than its capacity, and else
/// the line stays as it is and the call fails.
#[verifier::external_body]
pub(crate) fn line_push(line: &mut Line, c: char) -> (r: Result<(), ()>)
    requires
        '\0' <= c <= '\u{7f}',
    ensures
        r is Ok <==> encode_utf8(line_text(*old(line))).len() < LINE_CAP,
        r is Ok ==> line_text(*final(line)) == line_text(*old(line)).push(c),
        r is Err ==> line_text(*final(line)) == line_text(*old(line)),
{
    line.push(c)
}

/// How many more characters of one byte a line takes that holds `text`.
pub open spec fn room(text: Seq<char>) -> nat {
    if text.len() <= LINE_CAP {
        (LINE_CAP - text.len()) as nat
    } else {
        0
    }
}

/// Whether `piece` fits into a line that holds `text`.
pub open spec fn fits(text: Seq<char>, piece: Seq<char>) -> bool {
    piece.len() <= room(text)
}

/// What a line holds after `piece` was appended to its `text`: all of
/// the piece if it fits, and else as much of it as the line has room
/// for.
pub open spec fn appended(text: Seq<char>, piece: Seq<char>) -> Seq<char> {
    if fits(text, piece) {
        text + piece
    } else {
        text + piece.take(room(text) as int)
    }
}

/// The character for a digit, 0 to 9.
pub open spec fn digit(d: int) -> char {
    if d == 0 {
        '0'
    } else if d == 1 {
        '1'
    } else if d == 2 {
        '2'
    } else if d == 3 {
        '3'
    } else if d == 4 {
        '4'
    } else if d == 5 {
        '5'
    } else if d == 6 {
        '6'
    } else if d == 7 {
        '7'
    } else if d == 8 {
        '8'
    } else {
        '9'
    }
}

/// A number in decimal digits, without leading zeros.
pub open spec fn decimal(n: nat) -> Seq<char>
    decreases n,
{
    if n < 10 {
        seq![digit(n as int)]
    } else {
        decimal(n / 10).push(digit((n % 10) as int))
    }
}

/// That many zeros.
pub open spec fn zeros(count: nat) -> Seq<char> {
    Seq::new(count, |i: int| '0')
}

/// A number in decimal digits, with zeros in front until it is `width`
/// characters wide. A number with more digits than that keeps them all.
pub open spec fn zero_padded(n: nat, width: nat) -> Seq<char> {
    if decimal(n).len() >= width {
        decimal(n)
    } else {
        zeros((width - decimal(n).len()) as nat) + decimal(n)
    }
}

/// Ten to the power of `places`.
pub open spec fn scale(places: nat) -> nat
    decreases places,
{
    if places == 0 {
        1
    } else {
        10 * scale((places - 1) as nat)
    }
}

/// The digits behind the decimal point of `fraction / 10^places`, without
/// zeros at the end: as long as the last of the places holds a zero it is
/// left out, and what remains is written with a digit for every place.
pub open spec fn fraction_digits(fraction: nat, places: nat) -> Seq<char>
    decreases places,
{
    if places > 0 && fraction % 10 == 0 {
        fraction_digits(fraction / 10, (places - 1) as nat)
    } else {
        zero_padded(fraction, places)
    }
}

/// A number given in units of `1 / 10^places`, written in its shortest
/// form: a minus sign if it is below zero, the whole part, and behind a
/// decimal point the decimals without zeros at the end. A number without
/// decimals has no point either.
pub open spec fn fixed_point(value: int, places: nat) -> Seq<char> {
    let magnitude = if value < 0 {
        (-value) as nat
    } else {
        value as nat
    };
    let sign = if value < 0 {
        seq!['-']
    } else {
        Seq::<char>::empty()
    };
    let fraction = magnitude % scale(places);
    sign + decimal(magnitude / scale(places)) + if fraction == 0 {
        Seq::<char>::empty()
    } else {
        seq!['.'] + fraction_digits(fraction, places)
    }
}

/// Appends one character, if the line has room for it.
fn push_char(line: &mut Line, c: char) -> (ok: bool)
    requires
        is_ascii_chars(line_text(*old(line))),
        '\0' <= c <= '\u{7f}',
    ensures
        ok == fits(line_text(*old(line)), seq![c]),
        line_text(*final(line)) == appended(line_text(*old(line)), seq![c]),
        is_ascii_chars(line_text(*final(line))),
{
    proof {
        vstd::utf8::is_ascii_chars_encode_utf8(line_text(*line));
    }
    let pushed = line_push(line, c);
    pushed.is_ok()
}

/// Appends a text, as far as the line has room for it.
fn push_str(line: &mut Line, s: &str) -> (ok: bool)
    requires
        is_ascii_chars(line_text(*old(line))),
        is_ascii_chars(s@),
    ensures
        ok == fits(line_text(*old(line)), s@),
        line_text(*final(line)) == appended(line_text(*old(line)), s@),
        is_ascii_chars(line_text(*final(line))),
{
    let ghost before = line_text(*line);
    let len: usize = s.unicode_len();
    let mut ok = true;
    let mut i: usize = 0;
    while i < len
        invariant
            i <= len == s@.len(),
            is_ascii_chars(s@),
            is_ascii_chars(line_text(*line)),
            ok == fits(before, s@.take(i as int)),
            line_text(*line) == appended(before, s@.take(i as int)),
        decreases len - i,
    {
        let c = s.get_char(i);
        let pushed = push_char(line, c);
        proof {
            lemma_appended_twice(before, s@.take(i as int), seq![c]);
        }
        ok = ok && pushed;
        i = i + 1;
    }
    ok
}

fn digit_char(d: u32) -> (c: char)
    requires
        d < 10,
    ensures
        c == digit(d as int),
        '0' <= c <= '9',
{
    if d == 0 {
        '0'
    } else if d == 1 {
        '1'
    } else if d == 2 {
        '2'
    } else if d == 3 {
        '3'
    } else if d == 4 {
        '4'
    } else if d == 5 {
        '5'
    } else if d == 6 {
        '6'
    } else if d == 7 {
        '7'
    } else if d == 8 {
        '8'
    } else {
        '9'
    }
}

/// Appends a number in decimal digits.
fn push_decimal(line: &mut Line, n: u32) -> (ok: bool)
    requires
        is_ascii_chars(line_text(*old(line))),
    ensures
        ok == fits(line_text(*old(line)), decimal(n as nat)),
        line_text(*final(line)) == appended(line_text(*old(line)), decimal(n as nat)),
        is_ascii_chars(line_text(*final(line))),
    decreases n,
{
    let ghost before = line_text(*line);
    if n < 10 {
        push_char(line, digit_char(n))
    } else {
        let front = push_decimal(line, n / 10);
        let c = digit_char(n % 10);
        let last = push_char(line, c);
        proof {
            lemma_appended_twice(before, decimal((n / 10) as nat), seq![c]);
        }
        front && last
    }
}

/// The number of digits that a number has in decimal.
fn decimal_len(n: u32) -> (len: u32)
    ensures
        len == decimal(n as nat).len(),
        1 <= len <= 10,
    decreases n,
{
    proof {
        lemma_decimal_is_ascii(n as nat);
    }
    if n < 10 {
        1
    } else {
        proof {
            lemma_decimal_is_ascii((n / 10) as nat);
        }
        decimal_len(n / 10) + 1
    }
}

/// Appends a number in decimal digits, with zeros in front until it is
/// `width` characters wide.
fn push_zero_padded(line: &mut Line, n: u32, width: u32) -> (ok: bool)
    requires
        is_ascii_chars(line_text(*old(line))),
    ensures
        ok == fits(line_text(*old(line)), zero_padded(n as nat, width as nat)),
        line_text(*final(line)) == appended(
            line_text(*old(line)),
            zero_padded(n as nat, width as nat),
        ),
        is_ascii_chars(line_text(*final(line))),
{
    let ghost before = line_text(*line);
    let len: u32 = decimal_len(n);
    let mut ok = true;
    let mut filled: u32 = 0;
    let fill: u32 = if len >= width {
        0
    } else {
        width - len
    };
    while filled < fill
        invariant
            filled <= fill,
            is_ascii_chars(line_text(*line)),
            ok == fits(before, zeros(filled as nat)),
            line_text(*line) == appended(before, zeros(filled as nat)),
        decreases fill - filled,
    {
        let pushed = push_char(line, '0');
        proof {
            lemma_appended_twice(before, zeros(filled as nat), seq!['0']);
        }
        ok = ok && pushed;
        filled = filled + 1;
    }
    let digits = push_decimal(line, n);
    proof {
        lemma_appended_twice(before, zeros(fill as nat), decimal(n as nat));
    }
    ok && digits
}

/// Appends the digits behind the decimal point of `fraction / 10^places`,
/// without zeros at the end.
fn push_fraction(line: &mut Line, fraction: u32, places: u32) -> (ok: bool)
    requires
        is_ascii_chars(line_text(*old(line))),
    ensures
        ok == fits(line_text(*old(line)), fraction_digits(fraction as nat, places as nat)),
        line_text(*final(line)) == appended(
            line_text(*old(line)),
            fraction_digits(fraction as nat, places as nat),
        ),
        is_ascii_chars(line_text(*final(line))),
{
    let mut rest: u32 = fraction;
    let mut left: u32 = places;
    while left > 0 && rest % 10 == 0
        invariant
            fraction_digits(rest as nat, left as nat) == fraction_digits(
                fraction as nat,
                places as nat,
            ),
        decreases left,
    {
        rest = rest / 10;
        left = left - 1;
    }
    push_zero_padded(line, rest, left)
}

/// Appends a number given in hundredths or thousandths, in its shortest
/// form.
fn push_fixed_point(line: &mut Line, value: i64, places: u32) -> (ok: bool)
    requires
        is_ascii_chars(line_text(*old(line))),
        places == 2 || places == 3,
        -0x1_0000_0000 < value < 0x1_0000_0000,
    ensures
        ok == fits(line_text(*old(line)), fixed_point(value as int, places as nat)),
        line_text(*final(line)) == appended(
            line_text(*old(line)),
            fixed_point(value as int, places as nat),
        ),
        is_ascii_chars(line_text(*final(line))),
{
    let ghost before = line_text(*line);
    proof {
        reveal_with_fuel(scale, 4);
    }
    let unit: u64 = if places == 2 {
        100
    } else {
        1000
    };
    let magnitude: u64 = if value < 0 {
        (-value) as u64
    } else {
        value as u64
    };
    let fraction: u32 = (magnitude % unit) as u32;
    let ghost sign = if value < 0 {
        seq!['-']
    } else {
        Seq::<char>::empty()
    };
    let ghost whole = decimal((magnitude / unit) as nat);
    let ghost decimals = fraction_digits(fraction as nat, places as nat);
    let mut ok = true;
    if value < 0 {
        ok = push_char(line, '-');
    }
    let front = push_decimal(line, (magnitude / unit) as u32);
    proof {
        lemma_appended_twice(before, sign, whole);
    }
    if fraction == 0 {
        ok && front
    } else {
        let point = push_char(line, '.');
        let back = push_fraction(line, fraction, places);
        proof {
            lemma_appended_twice(before, sign + whole, seq!['.']);
            lemma_appended_twice(before, sign + whole + seq!['.'], decimals);
            assert(sign + whole + seq!['.'] + decimals =~= sign + whole + (seq!['.'] + decimals));
        }
        ok && front && point && back
    }
}

/// A line in the making. It remembers whether everything written so far
/// had room in the line.
pub(crate) struct LineWriter {
    line: Line,
    ok: bool,
    written: Ghost<Seq<char>>,
}

impl View for LineWriter {
    type V = Seq<char>;

    /// All the text that was written, whether or not the line had room
    /// for it.
    closed spec fn view(&self) -> Seq<char> {
        self.written@
    }
}

impl LineWriter {
    pub(crate) closed spec fn wf(&self) -> bool {
        &&& line_text(self.line) == appended(Seq::<char>::empty(), self.written@)
        &&& self.ok == fits(Seq::<char>::empty(), self.written@)
        &&& is_ascii_chars(line_text(self.line))
    }

    pub(crate) fn new() -> (writer: LineWriter)
        ensures
            writer.wf(),
            writer@ == Seq::<char>::empty(),
    {
        let line = line_new();
        LineWriter { line, ok: true, written: Ghost(Seq::<char>::empty()) }
    }

    pub(crate) fn char(&mut self, c: char)
        requires
            old(self).wf(),
            '\0' <= c <= '\u{7f}',
        ensures
            final(self).wf(),
            final(self)@ == old(self)@.push(c),
    {
        let done = push_char(&mut self.line, c);
        proof {
            lemma_appended_twice(Seq::<char>::empty(), self.written@, seq![c]);
            assert(self.written@ + seq![c] =~= self.written@.push(c));
        }
        self.ok = self.ok && done;
        self.written = Ghost(self.written@.push(c));
    }

    pub(crate) fn str(&mut self, s: &str)
        requires
            old(self).wf(),
            is_ascii_chars(s@),
        ensures
            final(self).wf(),
            final(self)@ == old(self)@ + s@,
    {
        let done = push_str(&mut self.line, s);
        proof {
            lemma_appended_twice(Seq::<char>::empty(), self.written@, s@);
        }
        self.ok = self.ok && done;
        self.written = Ghost(self.written@ + s@);
    }

    pub(crate) fn decimal(&mut self, n: u32)
        requires
            old(self).wf(),
        ensures
            final(self).wf(),
            final(self)@ == old(self)@ + decimal(n as nat),
    {
        let done = push_decimal(&mut self.line, n);
        proof {
            lemma_appended_twice(Seq::<char>::empty(), self.written@, decimal(n as nat));
        }
        self.ok = self.ok && done;
        self.written = Ghost(self.written@ + decimal(n as nat));
    }

    pub(crate) fn zero_padded(&mut self, n: u32, width: u32)
        requires
            old(self).wf(),
        ensures
            final(self).wf(),
            final(self)@ == old(self)@ + zero_padded(n as nat, width as nat),
    {
        let done = push_zero_padded(&mut self.line, n, width);
        proof {
            lemma_appended_twice(
                Seq::<char>::empty(),
                self.written@,
                zero_padded(n as nat, width as nat),
            );
        }
        self.ok = self.ok && done;
        self.written = Ghost(self.written@ + zero_padded(n as nat, width as nat));
    }

    pub(crate) fn fixed_point(&mut self, value: i64, places: u32)
        requires
            old(self).wf(),
            places == 2 || places == 3,
            -0x1_0000_0000 < value < 0x1_0000_0000,
        ensures
            final(self).wf(),
            final(self)@ == old(self)@ + fixed_point(value as int, places as nat),
    {
        let done = push_fixed_point(&mut self.line, value, places);
        proof {
            lemma_appended_twice(
                Seq::<char>::empty(),
                self.written@,
                fixed_point(value as int, places as nat),
            );
        }
        self.ok = self.ok && done;
        self.written = Ghost(self.written@ + fixed_point(value as int, places as nat));
    }

    /// The finished line, if all that was written had room in it.
    pub(crate) fn finish(self) -> (line: Option<Line>)
        requires
            self.wf(),
        ensures
            line is Some <==> self@.len() <= LINE_CAP,
            line matches Some(l) ==> line_text(l) == self@,
    {
        if self.ok {
            Some(self.line)
        } else {
            None
        }
    }
}

/// Appending in two pieces is appending the two as one.
pub proof fn lemma_appended_twice(text: Seq<char>, a: Seq<char>, b: Seq<char>)
    ensures
        appended(appended(text, a), b) == appended(text, a + b),
        fits(text, a + b) <==> fits(text, a) && fits(appended(text, a), b),
{
    if !fits(text, a + b) && fits(text, a) {
        assert((text + a) + b.take(room(text + a) as int) =~= text + (a + b).take(
            room(text) as int,
        ));
    }
}

/// A decimal number is made of digits, at least one and no more than a
/// number below `2^64` has.
pub proof fn lemma_decimal_is_ascii(n: nat)
    ensures
        is_ascii_chars(decimal(n)),
        decimal(n).len() >= 1,
        n < 0x1_0000_0000 ==> decimal(n).len() <= 10,
    decreases n,
{
    if n >= 10 {
        lemma_decimal_is_ascii(n / 10);
    }
    reveal_with_fuel(decimal, 11);
}

/// How many digits a number has, by its size.
pub proof fn lemma_decimal_len(n: nat)
    ensures
        n < 10 ==> decimal(n).len() == 1,
        n < 100 ==> decimal(n).len() <= 2,
        n < 1_000 ==> decimal(n).len() <= 3,
        n < 10_000 ==> decimal(n).len() <= 4,
        n < 100_000 ==> decimal(n).len() <= 5,
        n < 1_000_000 ==> decimal(n).len() <= 6,
        n < 10_000_000 ==> decimal(n).len() <= 7,
        n < 100_000_000 ==> decimal(n).len() <= 8,
{
    reveal_with_fuel(decimal, 9);
}

/// A padded number below `2^32` is as wide as asked for, or up to ten
/// characters wide where it has more digits than that.
pub proof fn lemma_zero_padded_bound(n: nat, width: nat)
    requires
        n < 0x1_0000_0000,
    ensures
        zero_padded(n, width).len() <= width || zero_padded(n, width).len() <= 10,
        is_ascii_chars(zero_padded(n, width)),
{
    lemma_decimal_is_ascii(n);
}

/// A number above zero and below `10^places` has no more digits behind
/// the point than it has places.
pub proof fn lemma_fraction_digits_len(fraction: nat, places: nat)
    requires
        places <= 3,
        0 < fraction < scale(places),
    ensures
        fraction_digits(fraction, places).len() <= places,
    decreases places,
{
    reveal_with_fuel(scale, 4);
    if places > 0 && fraction % 10 == 0 {
        lemma_fraction_digits_len(fraction / 10, (places - 1) as nat);
    } else {
        lemma_decimal_len(fraction);
    }
}

/// A number with two or three places takes no more characters than its
/// sign, the digits of its whole part, the point and its places.
pub proof fn lemma_fixed_point_len(value: int, places: nat)
    requires
        places == 2 || places == 3,
        -0x1_0000_0000 < value < 0x1_0000_0000,
    ensures
        fixed_point(value, places).len() <= 12,
        0 <= value ==> fixed_point(value, places).len() <= 11,
{
    reveal_with_fuel(scale, 4);
    let magnitude = if value < 0 {
        (-value) as nat
    } else {
        value as nat
    };
    let unit = scale(places);
    assert(unit == 100 || unit == 1000);
    let whole = magnitude / unit;
    lemma_decimal_len(whole);
    if magnitude % unit != 0 {
        lemma_fraction_digits_len(magnitude % unit, places);
    }
}

} // verus!
