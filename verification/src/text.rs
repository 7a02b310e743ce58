//! The texts that go to and come from the system: the paths of the device
//! files, the escape sequences written to a terminal, and the blank timer as
//! the kernel prints it.

use vstd::prelude::*;
use vstd::string::*;
use crate::gateway::Request;
use crate::number::VtNumber;

verus! {

/// The decimal digit for `d`.
pub open spec fn digit(d: int) -> char
    recommends
        0 <= d < 10,
{
    if d == 0 {
        '0'
    } else if d == 1 {
        '1'
    } else if d == 2 {
        '2'
    } else if d == 3 {
        '3'
    } else if d == 4 {
        '4'
    } else if d == 5 {
        '5'
    } else if d == 6 {
        '6'
    } else if d == 7 {
        '7'
    } else if d == 8 {
        '8'
    } else {
        '9'
    }
}

/// `n` in decimal digits, without leading zeros.
pub open spec fn decimal(n: nat) -> Seq<char>
    decreases n,
{
    if n < 10 {
        seq![digit(n as int)]
    } else {
        decimal(n / 10).push(digit((n % 10) as int))
    }
}

/// `n` in decimal digits, with a minus sign in front if it is negative.
pub open spec fn signed_decimal(n: int) -> Seq<char> {
    if n < 0 {
        seq!['-'] + decimal((-n) as nat)
    } else {
        decimal(n as nat)
    }
}

/// The path of the device file of terminal `number`.
pub open spec fn spec_device_path(number: int) -> Seq<char> {
    seq!['/', 'd', 'e', 'v', '/', 't', 't', 'y'] + signed_decimal(number)
}

/// The sequence that clears the screen and puts the cursor in its corner.
pub open spec fn spec_clear_sequence() -> Seq<char> {
    seq!['\x1b', '[', 'H', '\x1b', '[', 'J']
}

/// The sequence that sets the console's blank timer to `seconds`.
pub open spec fn spec_blank_timer_sequence(seconds: nat) -> Seq<char> {
    seq!['\x1b', '[', '9', ';'] + decimal(seconds) + seq![']']
}

fn digit_text(d: u32) -> (text: &'static str)
    requires
        d < 10,
    ensures
        text@ == seq![digit(d as int)],
{
    proof {
        reveal_strlit("0");
        reveal_strlit("1");
        reveal_strlit("2");
        reveal_strlit("3");
        reveal_strlit("4");
        reveal_strlit("5");
        reveal_strlit("6");
        reveal_strlit("7");
        reveal_strlit("8");
        reveal_strlit("9");
    }
    let text = if d == 0 {
        "0"
    } else if d == 1 {
        "1"
    } else if d == 2 {
        "2"
    } else if d == 3 {
        "3"
    } else if d == 4 {
        "4"
    } else if d == 5 {
        "5"
    } else if d == 6 {
        "6"
    } else if d == 7 {
        "7"
    } else if d == 8 {
        "8"
    } else {
        "9"
    };
    text
}

fn append_decimal(out: &mut String, n: u32)
    ensures
        final(out)@ == old(out)@ + decimal(n as nat),
    decreases n,
{
    if n >= 10 {
        append_decimal(out, n / 10);
    }
    out.append(digit_text(n % 10));
}

/// The path of the device file of terminal `number`: `/dev/tty` and the
/// number.
pub fn device_path(number: i32) -> (path: String)
    ensures
        path@ == spec_device_path(number as int),
{
    proof {
        reveal_strlit("/dev/tty");
        reveal_strlit("-");
    }
    let mut path = String::from_str("/dev/tty");
    if number < 0 {
        path.append("-");
        let magnitude: u32 = (-(number as i64)) as u32;
        append_decimal(&mut path, magnitude);
    } else {
        append_decimal(&mut path, number as u32);
    }
    path
}

/// The sequence that clears a terminal when it is written to it.
pub fn clear_sequence() -> (sequence: String)
    ensures
        sequence@ == spec_clear_sequence(),
{
    proof {
        reveal_strlit("\x1b[H\x1b[J");
    }
    let sequence = String::from_str("\x1b[H\x1b[J");
    sequence
}

/// The sequence that sets the console's blank timer to `seconds` when it is
/// written to a terminal; 0 switches the timer off.
pub fn blank_timer_sequence(seconds: u32) -> (sequence: String)
    ensures
        sequence@ == spec_blank_timer_sequence(seconds as nat),
{
    proof {
        reveal_strlit("\x1b[9;");
        reveal_strlit("]");
    }
    let mut sequence = String::from_str("\x1b[9;");
    append_decimal(&mut sequence, seconds);
    sequence.append("]");
    sequence
}

/// The path of the console's control device.
pub open spec fn spec_console_path() -> Seq<char> {
    seq!['/', 'd', 'e', 'v', '/', 'c', 'o', 'n', 's', 'o', 'l', 'e']
}

/// The path of the file in which the kernel states the console's blank
/// timer.
pub open spec fn spec_blank_timer_path() -> Seq<char> {
    "/sys/module/kernel/parameters/consoleblank"@
}

/// The file that `request` opens or reads, if it is one that does.
pub open spec fn spec_path_for(request: Request) -> Option<Seq<char>> {
    match request {
        Request::OpenDevice(number) => Some(spec_device_path(number as int)),
        Request::ReadBlankTimer => Some(spec_blank_timer_path()),
        _ => None,
    }
}

/// The path of the console's control device, which the caller holds open for
/// reading and writing: `/dev/console`.
pub fn console_path() -> (path: String)
    ensures
        path@ == spec_console_path(),
{
    proof {
        reveal_strlit("/dev/console");
    }
    let path = String::from_str("/dev/console");
    assert(path@ =~= spec_console_path());
    path
}

/// The path of the file to open for `request`, where performing it is
/// opening or reading a file: the device of a terminal, or the kernel's
/// statement of the blank timer.
pub fn path_for(request: Request) -> (path: Option<String>)
    ensures
        path is Some <==> spec_path_for(request) is Some,
        path matches Some(file) ==> file@ == spec_path_for(request)->Some_0,
{
    match request {
        Request::OpenDevice(number) => Some(device_path(number)),
        Request::ReadBlankTimer => Some(
            String::from_str("/sys/module/kernel/parameters/consoleblank"),
        ),
        _ => None,
    }
}

impl VtNumber {
    /// The number in decimal digits.
    pub fn to_text(&self) -> (text: String)
        ensures
            text@ == decimal(self@ as nat),
    {
        let mut text = String::new();
        append_decimal(&mut text, self.as_native() as u32);
        assert(text@ =~= decimal(self@ as nat));
        text
    }
}

/// What `request` has written to its terminal, if it is one that writes.
pub open spec fn spec_written_for(request: Request) -> Option<Seq<char>> {
    match request {
        Request::ClearScreen(_) => Some(spec_clear_sequence()),
        Request::SetBlankTimer(_, seconds) => Some(spec_blank_timer_sequence(seconds as nat)),
        _ => None,
    }
}

/// The text to write to the terminal of `request`, where performing it is
/// writing to the terminal: the sequence that clears the screen, or the one
/// that sets the blank timer.
pub fn written_for(request: Request) -> (text: Option<String>)
    ensures
        text is Some <==> spec_written_for(request) is Some,
        text matches Some(sequence) ==> sequence@ == spec_written_for(request)->Some_0,
{
    match request {
        Request::ClearScreen(_) => Some(clear_sequence()),
        Request::SetBlankTimer(_, seconds) => Some(blank_timer_sequence(seconds)),
        _ => None,
    }
}

/// Whether `c` is white space, as Unicode defines it.
pub open spec fn is_space(c: char) -> bool {
    let code = c as u32;
    ||| 0x09 <= code <= 0x0d
    ||| code == 0x20
    ||| code == 0x85
    ||| code == 0xa0
    ||| code == 0x1680
    ||| 0x2000 <= code <= 0x200a
    ||| code == 0x2028
    ||| code == 0x2029
    ||| code == 0x202f
    ||| code == 0x205f
    ||| code == 0x3000
}

/// Whether `c` is one of the digits `0` to `9`.
pub open spec fn is_digit(c: char) -> bool {
    0x30 <= c as u32 <= 0x39
}

/// The value of the digit `c`. Another character counts as zero.
pub open spec fn digit_value(c: char) -> nat {
    if is_digit(c) {
        (c as u32 - 0x30) as nat
    } else {
        0
    }
}

/// `text` without the white space at its start and at its end.
pub open spec fn trimmed(text: Seq<char>) -> Seq<char>
    decreases text.len(),
{
    if text.len() > 0 && is_space(text[0]) {
        trimmed(text.drop_first())
    } else if text.len() > 0 && is_space(text.last()) {
        trimmed(text.drop_last())
    } else {
        text
    }
}

/// The number that `digits` spell in decimal.
pub open spec fn number_of(digits: Seq<char>) -> nat
    decreases digits.len(),
{
    if digits.len() == 0 {
        0
    } else {
        number_of(digits.drop_last()) * 10 + digit_value(digits.last())
    }
}

/// Whether `text` holds digits only.
pub open spec fn all_digits(text: Seq<char>) -> bool {
    forall|i: int| 0 <= i < text.len() ==> is_digit(#[trigger] text[i])
}

/// The number that `digits` spell, where they are digits, at least one, and
/// the number has 32 bits.
pub open spec fn spelled(digits: Seq<char>) -> Option<u32> {
    if digits.len() > 0 && all_digits(digits) && number_of(digits) <= u32::MAX {
        Some(number_of(digits) as u32)
    } else {
        None
    }
}

/// The blank timer that `text` states: after trimming, an optional plus sign
/// and at least one digit, which spell a number of 32 bits. Any other text
/// states none.
pub open spec fn timer_of(text: Seq<char>) -> Option<u32> {
    let bare = trimmed(text);
    if bare.len() > 0 && bare[0] == '+' {
        spelled(bare.drop_first())
    } else {
        spelled(bare)
    }
}

/// The digits at the front of a text spell no more than the whole text.
proof fn number_of_front(digits: Seq<char>, front: int)
    requires
        0 <= front <= digits.len(),
    ensures
        number_of(digits.subrange(0, front)) <= number_of(digits),
    decreases digits.len() - front,
{
    if front == digits.len() {
        assert(digits.subrange(0, front) =~= digits);
    } else {
        number_of_front(digits.drop_last(), front);
        assert(digits.drop_last().subrange(0, front) =~= digits.subrange(0, front));
    }
}

fn is_whitespace(c: char) -> (b: bool)
    ensures
        b == is_space(c),
{
    let code: u32 = c as u32;
    (0x09 <= code && code <= 0x0d) || code == 0x20 || code == 0x85 || code == 0xa0 || code
        == 0x1680 || (0x2000 <= code && code <= 0x200a) || code == 0x2028 || code == 0x2029
        || code == 0x202f || code == 0x205f || code == 0x3000
}

/// Reads the console's blank timer, in seconds, from the text in which the
/// kernel states it. Text that states no timer gives `None`: the kernel does
/// not write such a text, so a caller has no way to go on from it.
pub fn parse_blank_timer(text: &str) -> (timer: Option<u32>)
    ensures
        timer == timer_of(text@),
{
    let len: usize = text.unicode_len();
    let mut start: usize = 0;
    assert(text@.subrange(0, len as int) =~= text@);
    while start < len
        invariant_except_break
            start <= len,
            len == text@.len(),
            trimmed(text@) == trimmed(text@.subrange(start as int, len as int)),
        ensures
            start <= len,
            trimmed(text@) == trimmed(text@.subrange(start as int, len as int)),
            start < len ==> !is_space(text@[start as int]),
        decreases len - start,
    {
        let c: char = text.get_char(start);
        if !is_whitespace(c) {
            break ;
        }
        assert(text@.subrange(start as int, len as int).drop_first() =~= text@.subrange(
            start + 1,
            len as int,
        ));
        start += 1;
    }
    let mut end: usize = len;
    while end > start
        invariant_except_break
            start <= end <= len,
            len == text@.len(),
            start < len ==> !is_space(text@[start as int]),
            trimmed(text@) == trimmed(text@.subrange(start as int, end as int)),
        ensures
            start <= end <= len,
            trimmed(text@) == text@.subrange(start as int, end as int),
        decreases end - start,
    {
        let c: char = text.get_char(end - 1);
        if !is_whitespace(c) {
            break ;
        }
        assert(text@.subrange(start as int, end as int).drop_last() =~= text@.subrange(
            start as int,
            end - 1,
        ));
        end -= 1;
    }
    let ghost bare = text@.subrange(start as int, end as int);
    if start < end {
        let c: char = text.get_char(start);
        if c == '+' {
            start += 1;
        }
    }
    let ghost digits = text@.subrange(start as int, end as int);
    assert(digits =~= if bare.len() > 0 && bare[0] == '+' {
        bare.drop_first()
    } else {
        bare
    });
    if start == end {
        return None;
    }
    let mut value: u64 = 0;
    let mut at: usize = start;
    while at < end
        invariant
            start <= at <= end <= len,
            len == text@.len(),
            digits == text@.subrange(start as int, end as int),
            timer_of(text@) == spelled(digits),
            all_digits(digits.subrange(0, at - start)),
            value == number_of(digits.subrange(0, at - start)),
            value <= u32::MAX,
        decreases end - at,
    {
        let c: char = text.get_char(at);
        let code: u32 = c as u32;
        let ghost front = digits.subrange(0, at - start + 1);
        assert(front.drop_last() =~= digits.subrange(0, at - start));
        if code < 0x30 || code > 0x39 {
            assert(!is_digit(digits[at - start]));
            return None;
        }
        value = value * 10 + (code - 0x30) as u64;
        if value > u32::MAX as u64 {
            proof {
                number_of_front(digits, at - start + 1);
            }
            return None;
        }
        assert forall|i: int| 0 <= i < front.len() implies is_digit(#[trigger] front[i]) by {
            if i < at - start {
                assert(front[i] == digits.subrange(0, at - start)[i]);
            }
        }
        at += 1;
    }
    assert(digits.subrange(0, at - start) =~= digits);
    Some(value as u32)
}

/// The digits of a number spell that number.
pub proof fn decimal_spells_the_number(n: nat)
    ensures
        decimal(n).len() > 0,
        all_digits(decimal(n)),
        number_of(decimal(n)) == n,
    decreases n,
{
    if n >= 10 {
        decimal_spells_the_number(n / 10);
        assert(decimal(n).drop_last() =~= decimal(n / 10));
    } else {
        assert(number_of(decimal(n).drop_last()) == 0);
    }
}

/// A timer that is written in decimal and followed by a line feed, as the
/// kernel prints it, reads as that timer; so does one that nothing follows.
pub proof fn printed_timer_reads_back(seconds: u32)
    ensures
        timer_of(decimal(seconds as nat)) == Some(seconds),
        timer_of(decimal(seconds as nat).push('\n')) == Some(seconds),
{
    let digits = decimal(seconds as nat);
    decimal_spells_the_number(seconds as nat);
    let line = digits.push('\n');
    assert(line.drop_last() =~= digits);
}

} // verus!
