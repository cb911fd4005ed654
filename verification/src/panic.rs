//! The report the kernel prints when it panics.

use vstd::prelude::*;

verus! {

/// The decimal digit character for `d < 10`.
pub open spec fn digit_char(d: nat) -> char {
    if d == 0 { '0' }
    else if d == 1 { '1' }
    else if d == 2 { '2' }
    else if d == 3 { '3' }
    else if d == 4 { '4' }
    else if d == 5 { '5' }
    else if d == 6 { '6' }
    else if d == 7 { '7' }
    else if d == 8 { '8' }
    else { '9' }
}

/// The value of a decimal digit character.
pub open spec fn digit_value(c: char) -> nat {
    if c == '0' { 0 }
    else if c == '1' { 1 }
    else if c == '2' { 2 }
    else if c == '3' { 3 }
    else if c == '4' { 4 }
    else if c == '5' { 5 }
    else if c == '6' { 6 }
    else if c == '7' { 7 }
    else if c == '8' { 8 }
    else { 9 }
}

pub open spec fn is_digit(c: char) -> bool {
    '0' <= c <= '9'
}

/// `n` written in decimal, without leading zeros.
pub open spec fn decimal(n: nat) -> Seq<char>
    decreases n,
{
    if n < 10 {
        seq![digit_char(n)]
    } else {
        decimal(n / 10).push(digit_char(n % 10))
    }
}

/// The number that a string of decimal digits denotes.
pub open spec fn decimal_value(s: Seq<char>) -> nat
    decreases s.len(),
{
    if s.len() == 0 {
        0
    } else {
        decimal_value(s.drop_last()) * 10 + digit_value(s.last())
    }
}

/// The first line of a panic report.
pub open spec fn panic_header(file: Seq<char>, line: nat) -> Seq<char> {
    "\n\nPANIC in "@ + file + " at line "@ + decimal(line) + ":"@
}

/// The second line of a panic report: the panic message, indented.
pub open spec fn panic_detail(message: Seq<char>) -> Seq<char> {
    "    "@ + message
}

fn digit_str(d: u32) -> (s: &'static str)
    requires
        d < 10,
    ensures
        s@ == seq![digit_char(d as nat)],
{
    proof {
        reveal_strlit("0");
        reveal_strlit("1");
        reveal_strlit("2");
        reveal_strlit("3");
        reveal_strlit("4");
        reveal_strlit("5");
        reveal_strlit("6");
        reveal_strlit("7");
        reveal_strlit("8");
        reveal_strlit("9");
    }
    if d == 0 { "0" }
    else if d == 1 { "1" }
    else if d == 2 { "2" }
    else if d == 3 { "3" }
    else if d == 4 { "4" }
    else if d == 5 { "5" }
    else if d == 6 { "6" }
    else if d == 7 { "7" }
    else if d == 8 { "8" }
    else { "9" }
}

/// Appends `n` in decimal to `s`.
fn append_decimal(s: &mut String, n: u32)
    ensures
        final(s)@ == old(s)@ + decimal(n as nat),
    decreases n,
{
    if n >= 10 {
        append_decimal(s, n / 10);
    }
    s.append(digit_str(n % 10));
    proof {
        if n >= 10 {
            assert(decimal(n as nat) == decimal((n / 10) as nat).push(digit_char((n % 10) as nat)));
        }
    }
}

/// The report of a panic raised in `file` at `line` with the (already
/// formatted) `message`: the header line and the indented message line.
pub fn panic_fmt(message: &str, file: &str, line: u32) -> (report: (String, String))
    ensures
        report.0@ == panic_header(file@, line as nat),
        report.1@ == panic_detail(message@),
        report.0@.len() == file@.len() + decimal(line as nat).len() + 21,
        report.0@.subrange(11, 11 + file@.len() as int) == file@,
        decimal_value(report.0@.subrange(20 + file@.len() as int, report.0@.len() - 1)) == line,
        report.1@ == seq![' ', ' ', ' ', ' '] + message@,
{
    let mut header = String::from_str("\n\nPANIC in ");
    header.append(file);
    header.append(" at line ");
    append_decimal(&mut header, line);
    header.append(":");
    let mut detail = String::from_str("    ");
    detail.append(message);
    proof {
        lemma_report_holds_its_parts(message@, file@, line as nat);
    }
    (header, detail)
}

/// The decimal form of a number is made of digits, has no leading zero, and
/// reads back as the number: the line of a panic report names the line exactly.
pub proof fn lemma_decimal_round_trip(n: nat)
    ensures
        decimal(n).len() > 0,
        forall|i: int| 0 <= i < decimal(n).len() ==> is_digit(#[trigger] decimal(n)[i]),
        decimal(n)[0] == '0' ==> n == 0,
        decimal_value(decimal(n)) == n,
    decreases n,
{
    if n >= 10 {
        lemma_decimal_round_trip(n / 10);
        let s = decimal(n / 10);
        let t = decimal(n);
        assert(t.drop_last() =~= s);
        assert(t[0] == s[0]);
        assert(t.last() == digit_char(n % 10));
        assert(digit_value(digit_char(n % 10)) == n % 10);
        assert(n == (n / 10) * 10 + n % 10);
        assert(decimal_value(t) == decimal_value(s) * 10 + n % 10);
    } else {
        assert(decimal(n).drop_last() =~= Seq::<char>::empty());
        assert(digit_value(digit_char(n)) == n);
        assert(decimal_value(decimal(n)) == decimal_value(Seq::<char>::empty()) * 10 + n);
    }
}

/// The panic report holds its parts whole and in order: the header is the 11
/// characters "\n\nPANIC in ", then the file name exactly as given, then the 9
/// characters " at line ", then the line number in decimal (which reads back as
/// the line), then ':'; the second line is four spaces and the message exactly
/// as given.
pub proof fn lemma_report_holds_its_parts(message: Seq<char>, file: Seq<char>, line: nat)
    ensures
        ({
            let h = panic_header(file, line);
            let f = file.len() as int;
            &&& h.len() == f + decimal(line).len() + 21
            &&& h.subrange(0, 11) == seq!['\n', '\n', 'P', 'A', 'N', 'I', 'C', ' ', 'i', 'n', ' ']
            &&& h.subrange(11, 11 + f) == file
            &&& h.subrange(11 + f, 20 + f) == seq![' ', 'a', 't', ' ', 'l', 'i', 'n', 'e', ' ']
            &&& h.subrange(20 + f, h.len() - 1) == decimal(line)
            &&& decimal_value(h.subrange(20 + f, h.len() - 1)) == line
            &&& h[h.len() - 1] == ':'
        }),
        panic_detail(message) == seq![' ', ' ', ' ', ' '] + message,
{
    reveal_strlit("\n\nPANIC in ");
    reveal_strlit(" at line ");
    reveal_strlit(":");
    reveal_strlit("    ");
    lemma_decimal_round_trip(line);
    let h = panic_header(file, line);
    let f = file.len() as int;
    let d = decimal(line);
    assert(h.subrange(0, 11) =~= seq!['\n', '\n', 'P', 'A', 'N', 'I', 'C', ' ', 'i', 'n', ' ']);
    assert(h.subrange(11, 11 + f) =~= file);
    assert(h.subrange(11 + f, 20 + f) =~= seq![' ', 'a', 't', ' ', 'l', 'i', 'n', 'e', ' ']);
    assert(h.subrange(20 + f, h.len() - 1) =~= d);
    assert(panic_detail(message) =~= seq![' ', ' ', ' ', ' '] + message);
}

} // verus!
