//! Text building blocks: decimal numbers, English ordinals, joining, the
//! US-layout shifted form of a key label, and std's quoting of strings.
use vstd::prelude::*;
use vstd::utf8::*;

verus! {

// ---------------------------------------------------------------------
// Trusted items over std
// ---------------------------------------------------------------------

/// What std's `Debug` formatting of a string slice gives: the text in
/// double quotes with its special characters escaped.
pub uninterp spec fn str_debug_text(s: Seq<char>) -> Seq<char>;

/// Calls `<str as Debug>::fmt` through `format!`. The contract claims only
/// that the result is a function of the string's characters, named by
/// [`str_debug_text`]; the escaping rules themselves are not stated.
#[verifier::external_body]
pub(crate) fn debug_quoted(s: &str) -> (r: String)
    ensures
        r@ == str_debug_text(s@),
{
    format!("{:?}", s)
}

/// Calls `String::push`: the character is appended at the end.
#[verifier::external_body]
pub(crate) fn push_char(s: &mut String, c: char)
    ensures
        final(s)@ == old(s)@.push(c),
{
    s.push(c)
}

// ---------------------------------------------------------------------
// Concatenation
// ---------------------------------------------------------------------

/// `a` followed by `b`.
pub fn cat2(a: &str, b: &str) -> (r: String)
    ensures
        r@ == a@ + b@,
{
    let mut r = String::from_str(a);
    r.append(b);
    r
}

/// `a`, `b` and `c` one after the other.
pub fn cat3(a: &str, b: &str, c: &str) -> (r: String)
    ensures
        r@ == a@ + b@ + c@,
{
    let mut r = String::from_str(a);
    r.append(b);
    r.append(c);
    r
}

/// `a` to `d` one after the other.
pub fn cat4(a: &str, b: &str, c: &str, d: &str) -> (r: String)
    ensures
        r@ == a@ + b@ + c@ + d@,
{
    let mut r = String::from_str(a);
    r.append(b);
    r.append(c);
    r.append(d);
    r
}

/// Whether the string holds exactly the text `lit`.
pub fn text_is(s: &String, lit: &str) -> (b: bool)
    ensures
        b == (s@ == lit@),
{
    let other = String::from_str(lit);
    *s == other
}

/// `a` to `e` one after the other.
pub fn cat5(a: &str, b: &str, c: &str, d: &str, e: &str) -> (r: String)
    ensures
        r@ == a@ + b@ + c@ + d@ + e@,
{
    let mut r = String::from_str(a);
    r.append(b);
    r.append(c);
    r.append(d);
    r.append(e);
    r
}

// ---------------------------------------------------------------------
// Decimal numbers
// ---------------------------------------------------------------------

/// The character of the decimal digit `d`.
pub open spec fn digit_char(d: int) -> char
    recommends
        0 <= d < 10,
{
    (d + 48) as char
}

/// The decimal digits of `n`, most significant first, with no leading zero.
pub open spec fn decimal(n: nat) -> Seq<char>
    decreases n,
{
    if n < 10 {
        seq![digit_char(n as int)]
    } else {
        decimal(n / 10).push(digit_char((n % 10) as int))
    }
}

/// The decimal text of an integer: a minus sign before a negative one.
pub open spec fn int_text(i: int) -> Seq<char> {
    if i < 0 {
        seq!['-'] + decimal((-i) as nat)
    } else {
        decimal(i as nat)
    }
}

fn digit(d: usize) -> (c: char)
    requires
        d < 10,
    ensures
        c == digit_char(d as int),
{
    ((d as u8) + 48) as char
}

/// The decimal text of `n`, as `n.to_string()` gives it.
pub fn usize_text(n: usize) -> (r: String)
    ensures
        r@ == decimal(n as nat),
    decreases n,
{
    if n < 10 {
        let mut r = String::new();
        push_char(&mut r, digit(n));
        r
    } else {
        let mut r = usize_text(n / 10);
        push_char(&mut r, digit(n % 10));
        r
    }
}

/// The decimal text of `n`, as `n.to_string()` gives it.
pub fn isize_text(n: isize) -> (r: String)
    ensures
        r@ == int_text(n as int),
{
    if n < 0 {
        let m1: usize = (-(n + 1)) as usize;
        let m: usize = m1 + 1;
        let digits = usize_text(m);
        let mut r = String::new();
        push_char(&mut r, '-');
        r.append(digits.as_str());
        assert(r@ =~= seq!['-'] + decimal((-n) as nat));
        r
    } else {
        usize_text(n as usize)
    }
}

/// A decimal text is never empty.
pub proof fn lemma_decimal_len(n: nat)
    ensures
        decimal(n).len() >= 1,
        decimal(n).len() == 1 <==> n < 10,
    decreases n,
{
    if n >= 10 {
        lemma_decimal_len(n / 10);
    }
}

// ---------------------------------------------------------------------
// English ordinals
// ---------------------------------------------------------------------

/// Whether the text ends with the character `c`.
pub open spec fn ends_with_char(t: Seq<char>, c: char) -> bool {
    t.len() >= 1 && t[t.len() - 1] == c
}

/// Whether the text ends with the character `c` twice.
pub open spec fn ends_with_twice(t: Seq<char>, c: char) -> bool {
    t.len() >= 2 && t[t.len() - 2] == c && t[t.len() - 1] == c
}

/// The suffix that makes an ordinal of a number's text: "st" after a final
/// 1 that does not end "11", "nd" after a final 2 that does not end "12",
/// "rd" after a final 3 that does not end "13", "th" otherwise.
pub open spec fn ordinal_suffix(t: Seq<char>) -> Seq<char> {
    if ends_with_char(t, '1') && !ends_with_twice(t, '1') {
        "st"@
    } else if ends_with_char(t, '2') && !(t.len() >= 2 && t[t.len() - 2] == '1') {
        "nd"@
    } else if ends_with_char(t, '3') && !(t.len() >= 2 && t[t.len() - 2] == '1') {
        "rd"@
    } else {
        "th"@
    }
}

/// The English ordinal of `n`: its decimal text and suffix.
pub open spec fn english_ordinal_text(n: int) -> Seq<char> {
    int_text(n) + ordinal_suffix(int_text(n))
}

/// The suffix that the last two decimal digits of `m` call for.
pub open spec fn suffix_by_digits(m: nat) -> Seq<char> {
    if m % 10 == 1 && m % 100 != 11 {
        "st"@
    } else if m % 10 == 2 && m % 100 != 12 {
        "nd"@
    } else if m % 10 == 3 && m % 100 != 13 {
        "rd"@
    } else {
        "th"@
    }
}

/// The last digit of a decimal text is that of the number, and the digit
/// before it, where there is one, is that of the tens.
pub proof fn lemma_decimal_last_digits(m: nat)
    ensures
        decimal(m).len() >= 1,
        decimal(m).last() == digit_char((m % 10) as int),
        m < 10 ==> decimal(m).len() == 1,
        m >= 10 ==> decimal(m).len() >= 2 && decimal(m)[decimal(m).len() - 2] == digit_char(
            ((m / 10) % 10) as int,
        ),
{
    lemma_decimal_len(m);
    if m >= 10 {
        lemma_decimal_len(m / 10);
        lemma_decimal_last_digits_base(m / 10);
    }
}

proof fn lemma_decimal_last_digits_base(m: nat)
    ensures
        decimal(m).last() == digit_char((m % 10) as int),
{
}

proof fn lemma_digit_char_injective(a: int, b: int)
    requires
        0 <= a < 10,
        0 <= b < 10,
        digit_char(a) == digit_char(b),
    ensures
        a == b,
{
    assert((a + 48) as char == (b + 48) as char);
    assert(((a + 48) as char) as int == a + 48);
    assert(((b + 48) as char) as int == b + 48);
}

proof fn lemma_last_two_digits(m: nat)
    ensures
        m % 100 == 10 * ((m / 10) % 10) + m % 10,
        m < 10 ==> m % 100 == m,
{
    assert(m % 100 == 10 * ((m / 10) % 10) + m % 10) by (nonlinear_arith);
}

/// The ordinal suffix of a number's text follows its last two decimal
/// digits: "st" for a last digit 1 other than in 11, "nd" for 2 other than
/// in 12, "rd" for 3 other than in 13, and "th" for everything else.
pub proof fn lemma_ordinal_suffix_by_digits(n: int)
    ensures
        ordinal_suffix(int_text(n)) == suffix_by_digits(
            (if n < 0 {
                -n
            } else {
                n
            }) as nat,
        ),
{
    let m: nat = (if n < 0 {
        -n
    } else {
        n
    }) as nat;
    let d = decimal(m);
    let t = int_text(n);
    lemma_decimal_last_digits(m);
    lemma_last_two_digits(m);
    if n < 0 {
        assert(t == seq!['-'] + d);
    } else {
        assert(t == d);
    }
    assert(t.len() >= 1);
    assert(t.last() == d.last());
    let last = (m % 10) as int;
    assert(t[t.len() - 1] == digit_char(last));
    let one = digit_char(1);
    assert(one == '1');
    assert(digit_char(2) == '2');
    assert(digit_char(3) == '3');
    // the character before the last one is '1' exactly when the tens digit is 1
    let tens_is_one = t.len() >= 2 && t[t.len() - 2] == '1';
    if m >= 10 {
        assert(t[t.len() - 2] == d[d.len() - 2]);
        let tens = ((m / 10) % 10) as int;
        if tens_is_one {
            lemma_digit_char_injective(tens, 1);
        }
        assert(tens_is_one <==> tens == 1);
    } else {
        if n < 0 {
            assert(t[t.len() - 2] == '-');
        }
        assert(!tens_is_one);
    }
    assert(tens_is_one <==> (m >= 10 && (m / 10) % 10 == 1));
    if t[t.len() - 1] == '1' {
        lemma_digit_char_injective(last, 1);
    }
    if t[t.len() - 1] == '2' {
        lemma_digit_char_injective(last, 2);
    }
    if t[t.len() - 1] == '3' {
        lemma_digit_char_injective(last, 3);
    }
}

/// Given 1 returns "1st", 2 gives "2nd", 11 gives "11th", and so on.
pub fn english_ordinal(n: isize) -> (r: String)
    ensures
        r@ == english_ordinal_text(n as int),
{
    let mut t = isize_text(n);
    proof {
        if n < 0 {
            lemma_decimal_len((-n) as nat);
        } else {
            lemma_decimal_len(n as nat);
        }
    }
    let len = t.as_str().unicode_len();
    let last = t.as_str().get_char(len - 1);
    let before_last_is_one = len >= 2 && t.as_str().get_char(len - 2) == '1';
    let suffix = if last == '1' && !before_last_is_one {
        "st"
    } else if last == '2' && !before_last_is_one {
        "nd"
    } else if last == '3' && !before_last_is_one {
        "rd"
    } else {
        "th"
    };
    t.append(suffix);
    t
}

// ---------------------------------------------------------------------
// Joining
// ---------------------------------------------------------------------

/// The parts one after the other, with `sep` between each two of them.
pub open spec fn joined(parts: Seq<Seq<char>>, sep: Seq<char>) -> Seq<char>
    decreases parts.len(),
{
    if parts.len() == 0 {
        Seq::empty()
    } else if parts.len() == 1 {
        parts[0]
    } else {
        joined(parts.drop_last(), sep) + sep + parts.last()
    }
}

/// The views of a list of strings.
pub open spec fn strings_view(v: Seq<String>) -> Seq<Seq<char>> {
    v.map_values(|s: String| s@)
}

/// The parts joined with `sep` between them, as `parts.join(sep)` gives it.
pub fn join(parts: &Vec<String>, sep: &str) -> (r: String)
    ensures
        r@ == joined(strings_view(parts@), sep@),
{
    let mut r = String::new();
    let n = parts.len();
    let ghost all = strings_view(parts@);
    for i in 0..n
        invariant
            n == parts.len(),
            all == strings_view(parts@),
            r@ == joined(all.take(i as int), sep@),
    {
        assert(all.take(i + 1).drop_last() =~= all.take(i as int));
        if i != 0 {
            r.append(sep);
        }
        r.append(parts[i].as_str());
    }
    assert(all.take(n as int) =~= all);
    r
}

// ---------------------------------------------------------------------
// US layout shifting
// ---------------------------------------------------------------------

/// The uppercase form of an ASCII lowercase letter; any other character
/// stays as it is.
pub open spec fn ascii_upper(c: char) -> char {
    if 'a' <= c && c <= 'z' {
        ((c as u32) - 32) as char
    } else {
        c
    }
}

/// The character that a US ANSI keyboard produces for the key of `c` with
/// the shift key held.
pub open spec fn us_shift_char(c: char) -> char {
    if c == '1' {
        '!'
    } else if c == '2' {
        '@'
    } else if c == '3' {
        '#'
    } else if c == '4' {
        '$'
    } else if c == '5' {
        '%'
    } else if c == '6' {
        '^'
    } else if c == '7' {
        '&'
    } else if c == '8' {
        '*'
    } else if c == '9' {
        '('
    } else if c == '0' {
        ')'
    } else if c == '[' {
        '{'
    } else if c == ']' {
        '}'
    } else if c == '=' {
        '+'
    } else if c == '-' {
        '_'
    } else if c == '\'' {
        '"'
    } else {
        ascii_upper(c)
    }
}

/// The shifted form of a key label: a label of one byte is shifted as a US
/// keyboard does; a longer label stays as it is.
pub open spec fn us_shifted_label(s: Seq<char>) -> Seq<char> {
    if encode_utf8(s).len() == 1 {
        seq![us_shift_char(s[0])]
    } else {
        s
    }
}

fn shift_char(c: char) -> (r: char)
    ensures
        r == us_shift_char(c),
{
    match c {
        '1' => '!',
        '2' => '@',
        '3' => '#',
        '4' => '$',
        '5' => '%',
        '6' => '^',
        '7' => '&',
        '8' => '*',
        '9' => '(',
        '0' => ')',
        '[' => '{',
        ']' => '}',
        '=' => '+',
        '-' => '_',
        '\'' => '"',
        _ => {
            if 'a' <= c && c <= 'z' {
                ((c as u8) - 32) as char
            } else {
                c
            }
        },
    }
}

/// Every character takes at least one byte in UTF-8.
pub proof fn lemma_encode_len(chars: Seq<char>)
    ensures
        encode_utf8(chars).len() >= chars.len(),
    decreases chars.len(),
{
    if chars.len() > 0 {
        lemma_encode_len(chars.drop_first());
    }
}

/// If the input is a character on a US ANSI keyboard layout, returns the
/// character that is produced when holding down the shift key and pressing
/// the original key; a label of more than one byte is returned unchanged.
pub fn us_layout_shift(s: &str) -> (r: String)
    ensures
        r@ == us_shifted_label(s@),
{
    proof {
        lemma_single_byte(s@);
    }
    let n = s.unicode_len();
    if n == 1 {
        let c = s.get_char(0);
        if (c as u32) < 128 {
            let mut r = String::new();
            push_char(&mut r, shift_char(c));
            assert(r@ =~= seq![us_shift_char(s@[0])]);
            return r;
        }
    }
    s.to_owned()
}

/// A text takes exactly one byte in UTF-8 when it is one ASCII character.
pub proof fn lemma_single_byte(s: Seq<char>)
    ensures
        encode_utf8(s).len() == 1 <==> (s.len() == 1 && (s[0] as u32) < 128),
{
    lemma_encode_len(s);
    if s.len() == 1 {
        assert(s.drop_first() =~= Seq::<char>::empty());
        assert(encode_utf8(s) =~= encode_scalar(s[0] as u32) + encode_utf8(s.drop_first()));
    }
}

} // verus!
