use vstd::prelude::*;

verus! {

/// The decimal digit character for `d < 10`.
pub open spec fn digit_char(d: nat) -> char {
    (d + 48) as char
}

/// The decimal notation of `n`, most significant digit first, without
/// leading zeros (`0` is written `"0"`).
pub open spec fn decimal(n: nat) -> Seq<char>
    decreases n,
{
    if n < 10 {
        seq![digit_char(n)]
    } else {
        decimal(n / 10).push(digit_char(n % 10))
    }
}

/// A character in the printable ASCII range that the `Debug` notation of
/// `str` and `char` leaves as it is.
pub open spec fn is_plain_char(c: char) -> bool {
    &&& ' ' <= c <= '~'
    &&& c != '"'
    &&& c != '\''
    &&& c != '\\'
}

/// What `format!("{:?}", s)` gives for a string slice `s`: `s` between double
/// quotes, with some characters written as escape sequences.
pub uninterp spec fn str_debug_text(s: Seq<char>) -> Seq<char>;

/// What `format!("{:?}", c)` gives for a character `c`: `c` between single
/// quotes, some characters written as escape sequences.
pub uninterp spec fn char_debug_text(c: char) -> Seq<char>;

/// Appends `c` to `s` (`String::push`).  std documents that the character is
/// added at the end; the contract says that and nothing more.
#[verifier::external_body]
pub(crate) fn push_char(s: &mut String, c: char)
    ensures
        final(s)@ == old(s)@.push(c),
{
    s.push(c);
}

/// The `Debug` notation of a string slice (`<str as Debug>::fmt`, through
/// `format!`).  The result is named by `str_debug_text`.  Stated besides: a
/// string made only of printable ASCII characters other than quotes and the
/// backslash is written unchanged between double quotes, which is what
/// `char::escape_debug` documents for that range.  Which escape sequences the
/// other characters get is not stated.
#[verifier::external_body]
pub(crate) fn debug_str(s: &str) -> (r: String)
    ensures
        r@ == str_debug_text(s@),
        (forall|i: int| 0 <= i < s@.len() ==> is_plain_char(#[trigger] s@[i])) ==> r@ == seq!['"']
            + s@ + seq!['"'],
{
    format!("{:?}", s)
}

/// The `Debug` notation of a character (`<char as Debug>::fmt`, through
/// `format!`), named by `char_debug_text`.  Stated besides: a printable ASCII
/// character other than quotes and the backslash is written between single
/// quotes.  The escape sequences of other characters are not stated.
#[verifier::external_body]
pub(crate) fn debug_char(c: char) -> (r: String)
    ensures
        r@ == char_debug_text(c),
        is_plain_char(c) ==> r@ == seq!['\'', c, '\''],
{
    format!("{:?}", c)
}

/// The decimal notation of `n`, as `format!("{}", n)` writes it.
pub fn decimal_text(n: u64) -> (r: String)
    ensures
        r@ == decimal(n as nat),
    decreases n,
{
    let d: u8 = (n % 10) as u8;
    let c: char = (d + 48u8) as char;
    assert(c == digit_char((n % 10) as nat));
    if n < 10 {
        let mut s = String::new();
        push_char(&mut s, c);
        assert(s@ =~= seq![digit_char(n as nat)]);
        s
    } else {
        let mut s = decimal_text(n / 10);
        push_char(&mut s, c);
        s
    }
}

} // verus!
