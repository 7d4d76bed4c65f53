//! Text of the rows that panels show: decimal labels and padding to a width.

use vstd::prelude::*;

verus! {

/// The decimal digits, in order of value.
pub open spec fn digit_chars() -> Seq<char> {
    "0123456789"@
}

/// The decimal text of `n`, most significant digit first, without leading zeros.
pub open spec fn decimal(n: nat) -> Seq<char>
    decreases n,
{
    if n < 10 {
        digit_chars().subrange(n as int, n + 1int)
    } else {
        decimal(n / 10) + digit_chars().subrange((n % 10) as int, (n % 10) + 1int)
    }
}

/// `n` blanks.
pub open spec fn blanks(n: nat) -> Seq<char> {
    Seq::new(n, |_i: int| ' ')
}

/// `s` cut or filled with blanks on the right to exactly `n` characters.
pub open spec fn fitted(s: Seq<char>, n: nat) -> Seq<char> {
    if s.len() >= n {
        s.subrange(0, n as int)
    } else {
        s + blanks((n - s.len()) as nat)
    }
}

/// A row of exactly `width` characters: one blank, `s` fitted to the room
/// left, one blank. A row narrower than two characters holds blanks only.
pub open spec fn padded(s: Seq<char>, width: nat) -> Seq<char> {
    if width < 2 {
        blanks(width)
    } else {
        seq![' '] + fitted(s, (width - 2) as nat) + seq![' ']
    }
}

/// The decimal text of `n`: the label of the `n`-th element of an array.
pub fn index_label(n: usize) -> (r: String)
    ensures
        r@ == decimal(n as nat),
    decreases n,
{
    let digits = "0123456789";
    proof {
        reveal_strlit("0123456789");
    }
    let d: usize = n % 10;
    let last = digits.substring_char(d, d + 1);
    if n < 10 {
        String::from_str(last)
    } else {
        let mut r = index_label(n / 10);
        r.append(last);
        r
    }
}

/// `n` blanks as a string.
fn blank_string(n: usize) -> (r: String)
    ensures
        r@ == blanks(n as nat),
{
    let one = " ";
    proof {
        reveal_strlit(" ");
    }
    let mut r = String::new();
    let mut k: usize = 0;
    while k < n
        invariant
            k <= n,
            r@ == blanks(k as nat),
            one@ == seq![' '],
        decreases n - k,
    {
        r.append(one);
        k = k + 1;
        assert(r@ =~= blanks(k as nat));
    }
    r
}

/// `s` padded to a row of exactly `width` characters (see `padded`).
pub fn pad_string(s: &str, width: usize) -> (r: String)
    ensures
        r@ == padded(s@, width as nat),
        r@.len() == width,
{
    if width < 2 {
        return blank_string(width);
    }
    let room: usize = width - 2;
    let one = " ";
    proof {
        reveal_strlit(" ");
    }
    let mut r = String::from_str(one);
    let len = s.unicode_len();
    if len >= room {
        r.append(s.substring_char(0, room));
    } else {
        r.append(s);
        let fill = blank_string(room - len);
        r.append(fill.as_str());
    }
    r.append(one);
    assert(r@ =~= padded(s@, width as nat));
    r
}

} // verus!
