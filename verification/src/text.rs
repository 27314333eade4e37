//! Text rendered into panel buffers: decimal numbers, padding, the elapsed
//! time and the cursor coordinates as character sequences.

use vstd::prelude::*;

verus! {

/// The character for one decimal digit.
pub open spec fn digit_char(d: nat) -> char {
    if d == 0 {
        '0'
    } else if d == 1 {
        '1'
    } else if d == 2 {
        '2'
    } else if d == 3 {
        '3'
    } else if d == 4 {
        '4'
    } else if d == 5 {
        '5'
    } else if d == 6 {
        '6'
    } else if d == 7 {
        '7'
    } else if d == 8 {
        '8'
    } else {
        '9'
    }
}

/// The decimal digits of `n`, most significant first, no leading zeroes
/// (a single '0' for zero).
pub open spec fn dec_digits(n: nat) -> Seq<char>
    decreases n,
{
    if n < 10 {
        seq![digit_char(n)]
    } else {
        dec_digits(n / 10).push(digit_char(n % 10))
    }
}

/// The decimal digits of `v`, preceded by '-' when `v` is negative.
pub open spec fn int_digits(v: int) -> Seq<char> {
    if v < 0 {
        seq!['-'] + dec_digits((-v) as nat)
    } else {
        dec_digits(v as nat)
    }
}

/// `s` padded on the left with `c` up to width `w` (unchanged if as wide).
pub open spec fn left_padded(s: Seq<char>, w: int, c: char) -> Seq<char> {
    if s.len() >= w {
        s
    } else {
        Seq::new((w - s.len()) as nat, |i: int| c) + s
    }
}

/// The elapsed time as text: whole seconds, a dot, and the milliseconds
/// padded to three digits.
pub open spec fn game_time_text(t_millis: u64) -> Seq<char> {
    dec_digits((t_millis / 1000) as nat) + seq!['.'] + left_padded(
        dec_digits((t_millis % 1000) as nat),
        3,
        '0',
    )
}

/// The cursor coordinates as text: both numbers padded to four characters,
/// separated by a colon, in brackets.
pub open spec fn coord_text(x: i32, y: i32) -> Seq<char> {
    seq!['['] + left_padded(int_digits(x as int), 4, ' ') + seq![':'] + left_padded(
        int_digits(y as int),
        4,
        ' ',
    ) + seq![']']
}

fn digit_to_char(d: u64) -> (r: char)
    requires
        d < 10,
    ensures
        r == digit_char(d as nat),
{
    if d == 0 {
        '0'
    } else if d == 1 {
        '1'
    } else if d == 2 {
        '2'
    } else if d == 3 {
        '3'
    } else if d == 4 {
        '4'
    } else if d == 5 {
        '5'
    } else if d == 6 {
        '6'
    } else if d == 7 {
        '7'
    } else if d == 8 {
        '8'
    } else {
        '9'
    }
}

/// The decimal digits of `n` as characters.
pub fn u64_to_chars(n: u64) -> (r: Vec<char>)
    ensures
        r@ == dec_digits(n as nat),
    decreases n,
{
    if n < 10 {
        let mut v: Vec<char> = Vec::new();
        v.push(digit_to_char(n));
        proof {
            assert(v@ =~= dec_digits(n as nat));
        }
        v
    } else {
        let mut v = u64_to_chars(n / 10);
        v.push(digit_to_char(n % 10));
        v
    }
}

/// The decimal digits of `v` as characters, with a leading '-' when negative.
pub fn i32_to_chars(v: i32) -> (r: Vec<char>)
    ensures
        r@ == int_digits(v as int),
{
    if v < 0 {
        let m: u64 = (-(v as i64)) as u64;
        let mut r: Vec<char> = Vec::new();
        r.push('-');
        let mut digits = u64_to_chars(m);
        let n = digits.len();
        let mut i: usize = 0;
        while i < n
            invariant
                n == digits@.len(),
                0 <= i <= n,
                digits@ == dec_digits((-(v as int)) as nat),
                r@ == seq!['-'] + digits@.take(i as int),
            decreases n - i,
        {
            let c = digits[i];
            r.push(c);
            proof {
                assert(r@ =~= seq!['-'] + digits@.take(i + 1));
            }
            i += 1;
        }
        proof {
            assert(digits@.take(n as int) =~= digits@);
        }
        r
    } else {
        u64_to_chars(v as u64)
    }
}

/// `text` padded on the left with `c` up to width `w`.
pub fn pad_left(text: Vec<char>, w: usize, c: char) -> (r: Vec<char>)
    ensures
        r@ == left_padded(text@, w as int, c),
{
    let n = text.len();
    if n >= w {
        text
    } else {
        let pad = w - n;
        let mut r: Vec<char> = Vec::new();
        let mut i: usize = 0;
        while i < pad
            invariant
                0 <= i <= pad,
                r@.len() == i,
                forall|j: int| 0 <= j < i ==> r@[j] == c,
            decreases pad - i,
        {
            r.push(c);
            i += 1;
        }
        let mut items = text;
        proof {
            assert(r@ + items@ =~= Seq::new(pad as nat, |j: int| c) + items@);
            assert(items@ == text@);
        }
        let ghost want = Seq::new(pad as nat, |j: int| c) + text@;
        while items.len() > 0
            invariant
                r@ + items@ == want,
            decreases items@.len(),
        {
            let ch = items.remove(0);
            r.push(ch);
            proof {
                assert(r@ + items@ =~= want);
            }
        }
        proof {
            assert(r@ =~= want);
            assert(r@ =~= left_padded(text@, w as int, c));
        }
        r
    }
}

/// Glue two character vectors.
pub fn concat_chars(a: Vec<char>, b: &Vec<char>) -> (r: Vec<char>)
    ensures
        r@ == a@ + b@,
    {
    let mut r = a;
    let n = b.len();
    let mut i: usize = 0;
    while i < n
        invariant
            n == b@.len(),
            0 <= i <= n,
            r@ == a@ + b@.take(i as int),
        decreases n - i,
    {
        let c = b[i];
        r.push(c);
        proof {
            assert(r@ =~= a@ + b@.take(i + 1));
        }
        i += 1;
    }
    proof {
        assert(b@.take(n as int) =~= b@);
    }
    r
}

/// The elapsed time as characters.
pub fn format_game_time(t_millis: u64) -> (r: Vec<char>)
    ensures
        r@ == game_time_text(t_millis),
{
    let secs = u64_to_chars(t_millis / 1000);
    let millis = pad_left(u64_to_chars(t_millis % 1000), 3, '0');
    let mut r = secs;
    r.push('.');
    proof {
        assert(r@ =~= dec_digits((t_millis / 1000) as nat) + seq!['.']);
    }
    let r = concat_chars(r, &millis);
    proof {
        assert(r@ =~= game_time_text(t_millis));
    }
    r
}

/// The cursor coordinates as characters.
pub fn format_coords(x: i32, y: i32) -> (r: Vec<char>)
    ensures
        r@ == coord_text(x, y),
{
    let px = pad_left(i32_to_chars(x), 4, ' ');
    let py = pad_left(i32_to_chars(y), 4, ' ');
    let mut r: Vec<char> = Vec::new();
    r.push('[');
    proof {
        assert(r@ =~= seq!['[']);
    }
    let mut r = concat_chars(r, &px);
    r.push(':');
    proof {
        assert(r@ =~= seq!['['] + px@ + seq![':']);
    }
    let r = concat_chars(r, &py);
    let mut r = r;
    r.push(']');
    proof {
        assert(r@ =~= ((seq!['['] + px@ + seq![':']) + py@).push(']'));
        assert(r@ =~= coord_text(x, y));
    }
    r
}

} // verus!
