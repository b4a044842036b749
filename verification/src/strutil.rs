//! Characters, decimal digits, and decimal rendering of integers.

use vstd::prelude::*;

verus! {

/// Does `c` stand anywhere in `s`?
pub open spec fn seq_contains(s: Seq<char>, c: char) -> bool {
    exists|i: int| 0 <= i < s.len() && s[i] == c
}

/// Is `i` the first position of `c` in `s`?
pub open spec fn is_first_at(s: Seq<char>, c: char, i: int) -> bool {
    &&& 0 <= i < s.len()
    &&& s[i] == c
    &&& forall|j: int| 0 <= j < i ==> s[j] != c
}

/// Wherever a character occurs at all, it has a first occurrence.
pub proof fn lemma_first_at_exists(s: Seq<char>, c: char)
    requires
        seq_contains(s, c),
    ensures
        exists|i: int| is_first_at(s, c, i),
    decreases s.len(),
{
    if s[0] == c {
        assert(is_first_at(s, c, 0));
    } else {
        let t = s.subrange(1, s.len() as int);
        let j = choose|j: int| 0 <= j < s.len() && s[j] == c;
        assert(t[j - 1] == c);
        lemma_first_at_exists(t, c);
        let i = choose|i: int| is_first_at(t, c, i);
        assert(forall|m: int| 1 <= m < i + 1 ==> s[m] == t[m - 1]);
        assert(is_first_at(s, c, i + 1));
    }
}

pub open spec fn is_dec_digit(c: char) -> bool {
    '0' <= c && c <= '9'
}

/// Value of a single decimal digit character.
pub open spec fn digit_val(c: char) -> int {
    c as int - '0' as int
}

/// Value of a string of decimal digit characters, most significant first.
pub open spec fn digits_val(s: Seq<char>) -> nat
    decreases s.len(),
{
    if s.len() == 0 {
        0
    } else {
        (digits_val(s.drop_last()) * 10 + digit_val(s.last())) as nat
    }
}

/// The character for a single decimal digit value.
pub open spec fn digit_char(d: int) -> char {
    if d == 0 {
        '0'
    } else if d == 1 {
        '1'
    } else if d == 2 {
        '2'
    } else if d == 3 {
        '3'
    } else if d == 4 {
        '4'
    } else if d == 5 {
        '5'
    } else if d == 6 {
        '6'
    } else if d == 7 {
        '7'
    } else if d == 8 {
        '8'
    } else {
        '9'
    }
}

/// Decimal representation of a natural number, most significant digit first.
pub open spec fn dec_str(n: nat) -> Seq<char>
    decreases n,
{
    if n < 10 {
        seq![digit_char(n as int)]
    } else {
        dec_str(n / 10) + seq![digit_char((n % 10) as int)]
    }
}

fn digit_str(d: u64) -> (r: &'static str)
    requires
        d < 10,
    ensures
        r@ =~= seq![digit_char(d as int)],
{
    proof {
        reveal_strlit("0");
        reveal_strlit("1");
        reveal_strlit("2");
        reveal_strlit("3");
        reveal_strlit("4");
        reveal_strlit("5");
        reveal_strlit("6");
        reveal_strlit("7");
        reveal_strlit("8");
        reveal_strlit("9");
    }
    if d == 0 {
        "0"
    } else if d == 1 {
        "1"
    } else if d == 2 {
        "2"
    } else if d == 3 {
        "3"
    } else if d == 4 {
        "4"
    } else if d == 5 {
        "5"
    } else if d == 6 {
        "6"
    } else if d == 7 {
        "7"
    } else if d == 8 {
        "8"
    } else {
        "9"
    }
}

/// Render `n` in decimal.
pub fn u64_to_string(n: u64) -> (s: String)
    ensures
        s@ == dec_str(n as nat),
    decreases n,
{
    if n < 10 {
        String::from_str(digit_str(n))
    } else {
        let prefix = u64_to_string(n / 10);
        prefix.concat(digit_str(n % 10))
    }
}

/// A longer digit string never has the smaller value: appending digits
/// cannot shrink the value.
proof fn lemma_digits_val_prefix_le(s: Seq<char>, k: int)
    requires
        0 <= k <= s.len(),
        forall|i: int| 0 <= i < s.len() ==> is_dec_digit(#[trigger] s[i]),
    ensures
        digits_val(s.subrange(0, k)) <= digits_val(s),
    decreases s.len() - k,
{
    if k < s.len() {
        let t = s.subrange(0, k + 1);
        assert(t.drop_last() =~= s.subrange(0, k));
        assert(digits_val(s.subrange(0, k)) <= digits_val(t));
        lemma_digits_val_prefix_le(s, k + 1);
        assert(s.subrange(0, s.len() as int) =~= s);
    } else {
        assert(s.subrange(0, k) =~= s);
    }
}

/// Parse the decimal digit run `s@[from..to]` as a `u64`.
/// `None` exactly when the value does not fit.
pub fn parse_decimal(s: &str, from: usize, to: usize) -> (r: Option<u64>)
    requires
        from <= to <= s@.len(),
        forall|i: int| from <= i < to ==> is_dec_digit(#[trigger] s@[i]),
    ensures
        match r {
            Some(v) => v as nat == digits_val(s@.subrange(from as int, to as int)),
            None => digits_val(s@.subrange(from as int, to as int)) > u64::MAX,
        },
{
    let ghost whole = s@.subrange(from as int, to as int);
    let mut val: u64 = 0;
    let mut i: usize = from;
    while i < to
        invariant
            from <= i <= to <= s@.len(),
            forall|k: int| from <= k < to ==> is_dec_digit(#[trigger] s@[k]),
            whole == s@.subrange(from as int, to as int),
            val as nat == digits_val(s@.subrange(from as int, i as int)),
        decreases to - i,
    {
        let c = s.get_char(i);
        let d: u64 = (c as u32 - '0' as u32) as u64;
        let ghost prefix = s@.subrange(from as int, i as int);
        let ghost next = s@.subrange(from as int, i + 1 as int);
        proof {
            assert(next.drop_last() =~= prefix);
        }
        let step = match val.checked_mul(10) {
            Some(m) => m.checked_add(d),
            None => None,
        };
        match step {
            Some(v) => {
                val = v;
            },
            None => {
                proof {
                    assert(digits_val(next) > u64::MAX);
                    lemma_digits_val_prefix_le(whole, i + 1 - from);
                    assert(whole.subrange(0, i + 1 - from) =~= next);
                }
                return None;
            },
        }
        i = i + 1;
    }
    Some(val)
}

/// First position of `c` in `s`, scanning left to right.
pub fn find_first(s: &str, c: char) -> (r: Option<usize>)
    ensures
        match r {
            Some(i) => is_first_at(s@, c, i as int),
            None => !seq_contains(s@, c),
        },
{
    let n = s.unicode_len();
    let mut i: usize = 0;
    while i < n
        invariant
            i <= n,
            n == s@.len(),
            forall|j: int| 0 <= j < i ==> s@[j] != c,
        decreases n - i,
    {
        if s.get_char(i) == c {
            return Some(i);
        }
        i = i + 1;
    }
    None
}

/// Does `c` stand anywhere in `s`?
pub fn str_contains_char(s: &str, c: char) -> (r: bool)
    ensures
        r == seq_contains(s@, c),
{
    match find_first(s, c) {
        Some(_) => true,
        None => false,
    }
}

/// The character for a single hexadecimal digit value, lowercase.
pub open spec fn hex_digit_char(d: int) -> char {
    if d < 10 {
        digit_char(d)
    } else if d == 10 {
        'a'
    } else if d == 11 {
        'b'
    } else if d == 12 {
        'c'
    } else if d == 13 {
        'd'
    } else if d == 14 {
        'e'
    } else {
        'f'
    }
}

/// Lowercase hexadecimal rendering of a byte string: two digits per byte,
/// high nibble first.
pub open spec fn hex_of(b: Seq<u8>) -> Seq<char>
    decreases b.len(),
{
    if b.len() == 0 {
        Seq::<char>::empty()
    } else {
        hex_of(b.drop_last()) + seq![
            hex_digit_char(b.last() as int / 16),
            hex_digit_char(b.last() as int % 16),
        ]
    }
}

/// A hexadecimal rendering has two characters per byte.
pub proof fn lemma_hex_of_len(b: Seq<u8>)
    ensures
        hex_of(b).len() == 2 * b.len(),
    decreases b.len(),
{
    if b.len() > 0 {
        lemma_hex_of_len(b.drop_last());
    }
}

/// Relies on hex::encode: each byte becomes two lowercase hexadecimal
/// digits, high nibble first.
#[verifier::external_body]
pub fn hex_encode(bytes: &Vec<u8>) -> (r: String)
    ensures
        r@ == hex_of(bytes@),
{
    hex::encode(bytes)
}

} // verus!
