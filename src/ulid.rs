use vstd::prelude::*;

verus! {

/// The 32 symbols of Crockford's base 32, in digit order.
pub open spec fn crockford_alphabet() -> Seq<char> {
    seq![
        '0', '1', '2', '3', '4', '5', '6', '7', '8', '9', 'A', 'B', 'C', 'D', 'E', 'F',
        'G', 'H', 'J', 'K', 'M', 'N', 'P', 'Q', 'R', 'S', 'T', 'V', 'W', 'X', 'Y', 'Z',
    ]
}

/// The `i`-th base-32 digit of `n`, most significant first; the first digit
/// holds the top 3 bits, each later one 5 bits.
pub open spec fn ulid_digit(n: u128, i: int) -> u128 {
    (n >> ((125 - 5 * i) as u128)) & 31u128
}

/// The canonical 26-character text of a ULID.
pub open spec fn ulid_text(n: u128) -> Seq<char> {
    Seq::new(26, |i: int| crockford_alphabet()[ulid_digit(n, i) as int])
}

/// The one-character text of a base-32 digit.
fn digit_text(d: u128) -> (r: &'static str)
    requires
        d < 32,
    ensures
        r@ == seq![crockford_alphabet()[d as int]],
{
    proof {
        reveal_strlit("0");
        reveal_strlit("1");
        reveal_strlit("2");
        reveal_strlit("3");
        reveal_strlit("4");
        reveal_strlit("5");
        reveal_strlit("6");
        reveal_strlit("7");
        reveal_strlit("8");
        reveal_strlit("9");
        reveal_strlit("A");
        reveal_strlit("B");
        reveal_strlit("C");
        reveal_strlit("D");
        reveal_strlit("E");
        reveal_strlit("F");
        reveal_strlit("G");
        reveal_strlit("H");
        reveal_strlit("J");
        reveal_strlit("K");
        reveal_strlit("M");
        reveal_strlit("N");
        reveal_strlit("P");
        reveal_strlit("Q");
        reveal_strlit("R");
        reveal_strlit("S");
        reveal_strlit("T");
        reveal_strlit("V");
        reveal_strlit("W");
        reveal_strlit("X");
        reveal_strlit("Y");
        reveal_strlit("Z");
    }
    match d {
        0 => "0",
        1 => "1",
        2 => "2",
        3 => "3",
        4 => "4",
        5 => "5",
        6 => "6",
        7 => "7",
        8 => "8",
        9 => "9",
        10 => "A",
        11 => "B",
        12 => "C",
        13 => "D",
        14 => "E",
        15 => "F",
        16 => "G",
        17 => "H",
        18 => "J",
        19 => "K",
        20 => "M",
        21 => "N",
        22 => "P",
        23 => "Q",
        24 => "R",
        25 => "S",
        26 => "T",
        27 => "V",
        28 => "W",
        29 => "X",
        30 => "Y",
        _ => "Z",
    }
}

/// Writes the identifier `n` as a ULID: 26 characters of Crockford base 32.
pub fn ulid_string(n: u128) -> (r: String)
    ensures
        r@ == ulid_text(n),
{
    let mut out = String::new();
    let mut i: u128 = 0;
    while i < 26
        invariant
            i <= 26,
            out@ =~= ulid_text(n).subrange(0, i as int),
        decreases 26 - i,
    {
        let shifted: u128 = n >> (125 - 5 * i);
        let d: u128 = shifted & 31;
        assert(shifted & 31u128 < 32) by (bit_vector);
        out.append(digit_text(d));
        i = i + 1;
    }
    out
}

} // verus!
