use vstd::prelude::*;
use vstd::string::*;

verus! {

pub open spec fn digit_char(d: int) -> char {
    "0123456789"@[d]
}

/// The decimal digits of `n`, most significant first, without leading zeros.
pub open spec fn decimal_spec(n: nat) -> Seq<char>
    decreases n,
{
    if n < 10 {
        seq![digit_char(n as int)]
    } else {
        decimal_spec(n / 10).push(digit_char((n % 10) as int))
    }
}

/// `n` in decimal, with zeros in front up to `width` characters.
pub open spec fn padded_spec(n: nat, width: nat) -> Seq<char> {
    let d = decimal_spec(n);
    if d.len() >= width {
        d
    } else {
        Seq::new((width - d.len()) as nat, |i: int| '0') + d
    }
}

/// A millisecond count as seconds with three decimals, such as `1.500`.
pub open spec fn seconds_spec(ms: nat) -> Seq<char> {
    decimal_spec(ms / 1000) + "."@ + padded_spec(ms % 1000, 3)
}

/// `n` in decimal.
pub fn decimal(n: u64) -> (r: String)
    ensures
        r@ == decimal_spec(n as nat),
    decreases n,
{
    let digits = "0123456789";
    proof {
        reveal_strlit("0123456789");
    }
    if n < 10 {
        let d = n as usize;
        String::from_str(digits.substring_char(d, d + 1))
    } else {
        let mut s = decimal(n / 10);
        let d = (n % 10) as usize;
        let ghost before = s@;
        s.append(digits.substring_char(d, d + 1));
        assert(s@ =~= before.push(digit_char(d as int)));
        s
    }
}

/// `n` in decimal, zero-padded to `width` characters.
pub fn padded(n: u64, width: usize) -> (r: String)
    ensures
        r@ == padded_spec(n as nat, width as nat),
{
    let d = decimal(n);
    let len = d.unicode_len();
    if len >= width {
        return d;
    }
    let mut s = String::new();
    let mut i: usize = 0;
    while i < width - len
        invariant
            i <= width - len,
            len < width,
            s@ == Seq::new(i as nat, |k: int| '0'),
        decreases width - len - i,
    {
        s.append("0");
        proof {
            reveal_strlit("0");
        }
        i = i + 1;
        assert(s@ =~= Seq::new(i as nat, |k: int| '0'));
    }
    s.append(d.as_str());
    s
}

/// A millisecond count as seconds with three decimals.
pub fn seconds(ms: u64) -> (r: String)
    ensures
        r@ == seconds_spec(ms as nat),
{
    let mut s = decimal(ms / 1000);
    s.append(".");
    let frac = padded(ms % 1000, 3);
    s.append(frac.as_str());
    s
}

} // verus!
