use vstd::prelude::*;
use vstd::string::StrSliceExecFns;

verus! {

/// The largest permission value a mode may take: all of the permission,
/// setuid, setgid and sticky bits.
pub const MAX_MODE: u32 = 0o7777;

pub open spec fn is_octal_digit(c: char) -> bool {
    '0' <= c && c <= '7'
}

pub open spec fn digit_value(c: char) -> nat {
    (c as nat - '0' as nat) as nat
}

/// The value of a sequence of octal digits, most significant first.
pub open spec fn octal_value(s: Seq<char>) -> nat
    decreases s.len(),
{
    if s.len() == 0 {
        0
    } else {
        octal_value(s.drop_last()) * 8 + digit_value(s.last())
    }
}

/// The digits of a mode string: a single leading `+` sign is allowed.
pub open spec fn mode_digits(s: Seq<char>) -> Seq<char> {
    if s.len() > 0 && s[0] == '+' {
        s.drop_first()
    } else {
        s
    }
}

/// The permission bits a mode string denotes, if it denotes any: one or more
/// octal digits, read base 8, with a value in `1..=0o7777`.
pub open spec fn mode_bits(s: Seq<char>) -> Option<nat> {
    let d = mode_digits(s);
    if d.len() > 0 && (forall|i: int| 0 <= i < d.len() ==> is_octal_digit(#[trigger] d[i]))
        && 0 < octal_value(d) <= MAX_MODE {
        Some(octal_value(d))
    } else {
        None
    }
}

proof fn lemma_octal_grows(s: Seq<char>)
    requires
        s.len() > 0,
    ensures
        octal_value(s) >= octal_value(s.drop_last()),
{
}

/// Parses a permission mode written in octal, such as `"644"`.
pub fn parse_mode(s: &str) -> (r: Option<u32>)
    ensures
        match mode_bits(s@) {
            Some(v) => r == Some(v as u32),
            None => r is None,
        },
{
    let n = s.unicode_len();
    let mut start: usize = 0;
    if n > 0 && s.get_char(0) == '+' {
        start = 1;
    }
    let ghost d = mode_digits(s@);
    assert(d =~= s@.subrange(start as int, n as int));
    if start == n {
        return None;
    }
    let mut value: u32 = 0;
    let mut big = false;
    let mut i: usize = start;
    while i < n
        invariant
            start <= i <= n,
            n == s@.len(),
            d =~= s@.subrange(start as int, n as int),
            d == mode_digits(s@),
            forall|j: int| 0 <= j < i - start ==> is_octal_digit(#[trigger] d[j]),
            big ==> octal_value(d.take(i - start)) > MAX_MODE,
            !big ==> value == octal_value(d.take(i - start)) && value <= MAX_MODE,
        decreases n - i,
    {
        let c = s.get_char(i);
        if !('0' <= c && c <= '7') {
            assert(d[i - start] == c);
            assert(!is_octal_digit(d[(i - start) as int]));
            assert(mode_bits(s@) is None);
            return None;
        }
        let ghost k = (i - start) as int;
        assert(d.take(k + 1).drop_last() =~= d.take(k));
        assert(d.take(k + 1).last() == c);
        proof {
            lemma_octal_grows(d.take(k + 1));
        }
        if !big {
            let v = value * 8 + (c as u32 - '0' as u32);
            if v > MAX_MODE {
                big = true;
            } else {
                value = v;
            }
        }
        i = i + 1;
    }
    assert(d.take(n - start) =~= d);
    if big || value == 0 {
        None
    } else {
        Some(value)
    }
}

} // verus!
