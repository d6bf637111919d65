use vstd::prelude::*;

verus! {

/// The character of a decimal digit.
pub open spec fn digit_char(d: int) -> char {
    seq!['0', '1', '2', '3', '4', '5', '6', '7', '8', '9'][d]
}

/// Decimal digits of a natural number, most significant first, with no leading zero.
pub open spec fn decimal(n: nat) -> Seq<char>
    decreases n,
{
    if n < 10 {
        seq![digit_char(n as int)]
    } else {
        decimal(n / 10).push(digit_char((n % 10) as int))
    }
}

/// Decimal text of an integer, with a leading minus sign when it is negative.
pub open spec fn int_text(n: int) -> Seq<char> {
    if n < 0 {
        seq!['-'] + decimal((-n) as nat)
    } else {
        decimal(n as nat)
    }
}

fn digit_str(d: u64) -> (r: &'static str)
    requires
        d < 10,
    ensures
        r@ == seq![digit_char(d as int)],
{
    proof {
        reveal_strlit("0");
        reveal_strlit("1");
        reveal_strlit("2");
        reveal_strlit("3");
        reveal_strlit("4");
        reveal_strlit("5");
        reveal_strlit("6");
        reveal_strlit("7");
        reveal_strlit("8");
        reveal_strlit("9");
    }
    match d {
        0 => "0",
        1 => "1",
        2 => "2",
        3 => "3",
        4 => "4",
        5 => "5",
        6 => "6",
        7 => "7",
        8 => "8",
        _ => "9",
    }
}

/// Decimal text of a natural number.
pub fn natural_to_string(n: u64) -> (r: String)
    ensures
        r@ == decimal(n as nat),
    decreases n,
{
    if n < 10 {
        String::from_str(digit_str(n))
    } else {
        let mut s = natural_to_string(n / 10);
        s.append(digit_str(n % 10));
        s
    }
}

/// Decimal text of an integer.
pub fn int_to_string(n: i32) -> (r: String)
    ensures
        r@ == int_text(n as int),
{
    if n < 0 {
        let magnitude: u64 = (-(n as i64)) as u64;
        let digits = natural_to_string(magnitude);
        let mut s = String::from_str("-");
        proof {
            reveal_strlit("-");
        }
        s.append(digits.as_str());
        s
    } else {
        natural_to_string(n as u64)
    }
}

/// The text with every occurrence of `pat` replaced by `rep`, occurrences being taken
/// from left to right without overlapping.
pub open spec fn replace_all(s: Seq<char>, pat: Seq<char>, rep: Seq<char>) -> Seq<char>
    decreases s.len(),
{
    if s.len() == 0 {
        s
    } else if 0 < pat.len() <= s.len() && s.subrange(0, pat.len() as int) == pat {
        rep + replace_all(s.subrange(pat.len() as int, s.len() as int), pat, rep)
    } else {
        seq![s[0]] + replace_all(s.drop_first(), pat, rep)
    }
}

/// The characters of a text.
pub fn to_chars(s: &str) -> (r: Vec<char>)
    ensures
        r@ == s@,
{
    let n = s.unicode_len();
    let mut r: Vec<char> = Vec::new();
    let mut i: usize = 0;
    while i < n
        invariant
            n == s@.len(),
            i <= n,
            r@ == s@.subrange(0, i as int),
        decreases n - i,
    {
        r.push(s.get_char(i));
        i = i + 1;
        assert(r@ =~= s@.subrange(0, i as int));
    }
    r
}

/// Whether `pat` occurs in `s` at position `pos`.
fn occurs_at(s: &Vec<char>, pat: &Vec<char>, pos: usize) -> (r: bool)
    requires
        pos <= s@.len(),
    ensures
        r == (pat@.len() <= s@.len() - pos && s@.subrange(pos as int, pos + pat@.len()) == pat@),
{
    let n = s.len();
    if pat.len() > n - pos {
        return false;
    }
    let mut i: usize = 0;
    while i < pat.len()
        invariant
            n == s@.len(),
            pos <= s@.len(),
            pat@.len() <= s@.len() - pos,
            i <= pat@.len(),
            forall|k: int| 0 <= k < i ==> s@[pos + k] == pat@[k],
        decreases pat@.len() - i,
    {
        if s[pos + i] != pat[i] {
            assert(s@.subrange(pos as int, pos + pat@.len())[i as int] != pat@[i as int]);
            return false;
        }
        i = i + 1;
    }
    assert(s@.subrange(pos as int, pos + pat@.len()) =~= pat@);
    true
}

/// `s` with every occurrence of `pat` replaced by `rep`.
pub fn replace_text(s: &String, pat: &String, rep: &String) -> (r: String)
    ensures
        r@ == replace_all(s@, pat@, rep@),
{
    let chars = to_chars(s.as_str());
    let pattern = to_chars(pat.as_str());
    let n = chars.len();
    let m = pattern.len();
    let mut out = String::new();
    let mut pos: usize = 0;
    let mut run_start: usize = 0;
    proof {
        assert(chars@.subrange(0, n as int) =~= chars@);
    }
    while pos < n
        invariant
            chars@ == s@,
            pattern@ == pat@,
            n == chars@.len(),
            m == pattern@.len(),
            run_start <= pos <= n,
            out@ + chars@.subrange(run_start as int, pos as int) + replace_all(
                chars@.subrange(pos as int, n as int),
                pat@,
                rep@,
            ) == replace_all(s@, pat@, rep@),
        decreases n - pos,
    {
        let ghost t = chars@.subrange(pos as int, n as int);
        if m > 0 && occurs_at(&chars, &pattern, pos) {
            proof {
                assert(t.subrange(0, m as int) =~= chars@.subrange(pos as int, pos + m));
                assert(t.subrange(m as int, t.len() as int) =~= chars@.subrange(pos + m, n as int));
            }
            out.append(s.as_str().substring_char(run_start, pos));
            out.append(rep.as_str());
            proof {
                assert(chars@.subrange(pos + m, pos + m) =~= Seq::<char>::empty());
            }
            pos = pos + m;
            run_start = pos;
            assert(chars@.subrange(run_start as int, pos as int) =~= Seq::<char>::empty());
        } else {
            proof {
                if 0 < m <= t.len() {
                    assert(t.subrange(0, m as int) =~= chars@.subrange(pos as int, pos + m));
                }
                assert(t.drop_first() =~= chars@.subrange(pos + 1, n as int));
                assert(chars@.subrange(run_start as int, pos + 1) =~= chars@.subrange(
                    run_start as int,
                    pos as int,
                ).push(chars@[pos as int]));
            }
            pos = pos + 1;
        }
    }
    out.append(s.as_str().substring_char(run_start, n));
    proof {
        assert(chars@.subrange(n as int, n as int) =~= Seq::<char>::empty());
    }
    out
}

} // verus!
