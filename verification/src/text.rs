use vstd::prelude::*;

verus! {

broadcast use vstd::string::group_string_axioms;

/// `pattern` occurs as a contiguous run of characters inside `text`.
pub open spec fn has_substring(text: Seq<char>, pattern: Seq<char>) -> bool {
    exists|i: int|
        0 <= i && i + pattern.len() <= text.len() && #[trigger] text.subrange(i, i + pattern.len())
            == pattern
}

/// The characters of a string slice, in order.
pub fn chars_of(s: &str) -> (chars: Vec<char>)
    ensures
        chars@ == s@,
{
    let mut chars: Vec<char> = Vec::new();
    for c in iter: s.chars()
        invariant
            chars@ == iter.seq().take(iter.index() as int),
    {
        chars.push(c);
    }
    chars
}

/// Whether `pattern` occurs in `text` starting at character `start`.
fn occurs_at(text: &Vec<char>, pattern: &Vec<char>, start: usize) -> (found: bool)
    requires
        start + pattern.len() <= text.len(),
    ensures
        found == (text@.subrange(start as int, start + pattern.len()) == pattern@),
{
    let mut j: usize = 0;
    while j < pattern.len()
        invariant
            j <= pattern.len(),
            start + pattern.len() <= text.len(),
            forall|k: int| 0 <= k < j ==> text@[start + k] == pattern@[k],
        decreases pattern.len() - j,
    {
        if text[start + j] != pattern[j] {
            assert(text@.subrange(start as int, start + pattern.len())[j as int] != pattern@[j as int]);
            return false;
        }
        j = j + 1;
    }
    assert(text@.subrange(start as int, start + pattern.len()) =~= pattern@);
    true
}

/// Whether `pattern` occurs in `text`, as `str::contains` answers it for a
/// string pattern.
pub fn contains_pattern(text: &str, pattern: &str) -> (found: bool)
    ensures
        found == has_substring(text@, pattern@),
{
    let t = chars_of(text);
    let p = chars_of(pattern);
    if p.len() > t.len() {
        return false;
    }
    let last = t.len() - p.len();
    let mut i: usize = 0;
    loop
        invariant
            last + p.len() == t.len(),
            t@ == text@,
            p@ == pattern@,
            i <= last,
            forall|k: int| 0 <= k < i ==> #[trigger] t@.subrange(k, k + p.len()) != p@,
        decreases last - i,
    {
        if occurs_at(&t, &p, i) {
            return true;
        }
        if i == last {
            return false;
        }
        i = i + 1;
    }
}

/// The decimal digit character for `d` (0 to 9).
pub open spec fn digit_char(d: nat) -> char {
    if d == 0 {
        '0'
    } else if d == 1 {
        '1'
    } else if d == 2 {
        '2'
    } else if d == 3 {
        '3'
    } else if d == 4 {
        '4'
    } else if d == 5 {
        '5'
    } else if d == 6 {
        '6'
    } else if d == 7 {
        '7'
    } else if d == 8 {
        '8'
    } else {
        '9'
    }
}

/// The decimal notation of `n`, without leading zeros.
pub open spec fn decimal(n: nat) -> Seq<char>
    decreases n,
{
    if n < 10 {
        seq![digit_char(n)]
    } else {
        decimal(n / 10) + seq![digit_char(n % 10)]
    }
}

/// The decimal notation of `n`, padded with a zero to at least two digits
/// (the `{:02}` format).
pub open spec fn decimal_2(n: nat) -> Seq<char> {
    if n < 10 {
        seq!['0'] + decimal(n)
    } else {
        decimal(n)
    }
}

/// The one-character text of a decimal digit.
fn digit_text(d: u32) -> (text: &'static str)
    requires
        d < 10,
    ensures
        text@ == seq![digit_char(d as nat)],
{
    proof {
        reveal_strlit("0");
        reveal_strlit("1");
        reveal_strlit("2");
        reveal_strlit("3");
        reveal_strlit("4");
        reveal_strlit("5");
        reveal_strlit("6");
        reveal_strlit("7");
        reveal_strlit("8");
        reveal_strlit("9");
    }
    let text = if d == 0 {
        "0"
    } else if d == 1 {
        "1"
    } else if d == 2 {
        "2"
    } else if d == 3 {
        "3"
    } else if d == 4 {
        "4"
    } else if d == 5 {
        "5"
    } else if d == 6 {
        "6"
    } else if d == 7 {
        "7"
    } else if d == 8 {
        "8"
    } else {
        "9"
    };
    assert(text@ =~= seq![digit_char(d as nat)]);
    text
}

/// Appends the decimal notation of `n`.
pub fn push_decimal(out: &mut String, n: u32)
    ensures
        final(out)@ == old(out)@ + decimal(n as nat),
    decreases n,
{
    if n >= 10 {
        push_decimal(out, n / 10);
    }
    out.append(digit_text(n % 10));
    proof {
        if n >= 10 {
            assert(old(out)@ + decimal(n as nat) =~= old(out)@ + decimal((n / 10) as nat) + seq![
                digit_char((n % 10) as nat),
            ]);
        } else {
            assert(n % 10 == n);
        }
    }
}

/// Appends the decimal notation of `n`, zero-padded to two digits.
pub fn push_decimal_2(out: &mut String, n: u32)
    ensures
        final(out)@ == old(out)@ + decimal_2(n as nat),
{
    if n < 10 {
        out.append("0");
        proof {
            reveal_strlit("0");
        }
    }
    push_decimal(out, n);
    proof {
        reveal_strlit("0");
        assert(out@ =~= old(out)@ + decimal_2(n as nat));
    }
}

} // verus!
