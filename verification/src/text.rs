//! Small string routines: decimal rendering of numeric ids, substitution of
//! the home-directory marker in a path template, and a character scan.

use vstd::prelude::*;

verus! {

/// The decimal digit character for a value in 0..=9.
pub open spec fn digit_char(d: int) -> char {
    if d == 0 {
        '0'
    } else if d == 1 {
        '1'
    } else if d == 2 {
        '2'
    } else if d == 3 {
        '3'
    } else if d == 4 {
        '4'
    } else if d == 5 {
        '5'
    } else if d == 6 {
        '6'
    } else if d == 7 {
        '7'
    } else if d == 8 {
        '8'
    } else {
        '9'
    }
}

/// The decimal digits of `n`, most significant first, with no sign and no
/// leading zeros (a lone `'0'` for zero).
pub open spec fn digits_of(n: nat) -> Seq<char>
    decreases n,
{
    if n < 10 {
        seq![digit_char(n as int)]
    } else {
        digits_of(n / 10) + seq![digit_char((n % 10) as int)]
    }
}

/// The decimal rendering of a signed value: a `'-'` prefix for negatives,
/// then the digits of the magnitude.
pub open spec fn signed_digits_of(n: int) -> Seq<char> {
    if n < 0 {
        seq!['-'] + digits_of((-n) as nat)
    } else {
        digits_of(n as nat)
    }
}

/// A home-directory marker `{}` starts at index `i` of `t`.
pub open spec fn marker_at(t: Seq<char>, i: int) -> bool {
    0 <= i && i + 2 <= t.len() && t[i] == '{' && t[i + 1] == '}'
}

/// `t` holds a home-directory marker somewhere.
pub open spec fn has_marker(t: Seq<char>) -> bool {
    exists|i: int| marker_at(t, i)
}

/// `t` with its first home-directory marker replaced by `h`; `t` unchanged
/// when it holds no marker.  Path templates hold exactly one marker, so
/// first-occurrence substitution replaces every marker they have.
pub open spec fn subst_home(t: Seq<char>, h: Seq<char>) -> Seq<char>
    decreases t.len(),
{
    if t.len() >= 2 && t[0] == '{' && t[1] == '}' {
        h + t.skip(2)
    } else if t.len() == 0 {
        t
    } else {
        seq![t[0]] + subst_home(t.skip(1), h)
    }
}

/// Substitution at the first marker, spelled out: when the marker starts at
/// `i` and none starts earlier, the result splices `h` over `t[i..i+2]`.
proof fn lemma_subst_home_at(t: Seq<char>, h: Seq<char>, i: int)
    requires
        marker_at(t, i),
        forall|j: int| 0 <= j < i ==> !marker_at(t, j),
    ensures
        subst_home(t, h) == t.take(i) + h + t.skip(i + 2),
    decreases i,
{
    if i == 0 {
        assert(subst_home(t, h) =~= t.take(0) + h + t.skip(2));
    } else {
        let rest = t.skip(1);
        assert(marker_at(rest, i - 1));
        assert forall|j: int| 0 <= j < i - 1 implies !marker_at(rest, j) by {
            assert(!marker_at(t, j + 1));
        }
        lemma_subst_home_at(rest, h, i - 1);
        assert(!marker_at(t, 0));
        assert(seq![t[0]] + (rest.take(i - 1) + h + rest.skip(i + 1)) =~= t.take(i) + h + t.skip(
            i + 2,
        ));
    }
}

/// A template with no marker substitutes to itself.
proof fn lemma_subst_home_none(t: Seq<char>, h: Seq<char>)
    requires
        forall|j: int| !marker_at(t, j),
    ensures
        subst_home(t, h) == t,
    decreases t.len(),
{
    if t.len() == 0 {
    } else {
        let rest = t.skip(1);
        assert forall|j: int| !marker_at(rest, j) by {
            if 0 <= j {
                assert(!marker_at(t, j + 1));
            }
        }
        lemma_subst_home_none(rest, h);
        assert(!marker_at(t, 0));
        assert(seq![t[0]] + rest =~= t);
    }
}

/// The single-character string for a decimal digit.
fn digit_str(d: u64) -> (r: &'static str)
    requires
        d < 10,
    ensures
        r@ == seq![digit_char(d as int)],
{
    let r: &'static str = if d == 0 {
        "0"
    } else if d == 1 {
        "1"
    } else if d == 2 {
        "2"
    } else if d == 3 {
        "3"
    } else if d == 4 {
        "4"
    } else if d == 5 {
        "5"
    } else if d == 6 {
        "6"
    } else if d == 7 {
        "7"
    } else if d == 8 {
        "8"
    } else {
        "9"
    };
    proof {
        reveal_strlit("0");
        reveal_strlit("1");
        reveal_strlit("2");
        reveal_strlit("3");
        reveal_strlit("4");
        reveal_strlit("5");
        reveal_strlit("6");
        reveal_strlit("7");
        reveal_strlit("8");
        reveal_strlit("9");
        assert(r@ =~= seq![digit_char(d as int)]);
    }
    r
}

/// The decimal rendering of an unsigned value.
pub fn u64_digits(n: u64) -> (r: String)
    ensures
        r@ == digits_of(n as nat),
    decreases n,
{
    if n < 10 {
        String::from_str(digit_str(n))
    } else {
        let prefix = u64_digits(n / 10);
        let r = prefix.concat(digit_str(n % 10));
        proof {
            assert(r@ =~= digits_of(n as nat));
        }
        r
    }
}

/// The decimal rendering of a signed value.
pub fn i64_digits(n: i64) -> (r: String)
    ensures
        r@ == signed_digits_of(n as int),
{
    if n >= 0 {
        u64_digits(n as u64)
    } else {
        let magnitude: u64 = (-(n as i128)) as u64;
        let rendered = u64_digits(magnitude);
        let r = String::from_str("-").concat(rendered.as_str());
        proof {
            reveal_strlit("-");
            assert(r@ =~= signed_digits_of(n as int));
        }
        r
    }
}

/// Whether `s` holds the character `c`.
pub fn str_contains_char(s: &str, c: char) -> (r: bool)
    ensures
        r == s@.contains(c),
{
    let n: usize = s.unicode_len();
    let mut i: usize = 0;
    while i < n
        invariant
            i <= n,
            n == s@.len(),
            forall|j: int| 0 <= j < i ==> s@[j] != c,
        decreases n - i,
    {
        if s.get_char(i) == c {
            assert(s@.contains(c));
            return true;
        }
        i = i + 1;
    }
    assert(!s@.contains(c));
    false
}

/// `template` with its first home-directory marker replaced by `home`.
pub fn substitute_home(template: &str, home: &str) -> (r: String)
    ensures
        r@ == subst_home(template@, home@),
        !has_marker(template@) ==> r@ == template@,
{
    let n: usize = template.unicode_len();
    let mut i: usize = 0;
    while n > 0 && i < n - 1
        invariant
            i <= n,
            n == template@.len(),
            forall|j: int| 0 <= j < i ==> !marker_at(template@, j),
        decreases n - i,
    {
        if template.get_char(i) == '{' && template.get_char(i + 1) == '}' {
            let pre = template.substring_char(0, i);
            let post = template.substring_char(i + 2, n);
            let r = String::from_str(pre).concat(home).concat(post);
            proof {
                assert(marker_at(template@, i as int));
                assert(has_marker(template@));
                lemma_subst_home_at(template@, home@, i as int);
            }
            return r;
        }
        i = i + 1;
    }
    proof {
        assert forall|j: int| !marker_at(template@, j) by {
            if 0 <= j && j + 2 <= template@.len() {
                assert(j < i + 1);
            }
        }
        lemma_subst_home_none(template@, home@);
    }
    String::from_str(template)
}

} // verus!
