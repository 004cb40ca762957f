use vstd::prelude::*;

verus! {

pub open spec fn is_digit(c: char) -> bool {
    '0' <= c && c <= '9'
}

pub open spec fn is_sign(c: char) -> bool {
    c == '+' || c == '-'
}

/// One or more decimal digits and nothing else.
pub open spec fn all_digits(s: Seq<char>) -> bool {
    s.len() > 0 && forall|i: int| 0 <= i < s.len() ==> is_digit(#[trigger] s[i])
}

/// The text after an optional leading sign.
pub open spec fn unsigned_part(s: Seq<char>) -> Seq<char> {
    if s.len() > 0 && is_sign(s[0]) {
        s.drop_first()
    } else {
        s
    }
}

/// Integer grammar: optional sign, then digits.
pub open spec fn is_integer_literal(s: Seq<char>) -> bool {
    all_digits(unsigned_part(s))
}

/// The digits, a decimal point at `k`, then digits.
pub open spec fn is_decimal_at(u: Seq<char>, k: int) -> bool {
    0 < k < u.len() && u[k] == '.' && all_digits(u.subrange(0, k)) && all_digits(
        u.subrange(k + 1, u.len() as int),
    )
}

/// Floating-point grammar: optional sign, digits, decimal point, digits.
pub open spec fn is_float_literal(s: Seq<char>) -> bool {
    exists|k: int| is_decimal_at(unsigned_part(s), k)
}

/// `s` spells `lower` with each letter in either case; `upper` is `lower` in
/// capitals.
pub open spec fn spells_either_case(s: Seq<char>, lower: Seq<char>, upper: Seq<char>) -> bool {
    s.len() == lower.len() && lower.len() == upper.len() && forall|i: int|
        0 <= i < s.len() ==> (#[trigger] s[i] == lower[i] || s[i] == upper[i])
}

/// Boolean literals: `true` or `false`, in any letter case. `0` and `1` are
/// integers, not booleans.
pub open spec fn is_boolean_literal(s: Seq<char>) -> bool {
    spells_either_case(s, seq!['t', 'r', 'u', 'e'], seq!['T', 'R', 'U', 'E'])
        || spells_either_case(s, seq!['f', 'a', 'l', 's', 'e'], seq!['F', 'A', 'L', 'S', 'E'])
}

pub open spec fn digit_value(c: char) -> int {
    c as int - '0' as int
}

/// ISO 8601 calendar date `YYYY-MM-DD`, with month 01 to 12 and day 01 to 31.
pub open spec fn is_date_literal(s: Seq<char>) -> bool {
    &&& s.len() == 10
    &&& is_digit(s[0]) && is_digit(s[1]) && is_digit(s[2]) && is_digit(s[3])
    &&& s[4] == '-'
    &&& is_digit(s[5]) && is_digit(s[6])
    &&& s[7] == '-'
    &&& is_digit(s[8]) && is_digit(s[9])
    &&& 1 <= 10 * digit_value(s[5]) + digit_value(s[6]) <= 12
    &&& 1 <= 10 * digit_value(s[8]) + digit_value(s[9]) <= 31
}

pub fn is_digit_char(c: char) -> (r: bool)
    ensures
        r == is_digit(c),
{
    '0' <= c && c <= '9'
}

/// Whether `s[from..]` is non-empty and all digits.
fn digits_from(s: &Vec<char>, from: usize) -> (r: bool)
    requires
        from <= s.len(),
    ensures
        r == all_digits(s@.subrange(from as int, s@.len() as int)),
{
    if from >= s.len() {
        return false;
    }
    let mut i: usize = from;
    while i < s.len()
        invariant
            from <= i <= s.len(),
            forall|j: int| from <= j < i ==> is_digit(#[trigger] s@[j]),
        decreases s.len() - i,
    {
        if !is_digit_char(s[i]) {
            assert(s@.subrange(from as int, s@.len() as int)[i - from] == s@[i as int]);
            return false;
        }
        i = i + 1;
    }
    assert forall|j: int| 0 <= j < s@.len() - from implies is_digit(
        #[trigger] s@.subrange(from as int, s@.len() as int)[j],
    ) by {
        assert(s@.subrange(from as int, s@.len() as int)[j] == s@[j + from]);
    }
    true
}

/// Where the digits after an optional sign start.
fn sign_len(s: &Vec<char>) -> (k: usize)
    ensures
        k <= s.len(),
        s@.subrange(k as int, s@.len() as int) == unsigned_part(s@),
{
    if s.len() > 0 && (s[0] == '+' || s[0] == '-') {
        assert(s@.subrange(1, s@.len() as int) =~= s@.drop_first());
        1
    } else {
        assert(s@.subrange(0, s@.len() as int) =~= s@);
        0
    }
}

pub fn is_integer_text(s: &Vec<char>) -> (r: bool)
    ensures
        r == is_integer_literal(s@),
{
    let k = sign_len(s);
    digits_from(s, k)
}

pub fn is_float_text(s: &Vec<char>) -> (r: bool)
    ensures
        r == is_float_literal(s@),
{
    let k0 = sign_len(s);
    let ghost u = unsigned_part(s@);
    let mut i: usize = k0;
    while i < s.len() && is_digit_char(s[i])
        invariant
            k0 <= i <= s.len(),
            forall|j: int| k0 <= j < i ==> is_digit(#[trigger] s@[j]),
        decreases s.len() - i,
    {
        i = i + 1;
    }
    let ghost k: int = i - k0;
    assert forall|j: int| 0 <= j < k implies is_digit(#[trigger] u[j]) by {
        assert(u[j] == s@[j + k0]);
    }
    assert(k < u.len() ==> !is_digit(u[k])) by {
        if k < u.len() {
            assert(u[k] == s@[i as int]);
        }
    }
    let r = i > k0 && i < s.len() && s[i] == '.' && digits_from(s, i + 1);
    proof {
        if r {
            assert(u.subrange(0, k) =~= s@.subrange(k0 as int, i as int));
            assert(u.subrange(k + 1, u.len() as int) =~= s@.subrange(i + 1, s@.len() as int));
            assert(is_decimal_at(u, k));
        }
        if is_float_literal(s@) {
            let w = choose|w: int| is_decimal_at(u, w);
            if w < k {
                assert(u.subrange(0, k)[w] == u[w]);
            }
            if k < w {
                assert(u.subrange(0, w)[k] == u[k]);
            }
            assert(w == k);
            assert(u.subrange(k + 1, u.len() as int) =~= s@.subrange(i + 1, s@.len() as int));
        }
    }
    r
}

fn spells_either_case_exec(s: &Vec<char>, lower: &[char], upper: &[char]) -> (r: bool)
    requires
        lower@.len() == upper@.len(),
    ensures
        r == spells_either_case(s@, lower@, upper@),
{
    if s.len() != lower.len() {
        return false;
    }
    let mut i: usize = 0;
    while i < s.len()
        invariant
            s@.len() == lower@.len() == upper@.len(),
            i <= s.len(),
            forall|j: int| 0 <= j < i ==> (#[trigger] s@[j] == lower@[j] || s@[j] == upper@[j]),
        decreases s.len() - i,
    {
        if s[i] != lower[i] && s[i] != upper[i] {
            return false;
        }
        i = i + 1;
    }
    true
}

pub fn is_boolean_text(s: &Vec<char>) -> (r: bool)
    ensures
        r == is_boolean_literal(s@),
{
    let t_lower: [char; 4] = ['t', 'r', 'u', 'e'];
    let t_upper: [char; 4] = ['T', 'R', 'U', 'E'];
    let f_lower: [char; 5] = ['f', 'a', 'l', 's', 'e'];
    let f_upper: [char; 5] = ['F', 'A', 'L', 'S', 'E'];
    assert(t_lower@ =~= seq!['t', 'r', 'u', 'e']);
    assert(t_upper@ =~= seq!['T', 'R', 'U', 'E']);
    assert(f_lower@ =~= seq!['f', 'a', 'l', 's', 'e']);
    assert(f_upper@ =~= seq!['F', 'A', 'L', 'S', 'E']);
    spells_either_case_exec(s, t_lower.as_slice(), t_upper.as_slice())
        || spells_either_case_exec(s, f_lower.as_slice(), f_upper.as_slice())
}

fn digit_value_exec(c: char) -> (r: u32)
    requires
        is_digit(c),
    ensures
        r == digit_value(c),
        r <= 9,
{
    (c as u32) - ('0' as u32)
}

pub fn is_date_text(s: &Vec<char>) -> (r: bool)
    ensures
        r == is_date_literal(s@),
{
    if s.len() != 10 {
        return false;
    }
    if !(is_digit_char(s[0]) && is_digit_char(s[1]) && is_digit_char(s[2]) && is_digit_char(s[3])
        && s[4] == '-' && is_digit_char(s[5]) && is_digit_char(s[6]) && s[7] == '-'
        && is_digit_char(s[8]) && is_digit_char(s[9])) {
        return false;
    }
    let month = 10 * digit_value_exec(s[5]) + digit_value_exec(s[6]);
    let day = 10 * digit_value_exec(s[8]) + digit_value_exec(s[9]);
    1 <= month && month <= 12 && 1 <= day && day <= 31
}

} // verus!

verus! {

/// A boolean literal is neither a number nor a date.
pub proof fn lemma_boolean_excludes(s: Seq<char>)
    requires
        is_boolean_literal(s),
    ensures
        !is_integer_literal(s),
        !is_float_literal(s),
        !is_date_literal(s),
{
    let u = unsigned_part(s);
    assert(u == s);
    assert(!is_digit(s[0]));
    if is_float_literal(s) {
        let k = choose|k: int| is_decimal_at(u, k);
        assert(u.subrange(0, k)[0] == u[0]);
    }
}

/// A date literal is not a number.
pub proof fn lemma_date_excludes(s: Seq<char>)
    requires
        is_date_literal(s),
    ensures
        !is_integer_literal(s),
        !is_float_literal(s),
{
    let u = unsigned_part(s);
    assert(u == s);
    assert(!is_digit(u[4]));
    if is_float_literal(s) {
        let k = choose|k: int| is_decimal_at(u, k);
        if k > 4 {
            assert(u.subrange(0, k)[4] == u[4]);
        } else {
            assert(u.subrange(k + 1, u.len() as int)[3 - k] == u[4]);
        }
    }
}

} // verus!
