//! Decimal text of integers, parsing of decimal integers, and the small
//! string searches the bar needs.
use vstd::prelude::*;

verus! {

/// The ASCII digit for `d`, for `0 <= d < 10`.
pub open spec fn digit_char(d: nat) -> char {
    if d == 0 {
        '0'
    } else if d == 1 {
        '1'
    } else if d == 2 {
        '2'
    } else if d == 3 {
        '3'
    } else if d == 4 {
        '4'
    } else if d == 5 {
        '5'
    } else if d == 6 {
        '6'
    } else if d == 7 {
        '7'
    } else if d == 8 {
        '8'
    } else {
        '9'
    }
}

/// Decimal digits of `n`, most significant first, without leading zeros.
pub open spec fn nat_decimal(n: nat) -> Seq<char>
    decreases n,
{
    if n < 10 {
        seq![digit_char(n)]
    } else {
        nat_decimal(n / 10).push(digit_char(n % 10))
    }
}

/// Decimal text of `i`, as `i.to_string()` writes it: a `-` before the
/// digits of a negative number.
pub open spec fn int_decimal(i: int) -> Seq<char> {
    if i < 0 {
        seq!['-'] + nat_decimal((-i) as nat)
    } else {
        nat_decimal(i as nat)
    }
}

fn digit_str(d: u64) -> (r: &'static str)
    requires
        d < 10,
    ensures
        r@ == seq![digit_char(d as nat)],
{
    if d == 0 {
        proof { reveal_strlit("0"); }
        "0"
    } else if d == 1 {
        proof { reveal_strlit("1"); }
        "1"
    } else if d == 2 {
        proof { reveal_strlit("2"); }
        "2"
    } else if d == 3 {
        proof { reveal_strlit("3"); }
        "3"
    } else if d == 4 {
        proof { reveal_strlit("4"); }
        "4"
    } else if d == 5 {
        proof { reveal_strlit("5"); }
        "5"
    } else if d == 6 {
        proof { reveal_strlit("6"); }
        "6"
    } else if d == 7 {
        proof { reveal_strlit("7"); }
        "7"
    } else if d == 8 {
        proof { reveal_strlit("8"); }
        "8"
    } else {
        proof { reveal_strlit("9"); }
        "9"
    }
}

fn push_decimal(out: &mut String, n: u64)
    ensures
        final(out)@ == old(out)@ + nat_decimal(n as nat),
    decreases n,
{
    if n >= 10 {
        push_decimal(out, n / 10);
    }
    out.append(digit_str(n % 10));
    proof {
        assert(n >= 10 ==> nat_decimal(n as nat) == nat_decimal((n / 10) as nat).push(
            digit_char((n % 10) as nat),
        ));
    }
}

/// The decimal text of `value`, as `value.to_string()` writes it.
pub fn decimal_string(value: i32) -> (s: String)
    ensures
        s@ == int_decimal(value as int),
{
    let mut out = String::new();
    if value < 0 {
        proof { reveal_strlit("-"); }
        out.append("-");
        let magnitude: u64 = (0i64 - (value as i64)) as u64;
        push_decimal(&mut out, magnitude);
    } else {
        push_decimal(&mut out, value as u64);
    }
    out
}


/// Whether `c` is an ASCII decimal digit.
pub open spec fn is_ascii_digit(c: char) -> bool {
    '0' <= c && c <= '9'
}

/// The value of the ASCII digit `c`.
pub open spec fn digit_value(c: char) -> int {
    (c as int) - ('0' as int)
}

/// The value of a run of decimal digits, most significant first.
pub open spec fn digits_value(s: Seq<char>) -> int
    decreases s.len(),
{
    if s.len() == 0 {
        0
    } else {
        digits_value(s.drop_last()) * 10 + digit_value(s.last())
    }
}

pub open spec fn all_ascii_digits(s: Seq<char>) -> bool {
    forall|i: int| 0 <= i < s.len() ==> is_ascii_digit(#[trigger] s[i])
}

/// The digits after an optional leading sign.
pub open spec fn unsigned_part(s: Seq<char>) -> Seq<char> {
    if s.len() > 0 && (s[0] == '-' || s[0] == '+') {
        s.drop_first()
    } else {
        s
    }
}

/// What `str::parse::<i32>` gives for `s`: an optional `+` or `-`, then at
/// least one ASCII digit and nothing else, and a value that fits in `i32`.
pub open spec fn parsed_i32(s: Seq<char>) -> Option<i32> {
    let body = unsigned_part(s);
    let magnitude = digits_value(body);
    let value = if s.len() > 0 && s[0] == '-' { -magnitude } else { magnitude };
    if body.len() == 0 || !all_ascii_digits(body) {
        None
    } else if i32::MIN <= value <= i32::MAX {
        Some(value as i32)
    } else {
        None
    }
}

proof fn lemma_digits_value_nonneg(s: Seq<char>)
    requires
        all_ascii_digits(s),
    ensures
        digits_value(s) >= 0,
    decreases s.len(),
{
    if s.len() > 0 {
        assert(all_ascii_digits(s.drop_last())) by {
            assert forall|i: int| 0 <= i < s.drop_last().len() implies is_ascii_digit(
                #[trigger] s.drop_last()[i],
            ) by {
                assert(s.drop_last()[i] == s[i]);
            }
        }
        lemma_digits_value_nonneg(s.drop_last());
        assert(is_ascii_digit(s[s.len() - 1]));
    }
}

/// A longer run of digits is worth at least as much as its prefix.
proof fn lemma_digits_value_prefix(s: Seq<char>, i: int)
    requires
        0 <= i <= s.len(),
        all_ascii_digits(s),
    ensures
        digits_value(s) >= digits_value(s.take(i)),
    decreases s.len() - i,
{
    if i < s.len() {
        let t = s.take(i + 1);
        assert(t.drop_last() =~= s.take(i));
        assert(all_ascii_digits(t)) by {
            assert forall|k: int| 0 <= k < t.len() implies is_ascii_digit(#[trigger] t[k]) by {
                assert(t[k] == s[k]);
            }
        }
        assert(all_ascii_digits(s.take(i))) by {
            assert forall|k: int| 0 <= k < s.take(i).len() implies is_ascii_digit(
                #[trigger] s.take(i)[k],
            ) by {
                assert(s.take(i)[k] == s[k]);
            }
        }
        lemma_digits_value_nonneg(s.take(i));
        assert(is_ascii_digit(t.last()));
        assert(digits_value(t) >= digits_value(s.take(i)));
        lemma_digits_value_prefix(s, i + 1);
    } else {
        assert(s.take(i) =~= s);
    }
}

fn char_digit(c: char) -> (d: Option<u64>)
    ensures
        d matches Some(v) ==> is_ascii_digit(c) && v as int == digit_value(c),
        d is None ==> !is_ascii_digit(c),
{
    let code: u32 = c as u32;
    if 48 <= code && code <= 57 {
        Some((code - 48) as u64)
    } else {
        None
    }
}

/// `s.parse::<i32>().ok()`.
pub fn parse_i32(s: &str) -> (r: Option<i32>)
    ensures
        r == parsed_i32(s@),
{
    let n = s.unicode_len();
    if n == 0 {
        return None;
    }
    let first = s.get_char(0);
    let negative = first == '-';
    let start: usize = if first == '-' || first == '+' { 1 } else { 0 };
    let ghost body = unsigned_part(s@);
    assert(body =~= s@.subrange(start as int, n as int));
    if start == n {
        return None;
    }
    let mut acc: u64 = 0;
    let mut i: usize = start;
    while i < n
        invariant
            start <= i <= n,
            n == s@.len(),
            body == s@.subrange(start as int, n as int),
            body == unsigned_part(s@),
            start < n,
            negative == (s@[0] == '-'),
            all_ascii_digits(body.take(i - start)),
            acc as int == digits_value(body.take(i - start)),
            acc <= 2147483648,
        decreases n - i,
    {
        let c = s.get_char(i);
        let ghost k: int = i - start;
        assert(body[k] == c);
        match char_digit(c) {
            None => {
                assert(!all_ascii_digits(body));
                return None;
            },
            Some(d) => {
                let ghost prefix = body.take(k + 1);
                assert(prefix.drop_last() =~= body.take(k));
                assert(all_ascii_digits(prefix)) by {
                    assert forall|j: int| 0 <= j < prefix.len() implies is_ascii_digit(
                        #[trigger] prefix[j],
                    ) by {
                        if j < k {
                            assert(prefix[j] == body.take(k)[j]);
                        }
                    }
                }
                acc = acc * 10 + d;
                if acc > 2147483648 {
                    proof {
                        if all_ascii_digits(body) {
                            lemma_digits_value_prefix(body, k + 1);
                        }
                    }
                    return None;
                }
                i = i + 1;
            },
        }
    }
    assert(body.take(n - start) =~= body);
    if negative {
        Some((0i64 - (acc as i64)) as i32)
    } else if acc <= 2147483647 {
        Some(acc as i32)
    } else {
        None
    }
}


/// Whether `needle` occurs in `hay` as a run of consecutive characters
/// (an empty `needle` occurs everywhere).
pub open spec fn occurs_in(hay: Seq<char>, needle: Seq<char>) -> bool {
    exists|i: int|
        0 <= i && i + needle.len() <= hay.len() && #[trigger] hay.subrange(i, i + needle.len())
            == needle
}

/// `hay.contains(needle)` for a string needle.
pub fn str_contains(hay: &str, needle: &str) -> (r: bool)
    ensures
        r == occurs_in(hay@, needle@),
{
    let n = hay.unicode_len();
    let m = needle.unicode_len();
    if m > n {
        return false;
    }
    if m == 0 {
        assert(hay@.subrange(0int, 0int + needle@.len()) =~= needle@);
        return true;
    }
    let mut i: usize = 0;
    while i <= n - m
        invariant
            n == hay@.len(),
            m == needle@.len(),
            1 <= m <= n,
            i <= n - m + 1,
            forall|k: int| 0 <= k < i ==> #[trigger] hay@.subrange(k, k + m) != needle@,
        decreases n - m + 1 - i,
    {
        let mut j: usize = 0;
        let mut matched = true;
        while j < m
            invariant
                n == hay@.len(),
                m == needle@.len(),
                i + m <= n,
                j <= m,
                matched ==> forall|t: int| 0 <= t < j ==> hay@[i + t] == needle@[t],
                !matched ==> hay@.subrange(i as int, i + m) != needle@,
            decreases m - j,
        {
            if matched && hay.get_char(i + j) != needle.get_char(j) {
                matched = false;
                assert(hay@.subrange(i as int, i + m)[j as int] == hay@[i + j]);
            }
            j = j + 1;
        }
        if matched {
            assert(hay@.subrange(i as int, i + m) =~= needle@);
            return true;
        }
        i = i + 1;
    }
    proof {
        assert forall|k: int| 0 <= k && k + needle@.len() <= hay@.len() implies #[trigger] hay@.subrange(
            k,
            k + needle@.len(),
        ) != needle@ by {
            assert(k < i);
        }
    }
    false
}

/// The characters after the last `sep` in `s`, or all of `s` when it holds
/// no `sep`: the last item of `s.split(sep)`.
pub open spec fn after_last(s: Seq<char>, sep: char) -> Seq<char>
    decreases s.len(),
{
    if s.len() == 0 {
        s
    } else if s.last() == sep {
        Seq::empty()
    } else {
        after_last(s.drop_last(), sep).push(s.last())
    }
}

/// `s.split(sep).last()`, which always exists.
pub fn last_segment<'a>(s: &'a str, sep: char) -> (r: &'a str)
    ensures
        r@ == after_last(s@, sep),
{
    let n = s.unicode_len();
    let mut i: usize = n;
    assert(s@.take(n as int) =~= s@);
    assert(after_last(s@, sep) =~= after_last(s@, sep) + s@.subrange(n as int, n as int));
    while i > 0 && s.get_char(i - 1) != sep
        invariant
            n == s@.len(),
            i <= n,
            after_last(s@, sep) == after_last(s@.take(i as int), sep) + s@.subrange(
                i as int,
                n as int,
            ),
        decreases i,
    {
        let ghost t = s@.take(i as int);
        assert(t.drop_last() =~= s@.take(i - 1));
        assert(t.last() == s@[i - 1]);
        assert(after_last(t, sep) == after_last(s@.take(i - 1), sep).push(s@[i - 1]));
        assert(after_last(s@.take(i - 1), sep).push(s@[i - 1]) + s@.subrange(i as int, n as int)
            =~= after_last(s@.take(i - 1), sep) + s@.subrange(i - 1, n as int));
        i = i - 1;
    }
    proof {
        let t = s@.take(i as int);
        if i > 0 {
            assert(t.last() == s@[i - 1]);
        }
        assert(after_last(t, sep) =~= Seq::<char>::empty());
        assert(after_last(s@, sep) =~= s@.subrange(i as int, n as int));
    }
    s.substring_char(i, n)
}


proof fn lemma_nat_decimal_digits(n: nat)
    ensures
        nat_decimal(n).len() >= 1,
        all_ascii_digits(nat_decimal(n)),
        digits_value(nat_decimal(n)) == n,
    decreases n,
{
    if n < 10 {
        let s = nat_decimal(n);
        assert(s.drop_last() =~= Seq::<char>::empty());
        assert(digits_value(Seq::<char>::empty()) == 0);
        assert(digits_value(s) == digit_value(s.last()));
    } else {
        lemma_nat_decimal_digits(n / 10);
        let prefix = nat_decimal(n / 10);
        let s = nat_decimal(n);
        assert(s.drop_last() =~= prefix);
        assert(all_ascii_digits(s)) by {
            assert forall|i: int| 0 <= i < s.len() implies is_ascii_digit(#[trigger] s[i]) by {
                if i < prefix.len() {
                    assert(s[i] == prefix[i]);
                }
            }
        }
        assert(digits_value(s) == (n / 10) * 10 + (n % 10));
    }
}

/// Parsing the decimal text of an `i32` gives the number back:
/// `x.to_string().parse::<i32>() == Ok(x)`.
pub proof fn law_decimal_roundtrip(x: i32)
    ensures
        parsed_i32(int_decimal(x as int)) == Some(x),
{
    if x < 0 {
        let digits = nat_decimal((-x) as nat);
        lemma_nat_decimal_digits((-x) as nat);
        let s = int_decimal(x as int);
        assert(s[0] == '-');
        assert(unsigned_part(s) =~= digits);
    } else {
        let digits = nat_decimal(x as nat);
        lemma_nat_decimal_digits(x as nat);
        assert(is_ascii_digit(digits[0]));
        assert(unsigned_part(digits) == digits);
    }
}

proof fn lemma_after_last_absent(s: Seq<char>, sep: char)
    requires
        !s.contains(sep),
    ensures
        after_last(s, sep) == s,
    decreases s.len(),
{
    if s.len() > 0 {
        assert(s.last() == s[s.len() - 1]);
        assert(!s.drop_last().contains(sep)) by {
            if s.drop_last().contains(sep) {
                let k = choose|k: int| 0 <= k < s.drop_last().len() && s.drop_last()[k] == sep;
                assert(s[k] == sep);
            }
        }
        lemma_after_last_absent(s.drop_last(), sep);
        assert(s.drop_last().push(s.last()) =~= s);
    }
}

/// The decimal text of a number holds no character other than digits and
/// a leading `-`.
pub proof fn lemma_int_decimal_chars(x: int)
    ensures
        forall|i: int|
            0 <= i < int_decimal(x).len() ==> is_ascii_digit(#[trigger] int_decimal(x)[i]) || (i
                == 0 && int_decimal(x)[i] == '-'),
{
    if x < 0 {
        lemma_nat_decimal_digits((-x) as nat);
        let digits = nat_decimal((-x) as nat);
        assert forall|i: int|
            0 <= i < int_decimal(x).len() implies is_ascii_digit(#[trigger] int_decimal(x)[i]) || (i
            == 0 && int_decimal(x)[i] == '-') by {
            if i > 0 {
                assert(int_decimal(x)[i] == digits[i - 1]);
            }
        }
    } else {
        lemma_nat_decimal_digits(x as nat);
    }
}

/// A decimal text is its own last segment for any separator that is not a
/// digit or `-`.
pub proof fn lemma_after_last_decimal(x: int, sep: char)
    requires
        !is_ascii_digit(sep),
        sep != '-',
    ensures
        after_last(int_decimal(x), sep) == int_decimal(x),
{
    lemma_int_decimal_chars(x);
    let s = int_decimal(x);
    assert(!s.contains(sep)) by {
        if s.contains(sep) {
            let k = choose|k: int| 0 <= k < s.len() && s[k] == sep;
            assert(is_ascii_digit(s[k]) || s[k] == '-');
        }
    }
    lemma_after_last_absent(s, sep);
}


/// `needle` does not occur in `hay` when, at some position `p` of the
/// needle, no window of `hay` matches it.
pub proof fn lemma_no_occurrence(hay: Seq<char>, needle: Seq<char>, p: int)
    requires
        0 <= p < needle.len(),
        forall|j: int| p <= j && j - p + needle.len() <= hay.len() ==> #[trigger] hay[j] != needle[p],
    ensures
        !occurs_in(hay, needle),
{
    assert forall|i: int|
        0 <= i && i + needle.len() <= hay.len() implies #[trigger] hay.subrange(i, i + needle.len())
        != needle by {
        assert(hay.subrange(i, i + needle.len())[p] == hay[i + p]);
        assert(hay[i + p] != needle[p]);
    }
}

/// The last segment of `s` after `sep` is a suffix of `s` that holds no
/// `sep`, and it is either all of `s` or stands right after a `sep`.
pub proof fn law_after_last_is_last_segment(s: Seq<char>, sep: char)
    ensures
        after_last(s, sep).len() <= s.len(),
        after_last(s, sep) == s.subrange(s.len() - after_last(s, sep).len(), s.len() as int),
        !after_last(s, sep).contains(sep),
        after_last(s, sep).len() == s.len() || s[s.len() - after_last(s, sep).len() - 1] == sep,
    decreases s.len(),
{
    if s.len() > 0 {
        let r = after_last(s, sep);
        if s.last() == sep {
            assert(r =~= s.subrange(s.len() as int, s.len() as int));
        } else {
            law_after_last_is_last_segment(s.drop_last(), sep);
            let q = after_last(s.drop_last(), sep);
            assert(r == q.push(s.last()));
            assert(r =~= s.subrange(s.len() - r.len(), s.len() as int));
            assert(!r.contains(sep)) by {
                if r.contains(sep) {
                    let k = choose|k: int| 0 <= k < r.len() && r[k] == sep;
                    if k < q.len() {
                        assert(q[k] == r[k]);
                    }
                }
            }
            if r.len() < s.len() {
                assert(s[s.len() - r.len() - 1] == s.drop_last()[s.drop_last().len() - q.len() - 1]);
            }
        }
    }
}


proof fn lemma_nat_decimal_leading(n: nat)
    ensures
        nat_decimal(n)[0] == '0' <==> n == 0,
        nat_decimal(n).len() >= 1,
    decreases n,
{
    if n >= 10 {
        lemma_nat_decimal_leading(n / 10);
        assert(nat_decimal(n)[0] == nat_decimal(n / 10)[0]);
    }
}

/// The decimal text of `x`: a `-` exactly when `x` is negative, then ASCII
/// digits with no leading zero (unless the number is 0) whose value is the
/// magnitude of `x`.
pub proof fn law_decimal_text(x: int)
    ensures
        ({
            let t = int_decimal(x);
            let digits = if x < 0 { t.drop_first() } else { t };
            &&& t.len() >= 1
            &&& (t[0] == '-' <==> x < 0)
            &&& digits.len() >= 1
            &&& all_ascii_digits(digits)
            &&& (digits[0] == '0' <==> x == 0)
            &&& digits_value(digits) == (if x < 0 { -x } else { x })
        }),
{
    let m: nat = (if x < 0 { -x } else { x }) as nat;
    lemma_nat_decimal_digits(m);
    lemma_nat_decimal_leading(m);
    let t = int_decimal(x);
    if x < 0 {
        assert(t.drop_first() =~= nat_decimal(m));
    } else {
        assert(is_ascii_digit(t[0]));
    }
}

} // verus!
