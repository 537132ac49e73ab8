//! Local validation rules: the registration password policy and the amount
//! buffer parser.
//!
//! Amounts are fixed-point: a buffer such as `"4.50"` becomes 450 cents. A
//! buffer that does not match the decimal grammar (or whose value does not
//! fit) is not rejected: it deliberately counts as zero, so a submission
//! with a bad amount stores a zero-amount record rather than failing.

use vstd::prelude::*;

verus! {

/// Whether `c` has the Unicode `Uppercase` property, as `char::is_uppercase`
/// decides it.
pub uninterp spec fn unicode_uppercase(c: char) -> bool;

/// Relies on char::is_uppercase: true exactly for characters with the
/// Unicode Uppercase property, decided by the character alone. Of the ASCII
/// range the documentation is plain: exactly `A` through `Z` are uppercase.
#[verifier::external_body]
fn char_is_uppercase(c: char) -> (r: bool)
    ensures
        r == unicode_uppercase(c),
        65 <= (c as int) && (c as int) <= 90 ==> r,
        (c as int) < 128 && !(65 <= (c as int) && (c as int) <= 90) ==> !r,
{
    c.is_uppercase()
}

/// An ASCII decimal digit.
pub open spec fn digit_char(c: char) -> bool {
    48 <= (c as int) && (c as int) <= 57
}

/// Some character of `s` is uppercase.
pub open spec fn has_uppercase(s: Seq<char>) -> bool {
    exists|i: int| 0 <= i < s.len() && unicode_uppercase(s[i])
}

/// Some character of `s` is an ASCII digit.
pub open spec fn has_digit(s: Seq<char>) -> bool {
    exists|i: int| 0 <= i < s.len() && digit_char(s[i])
}

/// How many bytes the UTF-8 encoding of `c` takes.
pub open spec fn char_utf8_len(c: char) -> int {
    if (c as u32) < 0x80 {
        1
    } else if (c as u32) < 0x800 {
        2
    } else if (c as u32) < 0x10000 {
        3
    } else {
        4
    }
}

/// The length of `s` in bytes of its UTF-8 encoding, which is what
/// `str::len` reports.
pub open spec fn byte_len(s: Seq<char>) -> int
    decreases s.len(),
{
    if s.len() == 0 {
        0
    } else {
        byte_len(s.drop_last()) + char_utf8_len(s.last())
    }
}

/// The password policy: at least 6 bytes, at least one uppercase character,
/// at least one ASCII digit.
pub open spec fn password_ok(p: Seq<char>) -> bool {
    &&& byte_len(p) >= 6
    &&& has_uppercase(p)
    &&& has_digit(p)
}

proof fn lemma_byte_len_take_le(s: Seq<char>, i: int)
    requires
        0 <= i <= s.len(),
    ensures
        byte_len(s.take(i)) <= byte_len(s),
    decreases s.len() - i,
{
    if i < s.len() {
        assert(s.take(i + 1).drop_last() =~= s.take(i));
        assert(s.take(i + 1).last() == s[i]);
        lemma_byte_len_take_le(s, i + 1);
    } else {
        assert(s.take(i) =~= s);
    }
}

/// Whether the UTF-8 byte length of `p` reaches 6, counted with an early
/// exit so the tally never grows past 9.
fn byte_len_at_least_6(p: &str) -> (r: bool)
    ensures
        r == (byte_len(p@) >= 6),
{
    let n = p.unicode_len();
    let mut i: usize = 0;
    let mut acc: usize = 0;
    while i < n && acc < 6
        invariant
            i <= n,
            n == p@.len(),
            acc == byte_len(p@.take(i as int)),
            acc <= 9,
        decreases n - i,
    {
        let c = p.get_char(i);
        let u = c as u32;
        let w: usize = if u < 0x80 {
            1
        } else if u < 0x800 {
            2
        } else if u < 0x10000 {
            3
        } else {
            4
        };
        proof {
            assert(p@.take(i + 1).drop_last() =~= p@.take(i as int));
            assert(p@.take(i + 1).last() == p@[i as int]);
        }
        acc = acc + w;
        i = i + 1;
    }
    proof {
        if acc >= 6 {
            lemma_byte_len_take_le(p@, i as int);
        } else {
            assert(p@.take(i as int) =~= p@);
        }
    }
    acc >= 6
}

fn contains_uppercase(p: &str) -> (r: bool)
    ensures
        r == has_uppercase(p@),
{
    let n = p.unicode_len();
    let mut i: usize = 0;
    while i < n
        invariant
            i <= n,
            n == p@.len(),
            forall|k: int| 0 <= k < i ==> !unicode_uppercase(p@[k]),
        decreases n - i,
    {
        if char_is_uppercase(p.get_char(i)) {
            return true;
        }
        i = i + 1;
    }
    false
}

fn contains_digit(p: &str) -> (r: bool)
    ensures
        r == has_digit(p@),
{
    let n = p.unicode_len();
    let mut i: usize = 0;
    while i < n
        invariant
            i <= n,
            n == p@.len(),
            forall|k: int| 0 <= k < i ==> !digit_char(p@[k]),
        decreases n - i,
    {
        let c = p.get_char(i);
        if ('0' <= c && c <= '9') {
            return true;
        }
        i = i + 1;
    }
    false
}

/// The message for the first rule a rejected password fails, checked in
/// this order: length, uppercase, digit.
pub open spec fn password_error(p: Seq<char>) -> Seq<char> {
    if byte_len(p) < 6 {
        "Password must be at least 6 characters"@
    } else if !has_uppercase(p) {
        "Password must contain at least one uppercase letter"@
    } else {
        "Password must contain at least one number"@
    }
}

/// Check a registration password against the policy. Returns `None` when the
/// password passes, else the first failing rule's message, checked in this
/// order: length, uppercase, digit.
pub fn validate_password(password: &String) -> (r: Option<String>)
    ensures
        r is None <==> password_ok(password@),
        !password_ok(password@) ==> (r matches Some(m)
            && m@ == password_error(password@)),
        byte_len(password@) < 6 ==> (r matches Some(m)
            && m@ == "Password must be at least 6 characters"@),
        byte_len(password@) >= 6 && !has_uppercase(password@) ==> (r matches Some(m)
            && m@ == "Password must contain at least one uppercase letter"@),
        byte_len(password@) >= 6 && has_uppercase(password@) && !has_digit(password@)
            ==> (r matches Some(m)
            && m@ == "Password must contain at least one number"@),
{
    let p = password.as_str();
    if !byte_len_at_least_6(p) {
        Some("Password must be at least 6 characters".to_owned())
    } else if !contains_uppercase(p) {
        Some("Password must contain at least one uppercase letter".to_owned())
    } else if !contains_digit(p) {
        Some("Password must contain at least one number".to_owned())
    } else {
        None
    }
}

/// Every character of `s` is an ASCII digit.
pub open spec fn all_digits(s: Seq<char>) -> bool {
    forall|i: int| 0 <= i < s.len() ==> digit_char(s[i])
}

/// The number an ASCII digit string denotes, most significant digit first.
pub open spec fn digits_val(s: Seq<char>) -> int
    decreases s.len(),
{
    if s.len() == 0 {
        0
    } else {
        digits_val(s.drop_last()) * 10 + ((s.last() as u32) - 48)
    }
}

/// The index of the first `.` in `s`, or `s.len()` if there is none.
pub open spec fn dot_index(s: Seq<char>) -> int
    decreases s.len(),
{
    if s.len() == 0 {
        0
    } else if s[0] == '.' {
        0
    } else {
        1 + dot_index(s.drop_first())
    }
}

/// The digits before the first `.` (or the whole string).
pub open spec fn int_part(s: Seq<char>) -> Seq<char> {
    s.take(dot_index(s))
}

/// The digits after the first `.`, empty if there is no `.`.
pub open spec fn frac_part(s: Seq<char>) -> Seq<char> {
    if dot_index(s) < s.len() {
        s.skip(dot_index(s) + 1)
    } else {
        Seq::empty()
    }
}

/// The amount grammar: digits, optionally a `.` and at most two more
/// digits, with at least one digit in all.
pub open spec fn amount_valid(s: Seq<char>) -> bool {
    &&& all_digits(int_part(s))
    &&& all_digits(frac_part(s))
    &&& frac_part(s).len() <= 2
    &&& int_part(s).len() + frac_part(s).len() >= 1
}

/// The cents the fraction digits denote: one digit counts tens of cents.
pub open spec fn frac_cents(f: Seq<char>) -> int {
    if f.len() == 0 {
        0
    } else if f.len() == 1 {
        ((f[0] as u32) - 48) * 10
    } else {
        ((f[0] as u32) - 48) * 10 + ((f[1] as u32) - 48)
    }
}

/// The value of a grammatical amount string, in cents.
pub open spec fn amount_value(s: Seq<char>) -> int {
    digits_val(int_part(s)) * 100 + frac_cents(frac_part(s))
}

/// What the amount buffer contributes to a submitted record: the value in
/// cents, or zero when the buffer is not grammatical or the value does not
/// fit.
pub open spec fn amount_cents(s: Seq<char>) -> u64 {
    if amount_valid(s) && amount_value(s) <= u64::MAX {
        amount_value(s) as u64
    } else {
        0
    }
}

proof fn lemma_dot_index_is(s: Seq<char>, d: int)
    requires
        0 <= d <= s.len(),
        forall|k: int| 0 <= k < d ==> s[k] != '.',
        d < s.len() ==> s[d] == '.',
    ensures
        dot_index(s) == d,
    decreases s.len(),
{
    if d == 0 {
    } else {
        assert(s[0] != '.');
        let t = s.drop_first();
        assert forall|k: int| 0 <= k < d - 1 implies t[k] != '.' by {
            assert(t[k] == s[k + 1]);
        }
        if d - 1 < t.len() {
            assert(t[d - 1] == s[d]);
        }
        lemma_dot_index_is(t, d - 1);
    }
}

proof fn lemma_digits_val_nonneg(s: Seq<char>)
    requires
        all_digits(s),
    ensures
        digits_val(s) >= 0,
    decreases s.len(),
{
    if s.len() > 0 {
        assert(all_digits(s.drop_last()));
        lemma_digits_val_nonneg(s.drop_last());
    }
}

proof fn lemma_digits_val_take_le(s: Seq<char>, i: int)
    requires
        all_digits(s),
        0 <= i <= s.len(),
    ensures
        digits_val(s.take(i)) <= digits_val(s),
    decreases s.len() - i,
{
    if i < s.len() {
        assert(s.take(i + 1).drop_last() =~= s.take(i));
        assert(s.take(i + 1).last() == s[i]);
        assert(all_digits(s.take(i)));
        lemma_digits_val_nonneg(s.take(i));
        lemma_digits_val_take_le(s, i + 1);
    } else {
        assert(s.take(i) =~= s);
    }
}

/// Parse the amount buffer into cents. A buffer outside the grammar, or one
/// whose value overflows, yields zero rather than an error.
pub fn parse_amount_cents(s: &str) -> (r: u64)
    ensures
        r == amount_cents(s@),
{
    let n = s.unicode_len();
    let mut d: usize = 0;
    while d < n && s.get_char(d) != '.'
        invariant
            d <= n,
            n == s@.len(),
            forall|k: int| 0 <= k < d ==> s@[k] != '.',
        decreases n - d,
    {
        d = d + 1;
    }
    proof {
        lemma_dot_index_is(s@, d as int);
    }
    let frac_len: usize = if d < n { n - d - 1 } else { 0 };
    if frac_len > 2 {
        return 0;
    }
    if n == 0 || (d == 0 && frac_len == 0) {
        return 0;
    }
    let mut i: usize = 0;
    while i < d
        invariant
            i <= d,
            d <= n,
            n == s@.len(),
            dot_index(s@) == d,
            all_digits(s@.take(i as int)),
        decreases d - i,
    {
        let c = s.get_char(i);
        if !('0' <= c && c <= '9') {
            proof {
                assert(int_part(s@)[i as int] == s@[i as int]);
            }
            return 0;
        }
        proof {
            assert forall|k: int| 0 <= k < i + 1 implies #[trigger] digit_char(s@.take(i + 1)[k]) by {
                assert(s@.take(i + 1)[k] == s@[k]);
                if k < i {
                    assert(s@.take(i as int)[k] == s@[k]);
                }
            }
        }
        i = i + 1;
    }
    proof {
        assert(int_part(s@) =~= s@.take(d as int));
    }
    let mut j: usize = 0;
    while j < frac_len
        invariant
            j <= frac_len,
            d < n || frac_len == 0,
            frac_len == (if d < n { n - d - 1 } else { 0 }),
            n == s@.len(),
            dot_index(s@) == d,
            forall|k: int| 0 <= k < j ==> digit_char(frac_part(s@)[k]),
        decreases frac_len - j,
    {
        let c = s.get_char(d + 1 + j);
        if !('0' <= c && c <= '9') {
            proof {
                assert(frac_part(s@)[j as int] == s@[d + 1 + j]);
            }
            return 0;
        }
        proof {
            assert(frac_part(s@)[j as int] == s@[d + 1 + j]);
        }
        j = j + 1;
    }
    proof {
        assert(all_digits(frac_part(s@)));
        assert(frac_part(s@).len() == frac_len);
        assert(amount_valid(s@));
    }
    let mut acc: u64 = 0;
    let mut i: usize = 0;
    while i < d
        invariant
            i <= d,
            d <= n,
            n == s@.len(),
            amount_valid(s@),
            dot_index(s@) == d,
            frac_len == frac_part(s@).len(),
            acc == digits_val(s@.take(i as int)),
        decreases d - i,
    {
        let c = s.get_char(i);
        proof {
            assert(int_part(s@)[i as int] == s@[i as int]);
            assert(digit_char(s@[i as int]));
        }
        let dig: u64 = (c as u32 - 48) as u64;
        let t: u128 = acc as u128 * 10 + dig as u128;
        proof {
            assert(s@.take(i + 1).drop_last() =~= s@.take(i as int));
            assert(s@.take(i + 1).last() == s@[i as int]);
        }
        if t > u64::MAX as u128 {
            proof {
                assert(digits_val(s@.take(i + 1)) > u64::MAX);
                assert(s@.take(d as int) =~= int_part(s@));
                assert(all_digits(s@.take(d as int)));
                assert(s@.take(d as int).take(i + 1) =~= s@.take(i + 1));
                lemma_digits_val_take_le(s@.take(d as int), i + 1);
                assert(digits_val(int_part(s@)) > u64::MAX);
                lemma_digits_val_nonneg(int_part(s@));
                assert(frac_cents(frac_part(s@)) >= 0);
                assert(amount_value(s@) > u64::MAX);
            }
            return 0;
        }
        acc = t as u64;
        i = i + 1;
    }
    proof {
        assert(s@.take(d as int) =~= int_part(s@));
        assert(acc == digits_val(int_part(s@)));
    }
    let mut fc: u64 = 0;
    if frac_len >= 1 {
        let c0 = s.get_char(d + 1);
        proof {
            assert(frac_part(s@)[0] == s@[d + 1]);
            assert(digit_char(frac_part(s@)[0]));
        }
        fc = (c0 as u32 - 48) as u64 * 10;
        if frac_len == 2 {
            let c1 = s.get_char(d + 2);
            proof {
                assert(frac_part(s@)[1] == s@[d + 2]);
                assert(digit_char(frac_part(s@)[1]));
            }
            fc = fc + (c1 as u32 - 48) as u64;
        }
    }
    proof {
        assert(fc == frac_cents(frac_part(s@)));
    }
    let total: u128 = acc as u128 * 100 + fc as u128;
    if total > u64::MAX as u128 {
        proof {
            assert(amount_value(s@) > u64::MAX);
        }
        0
    } else {
        proof {
            assert(total == amount_value(s@));
        }
        total as u64
    }
}

} // verus!
