use vstd::prelude::*;

verus! {

/// What `str::to_lowercase` makes of a string.
pub uninterp spec fn lower_of(s: Seq<char>) -> Seq<char>;

/// Relies on `str::to_lowercase`: the result depends on the characters alone.
#[verifier::external_body]
pub(crate) fn lowercase(s: &str) -> (r: String)
    ensures
        r@ == lower_of(s@),
{
    s.to_lowercase()
}

/// Relies on `str::chars` collected into a `Vec`: the characters in order.
#[verifier::external_body]
pub(crate) fn chars_of(s: &str) -> (r: Vec<char>)
    ensures
        r@ == s@,
{
    s.chars().collect()
}

/// Relies on `String: FromIterator<char>`: the string holds the characters in order.
#[verifier::external_body]
pub(crate) fn string_from_chars(chars: &[char]) -> (r: String)
    ensures
        r@ == chars@,
{
    chars.iter().collect()
}

/// The characters of an optional string.
pub open spec fn opt_view(s: Option<String>) -> Option<Seq<char>> {
    match s {
        Some(x) => Some(x@),
        None => None,
    }
}

/// A copy of an optional string.
pub fn clone_opt(s: &Option<String>) -> (r: Option<String>)
    ensures
        opt_view(r) == opt_view(*s),
{
    match s {
        Some(x) => Some(x.clone()),
        None => None,
    }
}

/// What `Path::join` makes of a directory and a relative name, as text.
pub uninterp spec fn path_join(dir: Seq<char>, name: Seq<char>) -> Seq<char>;

/// Relies on `Path::join`: the path of `name` inside `dir`, which depends on
/// the two texts alone.
#[verifier::external_body]
pub(crate) fn join_path(dir: &str, name: &str) -> (r: String)
    ensures
        r@ == path_join(dir@, name@),
{
    std::path::Path::new(dir).join(name).to_string_lossy().into_owned()
}

/// What `str::trim` keeps of a string.
pub uninterp spec fn trim_of(s: Seq<char>) -> Seq<char>;

/// Relies on `str::trim`: the string without leading and trailing white
/// space, which depends on the characters alone.
#[verifier::external_body]
pub(crate) fn trimmed(s: &str) -> (r: String)
    ensures
        r@ == trim_of(s@),
{
    s.trim().to_owned()
}

/// Whether two strings hold the same characters.
pub fn str_eq(a: &str, b: &str) -> (r: bool)
    ensures
        r == (a@ == b@),
{
    let n = a.unicode_len();
    if n != b.unicode_len() {
        return false;
    }
    let mut i: usize = 0;
    while i < n
        invariant
            n == a@.len(),
            n == b@.len(),
            i <= n,
            forall|j: int| 0 <= j < i ==> a@[j] == b@[j],
        decreases n - i,
    {
        if a.get_char(i) != b.get_char(i) {
            return false;
        }
        i += 1;
    }
    assert(a@ =~= b@);
    true
}

/// Whether `needle` occurs in `hay` starting at position `i`.
pub open spec fn occurs_at(hay: Seq<char>, needle: Seq<char>, i: int) -> bool {
    0 <= i && i + needle.len() <= hay.len() && hay.subrange(i, i + needle.len()) == needle
}

/// Whether `needle` occurs anywhere in `hay`.
pub open spec fn contains_seq(hay: Seq<char>, needle: Seq<char>) -> bool {
    exists|i: int| occurs_at(hay, needle, i)
}

/// Whether `needle` occurs at position `i` of `hay`, checked character by character.
pub(crate) fn matches_at(hay: &Vec<char>, needle: &Vec<char>, i: usize) -> (r: bool)
    requires
        i + needle@.len() <= hay@.len(),
    ensures
        r == occurs_at(hay@, needle@, i as int),
{
    let hl = hay.len();
    let mut k: usize = 0;
    while k < needle.len()
        invariant
            hl == hay@.len(),
            i + needle@.len() <= hay@.len(),
            k <= needle@.len(),
            forall|j: int| 0 <= j < k ==> hay@[i + j] == needle@[j],
        decreases needle@.len() - k,
    {
        if hay[i + k] != needle[k] {
            assert(hay@.subrange(i as int, i + needle@.len())[k as int] != needle@[k as int]);
            return false;
        }
        k += 1;
    }
    assert(hay@.subrange(i as int, i + needle@.len()) =~= needle@);
    true
}

/// Whether `needle` occurs anywhere in `hay`.
pub fn contains_chars(hay: &Vec<char>, needle: &Vec<char>) -> (r: bool)
    ensures
        r == contains_seq(hay@, needle@),
{
    if needle.len() > hay.len() {
        assert forall|j: int| !occurs_at(hay@, needle@, j) by {}
        return false;
    }
    let last = hay.len() - needle.len();
    let mut i: usize = 0;
    loop
        invariant
            i <= last,
            last + needle@.len() == hay@.len(),
            forall|j: int| 0 <= j < i ==> !occurs_at(hay@, needle@, j),
        decreases last - i,
    {
        if matches_at(hay, needle, i) {
            return true;
        }
        if i == last {
            assert forall|j: int| !occurs_at(hay@, needle@, j) by {
                if 0 <= j <= last {
                    assert(j < i || j == i);
                }
            }
            return false;
        }
        i += 1;
    }
}

/// Whether `c` is a decimal digit.
pub open spec fn is_digit(c: char) -> bool {
    '0' <= c <= '9'
}

/// Whether every character of `s` is a decimal digit.
pub open spec fn all_digits(s: Seq<char>) -> bool {
    forall|i: int| 0 <= i < s.len() ==> is_digit(#[trigger] s[i])
}

/// The value of a decimal digit.
pub open spec fn digit_value(c: char) -> int {
    (c as int) - ('0' as int)
}

/// The number that a string of decimal digits writes.
pub open spec fn digits_value(s: Seq<char>) -> int
    decreases s.len(),
{
    if s.len() == 0 {
        0
    } else {
        digits_value(s.drop_last()) * 10 + digit_value(s.last())
    }
}

/// The character of a decimal digit.
pub open spec fn digit_char(d: nat) -> char {
    if d == 0 {
        '0'
    } else if d == 1 {
        '1'
    } else if d == 2 {
        '2'
    } else if d == 3 {
        '3'
    } else if d == 4 {
        '4'
    } else if d == 5 {
        '5'
    } else if d == 6 {
        '6'
    } else if d == 7 {
        '7'
    } else if d == 8 {
        '8'
    } else {
        '9'
    }
}

/// The decimal writing of `n`, without leading zeros.
pub open spec fn decimal(n: nat) -> Seq<char>
    decreases n,
{
    if n < 10 {
        seq![digit_char(n)]
    } else {
        decimal(n / 10) + seq![digit_char(n % 10)]
    }
}

/// The decimal writing of an integer, with a minus sign when it is negative.
pub open spec fn int_text(v: int) -> Seq<char> {
    if v < 0 {
        seq!['-'] + decimal((-v) as nat)
    } else {
        decimal(v as nat)
    }
}

/// The value that `str::parse::<u64>` reads from `s`: an optional plus sign,
/// then at least one digit, and a value that fits.
pub open spec fn u64_text_value(s: Seq<char>) -> Option<u64> {
    let rest = if s.len() > 0 && s[0] == '+' { s.subrange(1, s.len() as int) } else { s };
    if rest.len() > 0 && all_digits(rest) && digits_value(rest) <= u64::MAX {
        Some(digits_value(rest) as u64)
    } else {
        None
    }
}

/// The value that `str::parse::<i32>` reads from `s`: an optional sign, then
/// at least one digit, and a value that fits.
pub open spec fn i32_text_value(s: Seq<char>) -> Option<i32> {
    let neg = s.len() > 0 && s[0] == '-';
    let rest = if s.len() > 0 && (s[0] == '+' || s[0] == '-') {
        s.subrange(1, s.len() as int)
    } else {
        s
    };
    if rest.len() > 0 && all_digits(rest) {
        if neg && digits_value(rest) <= 0x8000_0000 {
            Some((-digits_value(rest)) as i32)
        } else if !neg && digits_value(rest) <= i32::MAX {
            Some(digits_value(rest) as i32)
        } else {
            None
        }
    } else {
        None
    }
}

/// The value that `str::parse::<i64>` reads from `s`: an optional sign, then
/// at least one digit, and a value that fits.
pub open spec fn i64_text_value(s: Seq<char>) -> Option<i64> {
    let neg = s.len() > 0 && s[0] == '-';
    let rest = if s.len() > 0 && (s[0] == '+' || s[0] == '-') {
        s.subrange(1, s.len() as int)
    } else {
        s
    };
    if rest.len() > 0 && all_digits(rest) {
        if neg && digits_value(rest) <= 0x8000_0000_0000_0000 {
            Some((-digits_value(rest)) as i64)
        } else if !neg && digits_value(rest) <= i64::MAX {
            Some(digits_value(rest) as i64)
        } else {
            None
        }
    } else {
        None
    }
}

/// A prefix of a digit string writes no more than the whole, and nothing negative.
proof fn lemma_digits_prefix(s: Seq<char>, j: int)
    requires
        all_digits(s),
        0 <= j <= s.len(),
    ensures
        0 <= digits_value(s.subrange(0, j)) <= digits_value(s),
    decreases s.len(),
{
    if s.len() > 0 {
        let d = s.drop_last();
        assert(all_digits(d)) by {
            assert forall|i: int| 0 <= i < d.len() implies is_digit(#[trigger] d[i]) by {
                assert(d[i] == s[i]);
            }
        }
        assert(is_digit(s[s.len() - 1]));
        lemma_digits_prefix(d, 0);
        assert(d.subrange(0, 0) =~= Seq::<char>::empty());
        if j < s.len() {
            lemma_digits_prefix(d, j);
            assert(d.subrange(0, j) =~= s.subrange(0, j));
        } else {
            assert(s.subrange(0, j) =~= s);
        }
    } else {
        assert(s.subrange(0, j) =~= s);
    }
}

/// Reads the digits of `s` from position `from` on, when they are all digits,
/// there is at least one, and the number is at most `limit`.
fn digits_at_most(s: &Vec<char>, from: usize, limit: u64) -> (r: Option<u64>)
    requires
        from <= s@.len(),
    ensures
        ({
            let rest = s@.subrange(from as int, s@.len() as int);
            r == if rest.len() > 0 && all_digits(rest) && digits_value(rest) <= limit {
                Some(digits_value(rest) as u64)
            } else {
                None::<u64>
            }
        }),
        r matches Some(m) ==> m as int == digits_value(s@.subrange(from as int, s@.len() as int)),
{
    let n = s.len();
    let ghost rest = s@.subrange(from as int, n as int);
    if from == n {
        return None;
    }
    let mut acc: u64 = 0;
    let mut i: usize = from;
    assert(s@.subrange(from as int, from as int) =~= Seq::<char>::empty());
    while i < n
        invariant
            n == s@.len(),
            rest == s@.subrange(from as int, n as int),
            from <= i <= n,
            acc as int == digits_value(s@.subrange(from as int, i as int)),
            acc <= limit,
            all_digits(s@.subrange(from as int, i as int)),
        decreases n - i,
    {
        let c = s[i];
        if !('0' <= c && c <= '9') {
            assert(!is_digit(rest[i - from]));
            return None;
        }
        let ghost pre = s@.subrange(from as int, i + 1);
        assert(pre.drop_last() =~= s@.subrange(from as int, i as int));
        assert(pre.last() == c);
        let d: u64 = (c as u32 - '0' as u32) as u64;
        let next: u128 = (acc as u128) * 10 + (d as u128);
        assert(all_digits(pre)) by {
            assert forall|k: int| 0 <= k < pre.len() implies is_digit(#[trigger] pre[k]) by {
                if k < pre.len() - 1 {
                    assert(pre[k] == s@.subrange(from as int, i as int)[k]);
                }
            }
        }
        if next > limit as u128 {
            proof {
                if all_digits(rest) {
                    lemma_digits_prefix(rest, i + 1 - from);
                    assert(rest.subrange(0, i + 1 - from) =~= pre);
                }
            }
            return None;
        }
        acc = next as u64;
        i += 1;
    }
    assert(s@.subrange(from as int, i as int) =~= rest);
    Some(acc)
}

/// Parses an unsigned number as `str::parse::<u64>` does.
pub fn parse_u64(s: &str) -> (r: Option<u64>)
    ensures
        r == u64_text_value(s@),
{
    let v = chars_of(s);
    let from: usize = if v.len() > 0 && v[0] == '+' { 1 } else { 0 };
    assert(s@.subrange(0, s@.len() as int) =~= s@);
    digits_at_most(&v, from, u64::MAX)
}

/// Parses a signed number as `str::parse::<i32>` does.
pub fn parse_i32(s: &str) -> (r: Option<i32>)
    ensures
        r == i32_text_value(s@),
{
    let v = chars_of(s);
    assert(s@.subrange(0, s@.len() as int) =~= s@);
    if v.len() > 0 && v[0] == '-' {
        let ghost rest = s@.subrange(1, s@.len() as int);
        let r = digits_at_most(&v, 1, 0x8000_0000);
        match r {
            Some(m) => {
                assert(rest.len() > 0 && all_digits(rest) && digits_value(rest) <= 0x8000_0000);
                assert(m as int == digits_value(rest));
                let x: i64 = 0 - (m as i64);
                Some(x as i32)
            },
            None => None,
        }
    } else {
        let from: usize = if v.len() > 0 && v[0] == '+' { 1 } else { 0 };
        let ghost rest = s@.subrange(from as int, s@.len() as int);
        let r = digits_at_most(&v, from, 0x7fff_ffff);
        match r {
            Some(m) => {
                assert(rest.len() > 0 && all_digits(rest) && digits_value(rest) <= 0x7fff_ffff);
                Some(m as i32)
            },
            None => None,
        }
    }
}

/// Parses a signed number as `str::parse::<i64>` does.
pub fn parse_i64(s: &str) -> (r: Option<i64>)
    ensures
        r == i64_text_value(s@),
{
    let v = chars_of(s);
    assert(s@.subrange(0, s@.len() as int) =~= s@);
    if v.len() > 0 && v[0] == '-' {
        let ghost rest = s@.subrange(1, s@.len() as int);
        let r = digits_at_most(&v, 1, 0x8000_0000_0000_0000);
        match r {
            Some(m) => {
                assert(rest.len() > 0 && all_digits(rest) && digits_value(rest) <= 0x8000_0000_0000_0000);
                assert(m as int == digits_value(rest));
                let x: i128 = 0 - (m as i128);
                Some(x as i64)
            },
            None => None,
        }
    } else {
        let from: usize = if v.len() > 0 && v[0] == '+' { 1 } else { 0 };
        let ghost rest = s@.subrange(from as int, s@.len() as int);
        let r = digits_at_most(&v, from, 0x7fff_ffff_ffff_ffff);
        match r {
            Some(m) => {
                assert(rest.len() > 0 && all_digits(rest) && digits_value(rest) <= 0x7fff_ffff_ffff_ffff);
                Some(m as i64)
            },
            None => None,
        }
    }
}

/// Appends the decimal writing of `n`.
fn push_decimal(n: u64, out: &mut Vec<char>)
    ensures
        final(out)@ == old(out)@ + decimal(n as nat),
    decreases n,
{
    if n >= 10 {
        push_decimal(n / 10, out);
    }
    let d = n % 10;
    let c = if d == 0 {
        '0'
    } else if d == 1 {
        '1'
    } else if d == 2 {
        '2'
    } else if d == 3 {
        '3'
    } else if d == 4 {
        '4'
    } else if d == 5 {
        '5'
    } else if d == 6 {
        '6'
    } else if d == 7 {
        '7'
    } else if d == 8 {
        '8'
    } else {
        '9'
    };
    out.push(c);
    assert(out@ =~= old(out)@ + decimal(n as nat));
}

/// The decimal writing of `v`, as `i32::to_string` gives it.
pub fn i32_to_string(v: i32) -> (r: String)
    ensures
        r@ == int_text(v as int),
{
    let mut out: Vec<char> = Vec::new();
    if v < 0 {
        out.push('-');
        push_decimal((0 - (v as i64)) as u64, &mut out);
    } else {
        push_decimal(v as u64, &mut out);
    }
    string_from_chars(out.as_slice())
}

/// The decimal writing of `v`, as `u64::to_string` gives it.
pub fn u64_to_string(v: u64) -> (r: String)
    ensures
        r@ == decimal(v as nat),
{
    let mut out: Vec<char> = Vec::new();
    push_decimal(v, &mut out);
    assert(out@ =~= decimal(v as nat));
    string_from_chars(out.as_slice())
}

} // verus!
