use vstd::prelude::*;

use vstd::utf8::{decode_utf8, valid_utf8};

use crate::text::{lossy_text, lossy_utf8};

verus! {

/// What the runtime check reports: whether a runtime of a supported major
/// version is installed, and the version text that was found, if any.
#[derive(Clone, Debug)]
pub struct JavaCheckResult {
    pub installed: bool,
    pub version: Option<String>,
}

/// The smallest runtime major version that counts as installed.
pub const MIN_JAVA_MAJOR: u32 = 17;

/// The major version assumed for a legacy `1.x` version whose minor part is
/// missing or unreadable.
pub const LEGACY_DEFAULT_MAJOR: u32 = 8;

/// The first index at or after `from` where `s` holds `c`.
pub open spec fn first_index_from(s: Seq<char>, from: int, c: char) -> Option<int>
    decreases s.len() - from,
{
    if from < 0 || from >= s.len() {
        None
    } else if s[from] == c {
        Some(from)
    } else {
        first_index_from(s, from + 1, c)
    }
}

/// The first line of a text, as `str::lines` yields it: up to the first
/// newline, without a carriage return that stands right before that newline.
pub open spec fn first_line(s: Seq<char>) -> Seq<char> {
    match first_index_from(s, 0, '\n') {
        Some(k) => if k > 0 && s[k - 1] == '\r' {
            s.take(k - 1)
        } else {
            s.take(k)
        },
        None => s,
    }
}

/// The text between the first two double quotes of a line.
pub open spec fn quoted_token(line: Seq<char>) -> Option<Seq<char>> {
    match first_index_from(line, 0, '"') {
        Some(a) => match first_index_from(line, a + 1, '"') {
            Some(b) => Some(line.subrange(a + 1, b)),
            None => None,
        },
        None => None,
    }
}

/// The part of a version text before its first dot.
pub open spec fn first_component(v: Seq<char>) -> Seq<char> {
    match first_index_from(v, 0, '.') {
        Some(k) => v.take(k),
        None => v,
    }
}

/// The part of a version text between its first and second dots (or the end),
/// if it has a dot at all.
pub open spec fn second_component(v: Seq<char>) -> Option<Seq<char>> {
    match first_index_from(v, 0, '.') {
        Some(k) => match first_index_from(v, k + 1, '.') {
            Some(m) => Some(v.subrange(k + 1, m)),
            None => Some(v.subrange(k + 1, v.len() as int)),
        },
        None => None,
    }
}

pub open spec fn is_digit(c: char) -> bool {
    '0' <= c && c <= '9'
}

/// The number written by a sequence of decimal digits.
pub open spec fn digits_value(d: Seq<char>) -> nat
    decreases d.len(),
{
    if d.len() == 0 {
        0
    } else {
        digits_value(d.drop_last()) * 10 + ((d.last() as u32 - '0' as u32) as nat)
    }
}

/// A decimal text without its optional leading `+`.
pub open spec fn unsigned_digits(s: Seq<char>) -> Seq<char> {
    if s.len() > 0 && s[0] == '+' {
        s.drop_first()
    } else {
        s
    }
}

pub open spec fn all_digits(d: Seq<char>) -> bool {
    forall|i: int| 0 <= i < d.len() ==> is_digit(#[trigger] d[i])
}

/// An unsigned 32-bit decimal as `u32::from_str` reads it: an optional `+`,
/// then one or more digits whose value fits in `u32`.
pub open spec fn decimal_u32(s: Seq<char>) -> Option<u32> {
    let d = unsigned_digits(s);
    if d.len() > 0 && all_digits(d) && digits_value(d) <= u32::MAX {
        Some(digits_value(d) as u32)
    } else {
        None
    }
}

/// The major version named by a version text: its leading number, except
/// that a leading `1` is the legacy scheme, where the second number is the
/// major version (or the default when that is missing or unreadable).
pub open spec fn major_of(v: Seq<char>) -> Option<u32> {
    match decimal_u32(first_component(v)) {
        Some(m) => Some(
            if m == 1 {
                match second_component(v) {
                    Some(sc) => match decimal_u32(sc) {
                        Some(n) => n,
                        None => LEGACY_DEFAULT_MAJOR,
                    },
                    None => LEGACY_DEFAULT_MAJOR,
                }
            } else {
                m
            },
        ),
        None => None,
    }
}

/// What the runtime check reports for the diagnostic text of `java -version`:
/// nothing for empty text; the quoted version and whether its major version
/// is supported when that version can be read; else the first line.
pub open spec fn java_check_of(text: Seq<char>) -> (bool, Option<Seq<char>>) {
    if text.len() == 0 {
        (false, None)
    } else {
        let line = first_line(text);
        match quoted_token(line) {
            Some(v) => match major_of(v) {
                Some(m) => (m >= MIN_JAVA_MAJOR, Some(v)),
                None => (false, Some(line)),
            },
            None => (false, Some(line)),
        }
    }
}

impl JavaCheckResult {
    pub open spec fn view_pair(&self) -> (bool, Option<Seq<char>>) {
        (
            self.installed,
            match self.version {
                Some(v) => Some(v@),
                None => None,
            },
        )
    }

    /// The report for a runtime that could not be started at all.
    pub fn not_installed() -> (r: JavaCheckResult)
        ensures
            r.view_pair() == (false, None::<Seq<char>>),
    {
        JavaCheckResult { installed: false, version: None }
    }
}

proof fn lemma_first_index_from(s: Seq<char>, from: int, c: char)
    requires
        0 <= from,
    ensures
        match first_index_from(s, from, c) {
            Some(k) => from <= k < s.len() && s[k] == c && forall|j: int|
                from <= j < k ==> s[j] != c,
            None => forall|j: int| from <= j < s.len() ==> s[j] != c,
        },
    decreases s.len() - from,
{
    if from < s.len() && s[from] != c {
        lemma_first_index_from(s, from + 1, c);
    }
}

proof fn lemma_digits_prefix_bounded(d: Seq<char>, j: int)
    requires
        0 <= j <= d.len(),
        forall|i: int| 0 <= i < d.len() ==> is_digit(#[trigger] d[i]),
    ensures
        digits_value(d.take(j)) <= digits_value(d),
    decreases d.len(),
{
    if j == d.len() {
        assert(d.take(j) =~= d);
    } else {
        let p = d.drop_last();
        assert(p.take(j) =~= d.take(j));
        assert(is_digit(d[d.len() - 1]));
        lemma_digits_prefix_bounded(p, j);
    }
}

/// The first index at or after `from` where `s` holds `c`.
fn find_char_from(s: &str, from: usize, c: char) -> (r: Option<usize>)
    requires
        from <= s@.len(),
    ensures
        r is Some <==> first_index_from(s@, from as int, c) is Some,
        r is Some ==> first_index_from(s@, from as int, c) == Some(r->0 as int),
{
    let n = s.unicode_len();
    let mut i: usize = from;
    while i < n
        invariant
            from <= i <= n,
            n == s@.len(),
            first_index_from(s@, from as int, c) == first_index_from(s@, i as int, c),
        decreases n - i,
    {
        if s.get_char(i) == c {
            return Some(i);
        }
        i = i + 1;
    }
    None
}

/// Reads an unsigned 32-bit decimal the way `u32::from_str` does.
pub fn parse_decimal_u32(s: &str) -> (r: Option<u32>)
    ensures
        r == decimal_u32(s@),
{
    let n = s.unicode_len();
    let mut start: usize = 0;
    if n > 0 && s.get_char(0) == '+' {
        start = 1;
    }
    let ghost d = unsigned_digits(s@);
    assert(d =~= s@.subrange(start as int, n as int));
    if start == n {
        return None;
    }
    let mut acc: u64 = 0;
    let mut i: usize = start;
    assert(s@.subrange(start as int, start as int) =~= Seq::<char>::empty());
    while i < n
        invariant
            start <= i <= n,
            start < n,
            n == s@.len(),
            d == s@.subrange(start as int, n as int),
            d == unsigned_digits(s@),
            forall|j: int| start <= j < i ==> is_digit(#[trigger] s@[j]),
            acc as nat == digits_value(s@.subrange(start as int, i as int)),
            acc <= u32::MAX,
        decreases n - i,
    {
        let ch = s.get_char(i);
        if !('0' <= ch && ch <= '9') {
            assert(d[i - start] == ch);
            assert(!all_digits(d));
            return None;
        }
        let dig: u64 = (ch as u32 - '0' as u32) as u64;
        let next: u64 = acc * 10 + dig;
        proof {
            let pre = s@.subrange(start as int, i as int + 1);
            assert(pre.drop_last() =~= s@.subrange(start as int, i as int));
            assert(pre.last() == ch);
            assert(next as nat == digits_value(pre));
        }
        if next > u32::MAX as u64 {
            proof {
                if all_digits(d) {
                    lemma_digits_prefix_bounded(d, i - start + 1);
                    assert(d.take(i - start + 1) =~= s@.subrange(start as int, i as int + 1));
                    assert(digits_value(d) > u32::MAX);
                }
            }
            return None;
        }
        acc = next;
        i = i + 1;
    }
    assert(s@.subrange(start as int, n as int) =~= d);
    assert forall|k: int| 0 <= k < d.len() implies is_digit(#[trigger] d[k]) by {
        assert(d[k] == s@[start + k]);
    }
    Some(acc as u32)
}

/// The major version named by a version text, if its leading number can be read.
pub fn java_major_version(v: &str) -> (r: Option<u32>)
    ensures
        r == major_of(v@),
{
    let n = v.unicode_len();
    let dot = find_char_from(v, 0, '.');
    proof {
        lemma_first_index_from(v@, 0, '.');
    }
    let first = match dot {
        Some(k) => v.substring_char(0, k),
        None => v,
    };
    assert(first@ =~= first_component(v@));
    match parse_decimal_u32(first) {
        Some(m) => {
            if m != 1 {
                return Some(m);
            }
            match dot {
                Some(k) => {
                    let second_dot = find_char_from(v, k + 1, '.');
                    proof {
                        lemma_first_index_from(v@, k + 1, '.');
                    }
                    let second = match second_dot {
                        Some(e) => v.substring_char(k + 1, e),
                        None => v.substring_char(k + 1, n),
                    };
                    assert(second_component(v@) == Some(second@));
                    match parse_decimal_u32(second) {
                        Some(minor) => Some(minor),
                        None => Some(LEGACY_DEFAULT_MAJOR),
                    }
                },
                None => Some(LEGACY_DEFAULT_MAJOR),
            }
        },
        None => None,
    }
}

/// Reads the diagnostic text that `java -version` wrote.
pub fn parse_java_version(text: &str) -> (r: JavaCheckResult)
    ensures
        r.view_pair() == java_check_of(text@),
{
    let n = text.unicode_len();
    if n == 0 {
        return JavaCheckResult { installed: false, version: None };
    }
    let newline = find_char_from(text, 0, '\n');
    proof {
        lemma_first_index_from(text@, 0, '\n');
    }
    let line: &str = match newline {
        Some(k) => {
            if k > 0 && text.get_char(k - 1) == '\r' {
                text.substring_char(0, k - 1)
            } else {
                text.substring_char(0, k)
            }
        },
        None => text,
    };
    assert(line@ =~= first_line(text@));
    let open_quote = find_char_from(line, 0, '"');
    proof {
        lemma_first_index_from(line@, 0, '"');
    }
    if let Some(a) = open_quote {
        let close_quote = find_char_from(line, a + 1, '"');
        proof {
            lemma_first_index_from(line@, a + 1, '"');
        }
        if let Some(b) = close_quote {
            let v = line.substring_char(a + 1, b);
            assert(quoted_token(line@) == Some(v@));
            if let Some(m) = java_major_version(v) {
                return JavaCheckResult {
                    installed: m >= MIN_JAVA_MAJOR,
                    version: Some(String::from_str(v)),
                };
            }
        }
    }
    JavaCheckResult { installed: false, version: Some(String::from_str(line)) }
}

/// Reads the captured diagnostic stream of `java -version`, decoded lossily.
pub fn java_check_from_stderr(stderr: &Vec<u8>) -> (r: JavaCheckResult)
    ensures
        r.view_pair() == java_check_of(lossy_text(stderr@)),
        valid_utf8(stderr@) ==> r.view_pair() == java_check_of(decode_utf8(stderr@)),
        stderr@.len() == 0 ==> r.view_pair() == (false, None::<Seq<char>>),
{
    proof {
        if stderr@.len() == 0 {
            assert(valid_utf8(stderr@));
            assert(decode_utf8(stderr@) == Seq::<char>::empty());
        }
    }
    let text = lossy_utf8(stderr);
    parse_java_version(text.as_str())
}

} // verus!
