//! Text primitives shared by the rest of the library.
//!
//! Every string in this crate is modelled by its view, a `Seq<char>`. The
//! spec functions here say what the usual string operations mean on such
//! sequences, and the executable functions prove their result against those
//! definitions. Only the change of case is left to the standard library.

use vstd::prelude::*;
use vstd::string::StringExecFns;

verus! {

/// The code points that Unicode gives the property `White_Space`.
pub open spec fn is_whitespace(c: char) -> bool {
    let u = c as int;
    (0x09 <= u <= 0x0D) || u == 0x20 || u == 0x85 || u == 0xA0 || u == 0x1680 || (0x2000 <= u
        <= 0x200A) || u == 0x2028 || u == 0x2029 || u == 0x202F || u == 0x205F || u == 0x3000
}

/// `s` without its leading whitespace.
pub open spec fn trim_start(s: Seq<char>) -> Seq<char>
    decreases s.len(),
{
    if s.len() > 0 && is_whitespace(s[0]) {
        trim_start(s.drop_first())
    } else {
        s
    }
}

/// `s` without its trailing whitespace.
pub open spec fn trim_end(s: Seq<char>) -> Seq<char>
    decreases s.len(),
{
    if s.len() > 0 && is_whitespace(s.last()) {
        trim_end(s.drop_last())
    } else {
        s
    }
}

/// `s` without the whitespace at either end.
pub open spec fn trimmed(s: Seq<char>) -> Seq<char> {
    trim_end(trim_start(s))
}

/// `s` after `prefix` has been taken off its front as often as it stands there.
pub open spec fn strip_repeated_prefix(s: Seq<char>, prefix: Seq<char>) -> Seq<char>
    decreases s.len(),
{
    if prefix.len() > 0 && prefix.is_prefix_of(s) {
        strip_repeated_prefix(s.skip(prefix.len() as int), prefix)
    } else {
        s
    }
}

/// `needle` stands in `hay` at position `at`.
pub open spec fn occurs_at(hay: Seq<char>, needle: Seq<char>, at: int) -> bool {
    0 <= at && at + needle.len() <= hay.len() && hay.subrange(at, at + needle.len()) == needle
}

/// `needle` stands somewhere in `hay`.
pub open spec fn has_substring(hay: Seq<char>, needle: Seq<char>) -> bool {
    exists|at: int| occurs_at(hay, needle, at)
}

/// `at` is the first position at which `needle` stands in `hay`.
pub open spec fn first_occurrence(hay: Seq<char>, needle: Seq<char>, at: int) -> bool {
    occurs_at(hay, needle, at) && forall|earlier: int|
        0 <= earlier < at ==> !occurs_at(hay, needle, earlier)
}

/// The first position at which `needle` stands in `hay`, where it stands there at all.
pub open spec fn first_index(hay: Seq<char>, needle: Seq<char>) -> int {
    choose|at: int| first_occurrence(hay, needle, at)
}

/// `s` with every occurrence of `from` replaced by `to`, found from left to
/// right and not overlapping.
pub open spec fn replaced(s: Seq<char>, from: Seq<char>, to: Seq<char>) -> Seq<char>
    decreases s.len(),
{
    if from.len() == 0 || s.len() < from.len() {
        s
    } else if from.is_prefix_of(s) {
        to + replaced(s.skip(from.len() as int), from, to)
    } else {
        seq![s[0]] + replaced(s.drop_first(), from, to)
    }
}

/// Lexicographic order by code point, the order of `str`.
pub open spec fn text_le(a: Seq<char>, b: Seq<char>) -> bool
    decreases a.len(),
{
    if a.len() == 0 {
        true
    } else if b.len() == 0 {
        false
    } else if a[0] != b[0] {
        (a[0] as int) < (b[0] as int)
    } else {
        text_le(a.drop_first(), b.drop_first())
    }
}

/// The lower-case form that the standard library gives a text.
pub uninterp spec fn lowercase_of(s: Seq<char>) -> Seq<char>;

/// The upper-case form that the standard library gives a text.
pub uninterp spec fn uppercase_of(s: Seq<char>) -> Seq<char>;

/// The decimal digit for `d`, which is below ten.
pub open spec fn digit_char(d: nat) -> char {
    if d == 0 {
        '0'
    } else if d == 1 {
        '1'
    } else if d == 2 {
        '2'
    } else if d == 3 {
        '3'
    } else if d == 4 {
        '4'
    } else if d == 5 {
        '5'
    } else if d == 6 {
        '6'
    } else if d == 7 {
        '7'
    } else if d == 8 {
        '8'
    } else {
        '9'
    }
}

/// `n` written in decimal, without leading zeros.
pub open spec fn decimal(n: nat) -> Seq<char>
    decreases n,
{
    if n < 10 {
        seq![digit_char(n)]
    } else {
        decimal(n / 10).push(digit_char(n % 10))
    }
}

/// `n` written in decimal, with a minus sign where it is negative.
pub open spec fn signed_decimal(n: int) -> Seq<char> {
    if n < 0 {
        seq!['-'] + decimal((-n) as nat)
    } else {
        decimal(n as nat)
    }
}

/// Of two texts, one is below or equal to the other.
pub proof fn lemma_text_le_total(a: Seq<char>, b: Seq<char>)
    ensures
        text_le(a, b) || text_le(b, a),
    decreases a.len(),
{
    if a.len() > 0 && b.len() > 0 {
        if a[0] == b[0] {
            lemma_text_le_total(a.drop_first(), b.drop_first());
        } else {
            assert(a[0] as int != b[0] as int);
        }
    }
}

/// `text_le` is transitive.
pub proof fn lemma_text_le_transitive(a: Seq<char>, b: Seq<char>, c: Seq<char>)
    requires
        text_le(a, b),
        text_le(b, c),
    ensures
        text_le(a, c),
    decreases a.len(),
{
    if a.len() > 0 && b.len() > 0 && c.len() > 0 && a[0] == b[0] && b[0] == c[0] {
        lemma_text_le_transitive(a.drop_first(), b.drop_first(), c.drop_first());
    }
}

/// Two texts that are each below or equal to the other are one text.
pub proof fn lemma_text_le_antisymmetric(a: Seq<char>, b: Seq<char>)
    requires
        text_le(a, b),
        text_le(b, a),
    ensures
        a == b,
    decreases a.len(),
{
    if a.len() == 0 || b.len() == 0 {
        assert(a.len() == 0 && b.len() == 0);
        assert(a =~= b);
    } else {
        assert(a[0] == b[0]);
        let x = a.drop_first();
        let y = b.drop_first();
        lemma_text_le_antisymmetric(x, y);
        assert(a.len() == b.len());
        assert forall|i: int| 0 <= i < a.len() implies a[i] == b[i] by {
            if i > 0 {
                assert(a[i] == x[i - 1]);
                assert(b[i] == y[i - 1]);
            }
        }
        assert(a =~= b);
    }
}

/// `text_le` relates every text to itself.
pub proof fn lemma_text_le_reflexive(a: Seq<char>)
    ensures
        text_le(a, a),
    decreases a.len(),
{
    if a.len() > 0 {
        lemma_text_le_reflexive(a.drop_first());
    }
}

/// A text has one first occurrence of another at most.
pub proof fn lemma_first_occurrence_unique(hay: Seq<char>, needle: Seq<char>, at: int)
    requires
        first_occurrence(hay, needle, at),
    ensures
        first_index(hay, needle) == at,
        has_substring(hay, needle),
{
    let chosen = first_index(hay, needle);
    assert(first_occurrence(hay, needle, chosen));
    if chosen < at {
        assert(!occurs_at(hay, needle, chosen));
    } else if at < chosen {
        assert(!occurs_at(hay, needle, at));
    }
}

/// Whether two texts hold the same characters.
pub fn text_eq(a: &str, b: &str) -> (same: bool)
    ensures
        same == (a@ == b@),
{
    let left = a.to_owned();
    let right = b.to_owned();
    left == right
}

/// `a` followed by `b`.
pub fn join(a: &str, b: &str) -> (joined: String)
    ensures
        joined@ == a@ + b@,
{
    let mut joined = a.to_owned();
    joined.append(b);
    joined
}

/// Calls `str::to_lowercase`. The result is named, not described: the mapping
/// is the standard library's Unicode table.
#[verifier::external_body]
pub(crate) fn to_lowercase(s: &str) -> (lower: String)
    ensures
        lower@ == lowercase_of(s@),
{
    s.to_lowercase()
}

/// Calls `str::to_uppercase`. The result is named, not described: the mapping
/// is the standard library's Unicode table.
#[verifier::external_body]
pub(crate) fn to_uppercase(s: &str) -> (upper: String)
    ensures
        upper@ == uppercase_of(s@),
{
    s.to_uppercase()
}

/// The characters of a text.
pub fn chars_of(s: &str) -> (chars: Vec<char>)
    ensures
        chars@ == s@,
{
    let mut chars: Vec<char> = Vec::new();
    for c in walk: s.chars()
        invariant
            walk.seq() == s@,
            chars@ == walk.seq().take(walk.index() as int),
    {
        chars.push(c);
        assert(walk.seq().take(walk.index() + 1) =~= walk.seq().take(walk.index() as int).push(c));
    }
    assert(chars@ =~= s@);
    chars
}

/// Whether a character is whitespace.
pub fn is_whitespace_char(c: char) -> (white: bool)
    ensures
        white == is_whitespace(c),
{
    let u = c as u32;
    (0x09 <= u && u <= 0x0D) || u == 0x20 || u == 0x85 || u == 0xA0 || u == 0x1680 || (0x2000 <= u
        && u <= 0x200A) || u == 0x2028 || u == 0x2029 || u == 0x202F || u == 0x205F || u == 0x3000
}

fn matches_at(hay: &Vec<char>, needle: &Vec<char>, at: usize) -> (found: bool)
    requires
        at + needle@.len() <= hay@.len(),
    ensures
        found == occurs_at(hay@, needle@, at as int),
{
    let total = hay.len();
    let mut k: usize = 0;
    while k < needle.len()
        invariant
            k <= needle@.len(),
            total == hay@.len(),
            at + needle@.len() <= hay@.len(),
            forall|j: int| 0 <= j < k ==> hay@[at + j] == needle@[j],
        decreases needle@.len() - k,
    {
        if hay[at + k] != needle[k] {
            assert(hay@.subrange(at as int, at + needle@.len())[k as int] == hay@[at + k]);
            return false;
        }
        k += 1;
    }
    assert(hay@.subrange(at as int, at + needle@.len()) =~= needle@);
    true
}

fn find_first(hay: &Vec<char>, needle: &Vec<char>) -> (found: Option<usize>)
    ensures
        match found {
            Some(at) => first_occurrence(hay@, needle@, at as int),
            None => !has_substring(hay@, needle@),
        },
{
    if needle.len() > hay.len() {
        return None;
    }
    let last = hay.len() - needle.len();
    let mut at: usize = 0;
    while at < last
        invariant
            at <= last,
            last == hay@.len() - needle@.len(),
            forall|earlier: int| 0 <= earlier < at ==> !occurs_at(hay@, needle@, earlier),
        decreases last - at,
    {
        if matches_at(hay, needle, at) {
            return Some(at);
        }
        at += 1;
    }
    if matches_at(hay, needle, at) {
        Some(at)
    } else {
        None
    }
}

/// Whether `needle` stands somewhere in `hay`.
pub fn contains(hay: &str, needle: &str) -> (found: bool)
    ensures
        found == has_substring(hay@, needle@),
{
    let hay_chars = chars_of(hay);
    let needle_chars = chars_of(needle);
    match find_first(&hay_chars, &needle_chars) {
        Some(at) => true,
        None => false,
    }
}

/// Whether `s` begins with `prefix`.
pub fn starts_with(s: &str, prefix: &str) -> (found: bool)
    ensures
        found == prefix@.is_prefix_of(s@),
{
    let chars = chars_of(s);
    let prefix_chars = chars_of(prefix);
    if prefix_chars.len() > chars.len() {
        false
    } else {
        matches_at(&chars, &prefix_chars, 0)
    }
}

/// Whitespace up to `start` and none at `start`: the text without its
/// leading whitespace begins at `start`.
proof fn lemma_trim_start(s: Seq<char>, start: int)
    requires
        0 <= start <= s.len(),
        forall|k: int| 0 <= k < start ==> is_whitespace(s[k]),
        start < s.len() ==> !is_whitespace(s[start]),
    ensures
        trim_start(s) == s.skip(start),
    decreases start,
{
    if start == 0 {
        assert(s.skip(0) =~= s);
    } else {
        let rest = s.drop_first();
        assert forall|k: int| 0 <= k < start - 1 implies is_whitespace(rest[k]) by {
            assert(rest[k] == s[k + 1]);
        }
        lemma_trim_start(rest, start - 1);
        assert(rest.skip(start - 1) =~= s.skip(start));
    }
}

/// Whitespace from `end` on and none before `end`: the text without its
/// trailing whitespace ends at `end`.
proof fn lemma_trim_end(s: Seq<char>, end: int)
    requires
        0 <= end <= s.len(),
        forall|k: int| end <= k < s.len() ==> is_whitespace(s[k]),
        end > 0 ==> !is_whitespace(s[end - 1]),
    ensures
        trim_end(s) == s.take(end),
    decreases s.len() - end,
{
    if end == s.len() {
        assert(s.take(end) =~= s);
    } else {
        let rest = s.drop_last();
        lemma_trim_end(rest, end);
        assert(rest.take(end) =~= s.take(end));
    }
}

/// `s` without the whitespace at either end.
pub fn trim(s: &str) -> (inner: &str)
    ensures
        inner@ == trimmed(s@),
{
    let chars = chars_of(s);
    let n = chars.len();
    let mut start: usize = 0;
    while start < n && is_whitespace_char(chars[start])
        invariant
            start <= n,
            n == chars@.len(),
            forall|k: int| 0 <= k < start ==> is_whitespace(chars@[k]),
        decreases n - start,
    {
        start += 1;
    }
    let mut end: usize = n;
    while end > start && is_whitespace_char(chars[end - 1])
        invariant
            start <= end <= n,
            n == chars@.len(),
            forall|k: int| end <= k < n ==> is_whitespace(chars@[k]),
        decreases end,
    {
        end -= 1;
    }
    proof {
        lemma_trim_start(s@, start as int);
        let rest = s@.skip(start as int);
        assert forall|k: int| end - start <= k < rest.len() implies is_whitespace(rest[k]) by {
            assert(rest[k] == s@[start + k]);
        }
        lemma_trim_end(rest, end - start);
        assert(rest.take(end - start) =~= s@.subrange(start as int, end as int));
    }
    s.substring_char(start, end)
}

/// `s` after `prefix` has been taken off its front as often as it stands
/// there. An empty prefix takes nothing off.
pub fn trim_start_matches<'a>(s: &'a str, prefix: &str) -> (rest: &'a str)
    ensures
        rest@ == strip_repeated_prefix(s@, prefix@),
{
    let chars = chars_of(s);
    let prefix_chars = chars_of(prefix);
    let n = chars.len();
    let m = prefix_chars.len();
    if m == 0 {
        return s;
    }
    let mut pos: usize = 0;
    assert(s@.skip(0) =~= s@);
    while m <= n - pos && matches_at(&chars, &prefix_chars, pos)
        invariant
            pos <= n,
            m > 0,
            n == chars@.len(),
            m == prefix_chars@.len(),
            chars@ == s@,
            prefix_chars@ == prefix@,
            strip_repeated_prefix(s@, prefix@) == strip_repeated_prefix(
                s@.skip(pos as int),
                prefix@,
            ),
        decreases n - pos,
    {
        proof {
            let here = s@.skip(pos as int);
            assert(here.subrange(0, m as int) =~= s@.subrange(pos as int, pos + m));
            assert(prefix@.is_prefix_of(here));
            assert(here.skip(m as int) =~= s@.skip(pos + m));
        }
        pos += m;
    }
    proof {
        let here = s@.skip(pos as int);
        if m <= n - pos {
            assert(here.subrange(0, m as int) =~= s@.subrange(pos as int, pos + m));
        }
        assert(!prefix@.is_prefix_of(here));
        assert(s@.subrange(pos as int, n as int) =~= here);
    }
    s.substring_char(pos, n)
}

/// `s` split at the first occurrence of `delimiter`: what stands before it
/// and what stands after it; `None` where it does not occur.
pub fn split_once<'a>(s: &'a str, delimiter: &str) -> (parts: Option<(&'a str, &'a str)>)
    ensures
        parts is None <==> !has_substring(s@, delimiter@),
        parts matches Some((before, after)) ==> s@ == before@ + delimiter@ + after@
            && first_occurrence(s@, delimiter@, before@.len() as int),
{
    let chars = chars_of(s);
    let delimiter_chars = chars_of(delimiter);
    match find_first(&chars, &delimiter_chars) {
        None => None,
        Some(at) => {
            let n = chars.len();
            let m = delimiter_chars.len();
            let before = s.substring_char(0, at);
            let after = s.substring_char(at + m, n);
            assert(s@ =~= before@ + delimiter@ + after@);
            Some((before, after))
        },
    }
}

/// `s` with every occurrence of `from` replaced by `to`, found from left to
/// right and not overlapping. An empty `from` occurs nowhere.
pub fn replace(s: &str, from: &str, to: &str) -> (changed: String)
    ensures
        changed@ == replaced(s@, from@, to@),
{
    let chars = chars_of(s);
    let from_chars = chars_of(from);
    let n = chars.len();
    let m = from_chars.len();
    if m == 0 {
        return s.to_owned();
    }
    let mut changed = String::new();
    let mut pos: usize = 0;
    assert(s@.skip(0) =~= s@);
    assert(changed@ + replaced(s@, from@, to@) =~= replaced(s@, from@, to@));
    while pos < n
        invariant
            pos <= n,
            m > 0,
            n == chars@.len(),
            m == from_chars@.len(),
            chars@ == s@,
            from_chars@ == from@,
            changed@ + replaced(s@.skip(pos as int), from@, to@) == replaced(s@, from@, to@),
        decreases n - pos,
    {
        let ghost here = s@.skip(pos as int);
        let ghost before = changed@;
        if n - pos < m {
            changed.append(s.substring_char(pos, n));
            proof {
                assert(s@.subrange(pos as int, n as int) =~= here);
                assert(s@.skip(n as int) =~= Seq::<char>::empty());
                assert(changed@ + replaced(s@.skip(n as int), from@, to@) =~= before + here);
            }
            pos = n;
        } else if matches_at(&chars, &from_chars, pos) {
            changed.append(to);
            proof {
                assert(here.subrange(0, m as int) =~= s@.subrange(pos as int, pos + m));
                assert(from@.is_prefix_of(here));
                assert(here.skip(m as int) =~= s@.skip(pos + m));
                assert(changed@ + replaced(s@.skip(pos + m), from@, to@) =~= before + (to@
                    + replaced(here.skip(m as int), from@, to@)));
            }
            pos += m;
        } else {
            changed.append(s.substring_char(pos, pos + 1));
            proof {
                assert(here.subrange(0, m as int) =~= s@.subrange(pos as int, pos + m));
                assert(!from@.is_prefix_of(here));
                assert(s@.subrange(pos as int, pos + 1) =~= seq![here[0]]);
                assert(here.drop_first() =~= s@.skip(pos + 1));
                assert(changed@ + replaced(s@.skip(pos + 1), from@, to@) =~= before + (seq![
                    here[0],
                ] + replaced(here.drop_first(), from@, to@)));
            }
            pos += 1;
        }
    }
    assert(s@.skip(n as int) =~= Seq::<char>::empty());
    assert(changed@ + Seq::<char>::empty() =~= changed@);
    changed
}

/// Whether `a` stands before `b`, or is `b`, in the order of `str`.
pub fn le(a: &str, b: &str) -> (below: bool)
    ensures
        below == text_le(a@, b@),
{
    let left = chars_of(a);
    let right = chars_of(b);
    let mut i: usize = 0;
    assert(a@.skip(0) =~= a@ && b@.skip(0) =~= b@);
    while i < left.len() && i < right.len()
        invariant
            i <= left@.len(),
            i <= right@.len(),
            left@ == a@,
            right@ == b@,
            text_le(a@, b@) == text_le(a@.skip(i as int), b@.skip(i as int)),
        decreases left@.len() - i,
    {
        let ghost x = a@.skip(i as int);
        let ghost y = b@.skip(i as int);
        assert(x[0] == left@[i as int] && y[0] == right@[i as int]);
        if left[i] != right[i] {
            return left[i] < right[i];
        }
        assert(x.drop_first() =~= a@.skip(i + 1));
        assert(y.drop_first() =~= b@.skip(i + 1));
        i += 1;
    }
    i == left.len()
}

fn digit_text(d: u32) -> (text: &'static str)
    requires
        d < 10,
    ensures
        text@ == seq![digit_char(d as nat)],
{
    proof {
        reveal_strlit("0");
        reveal_strlit("1");
        reveal_strlit("2");
        reveal_strlit("3");
        reveal_strlit("4");
        reveal_strlit("5");
        reveal_strlit("6");
        reveal_strlit("7");
        reveal_strlit("8");
        reveal_strlit("9");
    }
    let text = if d == 0 {
        "0"
    } else if d == 1 {
        "1"
    } else if d == 2 {
        "2"
    } else if d == 3 {
        "3"
    } else if d == 4 {
        "4"
    } else if d == 5 {
        "5"
    } else if d == 6 {
        "6"
    } else if d == 7 {
        "7"
    } else if d == 8 {
        "8"
    } else {
        "9"
    };
    assert(text@ =~= seq![digit_char(d as nat)]);
    text
}

/// `n` in decimal.
pub fn decimal_text(n: u32) -> (text: String)
    ensures
        text@ == decimal(n as nat),
    decreases n,
{
    if n < 10 {
        digit_text(n).to_owned()
    } else {
        let mut text = decimal_text(n / 10);
        text.append(digit_text(n % 10));
        assert(text@ =~= decimal((n / 10) as nat).push(digit_char((n % 10) as nat)));
        text
    }
}

/// `n` in decimal, with its sign.
pub fn signed_decimal_text(n: i32) -> (text: String)
    ensures
        text@ == signed_decimal(n as int),
{
    if n < 0 {
        let magnitude: u32 = if n == i32::MIN {
            2147483648u32
        } else {
            (-n) as u32
        };
        proof {
            reveal_strlit("-");
        }
        let digits = decimal_text(magnitude);
        let text = join("-", digits.as_str());
        assert(text@ =~= seq!['-'] + decimal((-(n as int)) as nat));
        text
    } else {
        decimal_text(n as u32)
    }
}

} // verus!
