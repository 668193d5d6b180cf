//! Character-level text helpers: everything above them speaks of strings as
//! sequences of characters.

use vstd::prelude::*;
use vstd::string::StringExecFns;

verus! {

/// `String::push` appends one character at the end.
pub assume_specification[ String::push ](s: &mut String, c: char)
    ensures
        final(s)@ == old(s)@.push(c),
;

/// The characters of `s`, in order.
pub fn chars_of(s: &str) -> (out: Vec<char>)
    ensures
        out@ == s@,
{
    let mut out: Vec<char> = Vec::new();
    for c in it: s.chars()
        invariant
            it.seq() == s@,
            out@ == s@.take(it.index() as int),
    {
        out.push(c);
        assert(s@.take(it.index() + 1) =~= s@.take(it.index() as int).push(c));
    }
    assert(s@.take(s@.len() as int) =~= s@);
    out
}

/// The string made of `chars`, in order.
pub fn string_of(chars: &[char]) -> (out: String)
    ensures
        out@ == chars@,
{
    let mut out: String = String::new();
    let mut i: usize = 0;
    while i < chars.len()
        invariant
            i <= chars.len(),
            out@ == chars@.take(i as int),
        decreases chars.len() - i,
    {
        out.push(chars[i]);
        i += 1;
        assert(chars@.take(i as int) =~= chars@.take(i - 1).push(chars@[i - 1]));
    }
    assert(chars@.take(chars@.len() as int) =~= chars@);
    out
}

/// `c` with an upper-case ASCII letter replaced by its lower-case form.
pub open spec fn ascii_lower(c: char) -> char {
    if 'A' <= c <= 'Z' {
        (c as u32 + 32) as char
    } else {
        c
    }
}

pub open spec fn ascii_lower_all(s: Seq<char>) -> Seq<char> {
    s.map_values(|c: char| ascii_lower(c))
}

pub fn to_ascii_lower(c: char) -> (r: char)
    ensures
        r == ascii_lower(c),
{
    if 'A' <= c && c <= 'Z' {
        (c as u8 + 32) as char
    } else {
        c
    }
}

/// `chars` with every upper-case ASCII letter lowered.
pub fn lower_chars(chars: &[char]) -> (out: Vec<char>)
    ensures
        out@ == ascii_lower_all(chars@),
{
    let mut out: Vec<char> = Vec::new();
    let mut i: usize = 0;
    while i < chars.len()
        invariant
            i <= chars.len(),
            out@ == ascii_lower_all(chars@).take(i as int),
        decreases chars.len() - i,
    {
        out.push(to_ascii_lower(chars[i]));
        i += 1;
        assert(ascii_lower_all(chars@).take(i as int) =~= ascii_lower_all(chars@).take(i - 1).push(
            ascii_lower(chars@[i - 1]),
        ));
    }
    assert(ascii_lower_all(chars@).take(chars@.len() as int) =~= ascii_lower_all(chars@));
    out
}

/// Whether two character runs are the same.
pub fn same_chars(a: &[char], b: &[char]) -> (r: bool)
    ensures
        r == (a@ == b@),
{
    if a.len() != b.len() {
        return false;
    }
    let mut i: usize = 0;
    while i < a.len()
        invariant
            i <= a.len(),
            a.len() == b.len(),
            a@.take(i as int) == b@.take(i as int),
        decreases a.len() - i,
    {
        if a[i] != b[i] {
            assert(a@[i as int] != b@[i as int]);
            return false;
        }
        i += 1;
        assert(a@.take(i as int) =~= a@.take(i - 1).push(a@[i - 1]));
        assert(b@.take(i as int) =~= b@.take(i - 1).push(b@[i - 1]));
    }
    assert(a@.take(a@.len() as int) =~= a@);
    assert(b@.take(b@.len() as int) =~= b@);
    true
}

/// Whether two strings hold the same characters.
pub fn same_str(a: &str, b: &str) -> (r: bool)
    ensures
        r == (a@ == b@),
{
    same_chars(chars_of(a).as_slice(), chars_of(b).as_slice())
}

/// Whether `a` and `b` are equal up to the case of ASCII letters.
pub open spec fn ascii_equal(a: Seq<char>, b: Seq<char>) -> bool {
    ascii_lower_all(a) == ascii_lower_all(b)
}

/// `ascii_equal`, computed.
pub fn same_ignoring_case(a: &str, b: &str) -> (r: bool)
    ensures
        r == ascii_equal(a@, b@),
{
    let la = lower_chars(chars_of(a).as_slice());
    let lb = lower_chars(chars_of(b).as_slice());
    same_chars(la.as_slice(), lb.as_slice())
}

/// Whether `needle` occurs in `hay` starting at position `at`.
pub open spec fn occurs_at(hay: Seq<char>, needle: Seq<char>, at: int) -> bool {
    0 <= at <= hay.len() - needle.len() && hay.subrange(at, at + needle.len()) == needle
}

/// Whether `needle` occurs somewhere in `hay`.
pub open spec fn occurs(hay: Seq<char>, needle: Seq<char>) -> bool {
    exists|at: int| #[trigger] occurs_at(hay, needle, at)
}

/// Whether `needle` stands in `hay` at `at`.
pub fn stands_at(hay: &[char], needle: &[char], at: usize) -> (r: bool)
    requires
        at <= hay.len(),
    ensures
        r == occurs_at(hay@, needle@, at as int),
{
    if needle.len() > hay.len() - at {
        return false;
    }
    let mut i: usize = 0;
    while i < needle.len()
        invariant
            i <= needle.len(),
            at + needle.len() <= hay.len(),
            forall|k: int| 0 <= k < i ==> hay@[at + k] == needle@[k],
        decreases needle.len() - i,
    {
        if hay[at + i] != needle[i] {
            assert(hay@.subrange(at as int, at + needle.len())[i as int] != needle@[i as int]);
            return false;
        }
        i += 1;
    }
    assert(hay@.subrange(at as int, at + needle.len()) =~= needle@);
    true
}

/// Whether `needle` occurs in `hay`.
pub fn contains_chars(hay: &[char], needle: &[char]) -> (r: bool)
    ensures
        r == occurs(hay@, needle@),
{
    if needle.len() > hay.len() {
        return false;
    }
    let last: usize = hay.len() - needle.len();
    let mut at: usize = 0;
    while at < last
        invariant
            at <= last,
            last == hay.len() - needle.len(),
            forall|k: int| 0 <= k < at ==> !occurs_at(hay@, needle@, k),
        decreases last - at,
    {
        if stands_at(hay, needle, at) {
            return true;
        }
        at += 1;
    }
    stands_at(hay, needle, last)
}

/// Whether the text `needle` occurs in `hay`.
pub fn contains_str(hay: &[char], needle: &str) -> (r: bool)
    ensures
        r == occurs(hay@, needle@),
{
    contains_chars(hay, chars_of(needle).as_slice())
}

/// The characters with the Unicode `White_Space` property.
pub open spec fn whitespace(c: char) -> bool {
    let n = c as u32;
    0x9 <= n <= 0xd || n == 0x20 || n == 0x85 || n == 0xa0 || n == 0x1680 || 0x2000 <= n <= 0x200a
        || n == 0x2028 || n == 0x2029 || n == 0x202f || n == 0x205f || n == 0x3000
}

pub fn is_whitespace(c: char) -> (r: bool)
    ensures
        r == whitespace(c),
{
    let n: u32 = c as u32;
    (0x9 <= n && n <= 0xd) || n == 0x20 || n == 0x85 || n == 0xa0 || n == 0x1680 || (0x2000 <= n
        && n <= 0x200a) || n == 0x2028 || n == 0x2029 || n == 0x202f || n == 0x205f || n == 0x3000
}

/// `s` without its leading white space.
pub open spec fn trim_front(s: Seq<char>) -> Seq<char>
    decreases s.len(),
{
    if s.len() > 0 && whitespace(s[0]) {
        trim_front(s.drop_first())
    } else {
        s
    }
}

/// `s` without its trailing white space.
pub open spec fn trim_back(s: Seq<char>) -> Seq<char>
    decreases s.len(),
{
    if s.len() > 0 && whitespace(s.last()) {
        trim_back(s.drop_last())
    } else {
        s
    }
}

/// `s` without white space at either end.
pub open spec fn trimmed(s: Seq<char>) -> Seq<char> {
    trim_back(trim_front(s))
}

/// `text` without white space at either end.
pub fn trim(text: &str) -> (out: String)
    ensures
        out@ == trimmed(text@),
{
    let chars = chars_of(text);
    let n: usize = chars.len();
    let mut from: usize = 0;
    assert(chars@.subrange(0, n as int) =~= chars@);
    while from < n && is_whitespace(chars[from])
        invariant
            from <= n,
            n == chars.len(),
            trim_front(chars@) == trim_front(chars@.subrange(from as int, n as int)),
        decreases n - from,
    {
        from += 1;
        assert(chars@.subrange(from - 1, n as int).drop_first() =~= chars@.subrange(
            from as int,
            n as int,
        ));
    }
    let ghost front = chars@.subrange(from as int, n as int);
    assert(trim_front(front) == front);
    let mut to: usize = n;
    while to > from && is_whitespace(chars[to - 1])
        invariant
            from <= to <= n,
            n == chars.len(),
            trim_back(front) == trim_back(chars@.subrange(from as int, to as int)),
        decreases to,
    {
        to -= 1;
        assert(chars@.subrange(from as int, to + 1).drop_last() =~= chars@.subrange(
            from as int,
            to as int,
        ));
    }
    let kept = vstd::slice::slice_subrange(chars.as_slice(), from, to);
    string_of(kept)
}

proof fn front_keeps_the_rest(s: Seq<char>)
    ensures
        trim_front(s).len() <= s.len(),
        trim_front(s).len() > 0 ==> !whitespace(trim_front(s)[0]),
    decreases s.len(),
{
    if s.len() > 0 && whitespace(s[0]) {
        front_keeps_the_rest(s.drop_first());
    }
}

proof fn back_keeps_the_rest(s: Seq<char>)
    ensures
        trim_back(s).len() <= s.len(),
        trim_back(s) == s.take(trim_back(s).len() as int),
        trim_back(s).len() > 0 ==> !whitespace(trim_back(s).last()),
    decreases s.len(),
{
    if s.len() > 0 && whitespace(s.last()) {
        back_keeps_the_rest(s.drop_last());
        assert(s.drop_last().take(trim_back(s).len() as int) =~= s.take(
            trim_back(s).len() as int,
        ));
    } else {
        assert(s.take(s.len() as int) =~= s);
    }
}

/// A text that begins and ends with something else than white space is its own
/// trimmed form.
pub proof fn unspaced_is_trimmed(s: Seq<char>)
    requires
        s.len() > 0 ==> !whitespace(s[0]) && !whitespace(s.last()),
    ensures
        trimmed(s) == s,
{
}

/// Trimming hides no word: what begins and ends with something else than white
/// space occurs in a text exactly where it occurs in its trimmed form, in any case of
/// its letters.
pub proof fn trimming_hides_nothing(s: Seq<char>, word: Seq<char>)
    requires
        word.len() > 0,
        !whitespace(word[0]),
        !whitespace(word.last()),
    ensures
        occurs(ascii_lower_all(trimmed(s)), word) == occurs(ascii_lower_all(s), word),
{
    front_hides_nothing(s, word);
    back_hides_nothing(trim_front(s), word);
}

proof fn front_hides_nothing(s: Seq<char>, word: Seq<char>)
    requires
        word.len() > 0,
        !whitespace(word[0]),
    ensures
        occurs(ascii_lower_all(trim_front(s)), word) == occurs(ascii_lower_all(s), word),
    decreases s.len(),
{
    if s.len() > 0 && whitespace(s[0]) {
        let rest = s.drop_first();
        front_hides_nothing(rest, word);
        let all = ascii_lower_all(s);
        let less = ascii_lower_all(rest);
        assert forall|at: int| occurs_at(all, word, at) implies occurs(less, word) by {
            assert(all.subrange(at, at + word.len())[0] == word[0]);
            assert(at != 0);
            assert(less.subrange(at - 1, at - 1 + word.len()) =~= all.subrange(
                at,
                at + word.len(),
            ));
            assert(occurs_at(less, word, at - 1));
        }
        assert forall|at: int| occurs_at(less, word, at) implies occurs(all, word) by {
            assert(all.subrange(at + 1, at + 1 + word.len()) =~= less.subrange(
                at,
                at + word.len(),
            ));
            assert(occurs_at(all, word, at + 1));
        }
    }
}

proof fn back_hides_nothing(s: Seq<char>, word: Seq<char>)
    requires
        word.len() > 0,
        !whitespace(word.last()),
    ensures
        occurs(ascii_lower_all(trim_back(s)), word) == occurs(ascii_lower_all(s), word),
    decreases s.len(),
{
    if s.len() > 0 && whitespace(s.last()) {
        let rest = s.drop_last();
        back_hides_nothing(rest, word);
        let all = ascii_lower_all(s);
        let less = ascii_lower_all(rest);
        assert forall|at: int| occurs_at(all, word, at) implies occurs(less, word) by {
            assert(all.subrange(at, at + word.len()).last() == word.last());
            assert(at + word.len() != s.len());
            assert(less.subrange(at, at + word.len()) =~= all.subrange(at, at + word.len()));
            assert(occurs_at(less, word, at));
        }
        assert forall|at: int| occurs_at(less, word, at) implies occurs(all, word) by {
            assert(all.subrange(at, at + word.len()) =~= less.subrange(at, at + word.len()));
            assert(occurs_at(all, word, at));
        }
    }
}

/// Trimming twice is trimming once.
pub proof fn trimming_is_final(s: Seq<char>)
    ensures
        trimmed(trimmed(s)) == trimmed(s),
{
    front_keeps_the_rest(s);
    back_keeps_the_rest(trim_front(s));
    if trimmed(s).len() > 0 {
        assert(trimmed(s)[0] == trim_front(s)[0]);
    }
    unspaced_is_trimmed(trimmed(s));
}

/// The decimal digit `n`, for `n` below ten.
pub open spec fn digit(n: int) -> char {
    (n + 48) as char
}

/// `n` in decimal, without leading zeros.
pub open spec fn decimal(n: nat) -> Seq<char>
    decreases n,
{
    if n < 10 {
        seq![digit(n as int)]
    } else {
        decimal(n / 10).push(digit((n % 10) as int))
    }
}

/// `n` in decimal, with a sign when negative.
pub open spec fn signed_decimal(n: int) -> Seq<char> {
    if n < 0 {
        seq!['-'] + decimal((-n) as nat)
    } else {
        decimal(n as nat)
    }
}

/// `n` in decimal.
pub fn decimal_of(n: u64) -> (out: String)
    ensures
        out@ == decimal(n as nat),
    decreases n,
{
    if n < 10 {
        let mut out: String = String::new();
        out.push((n as u8 + 48) as char);
        assert(out@ =~= decimal(n as nat));
        out
    } else {
        let mut out: String = decimal_of(n / 10);
        out.push(((n % 10) as u8 + 48) as char);
        out
    }
}

/// `n` in decimal, with a sign when negative.
pub fn signed_decimal_of(n: i64) -> (out: String)
    ensures
        out@ == signed_decimal(n as int),
{
    if n >= 0 {
        decimal_of(n as u64)
    } else {
        let mut out: String = String::new();
        out.push('-');
        let magnitude: u64 = (-(n as i128)) as u64;
        let digits: String = decimal_of(magnitude);
        out.append(digits.as_str());
        assert(out@ =~= signed_decimal(n as int));
        out
    }
}

/// The lower-case hexadecimal digit `n`, for `n` below sixteen.
pub open spec fn hex_digit(n: int) -> char {
    if n < 10 {
        (n + 48) as char
    } else {
        (n + 87) as char
    }
}

/// The upper-case hexadecimal digit `n`, for `n` below sixteen.
pub open spec fn hex_digit_upper(n: int) -> char {
    if n < 10 {
        (n + 48) as char
    } else {
        (n + 55) as char
    }
}

/// A byte as two lower-case hexadecimal digits.
pub open spec fn hex_byte(b: u8) -> Seq<char> {
    seq![hex_digit((b / 16) as int), hex_digit((b % 16) as int)]
}

/// A byte as two upper-case hexadecimal digits.
pub open spec fn hex_byte_upper(b: u8) -> Seq<char> {
    seq![hex_digit_upper((b / 16) as int), hex_digit_upper((b % 16) as int)]
}

fn hex_digit_of(n: u8, ten: u8) -> (c: char)
    requires
        n < 16,
        ten == 87 || ten == 55,
    ensures
        ten == 87 ==> c == hex_digit(n as int),
        ten == 55 ==> c == hex_digit_upper(n as int),
{
    if n < 10 {
        (n + 48) as char
    } else {
        (n + ten) as char
    }
}

/// Appends `b` as two lower-case hexadecimal digits.
pub fn push_hex_byte(out: &mut String, b: u8)
    ensures
        final(out)@ == old(out)@ + hex_byte(b),
{
    out.push(hex_digit_of(b / 16, 87));
    out.push(hex_digit_of(b % 16, 87));
    assert(out@ =~= old(out)@ + hex_byte(b));
}

/// Appends `b` as two upper-case hexadecimal digits.
pub fn push_hex_byte_upper(out: &mut String, b: u8)
    ensures
        final(out)@ == old(out)@ + hex_byte_upper(b),
{
    out.push(hex_digit_of(b / 16, 55));
    out.push(hex_digit_of(b % 16, 55));
    assert(out@ =~= old(out)@ + hex_byte_upper(b));
}

/// `n` in lower-case hexadecimal, without leading zeros.
pub open spec fn hex(n: nat) -> Seq<char>
    decreases n,
{
    if n < 16 {
        seq![hex_digit(n as int)]
    } else {
        hex(n / 16).push(hex_digit((n % 16) as int))
    }
}

/// `n` in lower-case hexadecimal.
pub fn hex_of(n: u64) -> (out: String)
    ensures
        out@ == hex(n as nat),
    decreases n,
{
    if n < 16 {
        let mut out: String = String::new();
        out.push(hex_digit_of(n as u8, 87));
        assert(out@ =~= hex(n as nat));
        out
    } else {
        let mut out: String = hex_of(n / 16);
        out.push(hex_digit_of((n % 16) as u8, 87));
        out
    }
}

/// A 16-bit value as four lower-case hexadecimal digits.
pub open spec fn hex4(n: u16) -> Seq<char> {
    hex_byte((n / 256) as u8) + hex_byte((n % 256) as u8)
}

/// Appends `n` as four lower-case hexadecimal digits.
pub fn push_hex4(out: &mut String, n: u16)
    ensures
        final(out)@ == old(out)@ + hex4(n),
{
    push_hex_byte(out, (n / 256) as u8);
    push_hex_byte(out, (n % 256) as u8);
    assert(out@ =~= old(out)@ + hex4(n));
}

/// Appends `more` to `out`.
pub fn put(out: &mut String, more: &str)
    ensures
        final(out)@ == old(out)@ + more@,
{
    out.append(more);
}

/// Whether a character separates path components.
pub open spec fn is_separator(c: char) -> bool {
    c == '\\' || c == '/'
}

/// What follows the last separator.
pub open spec fn base_name(s: Seq<char>) -> Seq<char>
    decreases s.len(),
{
    if s.len() == 0 {
        s
    } else if is_separator(s.last()) {
        seq![]
    } else {
        base_name(s.drop_last()).push(s.last())
    }
}

/// The characters after the last separator.
pub fn base_name_chars(chars: &[char]) -> (out: &[char])
    ensures
        out@ == base_name(chars@),
{
    let n: usize = chars.len();
    let mut from: usize = n;
    assert(chars@.take(n as int) =~= chars@);
    assert(base_name(chars@) =~= base_name(chars@) + chars@.subrange(n as int, n as int));
    while from > 0 && chars[from - 1] != '\\' && chars[from - 1] != '/'
        invariant
            from <= n,
            n == chars.len(),
            base_name(chars@) == base_name(chars@.take(from as int)) + chars@.subrange(
                from as int,
                n as int,
            ),
        decreases from,
    {
        from -= 1;
        assert(chars@.take(from + 1).drop_last() =~= chars@.take(from as int));
        assert(chars@.take(from + 1).last() == chars@[from as int]);
        assert(base_name(chars@.take(from + 1)) + chars@.subrange(from + 1, n as int)
            =~= base_name(chars@.take(from as int)) + chars@.subrange(from as int, n as int));
    }
    proof {
        if from > 0 {
            assert(chars@.take(from as int).last() == chars@[from - 1]);
        }
        assert(base_name(chars@.take(from as int)) =~= Seq::<char>::empty());
        assert(base_name(chars@) =~= chars@.subrange(from as int, n as int));
    }
    vstd::slice::slice_subrange(chars, from, n)
}

/// What follows the last separator of `path`.
pub fn base_name_of(path: &str) -> (out: String)
    ensures
        out@ == base_name(path@),
{
    string_of(base_name_chars(chars_of(path).as_slice()))
}

/// A base name holds no separator.
pub proof fn base_name_has_no_separator(s: Seq<char>)
    ensures
        forall|i: int| 0 <= i < base_name(s).len() ==> !is_separator(#[trigger] base_name(s)[i]),
    decreases s.len(),
{
    if s.len() > 0 {
        base_name_has_no_separator(s.drop_last());
        let init = base_name(s.drop_last());
        assert forall|i: int| 0 <= i < base_name(s).len() implies !is_separator(
            #[trigger] base_name(s)[i],
        ) by {
            if i < init.len() {
                assert(!is_separator(init[i]));
            }
        }
    }
}

/// `s` with each occurrence of `from` replaced by `to`, found from the left and
/// not overlapping.
pub open spec fn replaced(s: Seq<char>, from: Seq<char>, to: Seq<char>) -> Seq<char>
    decreases s.len(),
{
    if from.len() == 0 || s.len() < from.len() {
        s
    } else if occurs_at(s, from, 0) {
        to + replaced(s.skip(from.len() as int), from, to)
    } else {
        seq![s[0]] + replaced(s.skip(1), from, to)
    }
}

/// `replaced`, computed.
pub fn replace_all(s: &str, from: &str, to: &str) -> (out: String)
    requires
        from@.len() > 0,
    ensures
        out@ == replaced(s@, from@, to@),
{
    let chars = chars_of(s);
    let needle = chars_of(from);
    let mut out: String = "".to_owned();
    let mut at: usize = 0;
    proof {
        reveal_strlit("");
        assert(chars@.skip(0) =~= chars@);
        assert(Seq::<char>::empty() + replaced(s@, from@, to@) =~= replaced(s@, from@, to@));
        assert(""@ =~= Seq::<char>::empty());
    }
    while at < chars.len()
        invariant
            at <= chars.len(),
            chars@ == s@,
            needle@ == from@,
            from@.len() > 0,
            out@ + replaced(chars@.skip(at as int), from@, to@) == replaced(s@, from@, to@),
        decreases chars.len() - at,
    {
        let ghost rest = chars@.skip(at as int);
        let ghost before = out@;
        let hit: bool = stands_at(chars.as_slice(), needle.as_slice(), at);
        proof {
            if hit {
                assert(rest.subrange(0, from@.len() as int) =~= chars@.subrange(
                    at as int,
                    at + from@.len(),
                ));
                assert(occurs_at(rest, from@, 0));
                assert(rest.skip(from@.len() as int) =~= chars@.skip(at + from@.len()));
            } else {
                if occurs_at(rest, from@, 0) {
                    assert(chars@.subrange(at as int, at + from@.len()) =~= rest.subrange(
                        0,
                        from@.len() as int,
                    ));
                }
                assert(rest.skip(1) =~= chars@.skip(at + 1));
                if rest.len() < from@.len() {
                    assert(replaced(rest.skip(1), from@, to@) == rest.skip(1));
                    assert(seq![rest[0]] + rest.skip(1) =~= rest);
                }
            }
        }
        if hit {
            put(&mut out, to);
            at += needle.len();
            assert(before + (to@ + replaced(chars@.skip(at as int), from@, to@)) =~= out@
                + replaced(chars@.skip(at as int), from@, to@));
        } else {
            out.push(chars[at]);
            at += 1;
            assert(before + (seq![rest[0]] + replaced(chars@.skip(at as int), from@, to@)) =~= out@
                + replaced(chars@.skip(at as int), from@, to@));
        }
    }
    assert(out@ + replaced(chars@.skip(at as int), from@, to@) =~= out@);
    out
}

/// The three texts one after another.
pub fn concat3(a: &str, b: &str, c: &str) -> (out: String)
    ensures
        out@ == a@ + b@ + c@,
{
    let mut out: String = a.to_owned();
    out.append(b);
    out.append(c);
    out
}

/// The two texts one after another.
pub fn concat2(a: &str, b: &str) -> (out: String)
    ensures
        out@ == a@ + b@,
{
    let mut out: String = a.to_owned();
    out.append(b);
    out
}

/// The base name of a path is what was put behind the last backslash or slash, and a
/// name without either is its own base name.
pub proof fn base_name_drops_the_directories(dir: Seq<char>, name: Seq<char>)
    requires
        forall|i: int| 0 <= i < name.len() ==> #[trigger] name[i] != '\\' && name[i] != '/',
    ensures
        base_name(dir + seq!['\\'] + name) == name,
        base_name(dir + seq!['/'] + name) == name,
        base_name(name) == name,
    decreases name.len(),
{
    let a = dir + seq!['\\'];
    let b = dir + seq!['/'];
    if name.len() == 0 {
        assert(a + name =~= a && b + name =~= b);
        assert(a.last() == '\\' && b.last() == '/');
        assert(base_name(a) =~= name && base_name(b) =~= name);
    } else {
        let init = name.drop_last();
        base_name_drops_the_directories(dir, init);
        assert((a + name).drop_last() =~= a + init);
        assert((b + name).drop_last() =~= b + init);
        assert((a + name).last() == name.last() && (b + name).last() == name.last());
        assert(name[name.len() - 1] == name.last());
        assert(init.push(name.last()) =~= name);
    }
}

/// Lowering turns A to Z into a to z and leaves every other character as it is.
pub proof fn lowering_is_letter_by_letter(s: Seq<char>, i: int)
    requires
        0 <= i < s.len(),
    ensures
        ascii_lower_all(s).len() == s.len(),
        !('A' <= ascii_lower_all(s)[i] <= 'Z'),
        'A' <= s[i] <= 'Z' ==> ascii_lower_all(s)[i] as int == s[i] as int + ('a' as int - 'A' as int),
        !('A' <= s[i] <= 'Z') ==> ascii_lower_all(s)[i] == s[i],
{
}

/// The number that a run of decimal digits stands for.
pub open spec fn number_of(digits: Seq<char>) -> int
    decreases digits.len(),
{
    if digits.len() == 0 {
        0
    } else {
        10 * number_of(digits.drop_last()) + (digits.last() as int - '0' as int)
    }
}

/// A number in decimal is made of digits, begins with zero only where it is zero, and
/// stands for the number.
pub proof fn decimal_stands_for_the_number(n: nat)
    ensures
        number_of(decimal(n)) == n,
        decimal(n).len() > 0,
        forall|i: int| 0 <= i < decimal(n).len() ==> '0' <= #[trigger] decimal(n)[i] <= '9',
        decimal(n)[0] == '0' <==> n == 0,
    decreases n,
{
    reveal_with_fuel(number_of, 2);
    if n >= 10 {
        decimal_stands_for_the_number(n / 10);
        assert(decimal(n).drop_last() =~= decimal(n / 10));
    } else {
        assert(decimal(n).drop_last() =~= Seq::<char>::empty());
    }
}

/// A byte in hexadecimal is two digits, the higher first.
pub proof fn hex_bytes_stand_for_the_byte(b: u8)
    ensures
        hex_byte(b).len() == 2,
        hex_value(hex_byte(b)[0]) * 16 + hex_value(hex_byte(b)[1]) == b,
        hex_byte_upper(b).len() == 2,
        hex_value(hex_byte_upper(b)[0]) * 16 + hex_value(hex_byte_upper(b)[1]) == b,
        forall|i: int| 0 <= i < 2 ==> !('A' <= #[trigger] hex_byte(b)[i] <= 'F'),
        forall|i: int| 0 <= i < 2 ==> !('a' <= #[trigger] hex_byte_upper(b)[i] <= 'f'),
{
}

/// What a hexadecimal digit stands for.
pub open spec fn hex_value(c: char) -> int {
    if '0' <= c <= '9' {
        c as int - '0' as int
    } else if 'a' <= c <= 'f' {
        c as int - 'a' as int + 10
    } else if 'A' <= c <= 'F' {
        c as int - 'A' as int + 10
    } else {
        -1
    }
}

/// Replacing leaves a text as it is in which there is nothing to replace, and replaces
/// what there is: between two texts, the first of which ends before any occurrence
/// begins, the searched text gives way to the other.
pub proof fn replacing_replaces_what_is_there(
    head: Seq<char>,
    from: Seq<char>,
    to: Seq<char>,
    rest: Seq<char>,
)
    requires
        from.len() > 0,
        forall|at: int| 0 <= at < head.len() ==> !#[trigger] occurs_at(head + from + rest, from, at),
    ensures
        replaced(head + from + rest, from, to) == head + to + replaced(rest, from, to),
        !occurs(rest, from) ==> replaced(rest, from, to) == rest,
    decreases head.len(),
{
    let s = head + from + rest;
    if !occurs(rest, from) {
        nothing_is_replaced(rest, from, to);
    }
    if head.len() == 0 {
        assert(s.subrange(0, from.len() as int) =~= from);
        assert(occurs_at(s, from, 0));
        assert(s.skip(from.len() as int) =~= rest);
        assert(head + to + replaced(rest, from, to) =~= to + replaced(rest, from, to));
    } else {
        assert(!occurs_at(s, from, 0));
        let tail = head.skip(1);
        assert(s.skip(1) =~= tail + from + rest);
        assert forall|at: int| 0 <= at < tail.len() implies !#[trigger] occurs_at(
            tail + from + rest,
            from,
            at,
        ) by {
            if occurs_at(tail + from + rest, from, at) {
                assert(s.subrange(at + 1, at + 1 + from.len()) =~= (tail + from + rest).subrange(
                    at,
                    at + from.len(),
                ));
                assert(occurs_at(s, from, at + 1));
            }
        }
        replacing_replaces_what_is_there(tail, from, to, rest);
        assert(s[0] == head[0]);
        assert(seq![s[0]] + (tail + to + replaced(rest, from, to)) =~= head + to + replaced(
            rest,
            from,
            to,
        ));
    }
}

proof fn nothing_is_replaced(s: Seq<char>, from: Seq<char>, to: Seq<char>)
    requires
        from.len() > 0,
        !occurs(s, from),
    ensures
        replaced(s, from, to) == s,
    decreases s.len(),
{
    if s.len() >= from.len() {
        assert(!occurs_at(s, from, 0));
        let t = s.skip(1);
        assert(!occurs(t, from)) by {
            if occurs(t, from) {
                let at = choose|at: int| #[trigger] occurs_at(t, from, at);
                assert(s.subrange(at + 1, at + 1 + from.len()) =~= t.subrange(at, at + from.len()));
                assert(occurs_at(s, from, at + 1));
            }
        }
        nothing_is_replaced(t, from, to);
        assert(seq![s[0]] + t =~= s);
    }
}

/// Blanks, tabs and line ends are white space, wide blanks too; visible ASCII is not.
pub proof fn white_space_is_what_cannot_be_seen(c: char)
    ensures
        c == ' ' || c == '\t' || c == '\n' || c == '\r' || c == '\u{b}' || c == '\u{c}' ==> whitespace(
            c,
        ),
        c == '\u{a0}' || c == '\u{2003}' || c == '\u{2028}' || c == '\u{3000}' || c == '\u{85}'
            ==> whitespace(c),
        '!' <= c <= '~' ==> !whitespace(c),
{
}

/// Trimming takes the white space from both ends and nothing else.
pub proof fn trimming_takes_the_margins(front: Seq<char>, s: Seq<char>, back: Seq<char>)
    requires
        forall|i: int| 0 <= i < front.len() ==> whitespace(#[trigger] front[i]),
        forall|i: int| 0 <= i < back.len() ==> whitespace(#[trigger] back[i]),
        s.len() > 0 ==> !whitespace(s[0]) && !whitespace(s.last()),
    ensures
        trimmed(front + s + back) == s,
    decreases front.len() + back.len(),
{
    let all = front + s + back;
    if front.len() > 0 {
        assert(all[0] == front[0]);
        assert(all.drop_first() =~= front.drop_first() + s + back);
        trimming_takes_the_margins(front.drop_first(), s, back);
    } else if s.len() == 0 {
        assert(all =~= back);
        if back.len() > 0 {
            assert(back.drop_first() =~= Seq::<char>::empty() + s + back.drop_first());
            assert(front =~= Seq::<char>::empty());
            trimming_takes_the_margins(front, s, back.drop_first());
            assert(all.drop_first() =~= front + s + back.drop_first());
        }
    } else {
        assert(all[0] == s[0]);
        assert(trim_front(all) == all);
        if back.len() > 0 {
            assert(all.last() == back.last());
            assert(all.drop_last() =~= front + s + back.drop_last());
            trimming_takes_the_margins(front, s, back.drop_last());
            let less = front + s + back.drop_last();
            assert(less[0] == s[0]);
            assert(trim_front(less) == less);
        } else {
            assert(all =~= s);
        }
    }
}

/// The number that a run of hexadecimal digits stands for.
pub open spec fn hex_number_of(digits: Seq<char>) -> int
    decreases digits.len(),
{
    if digits.len() == 0 {
        0
    } else {
        16 * hex_number_of(digits.drop_last()) + hex_value(digits.last())
    }
}

/// A number in hexadecimal is at least one digit, and stands for the number.
pub proof fn hexadecimal_stands_for_the_number(n: nat)
    ensures
        hex_number_of(hex(n)) == n,
        hex(n).len() > 0,
    decreases n,
{
    reveal_with_fuel(hex_number_of, 2);
    if n < 16 {
        assert(hex(n).drop_last() =~= Seq::<char>::empty());
    } else {
        hexadecimal_stands_for_the_number(n / 16);
        assert(hex(n).drop_last() =~= hex(n / 16));
    }
}

/// Four hexadecimal digits stand for the number, the highest first.
pub proof fn four_digits_stand_for_the_number(n: u16)
    ensures
        hex4(n).len() == 4,
        hex_value(hex4(n)[0]) * 4096 + hex_value(hex4(n)[1]) * 256 + hex_value(hex4(n)[2]) * 16
            + hex_value(hex4(n)[3]) == n,
{
    let high = (n / 256) as u8;
    let low = (n % 256) as u8;
    hex_bytes_stand_for_the_byte(high);
    hex_bytes_stand_for_the_byte(low);
    assert(hex4(n)[0] == hex_byte(high)[0] && hex4(n)[1] == hex_byte(high)[1] && hex4(n)[2]
        == hex_byte(low)[0] && hex4(n)[3] == hex_byte(low)[1]);
}

/// A negative number has a minus sign before its size, and no other number has one.
pub proof fn only_negative_numbers_have_a_sign(n: int)
    ensures
        n < 0 ==> signed_decimal(n)[0] == '-' && number_of(signed_decimal(n).skip(1)) == -n,
        n >= 0 ==> number_of(signed_decimal(n)) == n && signed_decimal(n)[0] != '-',
{
    if n < 0 {
        decimal_stands_for_the_number((-n) as nat);
        assert(signed_decimal(n).skip(1) =~= decimal((-n) as nat));
    } else {
        decimal_stands_for_the_number(n as nat);
        assert('0' <= decimal(n as nat)[0] <= '9');
    }
}

/// What stands between two texts occurs in them all.
pub proof fn the_middle_occurs(front: Seq<char>, middle: Seq<char>, back: Seq<char>)
    ensures
        occurs(front + middle + back, middle),
{
    let all = front + middle + back;
    let at = front.len() as int;
    assert(all.subrange(at, at + middle.len()) =~= middle);
    assert(occurs_at(all, middle, at));
}

} // verus!
