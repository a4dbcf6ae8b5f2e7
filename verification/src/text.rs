//! Operations on text, stated over sequences of characters.
//!
//! Every function here takes and returns ordinary strings; its contract speaks
//! of their views, the sequences of their characters.

use vstd::prelude::*;

verus! {

/// `String::push` of the standard library appends one character to a
/// string. Believed, as its documentation says: the string afterwards is the
/// string before with the character at its end.
pub assume_specification[ String::push ](s: &mut String, c: char)
    ensures
        final(s)@ == old(s)@.push(c),
;

/// An optional text as an optional sequence of characters.
pub open spec fn text_view(text: Option<String>) -> Option<Seq<char>> {
    match text {
        Some(t) => Some(t@),
        None => None,
    }
}

/// The number that `text` holds in decimal notation, as the standard parser
/// of 32-bit integers reads it; or the words of the parser on why it holds
/// none.
pub uninterp spec fn parsed_i32(text: Seq<char>) -> Result<int, Seq<char>>;

/// What a parser of numbers gave, with the words of an error as a sequence
/// of characters.
pub open spec fn number_view(parsed: Result<i32, String>) -> Result<int, Seq<char>> {
    match parsed {
        Ok(number) => Ok(number as int),
        Err(words) => Err(words@),
    }
}

/// Calls `str::parse` of the standard library for a 32-bit integer.
/// Believed: the result is the one that `parsed_i32` names, with the parser's
/// own words for an error.
#[verifier::external_body]
pub(crate) fn parse_i32(text: &str) -> (parsed: Result<i32, String>)
    ensures
        number_view(parsed) == parsed_i32(text@),
{
    match text.parse::<i32>() {
        Ok(number) => Ok(number),
        Err(error) => Err(error.to_string()),
    }
}

/// The texts of `texts` as sequences of characters.
pub open spec fn texts_view(texts: Seq<String>) -> Seq<Seq<char>> {
    Seq::new(texts.len(), |i: int| texts[i]@)
}

/// Whether `pat` stands in `s` at position `i`.
pub open spec fn occurs_at(s: Seq<char>, pat: Seq<char>, i: int) -> bool {
    0 <= i && i + pat.len() <= s.len() && s.subrange(i, i + pat.len()) == pat
}

/// `s` from position `i` to its end.
pub open spec fn tail(s: Seq<char>, i: int) -> Seq<char> {
    s.subrange(i, s.len() as int)
}

/// `s` with the first occurrence of `pat` replaced by `to`; `s` itself where
/// `pat` is empty or does not occur.
pub open spec fn replace_first(s: Seq<char>, pat: Seq<char>, to: Seq<char>) -> Seq<char>
    decreases s.len(),
{
    if pat.len() == 0 || s.len() < pat.len() {
        s
    } else if occurs_at(s, pat, 0) {
        to + tail(s, pat.len() as int)
    } else {
        seq![s[0]] + replace_first(tail(s, 1), pat, to)
    }
}

/// `s` with every occurrence of `pat` replaced by `to`, the occurrences taken
/// from left to right without overlap; `s` itself where `pat` is empty.
pub open spec fn replace_all(s: Seq<char>, pat: Seq<char>, to: Seq<char>) -> Seq<char>
    decreases s.len(),
{
    if pat.len() == 0 || s.len() < pat.len() {
        s
    } else if occurs_at(s, pat, 0) {
        to + replace_all(tail(s, pat.len() as int), pat, to)
    } else {
        seq![s[0]] + replace_all(tail(s, 1), pat, to)
    }
}

/// The part of `s` before the first occurrence of `pat`; all of `s` where
/// `pat` is empty or does not occur.
pub open spec fn before_first(s: Seq<char>, pat: Seq<char>) -> Seq<char>
    decreases s.len(),
{
    if pat.len() == 0 || s.len() < pat.len() {
        s
    } else if occurs_at(s, pat, 0) {
        Seq::empty()
    } else {
        seq![s[0]] + before_first(tail(s, 1), pat)
    }
}

/// The part of `s` from `start` on that follows the last occurrence of `pat`
/// found at or after `i`, the occurrences taken from left to right without
/// overlap; `s` from `start` on where there is none.
pub open spec fn after_last_from(s: Seq<char>, pat: Seq<char>, start: int, i: int) -> Seq<char>
    decreases s.len() - i,
{
    if pat.len() == 0 || i < 0 || i + pat.len() > s.len() {
        tail(s, start)
    } else if occurs_at(s, pat, i) {
        after_last_from(s, pat, i + pat.len(), i + pat.len())
    } else {
        after_last_from(s, pat, start, i + 1)
    }
}

/// The part of `s` after the last occurrence of `pat`; all of `s` where `pat`
/// is empty or does not occur.
pub open spec fn after_last(s: Seq<char>, pat: Seq<char>) -> Seq<char> {
    after_last_from(s, pat, 0, 0)
}

/// The characters with the Unicode property `White_Space`.
pub open spec fn is_white_space(c: char) -> bool {
    let n = c as u32;
    (0x09 <= n <= 0x0d) || n == 0x20 || n == 0x85 || n == 0xa0 || n == 0x1680 || (0x2000 <= n
        <= 0x200a) || n == 0x2028 || n == 0x2029 || n == 0x202f || n == 0x205f || n == 0x3000
}

/// `s` without its leading white space.
pub open spec fn trim_start(s: Seq<char>) -> Seq<char>
    decreases s.len(),
{
    if s.len() > 0 && is_white_space(s[0]) {
        trim_start(s.drop_first())
    } else {
        s
    }
}

/// `s` without its trailing white space.
pub open spec fn trim_end(s: Seq<char>) -> Seq<char>
    decreases s.len(),
{
    if s.len() > 0 && is_white_space(s.last()) {
        trim_end(s.drop_last())
    } else {
        s
    }
}

/// `s` without its leading and trailing white space.
pub open spec fn trim(s: Seq<char>) -> Seq<char> {
    trim_end(trim_start(s))
}

/// The parts in order, with `sep` between each two neighbours.
pub open spec fn join(parts: Seq<Seq<char>>, sep: Seq<char>) -> Seq<char>
    decreases parts.len(),
{
    if parts.len() == 0 {
        Seq::empty()
    } else if parts.len() == 1 {
        parts[0]
    } else {
        join(parts.drop_last(), sep) + sep + parts.last()
    }
}

/// The character of the decimal digit `d`.
pub open spec fn digit_char(d: int) -> char {
    (0x30 + d) as u8 as char
}

/// The decimal digits of `n`, most significant first, without leading zeros.
pub open spec fn digits(n: nat) -> Seq<char>
    decreases n,
{
    if n < 10 {
        seq![digit_char(n as int)]
    } else {
        digits(n / 10).push(digit_char((n % 10) as int))
    }
}

/// The decimal notation of `n`, with a minus sign where it is negative.
pub open spec fn decimal(n: int) -> Seq<char> {
    if n < 0 {
        seq!['-'] + digits((-n) as nat)
    } else {
        digits(n as nat)
    }
}

/// The characters of `s`, in order.
pub fn chars_of(s: &str) -> (out: Vec<char>)
    ensures
        out@ == s@,
{
    let mut out: Vec<char> = Vec::new();
    for c in it: s.chars()
        invariant
            it.seq() == s@,
            out@ == it.history(),
    {
        out.push(c);
    }
    assert(out@ =~= s@);
    out
}

/// Appends the characters `v[from..to]` to `out`.
pub fn push_chars(out: &mut String, v: &Vec<char>, from: usize, to: usize)
    requires
        from <= to <= v.len(),
    ensures
        final(out)@ == old(out)@ + v@.subrange(from as int, to as int),
{
    let mut i: usize = from;
    assert(v@.subrange(from as int, from as int) =~= Seq::<char>::empty());
    assert(out@ + Seq::<char>::empty() =~= out@);
    while i < to
        invariant
            from <= i <= to <= v.len(),
            out@ == old(out)@ + v@.subrange(from as int, i as int),
        decreases to - i,
    {
        out.push(v[i]);
        i = i + 1;
        assert(v@.subrange(from as int, i as int) =~= v@.subrange(from as int, i - 1).push(
            v@[i - 1],
        ));
        assert(out@ =~= old(out)@ + v@.subrange(from as int, i as int));
    }
}

/// The string made of the characters `v[from..to]`.
pub fn string_of(v: &Vec<char>, from: usize, to: usize) -> (out: String)
    requires
        from <= to <= v.len(),
    ensures
        out@ == v@.subrange(from as int, to as int),
{
    let mut out = String::new();
    push_chars(&mut out, v, from, to);
    assert(out@ =~= v@.subrange(from as int, to as int));
    out
}

/// Whether `pat` stands in `s` at position `i`.
pub fn matches_at(s: &Vec<char>, pat: &Vec<char>, i: usize) -> (found: bool)
    ensures
        found == occurs_at(s@, pat@, i as int),
{
    if pat.len() > s.len() || i > s.len() - pat.len() {
        return false;
    }
    let mut k: usize = 0;
    while k < pat.len()
        invariant
            k <= pat.len(),
            i + pat.len() <= s.len(),
            forall|j: int| 0 <= j < k ==> s@[i + j] == pat@[j],
        decreases pat.len() - k,
    {
        if s[i + k] != pat[k] {
            assert(s@.subrange(i as int, i + pat.len())[k as int] != pat@[k as int]);
            return false;
        }
        k = k + 1;
    }
    assert(s@.subrange(i as int, i + pat.len()) =~= pat@);
    true
}


proof fn lemma_tail(s: Seq<char>, pat: Seq<char>, i: int)
    requires
        0 <= i <= s.len(),
    ensures
        tail(s, i).len() == s.len() - i,
        occurs_at(tail(s, i), pat, 0) == occurs_at(s, pat, i),
        i < s.len() ==> tail(s, i)[0] == s[i] && tail(tail(s, i), 1) == tail(s, i + 1)
            && tail(s, i) == seq![s[i]] + tail(s, i + 1),
        i + pat.len() <= s.len() ==> tail(tail(s, i), pat.len() as int) == tail(s, i + pat.len()),
{
    if i + pat.len() <= s.len() {
        assert(tail(s, i).subrange(0, 0int + pat.len()) =~= s.subrange(i, i + pat.len()));
        assert(tail(tail(s, i), pat.len() as int) =~= tail(s, i + pat.len()));
    }
    if i < s.len() {
        assert(tail(tail(s, i), 1) =~= tail(s, i + 1));
        assert(tail(s, i) =~= seq![s[i]] + tail(s, i + 1));
    }
}

/// `s` with every occurrence of `pat` replaced by `to`; a copy of `s` where
/// `pat` is empty.
pub fn replace_all_in(s: &str, pat: &str, to: &str) -> (out: String)
    ensures
        out@ == replace_all(s@, pat@, to@),
{
    let sv = chars_of(s);
    let pv = chars_of(pat);
    if pv.len() == 0 {
        return s.to_owned();
    }
    let mut out = String::new();
    let mut i: usize = 0;
    assert(tail(sv@, 0) =~= sv@);
    assert(out@ + replace_all(sv@, pv@, to@) =~= replace_all(sv@, pv@, to@));
    while i < sv.len()
        invariant
            i <= sv.len(),
            pv@.len() > 0,
            sv@ == s@,
            pv@ == pat@,
            out@ + replace_all(tail(sv@, i as int), pv@, to@) == replace_all(sv@, pv@, to@),
        decreases sv.len() - i,
    {
        let ghost before = out@;
        proof {
            lemma_tail(sv@, pv@, i as int);
        }
        if matches_at(&sv, &pv, i) {
            out.append(to);
            i = i + pv.len();
            assert(out@ + replace_all(tail(sv@, i as int), pv@, to@) =~= before + (to@
                + replace_all(tail(sv@, i as int), pv@, to@)));
        } else {
            out.push(sv[i]);
            i = i + 1;
            assert(out@ + replace_all(tail(sv@, i as int), pv@, to@) =~= before + (seq![sv@[i - 1]]
                + replace_all(tail(sv@, i as int), pv@, to@)));
        }
    }
    assert(out@ + replace_all(tail(sv@, i as int), pv@, to@) =~= out@);
    out
}

/// `s` with the first occurrence of `pat` replaced by `to`; a copy of `s`
/// where `pat` is empty or does not occur.
pub fn replace_first_in(s: &str, pat: &str, to: &str) -> (out: String)
    ensures
        out@ == replace_first(s@, pat@, to@),
{
    let sv = chars_of(s);
    let pv = chars_of(pat);
    if pv.len() == 0 {
        return s.to_owned();
    }
    let mut out = String::new();
    let mut i: usize = 0;
    assert(tail(sv@, 0) =~= sv@);
    assert(out@ + replace_first(sv@, pv@, to@) =~= replace_first(sv@, pv@, to@));
    while i < sv.len()
        invariant
            i <= sv.len(),
            pv@.len() > 0,
            sv@ == s@,
            pv@ == pat@,
            out@ + replace_first(tail(sv@, i as int), pv@, to@) == replace_first(sv@, pv@, to@),
        decreases sv.len() - i,
    {
        let ghost before = out@;
        proof {
            lemma_tail(sv@, pv@, i as int);
        }
        if matches_at(&sv, &pv, i) {
            out.append(to);
            push_chars(&mut out, &sv, i + pv.len(), sv.len());
            assert(out@ =~= before + (to@ + tail(sv@, i + pv.len())));
            return out;
        }
        out.push(sv[i]);
        i = i + 1;
        assert(out@ + replace_first(tail(sv@, i as int), pv@, to@) =~= before + (seq![sv@[i - 1]]
            + replace_first(tail(sv@, i as int), pv@, to@)));
    }
    assert(out@ + replace_first(tail(sv@, i as int), pv@, to@) =~= out@);
    out
}

/// The part of `s` before the first occurrence of `pat`.
pub fn before_first_in(s: &str, pat: &str) -> (out: String)
    ensures
        out@ == before_first(s@, pat@),
{
    let sv = chars_of(s);
    let pv = chars_of(pat);
    if pv.len() == 0 {
        return s.to_owned();
    }
    let mut out = String::new();
    let mut i: usize = 0;
    assert(tail(sv@, 0) =~= sv@);
    assert(out@ + before_first(sv@, pv@) =~= before_first(sv@, pv@));
    while i < sv.len()
        invariant
            i <= sv.len(),
            pv@.len() > 0,
            sv@ == s@,
            pv@ == pat@,
            out@ + before_first(tail(sv@, i as int), pv@) == before_first(sv@, pv@),
        decreases sv.len() - i,
    {
        let ghost before = out@;
        proof {
            lemma_tail(sv@, pv@, i as int);
        }
        if matches_at(&sv, &pv, i) {
            assert(out@ + Seq::<char>::empty() =~= out@);
            return out;
        }
        out.push(sv[i]);
        i = i + 1;
        assert(out@ + before_first(tail(sv@, i as int), pv@) =~= before + (seq![sv@[i - 1]]
            + before_first(tail(sv@, i as int), pv@)));
    }
    assert(out@ + before_first(tail(sv@, i as int), pv@) =~= out@);
    out
}

/// The part of `s` after the last occurrence of `pat`.
pub fn after_last_in(s: &str, pat: &str) -> (out: String)
    ensures
        out@ == after_last(s@, pat@),
{
    let sv = chars_of(s);
    let pv = chars_of(pat);
    let mut start: usize = 0;
    let mut i: usize = 0;
    while pv.len() > 0 && pv.len() <= sv.len() && i <= sv.len() - pv.len()
        invariant
            start <= i <= sv.len(),
            sv@ == s@,
            pv@ == pat@,
            after_last_from(sv@, pv@, start as int, i as int) == after_last(sv@, pv@),
        decreases sv.len() - i,
    {
        if matches_at(&sv, &pv, i) {
            i = i + pv.len();
            start = i;
        } else {
            i = i + 1;
        }
    }
    string_of(&sv, start, sv.len())
}

/// Whether `c` is white space.
pub fn white_space(c: char) -> (yes: bool)
    ensures
        yes == is_white_space(c),
{
    let n: u32 = c as u32;
    (0x09 <= n && n <= 0x0d) || n == 0x20 || n == 0x85 || n == 0xa0 || n == 0x1680 || (0x2000 <= n
        && n <= 0x200a) || n == 0x2028 || n == 0x2029 || n == 0x202f || n == 0x205f || n == 0x3000
}

proof fn lemma_trim_start(s: Seq<char>, k: int)
    requires
        0 <= k <= s.len(),
        forall|j: int| 0 <= j < k ==> is_white_space(s[j]),
    ensures
        trim_start(s) == trim_start(tail(s, k)),
    decreases k,
{
    if k == 0 {
        assert(tail(s, 0) =~= s);
    } else {
        lemma_trim_start(s.drop_first(), k - 1);
        assert(tail(s.drop_first(), k - 1) =~= tail(s, k));
    }
}

proof fn lemma_trim_end(s: Seq<char>, k: int)
    requires
        0 <= k <= s.len(),
        forall|j: int| k <= j < s.len() ==> is_white_space(s[j]),
    ensures
        trim_end(s) == trim_end(s.subrange(0, k)),
    decreases s.len() - k,
{
    if k == s.len() {
        assert(s.subrange(0, k) =~= s);
    } else {
        lemma_trim_end(s.drop_last(), k);
        assert(s.drop_last().subrange(0, k) =~= s.subrange(0, k));
    }
}

/// `s` without its leading and trailing white space.
pub fn trim_in(s: &str) -> (out: String)
    ensures
        out@ == trim(s@),
{
    let sv = chars_of(s);
    let mut from: usize = 0;
    while from < sv.len() && white_space(sv[from])
        invariant
            from <= sv.len(),
            forall|j: int| 0 <= j < from ==> is_white_space(sv@[j]),
        decreases sv.len() - from,
    {
        from = from + 1;
    }
    let mut to: usize = sv.len();
    while to > from && white_space(sv[to - 1])
        invariant
            from <= to <= sv.len(),
            forall|j: int| to <= j < sv.len() ==> is_white_space(sv@[j]),
        decreases to,
    {
        to = to - 1;
    }
    proof {
        lemma_trim_start(sv@, from as int);
        let rest = tail(sv@, from as int);
        assert(trim_start(rest) == rest);
        lemma_trim_end(rest, to - from);
        let kept = rest.subrange(0, to - from);
        assert(kept =~= sv@.subrange(from as int, to as int));
        assert(trim_end(kept) == kept);
    }
    string_of(&sv, from, to)
}

/// The parts in order, with `sep` between each two neighbours.
pub fn join_with(parts: &Vec<String>, sep: &str) -> (out: String)
    ensures
        out@ == join(texts_view(parts@), sep@),
{
    let ghost views = texts_view(parts@);
    let mut out = String::new();
    let mut i: usize = 0;
    while i < parts.len()
        invariant
            i <= parts.len(),
            views == texts_view(parts@),
            out@ == join(views.subrange(0, i as int), sep@),
        decreases parts.len() - i,
    {
        let ghost before = views.subrange(0, i as int);
        let ghost after = views.subrange(0, i + 1);
        assert(after.drop_last() =~= before);
        assert(after.last() == parts@[i as int]@);
        if i > 0 {
            out.append(sep);
        } else {
            assert(Seq::<char>::empty() + parts@[0]@ =~= parts@[0]@);
        }
        out.append(parts[i].as_str());
        i = i + 1;
    }
    assert(views.subrange(0, i as int) =~= views);
    out
}

/// The character of the decimal digit `d`.
fn digit(d: u8) -> (c: char)
    requires
        d < 10,
    ensures
        c == digit_char(d as int),
{
    (0x30u8 + d) as char
}

/// Appends the decimal digits of `n` to `out`.
pub fn push_digits(out: &mut String, n: u64)
    ensures
        final(out)@ == old(out)@ + digits(n as nat),
    decreases n,
{
    if n >= 10 {
        push_digits(out, n / 10);
    }
    let ghost before = out@;
    out.push(digit((n % 10) as u8));
    proof {
        if n >= 10 {
            assert(out@ =~= old(out)@ + digits((n / 10) as nat).push(digit_char((n % 10) as int)));
        } else {
            assert(out@ =~= old(out)@ + seq![digit_char(n as int)]);
        }
    }
}

/// The decimal notation of `n`.
pub fn decimal_of(n: i64) -> (out: String)
    ensures
        out@ == decimal(n as int),
{
    let mut out = String::new();
    if n < 0 {
        out.push('-');
        let m: u64 = if n == i64::MIN {
            0x8000_0000_0000_0000u64
        } else {
            (-n) as u64
        };
        push_digits(&mut out, m);
        assert(out@ =~= seq!['-'] + digits((-n) as nat));
    } else {
        push_digits(&mut out, n as u64);
        assert(out@ =~= digits(n as nat));
    }
    out
}


/// `first` followed by `second`.
pub fn concat(first: &str, second: &str) -> (out: String)
    ensures
        out@ == first@ + second@,
{
    let mut out = first.to_owned();
    out.append(second);
    out
}

/// `first`, `second` and `third` in a row.
pub fn concat3(first: &str, second: &str, third: &str) -> (out: String)
    ensures
        out@ == first@ + second@ + third@,
{
    let mut out = first.to_owned();
    out.append(second);
    out.append(third);
    out
}

/// `first`, `second`, `third` and `fourth` in a row.
pub fn concat4(first: &str, second: &str, third: &str, fourth: &str) -> (out: String)
    ensures
        out@ == first@ + second@ + third@ + fourth@,
{
    let mut out = first.to_owned();
    out.append(second);
    out.append(third);
    out.append(fourth);
    out
}

} // verus!
