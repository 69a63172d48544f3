//! Strings as sequences of characters.

use vstd::prelude::*;

verus! {

/// Specification of `String::push`. Trusted: afterwards the string holds
/// what it held before, followed by `ch`.
pub assume_specification[ String::push ](s: &mut String, ch: char)
    ensures
        final(s)@ == old(s)@.push(ch),
;

/// The characters of `s`, in order.
pub fn chars_of(s: &str) -> (chars: Vec<char>)
    ensures
        chars@ == s@,
{
    let mut chars: Vec<char> = Vec::new();
    for c in it: s.chars()
        invariant
            it.seq() == s@,
            chars@ == s@.take(it.index() as int),
    {
        chars.push(c);
        assert(s@.take(it.index() + 1) =~= s@.take(it.index() as int).push(c));
    }
    assert(s@.take(s@.len() as int) =~= s@);
    chars
}

/// The string whose characters are `chars[from..to]`.
pub fn string_of(chars: &[char], from: usize, to: usize) -> (s: String)
    requires
        from <= to <= chars.len(),
    ensures
        s@ == chars@.subrange(from as int, to as int),
{
    let mut s = String::new();
    let mut i: usize = from;
    while i < to
        invariant
            from <= i <= to <= chars.len(),
            s@ == chars@.subrange(from as int, i as int),
        decreases to - i,
    {
        s.push(chars[i]);
        assert(chars@.subrange(from as int, i + 1) =~= chars@.subrange(from as int, i as int).push(
            chars[i as int],
        ));
        i += 1;
    }
    s
}

/// `a` followed by `b`.
pub fn concat2(a: &str, b: &str) -> (s: String)
    ensures
        s@ == a@ + b@,
{
    String::from_str(a).concat(b)
}

/// `a`, `b` and `c` in a row.
pub fn concat3(a: &str, b: &str, c: &str) -> (s: String)
    ensures
        s@ == a@ + b@ + c@,
{
    String::from_str(a).concat(b).concat(c)
}

/// Model of [`join`]: two path components with a slash between them.
pub open spec fn slash(a: Seq<char>, b: Seq<char>) -> Seq<char> {
    a + "/"@ + b
}

/// `a` and `b` with a slash between them. Components are joined as they are:
/// a component that already ends in a slash yields a doubled slash.
pub fn join(a: &str, b: &str) -> (s: String)
    ensures
        s@ == slash(a@, b@),
{
    String::from_str(a).concat("/").concat(b)
}


/// Whether two strings hold the same characters.
pub fn same(a: &str, b: &str) -> (equal: bool)
    ensures
        equal == (a@ == b@),
{
    String::from_str(a) == String::from_str(b)
}

/// Whether `needle` stands in `haystack` at position `at`.
pub open spec fn occurs_at(haystack: Seq<char>, needle: Seq<char>, at: int) -> bool {
    &&& 0 <= at
    &&& at + needle.len() <= haystack.len()
    &&& haystack.subrange(at, at + needle.len()) == needle
}

/// Whether `needle` stands somewhere in `haystack`.
pub open spec fn contains(haystack: Seq<char>, needle: Seq<char>) -> bool {
    exists|at: int| occurs_at(haystack, needle, at)
}

/// Whether `needle` stands in `haystack` at position `at`.
pub fn matches_at(haystack: &[char], needle: &[char], at: usize) -> (found: bool)
    requires
        at + needle.len() <= haystack.len(),
    ensures
        found == occurs_at(haystack@, needle@, at as int),
{
    let mut i: usize = 0;
    while i < needle.len()
        invariant
            i <= needle.len(),
            at + needle.len() <= haystack.len(),
            haystack@.subrange(at as int, at + i) == needle@.take(i as int),
        decreases needle.len() - i,
    {
        if haystack[at + i] != needle[i] {
            assert(haystack@.subrange(at as int, at + needle.len())[i as int] != needle@[i as int]);
            return false;
        }
        assert(haystack@.subrange(at as int, at + i + 1) =~= haystack@.subrange(
            at as int,
            at + i,
        ).push(haystack@[at + i]));
        assert(needle@.take(i + 1) =~= needle@.take(i as int).push(needle@[i as int]));
        i += 1;
    }
    assert(needle@.take(needle.len() as int) =~= needle@);
    true
}

/// Whether `needle` stands somewhere in `haystack`.
pub fn find(haystack: &[char], needle: &[char]) -> (found: bool)
    ensures
        found == contains(haystack@, needle@),
{
    if needle.len() > haystack.len() {
        return false;
    }
    if needle.len() == 0 {
        assert(haystack@.subrange(0, 0) =~= needle@);
        assert(occurs_at(haystack@, needle@, 0));
        return true;
    }
    let last = haystack.len() - needle.len();
    let mut at: usize = 0;
    while at <= last
        invariant
            0 < needle.len() <= haystack.len(),
            last == haystack.len() - needle.len(),
            at <= last + 1,
            forall|k: int| 0 <= k < at ==> !occurs_at(haystack@, needle@, k),
        decreases last + 1 - at,
    {
        if matches_at(haystack, needle, at) {
            return true;
        }
        at += 1;
    }
    false
}

/// Whether the string `needle` stands somewhere in the string `haystack`.
pub fn str_contains(haystack: &str, needle: &str) -> (found: bool)
    ensures
        found == contains(haystack@, needle@),
{
    let h = chars_of(haystack);
    let n = chars_of(needle);
    find(h.as_slice(), n.as_slice())
}

/// `text` without the white space at its two ends, as `str::trim` returns
/// it.
pub uninterp spec fn trimmed(text: Seq<char>) -> Seq<char>;

/// Calls `str::trim`. Trusted: the result is [`trimmed`] of the argument.
#[verifier::external_body]
pub(crate) fn trim(text: &str) -> (inner: &str)
    ensures
        inner@ == trimmed(text@),
{
    text.trim()
}

/// The number that `text` spells in decimal, as `str::parse::<i32>` reads
/// it; `None` where it refuses the text.
pub uninterp spec fn parsed_i32(text: Seq<char>) -> Option<i32>;

/// Calls `str::parse::<i32>`. Trusted: the result is [`parsed_i32`] of the
/// argument, an error standing for `None`.
#[verifier::external_body]
pub(crate) fn parse_i32(text: &str) -> (number: Option<i32>)
    ensures
        number == parsed_i32(text@),
{
    text.parse::<i32>().ok()
}

/// The character of the decimal digit `d`.
pub open spec fn digit_char(d: nat) -> char {
    if d == 0 {
        '0'
    } else if d == 1 {
        '1'
    } else if d == 2 {
        '2'
    } else if d == 3 {
        '3'
    } else if d == 4 {
        '4'
    } else if d == 5 {
        '5'
    } else if d == 6 {
        '6'
    } else if d == 7 {
        '7'
    } else if d == 8 {
        '8'
    } else {
        '9'
    }
}

/// The decimal digits of `n`, most significant first, without leading
/// zeros.
pub open spec fn digits(n: nat) -> Seq<char>
    decreases n,
{
    if n < 10 {
        seq![digit_char(n)]
    } else {
        digits(n / 10).push(digit_char(n % 10))
    }
}

/// `n` in decimal, with a minus sign before a negative number.
pub open spec fn decimal(n: int) -> Seq<char> {
    if n < 0 {
        seq!['-'] + digits((-n) as nat)
    } else {
        digits(n as nat)
    }
}

fn digit(d: u64) -> (c: char)
    requires
        d < 10,
    ensures
        c == digit_char(d as nat),
{
    if d == 0 {
        '0'
    } else if d == 1 {
        '1'
    } else if d == 2 {
        '2'
    } else if d == 3 {
        '3'
    } else if d == 4 {
        '4'
    } else if d == 5 {
        '5'
    } else if d == 6 {
        '6'
    } else if d == 7 {
        '7'
    } else if d == 8 {
        '8'
    } else {
        '9'
    }
}

/// Appends the decimal digits of `n` to `text`.
pub fn push_digits(text: &mut String, n: u64)
    ensures
        final(text)@ == old(text)@ + digits(n as nat),
    decreases n,
{
    if n >= 10 {
        push_digits(text, n / 10);
    }
    text.push(digit(n % 10));
    proof {
        if n >= 10 {
            assert(old(text)@ + digits(n as nat) =~= (old(text)@ + digits((n / 10) as nat)).push(
                digit_char((n % 10) as nat),
            ));
        } else {
            assert(old(text)@ + digits(n as nat) =~= old(text)@.push(digit_char(n as nat)));
        }
    }
}

/// Appends `n` in decimal to `text`.
pub fn push_decimal(text: &mut String, n: i64)
    ensures
        final(text)@ == old(text)@ + decimal(n as int),
{
    if n < 0 {
        text.push('-');
        let magnitude: u64 = if n == i64::MIN {
            0x8000_0000_0000_0000u64
        } else {
            (-n) as u64
        };
        push_digits(text, magnitude);
        assert(old(text)@.push('-') + digits(magnitude as nat) =~= old(text)@ + decimal(n as int));
    } else {
        push_digits(text, n as u64);
    }
}

/// `n` in decimal.
pub fn decimal_string(n: i64) -> (text: String)
    ensures
        text@ == decimal(n as int),
{
    let mut text = String::new();
    push_decimal(&mut text, n);
    assert(Seq::<char>::empty() + decimal(n as int) =~= decimal(n as int));
    text
}

/// Position of the first line feed in `text`, or the length of `text` if
/// it holds none.
pub open spec fn first_newline(text: Seq<char>) -> int
    decreases text.len(),
{
    if text.len() == 0 {
        0
    } else if text[0] == '\n' {
        0
    } else {
        1 + first_newline(text.drop_first())
    }
}

/// `line` without a carriage return at its end.
pub open spec fn strip_cr(line: Seq<char>) -> Seq<char> {
    if line.len() > 0 && line.last() == '\r' {
        line.drop_last()
    } else {
        line
    }
}

/// The lines of `text`. A line ends with a line feed, or with a carriage
/// return and a line feed; neither belongs to the line. The last line need
/// not be ended, and an empty line is not counted at the very end.
pub open spec fn lines_of(text: Seq<char>) -> Seq<Seq<char>>
    decreases text.len(),
{
    if text.len() == 0 {
        seq![]
    } else {
        let n = first_newline(text);
        if 0 <= n < text.len() {
            seq![strip_cr(text.take(n))] + lines_of(text.skip(n + 1))
        } else {
            seq![text]
        }
    }
}

/// `lines` with a line feed between each two of them.
pub open spec fn join_lines(lines: Seq<Seq<char>>) -> Seq<char>
    decreases lines.len(),
{
    if lines.len() == 0 {
        seq![]
    } else if lines.len() == 1 {
        lines[0]
    } else {
        join_lines(lines.drop_last()) + seq!['\n'] + lines.last()
    }
}

/// The last `keep` of `lines`, or all of them if there are fewer.
pub open spec fn last_of(lines: Seq<Seq<char>>, keep: nat) -> Seq<Seq<char>> {
    if lines.len() > keep {
        lines.skip(lines.len() - keep)
    } else {
        lines
    }
}

proof fn lemma_first_newline(text: Seq<char>, at: int)
    requires
        0 <= at <= text.len(),
        forall|k: int| 0 <= k < at ==> text[k] != '\n',
        at == text.len() || text[at] == '\n',
    ensures
        first_newline(text) == at,
    decreases at,
{
    if at > 0 {
        let rest = text.drop_first();
        assert forall|k: int| 0 <= k < at - 1 implies rest[k] != '\n' by {
            assert(rest[k] == text[k + 1]);
        }
        lemma_first_newline(rest, at - 1);
    }
}

/// The pieces of `text` that `spans` mark out.
pub open spec fn pieces(text: Seq<char>, spans: Seq<(usize, usize)>) -> Seq<Seq<char>> {
    Seq::new(spans.len(), |k: int| text.subrange(spans[k].0 as int, spans[k].1 as int))
}

/// Marks out the lines of `text`: for each line, where it starts and where
/// it ends.
pub fn line_spans(text: &[char]) -> (spans: Vec<(usize, usize)>)
    ensures
        forall|k: int| 0 <= k < spans.len() ==> (#[trigger] spans[k]).0 <= spans[k].1 <= text.len(),
        pieces(text@, spans@) == lines_of(text@),
{
    let mut spans: Vec<(usize, usize)> = Vec::new();
    let mut start: usize = 0;
    assert(text@.skip(0) =~= text@);
    assert(pieces(text@, spans@) =~= Seq::<Seq<char>>::empty());
    while start < text.len()
        invariant
            start <= text.len(),
            forall|k: int|
                0 <= k < spans.len() ==> (#[trigger] spans[k]).0 <= spans[k].1 <= text.len(),
            pieces(text@, spans@) + lines_of(text@.skip(start as int)) == lines_of(text@),
        decreases text.len() - start,
    {
        let ghost rest = text@.skip(start as int);
        let ghost before = pieces(text@, spans@);
        let mut end: usize = start;
        while end < text.len() && text[end] != '\n'
            invariant
                start <= end <= text.len(),
                forall|k: int| start <= k < end ==> text[k] != '\n',
            decreases text.len() - end,
        {
            end += 1;
        }
        proof {
            assert forall|k: int| 0 <= k < end - start implies rest[k] != '\n' by {
                assert(rest[k] == text[start + k]);
            }
            lemma_first_newline(rest, end - start);
        }
        if end == text.len() {
            spans.push((start, end));
            proof {
                assert(rest =~= text@.subrange(start as int, end as int));
                assert(lines_of(rest) =~= seq![rest]);
                assert(text@.skip(end as int) =~= Seq::<char>::empty());
                assert(pieces(text@, spans@) =~= before + seq![rest]);
                assert(pieces(text@, spans@) + lines_of(text@.skip(end as int)) =~= before
                    + lines_of(rest));
            }
            start = end;
        } else {
            let stop = if end > start && text[end - 1] == '\r' {
                end - 1
            } else {
                end
            };
            spans.push((start, stop));
            proof {
                let whole = rest.take(end - start);
                assert(whole =~= text@.subrange(start as int, end as int));
                assert(strip_cr(whole) =~= text@.subrange(start as int, stop as int));
                assert(rest.skip(end - start + 1) =~= text@.skip(end + 1));
                assert(lines_of(rest) =~= seq![strip_cr(whole)] + lines_of(text@.skip(end + 1)));
                assert(pieces(text@, spans@) =~= before + seq![strip_cr(whole)]);
                assert(pieces(text@, spans@) + lines_of(text@.skip(end + 1)) =~= before + lines_of(
                    rest,
                ));
            }
            start = end + 1;
        }
    }
    assert(lines_of(text@.skip(text.len() as int)) =~= Seq::<Seq<char>>::empty());
    assert(pieces(text@, spans@) + Seq::<Seq<char>>::empty() =~= pieces(text@, spans@));
    spans
}

/// The last `lines_to_keep` lines of `string`, with a line feed between each
/// two of them.
pub fn keep_last_lines(string: &str, lines_to_keep: usize) -> (kept: String)
    ensures
        kept@ == join_lines(last_of(lines_of(string@), lines_to_keep as nat)),
{
    let text = chars_of(string);
    let spans = line_spans(text.as_slice());
    let ghost lines = lines_of(string@);
    let from: usize = if spans.len() > lines_to_keep {
        spans.len() - lines_to_keep
    } else {
        0
    };
    let ghost wanted = last_of(lines, lines_to_keep as nat);
    proof {
        assert(lines.len() == spans.len());
        assert(wanted =~= lines.skip(from as int));
    }
    let mut kept = String::new();
    let mut k: usize = from;
    assert(wanted.take(0) =~= Seq::<Seq<char>>::empty());
    while k < spans.len()
        invariant
            from <= k <= spans.len(),
            text@ == string@,
            lines == pieces(text@, spans@),
            lines.len() == spans.len(),
            wanted == lines.skip(from as int),
            forall|i: int|
                0 <= i < spans.len() ==> (#[trigger] spans[i]).0 <= spans[i].1 <= text.len(),
            kept@ == join_lines(wanted.take(k - from)),
        decreases spans.len() - k,
    {
        let ghost before = kept@;
        if k > from {
            kept.push('\n');
        }
        let (start, end) = spans[k];
        let mut i: usize = start;
        while i < end
            invariant
                start <= i <= end <= text.len(),
                kept@ == (if k > from {
                    before.push('\n')
                } else {
                    before
                }) + text@.subrange(start as int, i as int),
            decreases end - i,
        {
            kept.push(text[i]);
            assert(text@.subrange(start as int, i + 1) =~= text@.subrange(
                start as int,
                i as int,
            ).push(text[i as int]));
            i += 1;
        }
        proof {
            let line = text@.subrange(start as int, end as int);
            assert(lines[k as int] == line);
            assert(wanted[k - from] == line);
            let now = wanted.take(k - from + 1);
            assert(now.drop_last() =~= wanted.take(k - from));
            assert(now.last() == line);
            if k > from {
                assert(now.len() > 1);
                assert(kept@ =~= join_lines(now.drop_last()) + seq!['\n'] + line);
            } else {
                assert(now.len() == 1);
                assert(before =~= Seq::<char>::empty());
                assert(kept@ =~= line);
            }
        }
        k += 1;
    }
    assert(wanted.take(spans.len() - from) =~= wanted);
    kept
}

/// `entries` as one text, one entry to a line, the last line not ended.
pub fn join_entries(entries: &Vec<String>) -> (text: String)
    ensures
        text@ == join_lines(entries.deep_view()),
{
    let ghost all = entries.deep_view();
    let mut text = String::new();
    let mut k: usize = 0;
    assert(all.take(0) =~= Seq::<Seq<char>>::empty());
    while k < entries.len()
        invariant
            k <= entries.len(),
            all == entries.deep_view(),
            text@ == join_lines(all.take(k as int)),
        decreases entries.len() - k,
    {
        let ghost before = text@;
        if k > 0 {
            text.push('\n');
        }
        text.append(entries[k].as_str());
        proof {
            let now = all.take(k + 1);
            assert(now.drop_last() =~= all.take(k as int));
            assert(now.last() == entries[k as int]@);
            if k > 0 {
                assert(text@ =~= join_lines(now.drop_last()) + seq!['\n'] + now.last());
            } else {
                assert(before =~= Seq::<char>::empty());
                assert(text@ =~= now.last());
            }
        }
        k += 1;
    }
    assert(all.take(entries.len() as int) =~= all);
    text
}

/// Whether `text` begins with `prefix`.
pub open spec fn starts_with(text: Seq<char>, prefix: Seq<char>) -> bool {
    occurs_at(text, prefix, 0)
}

/// Whether `text` begins with `prefix`.
pub fn begins_with(text: &[char], prefix: &[char]) -> (begins: bool)
    ensures
        begins == starts_with(text@, prefix@),
{
    if prefix.len() > text.len() {
        false
    } else {
        matches_at(text, prefix, 0)
    }
}

/// `text` without the white space at its start, as `str::trim_start`
/// returns it.
pub uninterp spec fn trimmed_start(text: Seq<char>) -> Seq<char>;

/// Calls `str::trim_start`. Trusted: the result is [`trimmed_start`] of the
/// argument.
#[verifier::external_body]
pub(crate) fn trim_start(text: &str) -> (inner: &str)
    ensures
        inner@ == trimmed_start(text@),
{
    text.trim_start()
}

} // verus!
