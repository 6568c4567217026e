//! Character-level text utilities. Strings are viewed as `Seq<char>`; byte
//! positions into them are described by `byte_offset`, the length of the
//! UTF-8 encoding of a prefix.

use vstd::prelude::*;
use crate::bridge::{push_char, char_width, char_columns, code_point};

verus! {

/// Number of bytes of the UTF-8 encoding of `c`.
pub open spec fn utf8_width(c: char) -> nat {
    let v = c as u32;
    if v < 0x80 {
        1
    } else if v < 0x800 {
        2
    } else if v < 0x10000 {
        3
    } else {
        4
    }
}

/// Number of bytes of the UTF-8 encoding of `s`.
pub open spec fn byte_len(s: Seq<char>) -> nat
    decreases s.len(),
{
    if s.len() == 0 {
        0
    } else {
        byte_len(s.drop_last()) + utf8_width(s.last())
    }
}

/// Byte position of the `k`-th character of `s`.
pub open spec fn byte_offset(s: Seq<char>, k: int) -> nat {
    byte_len(s.take(k))
}

/// `b` is a byte position at which a character of `s` starts, or the end.
pub open spec fn is_boundary(s: Seq<char>, b: int) -> bool {
    exists|k: int| 0 <= k <= s.len() && #[trigger] byte_offset(s, k) == b
}

/// The character index whose byte position is `b`.
pub open spec fn char_index(s: Seq<char>, b: int) -> int {
    choose|k: int| 0 <= k <= s.len() && #[trigger] byte_offset(s, k) == b
}

pub proof fn lemma_byte_len_push(s: Seq<char>, c: char)
    ensures
        byte_len(s.push(c)) == byte_len(s) + utf8_width(c),
{
    assert(s.push(c).drop_last() =~= s);
}

pub proof fn lemma_byte_offset_next(s: Seq<char>, k: int)
    requires
        0 <= k < s.len(),
    ensures
        byte_offset(s, k + 1) == byte_offset(s, k) + utf8_width(s[k]),
{
    assert(s.take(k + 1).drop_last() =~= s.take(k));
}

pub proof fn lemma_byte_offset_full(s: Seq<char>)
    ensures
        byte_offset(s, s.len() as int) == byte_len(s),
{
    assert(s.take(s.len() as int) =~= s);
}

pub proof fn lemma_byte_len_concat(a: Seq<char>, b: Seq<char>)
    ensures
        byte_len(a + b) == byte_len(a) + byte_len(b),
    decreases b.len(),
{
    if b.len() == 0 {
        assert(a + b =~= a);
    } else {
        lemma_byte_len_concat(a, b.drop_last());
        assert((a + b).drop_last() =~= a + b.drop_last());
    }
}

/// Each character takes at least one byte.
pub proof fn lemma_byte_offset_grows(s: Seq<char>, i: int, j: int)
    requires
        0 <= i <= j <= s.len(),
    ensures
        byte_offset(s, i) + (j - i) <= byte_offset(s, j),
    decreases j - i,
{
    if i < j {
        lemma_byte_offset_grows(s, i, j - 1);
        lemma_byte_offset_next(s, j - 1);
    }
}

/// A byte position names at most one character index.
pub proof fn lemma_char_index_unique(s: Seq<char>, i: int, j: int)
    requires
        0 <= i <= s.len(),
        0 <= j <= s.len(),
        byte_offset(s, i) == byte_offset(s, j),
    ensures
        i == j,
{
    if i < j {
        lemma_byte_offset_grows(s, i, j);
    } else if j < i {
        lemma_byte_offset_grows(s, j, i);
    }
}

/// The character index of the byte position of index `k` is `k`.
pub proof fn lemma_char_index_of_offset(s: Seq<char>, k: int)
    requires
        0 <= k <= s.len(),
    ensures
        is_boundary(s, byte_offset(s, k) as int),
        char_index(s, byte_offset(s, k) as int) == k,
{
    let b = byte_offset(s, k) as int;
    assert(is_boundary(s, b));
    let j = char_index(s, b);
    lemma_char_index_unique(s, j, k);
}

/// Number of bytes of the UTF-8 encoding of `c` (`char::len_utf8`).
pub fn utf8_len(c: char) -> (n: usize)
    ensures
        n == utf8_width(c),
        1 <= n <= 4,
{
    let v = c as u32;
    if v < 0x80 {
        1
    } else if v < 0x800 {
        2
    } else if v < 0x10000 {
        3
    } else {
        4
    }
}

/// Collects the characters of `s` into a vector.
pub fn chars_of(s: &str) -> (v: Vec<char>)
    ensures
        v@ == s@,
{
    let mut v: Vec<char> = Vec::new();
    for c in it: s.chars()
        invariant
            v@ == it.seq().take(it.index()),
    {
        v.push(c);
    }
    v
}

/// Builds a string from characters.
pub fn string_of(chars: &Vec<char>) -> (s: String)
    ensures
        s@ == chars@,
{
    let mut s = String::new();
    for i in 0..chars.len()
        invariant
            s@ == chars@.take(i as int),
    {
        push_char(&mut s, chars[i]);
        assert(chars@.take(i + 1) =~= chars@.take(i as int).push(chars@[i as int]));
    }
    assert(chars@.take(chars.len() as int) =~= chars@);
    s
}

/// Byte position of the character index `k`.
pub fn offset_of_index(chars: &Vec<char>, k: usize, bound: usize) -> (b: usize)
    requires
        k <= chars.len(),
        byte_offset(chars@, k as int) <= bound,
    ensures
        b == byte_offset(chars@, k as int),
{
    let mut acc: usize = 0;
    let mut i: usize = 0;
    while i < k
        invariant
            i <= k <= chars.len(),
            acc == byte_offset(chars@, i as int),
            byte_offset(chars@, k as int) <= bound,
        decreases k - i,
    {
        proof {
            lemma_byte_offset_next(chars@, i as int);
            lemma_byte_offset_grows(chars@, i + 1, k as int);
        }
        acc = acc + utf8_len(chars[i]);
        i = i + 1;
    }
    acc
}

/// The character index at byte position `b`, if `b` is a character boundary.
pub fn index_of_offset(chars: &Vec<char>, b: usize) -> (k: Option<usize>)
    ensures
        match k {
            Some(k) => k <= chars.len() && byte_offset(chars@, k as int) == b,
            None => !is_boundary(chars@, b as int),
        },
{
    let mut acc: usize = 0;
    let mut i: usize = 0;
    while i < chars.len() && acc < b
        invariant
            i <= chars.len(),
            acc == byte_offset(chars@, i as int),
            acc <= b,
        decreases chars.len() - i,
    {
        let w = utf8_len(chars[i]);
        proof {
            lemma_byte_offset_next(chars@, i as int);
        }
        if w > b - acc {
            proof {
                assert forall|j: int| 0 <= j <= chars.len() implies #[trigger] byte_offset(chars@, j) != b by {
                    if j <= i {
                        lemma_byte_offset_grows(chars@, j, i as int);
                    } else {
                        lemma_byte_offset_grows(chars@, i + 1, j);
                    }
                }
            }
            return None;
        }
        acc = acc + w;
        i = i + 1;
    }
    if acc == b {
        Some(i)
    } else {
        proof {
            assert forall|j: int| 0 <= j <= chars.len() implies #[trigger] byte_offset(chars@, j) != b by {
                lemma_byte_offset_grows(chars@, j, i as int);
            }
        }
        None
    }
}

/// Display columns of one character, with control characters counted as 0.
pub open spec fn columns(c: char) -> nat {
    match char_columns(c) {
        Some(w) => w as nat,
        None => 0,
    }
}

/// Display columns of a character sequence, counted character by character.
pub open spec fn span_columns(s: Seq<char>) -> nat
    decreases s.len(),
{
    if s.len() == 0 {
        0
    } else {
        columns(s[0]) + span_columns(s.drop_first())
    }
}

pub proof fn lemma_span_columns_concat(a: Seq<char>, b: Seq<char>)
    ensures
        span_columns(a + b) == span_columns(a) + span_columns(b),
    decreases a.len(),
{
    if a.len() == 0 {
        assert(a + b =~= b);
    } else {
        lemma_span_columns_concat(a.drop_first(), b);
        assert((a + b).drop_first() =~= a.drop_first() + b);
    }
}

pub proof fn lemma_span_columns_push(a: Seq<char>, c: char)
    ensures
        span_columns(a.push(c)) == span_columns(a) + columns(c),
{
    lemma_span_columns_concat(a, seq![c]);
    assert(a + seq![c] =~= a.push(c));
    assert(seq![c].drop_first() =~= Seq::<char>::empty());
    assert(span_columns(seq![c]) == columns(c) + span_columns(seq![c].drop_first()));
}

/// A longer suffix of `s[..k]` is at least as wide as a shorter one.
pub proof fn lemma_span_columns_suffix(s: Seq<char>, i: int, j: int, k: int)
    requires
        0 <= i <= j <= k <= s.len(),
    ensures
        span_columns(s.subrange(j, k)) <= span_columns(s.subrange(i, k)),
{
    lemma_span_columns_concat(s.subrange(i, j), s.subrange(j, k));
    assert(s.subrange(i, j) + s.subrange(j, k) =~= s.subrange(i, k));
}

/// Display columns of `c`, counting control characters as 0.
pub fn char_columns_of(c: char) -> (w: usize)
    ensures
        w == columns(c),
        w <= 3,
{
    match char_width(c) {
        Some(w) => w,
        None => 0,
    }
}

/// `j` is where the visible part of the text before character `k` starts:
/// the characters `j..k` fit into `width` columns and one more would not.
pub open spec fn visible_from(s: Seq<char>, j: int, k: int, width: nat) -> bool {
    &&& 0 <= j <= k <= s.len()
    &&& span_columns(s.subrange(j, k)) <= width
    &&& (j == 0 || span_columns(s.subrange(j - 1, k)) > width)
}

/// At most one start index satisfies `visible_from`.
pub proof fn lemma_visible_from_unique(s: Seq<char>, j1: int, j2: int, k: int, width: nat)
    requires
        visible_from(s, j1, k, width),
        visible_from(s, j2, k, width),
    ensures
        j1 == j2,
{
    if j1 < j2 {
        lemma_span_columns_suffix(s, j1, j2 - 1, k);
    } else if j2 < j1 {
        lemma_span_columns_suffix(s, j2, j1 - 1, k);
    }
}

/// The byte position before `cursor` of the previous character, if any.
pub fn previous_boundary(value: &str, cursor: usize) -> (prev: Option<usize>)
    requires
        is_boundary(value@, cursor as int),
    ensures
        char_index(value@, cursor as int) == 0 ==> prev is None,
        char_index(value@, cursor as int) > 0 ==> prev == Some(
            byte_offset(value@, char_index(value@, cursor as int) - 1) as usize,
        ),
{
    let chars = chars_of(value);
    match index_of_offset(&chars, cursor) {
        Some(k) => {
            proof {
                lemma_char_index_of_offset(value@, k as int);
            }
            if k == 0 {
                None
            } else {
                proof {
                    lemma_byte_offset_grows(chars@, k - 1, k as int);
                }
                Some(offset_of_index(&chars, k - 1, cursor))
            }
        },
        None => None,
    }
}

/// The sum of the widths in `ws`.
pub open spec fn span_widths(ws: Seq<usize>) -> nat
    decreases ws.len(),
{
    if ws.len() == 0 {
        0
    } else {
        ws[0] as nat + span_widths(ws.drop_first())
    }
}

/// `visible_from`, with the display columns of the characters given:
/// the widths `j..k` add up to at most `width`, and one more would not.
pub open spec fn visible_from_by(ws: Seq<usize>, j: int, k: int, width: nat) -> bool {
    &&& 0 <= j <= k <= ws.len()
    &&& span_widths(ws.subrange(j, k)) <= width
    &&& (j == 0 || span_widths(ws.subrange(j - 1, k)) > width)
}

/// Whether `ws` gives the display columns of each character of `s`.
pub open spec fn widths_of(s: Seq<char>, ws: Seq<usize>) -> bool {
    &&& ws.len() == s.len()
    &&& forall|i: int| 0 <= i < s.len() ==> ws[i] == columns(#[trigger] s[i])
}

/// With the characters' own widths, a run of widths adds up to the run's
/// display columns.
pub proof fn lemma_span_widths_columns(s: Seq<char>, ws: Seq<usize>, i: int, k: int)
    requires
        widths_of(s, ws),
        0 <= i <= k <= s.len(),
    ensures
        span_widths(ws.subrange(i, k)) == span_columns(s.subrange(i, k)),
    decreases k - i,
{
    if i < k {
        let a = s.subrange(i, k);
        let b = ws.subrange(i, k);
        assert(a.drop_first() =~= s.subrange(i + 1, k));
        assert(b.drop_first() =~= ws.subrange(i + 1, k));
        assert(a[0] == s[i]);
        assert(b[0] == ws[i]);
        lemma_span_widths_columns(s, ws, i + 1, k);
    }
}

/// Byte position where the part of `value` before `cursor` that is shown in
/// an input box `width` columns wide starts: the longest run of characters
/// ending at the cursor whose widths, `widths[i]` for the `i`-th character,
/// add up to at most `width`.
pub fn visible_input_start_with(value: &str, widths: &[usize], cursor: usize, width: usize) -> (start: usize)
    requires
        is_boundary(value@, cursor as int),
        widths@.len() == value@.len(),
    ensures
        is_boundary(value@, start as int),
        visible_from_by(
            widths@,
            char_index(value@, start as int),
            char_index(value@, cursor as int),
            width as nat,
        ),
{
    let chars = chars_of(value);
    let k = match index_of_offset(&chars, cursor) {
        Some(k) => k,
        None => {
            return 0;
        },
    };
    proof {
        lemma_char_index_of_offset(value@, k as int);
    }
    let mut i = k;
    let mut used: usize = 0;
    assert(widths@.subrange(k as int, k as int) =~= Seq::<usize>::empty());
    while i > 0
        invariant
            i <= k <= chars.len() == widths@.len(),
            chars@ == value@,
            byte_offset(chars@, k as int) == cursor,
            char_index(value@, cursor as int) == k,
            used == span_widths(widths@.subrange(i as int, k as int)),
            used <= width,
        decreases i,
    {
        let w = widths[i - 1];
        assert(widths@.subrange(i - 1, k as int).drop_first() =~= widths@.subrange(i as int, k as int));
        let ghost sub = widths@.subrange(i - 1, k as int);
        assert(sub[0] == widths@[i - 1]);
        assert(span_widths(sub) == sub[0] + span_widths(sub.drop_first()));
        if w > width - used {
            proof {
                lemma_byte_offset_grows(chars@, i as int, k as int);
                lemma_char_index_of_offset(value@, i as int);
            }
            return offset_of_index(&chars, i, cursor);
        }
        used = used + w;
        i = i - 1;
    }
    proof {
        lemma_char_index_of_offset(value@, 0);
        assert(chars@.take(0) =~= Seq::<char>::empty());
    }
    0
}

/// Byte position where the part of `value` before `cursor` that is shown in
/// an input box `width` columns wide starts: the longest run of characters
/// ending at the cursor that fits into `width` columns.
pub fn visible_input_start(value: &str, cursor: usize, width: usize) -> (start: usize)
    requires
        is_boundary(value@, cursor as int),
    ensures
        is_boundary(value@, start as int),
        visible_from(
            value@,
            char_index(value@, start as int),
            char_index(value@, cursor as int),
            width as nat,
        ),
{
    let widths = char_widths(value);
    let start = visible_input_start_with(value, widths.as_slice(), cursor, width);
    proof {
        let j = char_index(value@, start as int);
        let k = char_index(value@, cursor as int);
        lemma_span_widths_columns(value@, widths@, j, k);
        if j > 0 {
            lemma_span_widths_columns(value@, widths@, j - 1, k);
        }
    }
    start
}

/// The display columns of each character of `value`.
pub fn char_widths(value: &str) -> (widths: Vec<usize>)
    ensures
        widths_of(value@, widths@),
{
    let chars = chars_of(value);
    let n = chars.len();
    let mut widths: Vec<usize> = Vec::new();
    for i in 0..n
        invariant
            n == chars.len(),
            chars@ == value@,
            widths@.len() == i,
            forall|j: int| 0 <= j < i ==> widths@[j] == columns(#[trigger] chars@[j]),
    {
        widths.push(char_columns_of(chars[i]));
    }
    widths
}

/// Whether a character has the Unicode `White_Space` property, as listed in
/// the Unicode Character Database's `PropList.txt`: the controls U+0009 to
/// U+000D, SPACE, NEXT LINE, NO-BREAK SPACE, OGHAM SPACE MARK, the spaces
/// U+2000 to U+200A, LINE and PARAGRAPH SEPARATOR, NARROW NO-BREAK SPACE,
/// MEDIUM MATHEMATICAL SPACE and IDEOGRAPHIC SPACE.
pub open spec fn is_white_space(c: char) -> bool {
    let u = code_point(c);
    ||| 0x9 <= u <= 0xd
    ||| u == 0x20
    ||| u == 0x85
    ||| u == 0xa0
    ||| u == 0x1680
    ||| 0x2000 <= u <= 0x200a
    ||| u == 0x2028
    ||| u == 0x2029
    ||| u == 0x202f
    ||| u == 0x205f
    ||| u == 0x3000
}

/// Whether `c` has the `White_Space` property (`char::is_whitespace`).
pub fn char_is_whitespace(c: char) -> (r: bool)
    ensures
        r == is_white_space(c),
{
    let u = c as u32;
    (0x9 <= u && u <= 0xd) || u == 0x20 || u == 0x85 || u == 0xa0 || u == 0x1680
        || (0x2000 <= u && u <= 0x200a) || u == 0x2028 || u == 0x2029 || u == 0x202f
        || u == 0x205f || u == 0x3000
}

/// `s` with leading whitespace removed.
pub open spec fn trim_start(s: Seq<char>) -> Seq<char>
    decreases s.len(),
{
    if s.len() > 0 && is_white_space(s[0]) {
        trim_start(s.drop_first())
    } else {
        s
    }
}

/// `s` with trailing whitespace removed.
pub open spec fn trim_end(s: Seq<char>) -> Seq<char>
    decreases s.len(),
{
    if s.len() > 0 && is_white_space(s.last()) {
        trim_end(s.drop_last())
    } else {
        s
    }
}

/// `s` with leading and trailing whitespace removed (`str::trim`).
pub open spec fn trimmed(s: Seq<char>) -> Seq<char> {
    trim_end(trim_start(s))
}

/// A copy of `s` without leading and trailing whitespace.
pub fn trim(s: &str) -> (t: String)
    ensures
        t@ == trimmed(s@),
{
    let chars = chars_of(s);
    let n = chars.len();
    let mut i: usize = 0;
    assert(chars@.subrange(0, n as int) =~= chars@);
    while i < n && char_is_whitespace(chars[i])
        invariant
            i <= n == chars.len(),
            trim_start(chars@) == trim_start(chars@.subrange(i as int, n as int)),
        decreases n - i,
    {
        assert(chars@.subrange(i as int, n as int).drop_first() =~= chars@.subrange(i + 1, n as int));
        i = i + 1;
    }
    let mut j: usize = n;
    while j > i && char_is_whitespace(chars[j - 1])
        invariant
            i <= j <= n == chars.len(),
            trim_start(chars@) == trim_start(chars@.subrange(i as int, n as int)),
            i < n ==> !is_white_space(chars@[i as int]),
            trim_end(trim_start(chars@)) == trim_end(chars@.subrange(i as int, j as int)),
        decreases j,
    {
        assert(chars@.subrange(i as int, j as int).drop_last() =~= chars@.subrange(i as int, j - 1));
        j = j - 1;
    }
    let mut out: Vec<char> = Vec::new();
    let mut p = i;
    while p < j
        invariant
            i <= p <= j <= n == chars.len(),
            out@ == chars@.subrange(i as int, p as int),
        decreases j - p,
    {
        out.push(chars[p]);
        assert(chars@.subrange(i as int, p + 1) =~= chars@.subrange(i as int, p as int).push(chars@[p as int]));
        p = p + 1;
    }
    string_of(&out)
}

/// Whether two strings hold the same characters.
pub fn text_eq(a: &str, b: &str) -> (eq: bool)
    ensures
        eq == (a@ == b@),
{
    let x = chars_of(a);
    let y = chars_of(b);
    if x.len() != y.len() {
        return false;
    }
    for i in 0..x.len()
        invariant
            x@ == a@,
            y@ == b@,
            x.len() == y.len(),
            forall|j: int| 0 <= j < i ==> x@[j] == y@[j],
    {
        if x[i] != y[i] {
            return false;
        }
    }
    assert(x@ =~= y@);
    true
}

/// The decimal digit character for `d < 10`.
pub open spec fn digit_char(d: nat) -> char {
    if d == 0 { '0' } else if d == 1 { '1' } else if d == 2 { '2' } else if d == 3 { '3' }
    else if d == 4 { '4' } else if d == 5 { '5' } else if d == 6 { '6' } else if d == 7 { '7' }
    else if d == 8 { '8' } else { '9' }
}

/// Decimal notation of `n`, without leading zeros.
pub open spec fn decimal(n: nat) -> Seq<char>
    decreases n,
{
    if n < 10 {
        seq![digit_char(n)]
    } else {
        decimal(n / 10).push(digit_char(n % 10))
    }
}

fn digit_of(d: usize) -> (c: char)
    requires
        d < 10,
    ensures
        c == digit_char(d as nat),
{
    if d == 0 { '0' } else if d == 1 { '1' } else if d == 2 { '2' } else if d == 3 { '3' }
    else if d == 4 { '4' } else if d == 5 { '5' } else if d == 6 { '6' } else if d == 7 { '7' }
    else if d == 8 { '8' } else { '9' }
}

/// Appends the decimal notation of `n` to `s`.
pub fn push_decimal(s: &mut String, n: usize)
    ensures
        final(s)@ == old(s)@ + decimal(n as nat),
    decreases n,
{
    if n >= 10 {
        push_decimal(s, n / 10);
    }
    push_char(s, digit_of(n % 10));
    if n < 10 {
        assert(old(s)@ + decimal(n as nat) =~= old(s)@.push(digit_char(n as nat)));
    } else {
        assert(old(s)@ + decimal(n as nat) =~= (old(s)@ + decimal((n / 10) as nat)).push(digit_char((n % 10) as nat)));
    }
}

/// Appends `text` to `s`.
pub fn push_text(s: &mut String, text: &str)
    ensures
        final(s)@ == old(s)@ + text@,
{
    s.append(text);
}

/// `count` copies of the space character.
pub fn spaces(count: usize) -> (s: String)
    ensures
        s@ == Seq::new(count as nat, |i: int| ' '),
{
    let mut s = String::new();
    for i in 0..count
        invariant
            s@ == Seq::new(i as nat, |j: int| ' '),
    {
        push_char(&mut s, ' ');
        assert(s@ =~= Seq::new((i + 1) as nat, |j: int| ' '));
    }
    s
}

/// Greedy wrapping of `s`, continuing a line `cur` that already uses `used`
/// columns: a line break in `s` ends the line, and a character that would
/// make a non-empty line wider than `width` starts a new one.
pub open spec fn wrap_scan(s: Seq<char>, width: nat, cur: Seq<char>, used: nat) -> Seq<Seq<char>>
    decreases s.len(),
{
    if s.len() == 0 {
        seq![cur]
    } else if s[0] == '\n' {
        seq![cur] + wrap_scan(s.drop_first(), width, Seq::empty(), 0)
    } else if cur.len() > 0 && used + columns(s[0]) > width {
        seq![cur] + wrap_scan(s.drop_first(), width, seq![s[0]], columns(s[0]))
    } else {
        wrap_scan(s.drop_first(), width, cur.push(s[0]), used + columns(s[0]))
    }
}

/// The lines that `s` is wrapped into for a box `width` columns wide.
pub open spec fn wrapped_lines(s: Seq<char>, width: nat) -> Seq<Seq<char>> {
    wrap_scan(s, width, Seq::empty(), 0)
}

/// The views of a vector of strings.
pub open spec fn views(v: Seq<String>) -> Seq<Seq<char>> {
    v.map_values(|x: String| x@)
}

/// Greedy wrapping as `wrap_scan` does it, with the display columns of the
/// characters given: `ws[i]` is the width of `s[i]`.
pub open spec fn wrap_scan_by(s: Seq<char>, ws: Seq<usize>, width: nat, cur: Seq<char>, used: nat) -> Seq<Seq<char>>
    decreases s.len(),
{
    if s.len() == 0 {
        seq![cur]
    } else if s[0] == '\n' {
        seq![cur] + wrap_scan_by(s.drop_first(), ws.drop_first(), width, Seq::empty(), 0)
    } else if cur.len() > 0 && used + ws[0] > width {
        seq![cur] + wrap_scan_by(s.drop_first(), ws.drop_first(), width, seq![s[0]], ws[0] as nat)
    } else {
        wrap_scan_by(s.drop_first(), ws.drop_first(), width, cur.push(s[0]), (used + ws[0]) as nat)
    }
}

/// With the characters' own widths, the two wrappings agree.
pub proof fn lemma_wrap_scan_by_columns(s: Seq<char>, ws: Seq<usize>, width: nat, cur: Seq<char>, used: nat)
    requires
        widths_of(s, ws),
    ensures
        wrap_scan_by(s, ws, width, cur, used) == wrap_scan(s, width, cur, used),
    decreases s.len(),
{
    if s.len() > 0 {
        assert(ws[0] == columns(s[0]));
        let (r, rw) = (s.drop_first(), ws.drop_first());
        assert forall|i: int| 0 <= i < r.len() implies rw[i] == columns(#[trigger] r[i]) by {
            assert(rw[i] == ws[i + 1] && r[i] == s[i + 1]);
        }
        lemma_wrap_scan_by_columns(r, rw, width, Seq::empty(), 0);
        lemma_wrap_scan_by_columns(r, rw, width, seq![s[0]], columns(s[0]));
        lemma_wrap_scan_by_columns(r, rw, width, cur.push(s[0]), used + columns(s[0]));
    }
}

/// Splits `content` at line breaks and wraps each line greedily so that no
/// line is wider than `width` columns, unless it holds a single character;
/// `widths[i]` is taken as the display width of the `i`-th character.
pub fn wrap_with_widths(content: &str, widths: &[usize], width: usize) -> (lines: Vec<String>)
    requires
        widths@.len() == content@.len(),
    ensures
        views(lines@) == wrap_scan_by(content@, widths@, width as nat, Seq::empty(), 0),
{
    let chars = chars_of(content);
    let n = chars.len();
    let mut out: Vec<String> = Vec::new();
    let mut cur: Vec<char> = Vec::new();
    let mut used: usize = 0;
    let mut i: usize = 0;
    let ghost whole = wrap_scan_by(chars@, widths@, width as nat, Seq::empty(), 0);
    assert(chars@.skip(0) =~= chars@);
    assert(widths@.skip(0) =~= widths@);
    assert(views(out@) =~= Seq::<Seq<char>>::empty());
    assert(Seq::<Seq<char>>::empty() + whole =~= whole);
    while i < n
        invariant
            i <= n == chars.len() == widths@.len(),
            chars@ == content@,
            cur@.len() == 0 ==> used == 0,
            used <= width || cur@.len() == 1,
            whole == wrap_scan_by(chars@, widths@, width as nat, Seq::empty(), 0),
            views(out@) + wrap_scan_by(chars@.skip(i as int), widths@.skip(i as int), width as nat, cur@, used as nat)
                == whole,
        decreases n - i,
    {
        let c = chars[i];
        let w = widths[i];
        let ghost rest = chars@.skip(i as int);
        let ghost rw = widths@.skip(i as int);
        assert(rest[0] == c);
        assert(rw[0] == w);
        assert(rest.drop_first() =~= chars@.skip(i + 1));
        assert(rw.drop_first() =~= widths@.skip(i + 1));
        let ghost out0 = views(out@);
        let ghost cur0 = cur@;
        if c == '\n' {
            let line = string_of(&cur);
            out.push(line);
            cur = Vec::new();
            used = 0;
            assert(views(out@) =~= out0.push(cur0));
            assert(out0.push(cur0) + wrap_scan_by(rest.drop_first(), rw.drop_first(), width as nat, cur@, 0)
                =~= out0 + (seq![cur0] + wrap_scan_by(rest.drop_first(), rw.drop_first(), width as nat, Seq::empty(), 0)));
        } else if cur.len() > 0 && (used > width || w > width - used) {
            let line = string_of(&cur);
            out.push(line);
            cur = Vec::new();
            cur.push(c);
            assert(views(out@) =~= out0.push(cur0));
            assert(cur@ =~= seq![c]);
            assert(out0.push(cur0) + wrap_scan_by(rest.drop_first(), rw.drop_first(), width as nat, seq![c], w as nat)
                =~= out0 + (seq![cur0] + wrap_scan_by(rest.drop_first(), rw.drop_first(), width as nat, seq![c], w as nat)));
            used = w;
        } else if cur.len() == 0 {
            cur.push(c);
            used = w;
        } else {
            cur.push(c);
            used = used + w;
        }
        i = i + 1;
    }
    let ghost out0 = views(out@);
    let line = string_of(&cur);
    out.push(line);
    assert(chars@.skip(n as int) =~= Seq::<char>::empty());
    assert(views(out@) =~= out0.push(cur@));
    assert(out0 + seq![cur@] =~= out0.push(cur@));
    out
}

/// Splits `content` at line breaks and wraps each line greedily so that no
/// line is wider than `width` columns, unless it holds a single character.
pub fn wrap_message(content: &str, width: usize) -> (lines: Vec<String>)
    ensures
        views(lines@) == wrapped_lines(content@, width as nat),
{
    let widths = char_widths(content);
    let lines = wrap_with_widths(content, widths.as_slice(), width);
    proof {
        lemma_wrap_scan_by_columns(content@, widths@, width as nat, Seq::empty(), 0);
    }
    lines
}

/// Whether `c` is not a line break.
pub open spec fn not_line_break(c: char) -> bool {
    c != '\n'
}

proof fn lemma_flatten_prepend(x: Seq<char>, rest: Seq<Seq<char>>)
    ensures
        (seq![x] + rest).flatten() == x + rest.flatten(),
{
    let whole = seq![x] + rest;
    assert(whole.first() == x);
    assert(whole.drop_first() =~= rest);
}

proof fn lemma_wrap_scan_text(s: Seq<char>, width: nat, cur: Seq<char>, used: nat)
    ensures
        wrap_scan(s, width, cur, used).flatten() == cur + s.filter(|c: char| not_line_break(c)),
    decreases s.len(),
{
    let p = |c: char| not_line_break(c);
    if s.len() == 0 {
        assert(s.filter(p) =~= Seq::<char>::empty()) by {
            reveal(Seq::filter);
        }
        lemma_flatten_prepend(cur, Seq::empty());
        assert(seq![cur] + Seq::<Seq<char>>::empty() =~= seq![cur]);
        assert(cur + Seq::<char>::empty() =~= cur);
    } else {
        let c = s[0];
        let rest = s.drop_first();
        assert(seq![c] + rest =~= s);
        rest.lemma_filter_prepend(c, p);
        if c == '\n' {
            lemma_wrap_scan_text(rest, width, Seq::empty(), 0);
            lemma_flatten_prepend(cur, wrap_scan(rest, width, Seq::empty(), 0));
            assert(Seq::<char>::empty() + rest.filter(p) =~= rest.filter(p));
            assert(Seq::<char>::empty() + rest.filter(p) =~= s.filter(p));
        } else if cur.len() > 0 && used + columns(c) > width {
            lemma_wrap_scan_text(rest, width, seq![c], columns(c));
            lemma_flatten_prepend(cur, wrap_scan(rest, width, seq![c], columns(c)));
            assert(cur + (seq![c] + rest.filter(p)) =~= cur + s.filter(p));
        } else {
            lemma_wrap_scan_text(rest, width, cur.push(c), used + columns(c));
            assert(cur.push(c) + rest.filter(p) =~= cur + s.filter(p));
        }
    }
}

/// Wrapping keeps every character of the message, in order, except the
/// line breaks: the wrapped lines joined together are the message without
/// its line breaks.
pub proof fn lemma_wrapped_lines_keep_text(s: Seq<char>, width: nat)
    ensures
        wrapped_lines(s, width).flatten() == s.filter(|c: char| not_line_break(c)),
{
    lemma_wrap_scan_text(s, width, Seq::empty(), 0);
    assert(Seq::<char>::empty() + s.filter(|c: char| not_line_break(c)) =~= s.filter(|c: char| not_line_break(c)));
}

/// A wrapped line holds no line break, and fits into `width` columns unless
/// it is a single character wider than that.
pub open spec fn fits_line(line: Seq<char>, width: nat) -> bool {
    &&& (span_columns(line) <= width || line.len() == 1)
    &&& forall|j: int| 0 <= j < line.len() ==> line[j] != '\n'
}

proof fn lemma_wrap_scan_fit(s: Seq<char>, width: nat, cur: Seq<char>, used: nat)
    requires
        used == span_columns(cur),
        fits_line(cur, width),
    ensures
        forall|i: int|
            0 <= i < wrap_scan(s, width, cur, used).len() ==> fits_line(
                #[trigger] wrap_scan(s, width, cur, used)[i],
                width,
            ),
    decreases s.len(),
{
    if s.len() == 0 {
        assert(wrap_scan(s, width, cur, used)[0] == cur);
    } else {
        let c = s[0];
        let rest = s.drop_first();
        let empty = Seq::<char>::empty();
        if c == '\n' {
            assert(span_columns(empty) == 0);
            lemma_wrap_scan_fit(rest, width, empty, 0);
            let w = wrap_scan(rest, width, empty, 0);
            assert(wrap_scan(s, width, cur, used) == seq![cur] + w);
            assert forall|i: int| 0 <= i < (seq![cur] + w).len() implies fits_line(#[trigger] (seq![cur] + w)[i], width) by {
                if i > 0 {
                    assert((seq![cur] + w)[i] == w[i - 1]);
                }
            }
        } else if cur.len() > 0 && used + columns(c) > width {
            lemma_span_columns_push(empty, c);
            assert(empty.push(c) =~= seq![c]);
            assert(fits_line(seq![c], width));
            lemma_wrap_scan_fit(rest, width, seq![c], columns(c));
            let w = wrap_scan(rest, width, seq![c], columns(c));
            assert(wrap_scan(s, width, cur, used) == seq![cur] + w);
            assert forall|i: int| 0 <= i < (seq![cur] + w).len() implies fits_line(#[trigger] (seq![cur] + w)[i], width) by {
                if i > 0 {
                    assert((seq![cur] + w)[i] == w[i - 1]);
                }
            }
        } else {
            lemma_span_columns_push(cur, c);
            if cur.len() == 0 {
                assert(cur.push(c).len() == 1);
            }
            assert forall|j: int| 0 <= j < cur.push(c).len() implies cur.push(c)[j] != '\n' by {
                if j < cur.len() {
                    assert(cur.push(c)[j] == cur[j]);
                }
            }
            lemma_wrap_scan_fit(rest, width, cur.push(c), used + columns(c));
            assert(wrap_scan(s, width, cur, used) == wrap_scan(rest, width, cur.push(c), used + columns(c)));
        }
    }
}

/// Every wrapped line fits into `width` columns, unless it is a single
/// character wider than that, and no wrapped line holds a line break.
pub proof fn lemma_wrapped_lines_fit(s: Seq<char>, width: nat)
    ensures
        forall|i: int|
            0 <= i < wrapped_lines(s, width).len() ==> fits_line(
                #[trigger] wrapped_lines(s, width)[i],
                width,
            ),
{
    assert(span_columns(Seq::<char>::empty()) == 0);
    lemma_wrap_scan_fit(s, width, Seq::empty(), 0);
}

/// The parts joined with `sep` between neighbours (`[T]::join`).
pub open spec fn joined(parts: Seq<Seq<char>>, sep: Seq<char>) -> Seq<char>
    decreases parts.len(),
{
    if parts.len() == 0 {
        Seq::empty()
    } else if parts.len() == 1 {
        parts[0]
    } else {
        joined(parts.drop_last(), sep) + sep + parts.last()
    }
}

/// Whether `t` occurs in `s` as a contiguous piece.
pub open spec fn contains_text(s: Seq<char>, t: Seq<char>) -> bool {
    exists|i: int| 0 <= i && i + t.len() <= s.len() && #[trigger] s.subrange(i, i + t.len()) == t
}

/// A piece of a piece of `s` is a piece of `s`.
pub proof fn lemma_contains_text_trans(s: Seq<char>, t: Seq<char>, u: Seq<char>)
    requires
        contains_text(s, t),
        contains_text(t, u),
    ensures
        contains_text(s, u),
{
    let i = choose|i: int| 0 <= i && i + t.len() <= s.len() && #[trigger] s.subrange(i, i + t.len()) == t;
    let j = choose|j: int| 0 <= j && j + u.len() <= t.len() && #[trigger] t.subrange(j, j + u.len()) == u;
    assert(s.subrange(i + j, i + j + u.len()) =~= u);
}

/// A part of a sequence is contained in the concatenation `p + t + q`.
pub proof fn lemma_contains_text_middle(p: Seq<char>, t: Seq<char>, q: Seq<char>)
    ensures
        contains_text(p + t + q, t),
{
    assert((p + t + q).subrange(p.len() as int, (p.len() + t.len()) as int) =~= t);
}

/// Every part occurs in the parts joined with a separator.
pub proof fn lemma_joined_contains(parts: Seq<Seq<char>>, sep: Seq<char>, k: int)
    requires
        0 <= k < parts.len(),
    ensures
        contains_text(joined(parts, sep), parts[k]),
    decreases parts.len(),
{
    if parts.len() == 1 {
        lemma_contains_text_middle(Seq::empty(), parts[0], Seq::empty());
        assert(Seq::<char>::empty() + parts[0] + Seq::<char>::empty() =~= parts[0]);
    } else {
        let front = joined(parts.drop_last(), sep);
        if k == parts.len() - 1 {
            lemma_contains_text_middle(front + sep, parts.last(), Seq::empty());
            assert(front + sep + parts.last() + Seq::<char>::empty() =~= joined(parts, sep));
        } else {
            lemma_joined_contains(parts.drop_last(), sep, k);
            lemma_contains_text_middle(Seq::empty(), front, sep + parts.last());
            assert(Seq::<char>::empty() + front + (sep + parts.last()) =~= joined(parts, sep));
            lemma_contains_text_trans(joined(parts, sep), front, parts[k]);
        }
    }
}

/// Joins strings with a separator between neighbours.
pub fn join_strings(parts: &Vec<String>, sep: &str) -> (r: String)
    ensures
        r@ == joined(views(parts@), sep@),
{
    let mut r = String::new();
    let n = parts.len();
    for i in 0..n
        invariant
            n == parts.len(),
            r@ == joined(views(parts@).take(i as int), sep@),
    {
        let ghost before = views(parts@).take(i as int);
        let ghost after = views(parts@).take(i + 1);
        assert(after.drop_last() =~= before);
        assert(after.last() == parts@[i as int]@);
        if i != 0 {
            push_text(&mut r, sep);
        } else {
            assert(r@ =~= Seq::<char>::empty());
        }
        push_text(&mut r, parts[i].as_str());
        if i == 0 {
            assert(r@ =~= after[0]);
        }
    }
    assert(views(parts@).take(n as int) =~= views(parts@));
    r
}

/// Copies a string.
pub fn copy_string(s: &String) -> (r: String)
    ensures
        r@ == s@,
{
    s.clone()
}

/// The characters `chars[..start]`, then `insert` if any, then
/// `chars[end..]`.
pub fn splice(chars: &Vec<char>, start: usize, end: usize, insert: Option<char>) -> (r: Vec<char>)
    requires
        start <= end <= chars.len(),
    ensures
        r@ == chars@.take(start as int) + (match insert {
            Some(c) => seq![c],
            None => Seq::<char>::empty(),
        }) + chars@.skip(end as int),
{
    let mut r: Vec<char> = Vec::new();
    for i in 0..start
        invariant
            start <= chars.len(),
            r@ == chars@.take(i as int),
    {
        r.push(chars[i]);
        assert(chars@.take(i + 1) =~= chars@.take(i as int).push(chars@[i as int]));
    }
    let ghost mid: Seq<char> = match insert {
        Some(c) => seq![c],
        None => Seq::<char>::empty(),
    };
    if let Some(c) = insert {
        r.push(c);
    }
    assert(r@ =~= chars@.take(start as int) + mid);
    let n = chars.len();
    for i in end..n
        invariant
            n == chars.len(),
            end <= n,
            r@ == chars@.take(start as int) + mid + chars@.subrange(end as int, i as int),
    {
        r.push(chars[i]);
        assert(chars@.subrange(end as int, i + 1) =~= chars@.subrange(end as int, i as int).push(chars@[i as int]));
    }
    assert(chars@.subrange(end as int, n as int) =~= chars@.skip(end as int));
    r
}

} // verus!
