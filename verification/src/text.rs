//! Character-level text handling: the sequences of characters behind the
//! strings the client reads and shows, and the small scanners that work on them.

use vstd::prelude::*;

verus! {

/// `String::push` appends one character at the end of the string.
pub assume_specification[ String::push ](s: &mut String, c: char)
    ensures
        final(s)@ == old(s)@.push(c),
;

/// The characters of `s`, in order.
pub fn chars_of(s: &str) -> (chars: Vec<char>)
    ensures
        chars@ == s@,
{
    let mut chars: Vec<char> = Vec::new();
    for c in it: s.chars()
        invariant
            chars@ == it.seq().take(it.index()),
            it.seq() == s@,
    {
        chars.push(c);
    }
    chars
}

/// The string made of the characters `chars`, in order.
pub fn string_of(chars: &Vec<char>) -> (s: String)
    ensures
        s@ == chars@,
{
    let mut s = String::new();
    let mut i: usize = 0;
    while i < chars.len()
        invariant
            i <= chars.len(),
            s@ == chars@.take(i as int),
        decreases chars.len() - i,
    {
        s.push(chars[i]);
        i += 1;
    }
    s
}

/// Whether `c` is white space: the characters with the Unicode property
/// `White_Space`.
pub open spec fn is_space(c: char) -> bool {
    let n = c as u32;
    ||| 0x09 <= n <= 0x0D
    ||| n == 0x20
    ||| n == 0x85
    ||| n == 0xA0
    ||| n == 0x1680
    ||| 0x2000 <= n <= 0x200A
    ||| n == 0x2028
    ||| n == 0x2029
    ||| n == 0x202F
    ||| n == 0x205F
    ||| n == 0x3000
}

/// Whether every character of `s` is white space (so also when `s` is empty).
pub open spec fn is_blank(s: Seq<char>) -> bool {
    forall|i: int| 0 <= i < s.len() ==> is_space(#[trigger] s[i])
}

/// `s` without its leading white space.
pub open spec fn trim_start_of(s: Seq<char>) -> Seq<char>
    decreases s.len(),
{
    if s.len() > 0 && is_space(s[0]) {
        trim_start_of(s.drop_first())
    } else {
        s
    }
}

/// `s` without its trailing white space.
pub open spec fn trim_end_of(s: Seq<char>) -> Seq<char>
    decreases s.len(),
{
    if s.len() > 0 && is_space(s.last()) {
        trim_end_of(s.drop_last())
    } else {
        s
    }
}

/// `s` without leading and trailing white space.
pub open spec fn trimmed(s: Seq<char>) -> Seq<char> {
    trim_end_of(trim_start_of(s))
}

/// `s` with every run of white space replaced by one space, and with no white
/// space at either end: the words of `s`, one space between neighbours.
pub open spec fn normalized(s: Seq<char>) -> Seq<char>
    decreases s.len(),
{
    if s.len() == 0 {
        Seq::empty()
    } else {
        let before = normalized(s.drop_last());
        let c = s.last();
        if is_space(c) {
            before
        } else if before.len() > 0 && s.len() >= 2 && is_space(s[s.len() - 2]) {
            before.push(' ').push(c)
        } else {
            before.push(c)
        }
    }
}

/// Whether `c` is white space.
pub fn is_whitespace(c: char) -> (b: bool)
    ensures
        b == is_space(c),
{
    let n: u32 = c as u32;
    (0x09 <= n && n <= 0x0D) || n == 0x20 || n == 0x85 || n == 0xA0 || n == 0x1680 || (0x2000 <= n
        && n <= 0x200A) || n == 0x2028 || n == 0x2029 || n == 0x202F || n == 0x205F || n == 0x3000
}

/// Dropping `k` leading white-space characters, where the next character (if
/// any) is not white space, is trimming at the start.
pub proof fn lemma_trim_start(s: Seq<char>, k: int)
    requires
        0 <= k <= s.len(),
        forall|j: int| 0 <= j < k ==> is_space(#[trigger] s[j]),
        k < s.len() ==> !is_space(s[k]),
    ensures
        trim_start_of(s) == s.skip(k),
    decreases k,
{
    if k == 0 {
        assert(s.skip(0) =~= s);
    } else {
        let rest = s.drop_first();
        assert forall|j: int| 0 <= j < k - 1 implies is_space(#[trigger] rest[j]) by {
            assert(rest[j] == s[j + 1]);
        }
        lemma_trim_start(rest, k - 1);
        assert(rest.skip(k - 1) =~= s.skip(k));
    }
}

/// Keeping the first `k` characters, where all the later ones are white space
/// and the last one kept (if any) is not, is trimming at the end.
pub proof fn lemma_trim_end(s: Seq<char>, k: int)
    requires
        0 <= k <= s.len(),
        forall|j: int| k <= j < s.len() ==> is_space(#[trigger] s[j]),
        k > 0 ==> !is_space(s[k - 1]),
    ensures
        trim_end_of(s) == s.take(k),
    decreases s.len() - k,
{
    if k == s.len() {
        assert(s.take(k) =~= s);
    } else {
        let rest = s.drop_last();
        assert(is_space(s[s.len() - 1]));
        assert forall|j: int| k <= j < rest.len() implies is_space(#[trigger] rest[j]) by {
            assert(rest[j] == s[j]);
        }
        lemma_trim_end(rest, k);
        assert(rest.take(k) =~= s.take(k));
    }
}

/// `s` without leading and trailing white space.
pub fn trim(s: &Vec<char>) -> (out: Vec<char>)
    ensures
        out@ == trimmed(s@),
{
    let n = s.len();
    let mut start: usize = 0;
    while start < n && is_whitespace(s[start])
        invariant
            start <= n,
            n == s.len(),
            forall|j: int| 0 <= j < start ==> is_space(#[trigger] s@[j]),
        decreases n - start,
    {
        start += 1;
    }
    let mut end: usize = n;
    while end > start && is_whitespace(s[end - 1])
        invariant
            start <= end <= n,
            n == s.len(),
            forall|j: int| end <= j < n ==> is_space(#[trigger] s@[j]),
        decreases end,
    {
        end -= 1;
    }
    let mut out: Vec<char> = Vec::new();
    let mut i: usize = start;
    while i < end
        invariant
            start <= i <= end <= n,
            n == s.len(),
            out@ == s@.subrange(start as int, i as int),
        decreases end - i,
    {
        out.push(s[i]);
        i += 1;
    }
    proof {
        let front = s@.skip(start as int);
        lemma_trim_start(s@, start as int);
        assert forall|j: int| end - start <= j < front.len() implies is_space(
            #[trigger] front[j],
        ) by {
            assert(front[j] == s@[j + start]);
        }
        if end > start {
            assert(front[end - start - 1] == s@[end - 1]);
        }
        lemma_trim_end(front, end - start);
        assert(front.take(end - start) =~= s@.subrange(start as int, end as int));
    }
    out
}

/// Whether `s` holds nothing but white space.
pub fn is_blank_text(s: &Vec<char>) -> (b: bool)
    ensures
        b == is_blank(s@),
{
    let mut i: usize = 0;
    while i < s.len()
        invariant
            i <= s.len(),
            forall|j: int| 0 <= j < i ==> is_space(#[trigger] s@[j]),
        decreases s.len() - i,
    {
        if !is_whitespace(s[i]) {
            return false;
        }
        i += 1;
    }
    true
}

/// The words of `s` with one space between neighbours.
pub fn normalize(s: &Vec<char>) -> (out: Vec<char>)
    ensures
        out@ == normalized(s@),
{
    let mut out: Vec<char> = Vec::new();
    let mut gap = false;
    let mut i: usize = 0;
    while i < s.len()
        invariant
            i <= s.len(),
            out@ == normalized(s@.take(i as int)),
            gap == (i > 0 && is_space(s@[i - 1])),
        decreases s.len() - i,
    {
        let c = s[i];
        proof {
            let next = s@.take(i + 1);
            assert(next.drop_last() =~= s@.take(i as int));
            assert(next.last() == c);
            if i > 0 {
                assert(next[next.len() - 2] == s@[i - 1]);
            }
        }
        if is_whitespace(c) {
            gap = true;
        } else {
            if gap && out.len() > 0 {
                out.push(' ');
            }
            out.push(c);
            gap = false;
        }
        i += 1;
    }
    assert(s@.take(s.len() as int) =~= s@);
    out
}

/// The place of the first line feed in `s`, or the length of `s` if it has none.
pub open spec fn first_newline(s: Seq<char>) -> int
    decreases s.len(),
{
    if s.len() == 0 || s[0] == '\n' {
        0
    } else {
        1 + first_newline(s.drop_first())
    }
}

/// `line` without one trailing carriage return.
pub open spec fn strip_cr(line: Seq<char>) -> Seq<char> {
    if line.len() > 0 && line.last() == '\r' {
        line.drop_last()
    } else {
        line
    }
}

/// The lines of `s`. A line ends at a line feed, or at a carriage return
/// directly followed by one; the ending is not part of the line. The last line
/// needs no ending, and an ending at the very end begins no further line.
pub open spec fn lines_of(s: Seq<char>) -> Seq<Seq<char>>
    decreases s.len(),
{
    if s.len() == 0 {
        Seq::empty()
    } else {
        let k = first_newline(s);
        if 0 <= k < s.len() {
            seq![strip_cr(s.take(k))] + lines_of(s.skip(k + 1))
        } else {
            seq![s]
        }
    }
}

/// The number of characters in all of `lines`.
pub open spec fn total_len(lines: Seq<Seq<char>>) -> nat
    decreases lines.len(),
{
    if lines.len() == 0 {
        0
    } else {
        total_len(lines.drop_last()) + lines.last().len()
    }
}

/// The lines at the beginning of a text hold no more characters than all of
/// its lines.
pub proof fn lemma_total_len_take(lines: Seq<Seq<char>>, k: int)
    requires
        0 <= k <= lines.len(),
    ensures
        total_len(lines.take(k)) <= total_len(lines),
    decreases lines.len() - k,
{
    if k == lines.len() {
        assert(lines.take(k) =~= lines);
    } else {
        lemma_total_len_take(lines.drop_last(), k);
        assert(lines.drop_last().take(k) =~= lines.take(k));
    }
}

/// The first line feed of `s` is at `k` when none stands before `k` and one
/// stands at `k`, or `k` is the length of `s`.
pub proof fn lemma_first_newline(s: Seq<char>, k: int)
    requires
        0 <= k <= s.len(),
        forall|j: int| 0 <= j < k ==> #[trigger] s[j] != '\n',
        k < s.len() ==> s[k] == '\n',
    ensures
        first_newline(s) == k,
    decreases k,
{
    if k > 0 {
        let rest = s.drop_first();
        assert forall|j: int| 0 <= j < k - 1 implies #[trigger] rest[j] != '\n' by {
            assert(rest[j] == s[j + 1]);
        }
        lemma_first_newline(rest, k - 1);
    }
}

/// The character sequences held by the vectors `v`, in order.
pub open spec fn texts(v: Seq<Vec<char>>) -> Seq<Seq<char>> {
    Seq::new(v.len(), |i: int| v[i]@)
}

/// The lines of `s`, in order.
pub fn split_lines(s: &Vec<char>) -> (lines: Vec<Vec<char>>)
    ensures
        texts(lines@) == lines_of(s@),
        total_len(lines_of(s@)) <= s@.len(),
{
    let n = s.len();
    let mut lines: Vec<Vec<char>> = Vec::new();
    let mut cur: Vec<char> = Vec::new();
    let mut start: usize = 0;
    let mut i: usize = 0;
    assert(texts(lines@) + lines_of(s@.skip(0)) =~= lines_of(s@)) by {
        assert(s@.skip(0) =~= s@);
    }
    while i < n
        invariant
            start <= i <= n,
            n == s.len(),
            cur@ == s@.subrange(start as int, i as int),
            forall|j: int| start <= j < i ==> #[trigger] s@[j] != '\n',
            lines_of(s@) == texts(lines@) + lines_of(s@.skip(start as int)),
            total_len(texts(lines@)) <= start,
        decreases n - i,
    {
        let c = s[i];
        if c == '\n' {
            let ghost rest = s@.skip(start as int);
            let ghost before = texts(lines@);
            proof {
                assert forall|j: int| 0 <= j < i - start implies #[trigger] rest[j] != '\n' by {
                    assert(rest[j] == s@[j + start]);
                }
                lemma_first_newline(rest, i - start);
                assert(rest.take(i - start) =~= cur@);
                assert(rest.skip(i - start + 1) =~= s@.skip(i + 1));
            }
            let m = cur.len();
            if m > 0 && cur[m - 1] == '\r' {
                cur.pop();
                assert(cur@ =~= strip_cr(rest.take(i - start)));
            }
            lines.push(cur);
            proof {
                let line = strip_cr(rest.take(i - start));
                assert(texts(lines@) =~= before.push(line));
                assert(texts(lines@).drop_last() =~= before);
                assert(before.push(line) =~= before + seq![line]);
                assert(lines_of(s@) =~= texts(lines@) + lines_of(s@.skip(i + 1)));
            }
            cur = Vec::new();
            start = i + 1;
            assert(cur@ =~= s@.subrange(start as int, i + 1));
        } else {
            cur.push(c);
            assert(cur@ =~= s@.subrange(start as int, i + 1));
        }
        i += 1;
    }
    if start < n {
        let ghost rest = s@.skip(start as int);
        let ghost before = texts(lines@);
        proof {
            assert forall|j: int| 0 <= j < rest.len() implies #[trigger] rest[j] != '\n' by {
                assert(rest[j] == s@[j + start]);
            }
            lemma_first_newline(rest, rest.len() as int);
            assert(rest =~= cur@);
        }
        lines.push(cur);
        proof {
            assert(texts(lines@) =~= before.push(rest));
            assert(texts(lines@).drop_last() =~= before);
            assert(before.push(rest) =~= before + seq![rest]);
        }
    } else {
        assert(texts(lines@) + Seq::<Seq<char>>::empty() =~= texts(lines@));
    }
    lines
}

/// Whether `c` is one of the ten decimal digits `0` to `9`.
pub open spec fn is_digit(c: char) -> bool {
    0x30 <= c as u32 <= 0x39
}

/// The number that the decimal digit `c` stands for.
pub open spec fn digit_value(c: char) -> nat {
    if is_digit(c) {
        (c as u32 - 0x30) as nat
    } else {
        0
    }
}

/// Whether `s` holds decimal digits only.
pub open spec fn all_digits(s: Seq<char>) -> bool {
    forall|i: int| 0 <= i < s.len() ==> is_digit(#[trigger] s[i])
}

/// The number that the decimal digits `s` write, most significant digit first.
pub open spec fn decimal_value(s: Seq<char>) -> nat
    decreases s.len(),
{
    if s.len() == 0 {
        0
    } else {
        10 * decimal_value(s.drop_last()) + digit_value(s.last())
    }
}

/// `s` without one leading plus sign.
pub open spec fn unsigned_digits(s: Seq<char>) -> Seq<char> {
    if s.len() > 0 && s[0] == '+' {
        s.drop_first()
    } else {
        s
    }
}

/// Whether `s` writes an unsigned number: an optional plus sign, then at least
/// one decimal digit and nothing else.
pub open spec fn is_unsigned_text(s: Seq<char>) -> bool {
    unsigned_digits(s).len() > 0 && all_digits(unsigned_digits(s))
}

/// The number that `s` writes, where it writes one.
pub open spec fn unsigned_value(s: Seq<char>) -> nat {
    decimal_value(unsigned_digits(s))
}

/// What reading `s` as a `u8` gives: its number, if `s` writes one and it fits.
pub open spec fn u8_of_text(s: Seq<char>) -> Option<u8> {
    if is_unsigned_text(s) && unsigned_value(s) <= u8::MAX {
        Some(unsigned_value(s) as u8)
    } else {
        None
    }
}

/// A longer run of digits writes no smaller number than its beginning.
pub proof fn lemma_decimal_value_grows(s: Seq<char>, k: int)
    requires
        0 <= k <= s.len(),
    ensures
        decimal_value(s.take(k)) <= decimal_value(s),
    decreases s.len() - k,
{
    if k == s.len() {
        assert(s.take(k) =~= s);
    } else {
        lemma_decimal_value_grows(s.drop_last(), k);
        assert(s.drop_last().take(k) =~= s.take(k));
    }
}

/// Reads `s` as a `u8`.
pub fn parse_u8(s: &Vec<char>) -> (value: Option<u8>)
    ensures
        value == u8_of_text(s@),
{
    let n = s.len();
    let start: usize = if n > 0 && s[0] == '+' {
        1
    } else {
        0
    };
    if start == n {
        return None;
    }
    let ghost digits = unsigned_digits(s@);
    assert(digits =~= s@.skip(start as int));
    let mut acc: u32 = 0;
    let mut i: usize = start;
    while i < n
        invariant
            start <= i <= n,
            n == s.len(),
            start <= 1,
            digits == s@.skip(start as int),
            digits == unsigned_digits(s@),
            all_digits(digits.take(i - start)),
            acc == decimal_value(digits.take(i - start)),
            acc <= u8::MAX,
        decreases n - i,
    {
        let c = s[i];
        let code: u32 = c as u32;
        if code < 0x30 || code > 0x39 {
            assert(!is_digit(digits[i - start]));
            return None;
        }
        let ghost next = digits.take(i - start + 1);
        proof {
            assert(next.drop_last() =~= digits.take(i - start));
            assert(next.last() == c);
            assert forall|j: int| 0 <= j < next.len() implies is_digit(#[trigger] next[j]) by {
                if j < i - start {
                    assert(digits.take(i - start)[j] == next[j]);
                }
            }
        }
        acc = acc * 10 + (code - 0x30);
        if acc > 255 {
            proof {
                lemma_decimal_value_grows(digits, i - start + 1);
            }
            return None;
        }
        i += 1;
    }
    assert(digits.take(n - start) =~= digits);
    Some(acc as u8)
}

/// The character that writes the digit `d`.
pub open spec fn digit_char(d: nat) -> char {
    if d == 0 {
        '0'
    } else if d == 1 {
        '1'
    } else if d == 2 {
        '2'
    } else if d == 3 {
        '3'
    } else if d == 4 {
        '4'
    } else if d == 5 {
        '5'
    } else if d == 6 {
        '6'
    } else if d == 7 {
        '7'
    } else if d == 8 {
        '8'
    } else {
        '9'
    }
}

/// The decimal digits of `n`, most significant first, without leading zeros.
pub open spec fn decimal_digits(n: nat) -> Seq<char>
    decreases n,
{
    if n < 10 {
        seq![digit_char(n)]
    } else {
        decimal_digits(n / 10).push(digit_char(n % 10))
    }
}

/// `n` written in decimal, with a minus sign in front where it is negative.
pub open spec fn decimal_text(n: int) -> Seq<char> {
    if n < 0 {
        seq!['-'] + decimal_digits((-n) as nat)
    } else {
        decimal_digits(n as nat)
    }
}

fn digit_to_char(d: u64) -> (c: char)
    requires
        d < 10,
    ensures
        c == digit_char(d as nat),
{
    if d == 0 {
        '0'
    } else if d == 1 {
        '1'
    } else if d == 2 {
        '2'
    } else if d == 3 {
        '3'
    } else if d == 4 {
        '4'
    } else if d == 5 {
        '5'
    } else if d == 6 {
        '6'
    } else if d == 7 {
        '7'
    } else if d == 8 {
        '8'
    } else {
        '9'
    }
}

fn push_decimal(n: u64, out: &mut Vec<char>)
    ensures
        final(out)@ == old(out)@ + decimal_digits(n as nat),
    decreases n,
{
    if n >= 10 {
        push_decimal(n / 10, out);
    }
    out.push(digit_to_char(n % 10));
    assert(out@ =~= old(out)@ + decimal_digits(n as nat));
}

/// Writes `n` in decimal.
pub fn format_unsigned(n: u64) -> (out: Vec<char>)
    ensures
        out@ == decimal_digits(n as nat),
{
    let mut out: Vec<char> = Vec::new();
    push_decimal(n, &mut out);
    assert(out@ =~= decimal_digits(n as nat));
    out
}

/// Writes `n` in decimal, with a minus sign in front where it is negative.
pub fn format_decimal(n: i32) -> (out: Vec<char>)
    ensures
        out@ == decimal_text(n as int),
{
    let mut out: Vec<char> = Vec::new();
    let wide: i64 = n as i64;
    if wide < 0 {
        out.push('-');
        push_decimal((-wide) as u64, &mut out);
    } else {
        push_decimal(wide as u64, &mut out);
    }
    assert(out@ =~= decimal_text(n as int));
    out
}

/// Writing a number in decimal and reading the digits back gives the number.
pub proof fn lemma_decimal_round_trip(n: nat)
    ensures
        all_digits(decimal_digits(n)),
        decimal_digits(n).len() > 0,
        decimal_digits(n)[0] != '+',
        decimal_value(decimal_digits(n)) == n,
    decreases n,
{
    if n < 10 {
        let s = decimal_digits(n);
        assert(s.drop_last() =~= Seq::<char>::empty());
        assert(decimal_value(s.drop_last()) == 0);
        assert(digit_value(digit_char(n)) == n);
    } else {
        lemma_decimal_round_trip(n / 10);
        let front = decimal_digits(n / 10);
        let s = decimal_digits(n);
        assert(s.drop_last() =~= front);
        assert(digit_value(digit_char(n % 10)) == n % 10);
        assert(s[0] == front[0]);
        assert forall|i: int| 0 <= i < s.len() implies is_digit(#[trigger] s[i]) by {
            if i < front.len() {
                assert(s[i] == front[i]);
            }
        }
    }
}

/// Reading the decimal digits of a number as a `u8` gives the number where it
/// fits, and nothing where it does not.
pub proof fn lemma_u8_of_decimal(n: nat)
    ensures
        u8_of_text(decimal_digits(n)) == if n <= u8::MAX {
            Some(n as u8)
        } else {
            None
        },
{
    lemma_decimal_round_trip(n);
}

/// The words of `s`: its longest runs of characters that are not white space,
/// in their order.
pub open spec fn words_of(s: Seq<char>) -> Seq<Seq<char>>
    decreases s.len(),
{
    if s.len() == 0 {
        Seq::empty()
    } else {
        let before = words_of(s.drop_last());
        let c = s.last();
        if is_space(c) {
            before
        } else if s.len() >= 2 && !is_space(s[s.len() - 2]) && before.len() > 0 {
            before.drop_last().push(before.last().push(c))
        } else {
            before.push(seq![c])
        }
    }
}

/// `words` one after the other, with one space between neighbours.
pub open spec fn joined(words: Seq<Seq<char>>) -> Seq<char>
    decreases words.len(),
{
    if words.len() == 0 {
        Seq::empty()
    } else if words.len() == 1 {
        words[0]
    } else {
        joined(words.drop_last()).push(' ') + words.last()
    }
}

/// Whether `s` has its white space in order: every white-space character in
/// it is a space that stands between two characters that are not white space.
pub open spec fn is_tidy(s: Seq<char>) -> bool {
    forall|i: int|
        0 <= i < s.len() && is_space(#[trigger] s[i]) ==> {
            &&& s[i] == ' '
            &&& 0 < i < s.len() - 1
            &&& !is_space(s[i - 1])
            &&& !is_space(s[i + 1])
        }
}

/// Words have at least one character and no white space, and a text that
/// ends in a character that is not white space has a last word.
pub proof fn lemma_words(s: Seq<char>)
    ensures
        forall|i: int| 0 <= i < words_of(s).len() ==> (#[trigger] words_of(s)[i]).len() > 0,
        forall|i: int, j: int|
            0 <= i < words_of(s).len() && 0 <= j < words_of(s)[i].len() ==> !is_space(
                #[trigger] words_of(s)[i][j],
            ),
        s.len() > 0 && !is_space(s.last()) ==> words_of(s).len() > 0,
    decreases s.len(),
{
    if s.len() > 0 {
        lemma_words(s.drop_last());
        let before = words_of(s.drop_last());
        let c = s.last();
        if is_space(c) {
        } else if s.len() >= 2 && !is_space(s[s.len() - 2]) && before.len() > 0 {
            let grown = before.last().push(c);
            let after = before.drop_last().push(grown);
            assert(words_of(s) == after);
            assert forall|i: int, j: int|
                0 <= i < after.len() && 0 <= j < after[i].len() implies !is_space(
                #[trigger] after[i][j],
            ) by {
                if i < after.len() - 1 {
                    assert(after[i] == before[i]);
                } else if j < grown.len() - 1 {
                    assert(grown[j] == before.last()[j]);
                }
            }
            assert forall|i: int| 0 <= i < after.len() implies (#[trigger] after[i]).len() > 0 by {
                if i < after.len() - 1 {
                    assert(after[i] == before[i]);
                }
            }
        } else {
            let after = before.push(seq![c]);
            assert(words_of(s) == after);
            assert forall|i: int, j: int|
                0 <= i < after.len() && 0 <= j < after[i].len() implies !is_space(
                #[trigger] after[i][j],
            ) by {
                if i < after.len() - 1 {
                    assert(after[i] == before[i]);
                }
            }
            assert forall|i: int| 0 <= i < after.len() implies (#[trigger] after[i]).len() > 0 by {
                if i < after.len() - 1 {
                    assert(after[i] == before[i]);
                }
            }
        }
    }
}

/// A character added to the last word is a character added to the joined words.
pub proof fn lemma_joined_grows(words: Seq<Seq<char>>, c: char)
    requires
        words.len() > 0,
    ensures
        joined(words.drop_last().push(words.last().push(c))) == joined(words).push(c),
{
    let grown = words.drop_last().push(words.last().push(c));
    if words.len() == 1 {
        assert(grown[0] == words[0].push(c));
    } else {
        assert(grown.drop_last() =~= words.drop_last());
        assert(joined(grown) =~= joined(words).push(c));
    }
}

/// Joined words are empty only where there is no word, given that no word is
/// empty.
pub proof fn lemma_joined_len(words: Seq<Seq<char>>)
    requires
        forall|i: int| 0 <= i < words.len() ==> (#[trigger] words[i]).len() > 0,
    ensures
        joined(words).len() == 0 <==> words.len() == 0,
{
    if words.len() == 1 {
        assert(words[0].len() > 0);
    }
}

/// Putting the white space of a text in order leaves its words, with one space
/// between neighbours and nothing before the first or after the last.
pub proof fn lemma_normalized_joins_words(s: Seq<char>)
    ensures
        normalized(s) == joined(words_of(s)),
    decreases s.len(),
{
    if s.len() > 0 {
        let rest = s.drop_last();
        lemma_normalized_joins_words(rest);
        lemma_words(rest);
        let before = words_of(rest);
        lemma_joined_len(before);
        let c = s.last();
        if is_space(c) {
        } else if s.len() >= 2 && !is_space(s[s.len() - 2]) {
            assert(rest.last() == s[s.len() - 2]);
            assert(before.len() > 0);
            lemma_joined_grows(before, c);
        } else {
            let after = before.push(seq![c]);
            assert(words_of(s) == after);
            assert(after.drop_last() =~= before);
            if before.len() == 0 {
                assert(joined(after) =~= seq![c]);
                assert(normalized(s) =~= seq![c]);
            } else {
                assert(s.len() >= 2);
                assert(joined(after) =~= joined(before).push(' ').push(c));
            }
        }
    }
}

/// A text whose white space was put in order has it in order, and ends in a
/// character that is not white space.
pub proof fn lemma_normalized_is_tidy(s: Seq<char>)
    ensures
        is_tidy(normalized(s)),
        normalized(s).len() > 0 ==> !is_space(normalized(s).last()),
    decreases s.len(),
{
    if s.len() > 0 {
        lemma_normalized_is_tidy(s.drop_last());
        let before = normalized(s.drop_last());
        let c = s.last();
        let after = normalized(s);
        if is_space(c) {
        } else {
            assert forall|i: int| 0 <= i < after.len() && is_space(#[trigger] after[i]) implies {
                &&& after[i] == ' '
                &&& 0 < i < after.len() - 1
                &&& !is_space(after[i - 1])
                &&& !is_space(after[i + 1])
            } by {
                if i < before.len() {
                    assert(after[i] == before[i]);
                    assert(is_space(before[i]));
                    assert(after[i - 1] == before[i - 1]);
                    assert(after[i + 1] == before[i + 1]);
                } else {
                    assert(i == before.len());
                    assert(after[i - 1] == before.last());
                }
            }
        }
    }
}

/// Putting white space in order changes nothing in the beginning of a text
/// that has it in order, but for a space at its very end.
proof fn lemma_tidy_prefix(p: Seq<char>)
    requires
        forall|i: int|
            0 <= i < p.len() && is_space(#[trigger] p[i]) ==> p[i] == ' ' && 0 < i && !is_space(
                p[i - 1],
            ),
    ensures
        normalized(p) == if p.len() > 0 && is_space(p.last()) {
            p.drop_last()
        } else {
            p
        },
    decreases p.len(),
{
    if p.len() > 0 {
        let rest = p.drop_last();
        assert forall|i: int| 0 <= i < rest.len() && is_space(#[trigger] rest[i]) implies rest[i]
            == ' ' && 0 < i && !is_space(rest[i - 1]) by {
            assert(rest[i] == p[i]);
            assert(rest[i - 1] == p[i - 1]);
        }
        lemma_tidy_prefix(rest);
        let c = p.last();
        if is_space(c) {
            assert(rest.last() == p[p.len() - 2]);
        } else if rest.len() == 0 {
            assert(normalized(p) =~= p);
        } else if is_space(rest.last()) {
            assert(rest.last() == p[p.len() - 2]);
            assert(rest[rest.len() - 1] == ' ');
            assert(rest.len() >= 2);
            assert(normalized(p) =~= p);
        } else {
            assert(rest.last() == p[p.len() - 2]);
            assert(normalized(p) =~= p);
        }
    }
}

/// A text that has its white space in order is left as it is, so that putting
/// white space in order twice is the same as doing it once.
pub proof fn lemma_normalized_twice(s: Seq<char>)
    ensures
        is_tidy(s) ==> normalized(s) == s,
        normalized(normalized(s)) == normalized(s),
{
    if is_tidy(s) {
        lemma_tidy_prefix(s);
    }
    lemma_normalized_is_tidy(s);
    lemma_tidy_prefix(normalized(s));
}

/// Trimmed text neither begins nor ends with white space.
pub proof fn lemma_trimmed_ends(s: Seq<char>)
    ensures
        trimmed(s).len() > 0 ==> !is_space(trimmed(s)[0]) && !is_space(trimmed(s).last()),
        trimmed(s).len() <= s.len(),
{
    lemma_trim_start_ends(s);
    lemma_trim_end_ends(trim_start_of(s));
}

/// Text trimmed at the start does not begin with white space.
pub proof fn lemma_trim_start_ends(s: Seq<char>)
    ensures
        trim_start_of(s).len() > 0 ==> !is_space(trim_start_of(s)[0]),
        trim_start_of(s).len() <= s.len(),
    decreases s.len(),
{
    if s.len() > 0 && is_space(s[0]) {
        lemma_trim_start_ends(s.drop_first());
    }
}

/// Text trimmed at the end does not end with white space, and begins as it did.
pub proof fn lemma_trim_end_ends(s: Seq<char>)
    ensures
        trim_end_of(s).len() > 0 ==> !is_space(trim_end_of(s).last()) && trim_end_of(s)[0] == s[0],
        trim_end_of(s).len() <= s.len(),
    decreases s.len(),
{
    if s.len() > 0 && is_space(s.last()) {
        lemma_trim_end_ends(s.drop_last());
    }
}

} // verus!
