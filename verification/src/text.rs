//! Character-level helpers shared by the text formats of the library: splitting into lines and
//! whitespace-separated words, reading and writing decimal numbers, and writing hexadecimal ones.

use vstd::prelude::*;

verus! {

/// Whether `c` is white space in the sense of Unicode's `White_Space` property (the set that
/// `char::is_whitespace` tests).
pub open spec fn is_space(c: char) -> bool {
    c == '\t' || c == '\n' || c == '\u{0B}' || c == '\u{0C}' || c == '\r' || c == ' '
        || c == '\u{85}' || c == '\u{A0}' || c == '\u{1680}' || ('\u{2000}' <= c && c
        <= '\u{200A}') || c == '\u{2028}' || c == '\u{2029}' || c == '\u{202F}' || c == '\u{205F}'
        || c == '\u{3000}'
}

/// Tests whether `c` is white space.
pub fn char_is_space(c: char) -> (r: bool)
    ensures
        r == is_space(c),
{
    c == '\t' || c == '\n' || c == '\u{0B}' || c == '\u{0C}' || c == '\r' || c == ' ' || c
        == '\u{85}' || c == '\u{A0}' || c == '\u{1680}' || ('\u{2000}' <= c && c <= '\u{200A}')
        || c == '\u{2028}' || c == '\u{2029}' || c == '\u{202F}' || c == '\u{205F}' || c
        == '\u{3000}'
}

/// The pieces of `s` between line feeds, in order; a text without line feeds is one piece.
pub open spec fn lines_of(s: Seq<char>) -> Seq<Seq<char>>
    decreases s.len(),
{
    if s.len() == 0 {
        seq![Seq::<char>::empty()]
    } else {
        let prev = lines_of(s.drop_last());
        if s.last() == '\n' {
            prev.push(Seq::<char>::empty())
        } else {
            prev.update(prev.len() - 1, prev.last().push(s.last()))
        }
    }
}

/// A text always has at least one line.
pub proof fn lemma_lines_of_nonempty(s: Seq<char>)
    ensures
        lines_of(s).len() >= 1,
    decreases s.len(),
{
    if s.len() > 0 {
        lemma_lines_of_nonempty(s.drop_last());
    }
}

/// The maximal runs of non-space characters of `s`, in order.
pub open spec fn words(s: Seq<char>) -> Seq<Seq<char>>
    decreases s.len(),
{
    if s.len() == 0 {
        Seq::<Seq<char>>::empty()
    } else {
        let prev = words(s.drop_last());
        let c = s.last();
        if is_space(c) {
            prev
        } else if s.len() >= 2 && !is_space(s[s.len() - 2]) {
            prev.update(prev.len() - 1, prev.last().push(c))
        } else {
            prev.push(seq![c])
        }
    }
}

/// Whether every character of `d` is an ASCII digit.
pub open spec fn all_digits(d: Seq<char>) -> bool {
    forall|i: int| 0 <= i < d.len() ==> '0' <= #[trigger] d[i] <= '9'
}

/// The number that the decimal digits `d` spell, most significant first.
pub open spec fn digits_value(d: Seq<char>) -> int
    decreases d.len(),
{
    if d.len() == 0 {
        0
    } else {
        digits_value(d.drop_last()) * 10 + (d.last() as int - '0' as int)
    }
}

/// What reading `s` as a `u32` gives: an optional `+` followed by at least one decimal digit,
/// and a value that fits.
pub open spec fn parse_u32(s: Seq<char>) -> Option<u32> {
    let d = if s.len() > 0 && s[0] == '+' {
        s.drop_first()
    } else {
        s
    };
    if d.len() > 0 && all_digits(d) && digits_value(d) <= u32::MAX {
        Some(digits_value(d) as u32)
    } else {
        None
    }
}

/// The decimal digit character of `d`.
pub open spec fn digit_char(d: nat) -> char {
    ((d + '0' as nat) as u32) as char
}

/// The shortest decimal spelling of `n`.
pub open spec fn decimal(n: nat) -> Seq<char>
    decreases n,
{
    if n < 10 {
        seq![digit_char(n)]
    } else {
        decimal(n / 10).push(digit_char(n % 10))
    }
}

/// Copies the characters of `s` into a vector.
pub fn chars_of(s: &str) -> (r: Vec<char>)
    ensures
        r@ == s@,
{
    let n = s.unicode_len();
    let mut r: Vec<char> = Vec::new();
    let mut i: usize = 0;
    while i < n
        invariant
            n == s@.len(),
            i <= n,
            r@ == s@.take(i as int),
        decreases n - i,
    {
        let c = s.get_char(i);
        r.push(c);
        i = i + 1;
        assert(r@ =~= s@.take(i as int));
    }
    assert(r@ =~= s@);
    r
}

/// The positions `[start, end)` of the words of `chars[from..to]`.
pub fn word_ranges(chars: &Vec<char>, from: usize, to: usize) -> (r: Vec<(usize, usize)>)
    requires
        from <= to <= chars@.len(),
    ensures
        r@.len() == words(chars@.subrange(from as int, to as int)).len(),
        forall|k: int|
            0 <= k < r@.len() ==> {
                &&& from <= (#[trigger] r@[k]).0 <= r@[k].1 <= to
                &&& chars@.subrange(r@[k].0 as int, r@[k].1 as int) == words(
                    chars@.subrange(from as int, to as int),
                )[k]
            },
{
    let mut r: Vec<(usize, usize)> = Vec::new();
    let mut j: usize = from;
    while j < to
        invariant
            from <= j <= to <= chars@.len(),
            r@.len() == words(chars@.subrange(from as int, j as int)).len(),
            forall|k: int|
                0 <= k < r@.len() ==> {
                    &&& from <= (#[trigger] r@[k]).0 <= r@[k].1 <= j
                    &&& chars@.subrange(r@[k].0 as int, r@[k].1 as int) == words(
                        chars@.subrange(from as int, j as int),
                    )[k]
                },
            (j > from && !is_space(chars@[j - 1])) ==> r@.len() > 0 && r@.last().1 == j,
        decreases to - j,
    {
        let c = chars[j];
        let ghost old_r = r@;
        let ghost sub = chars@.subrange(from as int, j as int);
        let ghost next = chars@.subrange(from as int, j + 1);
        assert(next.drop_last() =~= sub);
        assert(next.last() == c);
        if char_is_space(c) {
        } else if j > from && !char_is_space(chars[j - 1]) {
            assert(next[next.len() - 2] == chars@[j - 1]);
            let last = r.len() - 1;
            let (a, _) = r[last];
            r.set(last, (a, j + 1));
            assert(chars@.subrange(a as int, j + 1) =~= chars@.subrange(a as int, j as int).push(
                c,
            ));
            assert forall|k: int| 0 <= k < r@.len() implies chars@.subrange(
                (#[trigger] r@[k]).0 as int,
                r@[k].1 as int,
            ) == words(next)[k] by {
                if k < last {
                    assert(r@[k] == old_r[k]);
                }
            }
        } else {
            if j > from {
                assert(next[next.len() - 2] == chars@[j - 1]);
            }
            r.push((j, j + 1));
            assert(chars@.subrange(j as int, j + 1) =~= seq![c]);
            assert forall|k: int| 0 <= k < r@.len() implies chars@.subrange(
                (#[trigger] r@[k]).0 as int,
                r@[k].1 as int,
            ) == words(next)[k] by {
                if k < old_r.len() {
                    assert(r@[k] == old_r[k]);
                }
            }
        }
        j = j + 1;
    }
    r
}

/// Digits keep their value when a prefix of them is read.
proof fn lemma_digits_grow(d: Seq<char>, c: char)
    requires
        '0' <= c <= '9',
    ensures
        digits_value(d.push(c)) == digits_value(d) * 10 + (c as int - '0' as int),
{
    assert(d.push(c).drop_last() =~= d);
}

/// Reads `chars[from..to]` as a `u32`, the way `str::parse::<u32>` reads a string.
pub fn parse_u32_at(chars: &Vec<char>, from: usize, to: usize) -> (r: Option<u32>)
    requires
        from <= to <= chars@.len(),
    ensures
        r == parse_u32(chars@.subrange(from as int, to as int)),
{
    let ghost s = chars@.subrange(from as int, to as int);
    let mut i = from;
    if from < to && chars[from] == '+' {
        i = from + 1;
    }
    let ghost d = if s.len() > 0 && s[0] == '+' {
        s.drop_first()
    } else {
        s
    };
    assert(d =~= chars@.subrange(i as int, to as int));
    if i == to {
        return None;
    }
    let start = i;
    let mut acc: u64 = 0;
    let mut overflow = false;
    while i < to
        invariant
            start <= i <= to <= chars@.len(),
            d == chars@.subrange(start as int, to as int),
            s == chars@.subrange(from as int, to as int),
            d == (if s.len() > 0 && s[0] == '+' {
                s.drop_first()
            } else {
                s
            }),
            all_digits(chars@.subrange(start as int, i as int)),
            !overflow ==> acc == digits_value(chars@.subrange(start as int, i as int)),
            !overflow ==> acc <= u32::MAX,
            overflow ==> digits_value(chars@.subrange(start as int, i as int)) > u32::MAX,
        decreases to - i,
    {
        let c = chars[i];
        if !('0' <= c && c <= '9') {
            assert(d[i - start] == c);
            assert(!all_digits(d));
            return None;
        }
        let ghost pre = chars@.subrange(start as int, i as int);
        assert(chars@.subrange(start as int, i + 1) =~= pre.push(c));
        proof {
            lemma_digits_grow(pre, c);
        }
        let dv = (c as u32 - '0' as u32) as u64;
        if !overflow {
            let next = acc * 10 + dv;
            if next > u32::MAX as u64 {
                overflow = true;
            } else {
                acc = next;
            }
        }
        i = i + 1;
    }
    assert(chars@.subrange(start as int, to as int) == d);
    if overflow {
        None
    } else {
        Some(acc as u32)
    }
}

/// Appends the decimal spelling of `n` to `out`.
pub fn push_decimal(out: &mut String, n: u64)
    ensures
        final(out)@ == old(out)@ + decimal(n as nat),
    decreases n,
{
    if n >= 10 {
        push_decimal(out, n / 10);
    }
    let digits = "0123456789";
    proof {
        reveal_strlit("0123456789");
    }
    let d = (n % 10) as usize;
    let piece = digits.substring_char(d, d + 1);
    let ghost before = out@;
    out.append(piece);
    proof {
        let dc = digit_char((n % 10) as nat);
        assert(piece@ =~= seq![dc]) by {
            assert(piece@[0] == digits@[d as int]);
        }
        if n >= 10 {
            assert(before + seq![dc] =~= old(out)@ + decimal((n / 10) as nat).push(dc));
        } else {
            assert(before + seq![dc] =~= old(out)@ + seq![dc]);
        }
    }
}


/// What reading the digits `d` gives where they are at least one decimal digit and spell a
/// number no greater than `max`.
pub open spec fn parse_digits(d: Seq<char>, max: int) -> Option<int> {
    if d.len() > 0 && all_digits(d) && digits_value(d) <= max {
        Some(digits_value(d))
    } else {
        None
    }
}

/// What reading `s` as a `u64` gives, the way `str::parse::<u64>` reads it: an optional `+`
/// followed by at least one decimal digit, and a value that fits.
pub open spec fn parse_u64(s: Seq<char>) -> Option<u64> {
    let d = if s.len() > 0 && s[0] == '+' {
        s.drop_first()
    } else {
        s
    };
    match parse_digits(d, u64::MAX as int) {
        Some(v) => Some(v as u64),
        None => None,
    }
}

/// What reading `s` as an `i32` gives, the way `str::parse::<i32>` reads it: an optional sign
/// followed by at least one decimal digit, and a value that fits.
pub open spec fn parse_i32(s: Seq<char>) -> Option<i32> {
    if s.len() > 0 && s[0] == '-' {
        match parse_digits(s.drop_first(), 0x8000_0000) {
            Some(v) => Some((-v) as i32),
            None => None,
        }
    } else {
        let d = if s.len() > 0 && s[0] == '+' {
            s.drop_first()
        } else {
            s
        };
        match parse_digits(d, i32::MAX as int) {
            Some(v) => Some(v as i32),
            None => None,
        }
    }
}

/// Reads `chars[from..to]` as decimal digits of a number no greater than `max`.
pub fn parse_digits_at(chars: &Vec<char>, from: usize, to: usize, max: u64) -> (r: Option<u64>)
    requires
        from <= to <= chars@.len(),
    ensures
        match parse_digits(chars@.subrange(from as int, to as int), max as int) {
            Some(v) => r == Some(v as u64),
            None => r is None,
        },
        r matches Some(v) ==> v <= max && v == digits_value(chars@.subrange(from as int, to as int)),
{
    let ghost d = chars@.subrange(from as int, to as int);
    if from == to {
        return None;
    }
    let mut i = from;
    let mut acc: u128 = 0;
    let mut overflow = false;
    while i < to
        invariant
            from <= i <= to <= chars@.len(),
            d == chars@.subrange(from as int, to as int),
            all_digits(chars@.subrange(from as int, i as int)),
            !overflow ==> acc == digits_value(chars@.subrange(from as int, i as int)),
            !overflow ==> acc <= max,
            overflow ==> digits_value(chars@.subrange(from as int, i as int)) > max,
        decreases to - i,
    {
        let c = chars[i];
        if !('0' <= c && c <= '9') {
            assert(d[i - from] == c);
            assert(!all_digits(d));
            return None;
        }
        let ghost pre = chars@.subrange(from as int, i as int);
        assert(chars@.subrange(from as int, i + 1) =~= pre.push(c));
        proof {
            lemma_digits_grow(pre, c);
        }
        let dv = (c as u32 - '0' as u32) as u128;
        if !overflow {
            let next = acc * 10 + dv;
            if next > max as u128 {
                overflow = true;
            } else {
                acc = next;
            }
        }
        i = i + 1;
    }
    assert(chars@.subrange(from as int, to as int) == d);
    if overflow {
        None
    } else {
        Some(acc as u64)
    }
}

/// Reads `chars[from..to]` as a `u64`, the way `str::parse::<u64>` reads a string.
pub fn parse_u64_at(chars: &Vec<char>, from: usize, to: usize) -> (r: Option<u64>)
    requires
        from <= to <= chars@.len(),
    ensures
        r == parse_u64(chars@.subrange(from as int, to as int)),
{
    let ghost s = chars@.subrange(from as int, to as int);
    let mut i = from;
    if from < to && chars[from] == '+' {
        i = from + 1;
        assert(s.drop_first() =~= chars@.subrange(i as int, to as int));
    } else {
        assert(s =~= chars@.subrange(i as int, to as int));
    }
    parse_digits_at(chars, i, to, u64::MAX)
}

/// Reads `chars[from..to]` as an `i32`, the way `str::parse::<i32>` reads a string.
pub fn parse_i32_at(chars: &Vec<char>, from: usize, to: usize) -> (r: Option<i32>)
    requires
        from <= to <= chars@.len(),
    ensures
        r == parse_i32(chars@.subrange(from as int, to as int)),
{
    let ghost s = chars@.subrange(from as int, to as int);
    if from < to && chars[from] == '-' {
        assert(s.drop_first() =~= chars@.subrange(from + 1, to as int));
        match parse_digits_at(chars, from + 1, to, 0x8000_0000) {
            Some(v) => {
                assert(v <= 0x8000_0000);
                Some((0 - v as i64) as i32)
            },
            None => None,
        }
    } else {
        let mut i = from;
        if from < to && chars[from] == '+' {
            i = from + 1;
            assert(s.drop_first() =~= chars@.subrange(i as int, to as int));
        } else {
            assert(s =~= chars@.subrange(i as int, to as int));
        }
        match parse_digits_at(chars, i, to, 0x7fff_ffff) {
            Some(v) => {
                assert(v <= 0x7fff_ffff);
                Some(v as i32)
            },
            None => None,
        }
    }
}

/// The decimal spelling of an integer, with a minus sign where it is negative.
pub open spec fn int_decimal(n: int) -> Seq<char> {
    if n < 0 {
        seq!['-'] + decimal((-n) as nat)
    } else {
        decimal(n as nat)
    }
}

/// Appends the decimal spelling of `n` to `out`.
pub fn push_i32_decimal(out: &mut String, n: i32)
    ensures
        final(out)@ == old(out)@ + int_decimal(n as int),
{
    if n < 0 {
        let ghost before = out@;
        out.append("-");
        proof {
            reveal_strlit("-");
        }
        let m: u64 = (0 - n as i64) as u64;
        push_decimal(out, m);
        assert(out@ =~= before + int_decimal(n as int));
    } else {
        push_decimal(out, n as u64);
    }
}

/// The spelling of a number is made of digits, at least one.
pub proof fn lemma_decimal_digits(n: nat)
    ensures
        decimal(n).len() > 0,
        all_digits(decimal(n)),
        digits_value(decimal(n)) == n,
    decreases n,
{
    let c = digit_char(n % 10);
    assert(c as int == n % 10 + 48);
    if n < 10 {
        assert(decimal(n) == seq![c]);
        assert(seq![c].drop_last() =~= Seq::<char>::empty());
        assert(digits_value(seq![c]) == digits_value(Seq::<char>::empty()) * 10 + (c as int - '0' as int));
    } else {
        lemma_decimal_digits(n / 10);
        let d = decimal(n / 10);
        assert(decimal(n) == d.push(c));
        lemma_digits_grow(d, c);
        assert(digits_value(d.push(c)) == (n / 10) * 10 + n % 10);
        assert forall|i: int| 0 <= i < decimal(n).len() implies '0' <= #[trigger] decimal(n)[i]
            <= '9' by {
            if i < d.len() {
                assert(decimal(n)[i] == d[i]);
            }
        }
    }
}

/// Reading back the spelling of a `u64` gives the number.
pub proof fn lemma_parse_u64_decimal(n: u64)
    ensures
        parse_u64(decimal(n as nat)) == Some(n),
{
    lemma_decimal_digits(n as nat);
    assert(decimal(n as nat)[0] != '+');
}

/// Reading back the spelling of an `i32` gives the number.
pub proof fn lemma_parse_i32_decimal(n: i32)
    ensures
        parse_i32(int_decimal(n as int)) == Some(n),
{
    if n < 0 {
        lemma_decimal_digits((-n) as nat);
        assert((seq!['-'] + decimal((-n) as nat)).drop_first() =~= decimal((-n) as nat));
    } else {
        lemma_decimal_digits(n as nat);
        assert(decimal(n as nat)[0] != '+' && decimal(n as nat)[0] != '-');
    }
}

/// The pieces of `s` between the separators `c`, as `str::split` gives them.
pub open spec fn split_on(s: Seq<char>, c: char) -> Seq<Seq<char>>
    decreases s.len(),
{
    if s.len() == 0 {
        seq![Seq::empty()]
    } else {
        let p = split_on(s.drop_last(), c);
        if s.last() == c {
            p.push(Seq::empty())
        } else {
            p.update(p.len() - 1, p.last().push(s.last()))
        }
    }
}

pub proof fn lemma_split_on_nonempty(s: Seq<char>, c: char)
    ensures
        split_on(s, c).len() > 0,
    decreases s.len(),
{
    if s.len() > 0 {
        lemma_split_on_nonempty(s.drop_last(), c);
    }
}

/// Splitting text that follows a separator continues the pieces before it.
pub proof fn lemma_split_concat(t: Seq<char>, u: Seq<char>, c: char)
    requires
        t.len() > 0,
        t.last() == c,
    ensures
        split_on(t + u, c) == split_on(t, c).drop_last() + split_on(u, c),
    decreases u.len(),
{
    assert(t.drop_last() + seq![c] =~= t);
    if u.len() == 0 {
        assert(t + u =~= t);
        assert(split_on(t, c) == split_on(t.drop_last(), c).push(Seq::empty()));
        assert(split_on(t, c).drop_last() + split_on(u, c) =~= split_on(t, c));
    } else {
        let u1 = u.drop_last();
        lemma_split_concat(t, u1, c);
        lemma_split_on_nonempty(u1, c);
        assert((t + u).drop_last() =~= t + u1);
        assert((t + u).last() == u.last());
        let a = split_on(t, c).drop_last();
        let b = split_on(u1, c);
        if u.last() == c {
            assert((a + b).push(Seq::empty()) =~= a + b.push(Seq::empty()));
        } else {
            let ab = a + b;
            assert(ab.update(ab.len() - 1, ab.last().push(u.last())) =~= a + b.update(
                b.len() - 1,
                b.last().push(u.last()),
            ));
        }
    }
}

/// Text without separators is one piece.
pub proof fn lemma_split_plain(w: Seq<char>, c: char)
    requires
        forall|i: int| 0 <= i < w.len() ==> w[i] != c,
    ensures
        split_on(w, c) == seq![w],
    decreases w.len(),
{
    if w.len() > 0 {
        lemma_split_plain(w.drop_last(), c);
        assert(w.drop_last().push(w.last()) =~= w);
        assert(seq![w.drop_last()].update(0, w.drop_last().push(w.last())) =~= seq![w]);
    } else {
        assert(w =~= Seq::<char>::empty());
    }
}


/// Whether `f` can stand as one word: not empty, and without white space.
pub open spec fn is_word(f: Seq<char>) -> bool {
    f.len() > 0 && forall|i: int| 0 <= i < f.len() ==> !is_space(#[trigger] f[i])
}

/// The lines of a text are its pieces between line feeds.
pub proof fn lemma_lines_are_split(s: Seq<char>)
    ensures
        lines_of(s) == split_on(s, '\n'),
    decreases s.len(),
{
    if s.len() > 0 {
        lemma_lines_are_split(s.drop_last());
    }
}

/// A text that ends with a non-space character has a word.
pub proof fn lemma_words_nonempty(s: Seq<char>)
    requires
        s.len() > 0,
        !is_space(s.last()),
    ensures
        words(s).len() > 0,
    decreases s.len(),
{
    if s.len() >= 2 && !is_space(s[s.len() - 2]) {
        lemma_words_nonempty(s.drop_last());
    }
}

/// The words of text after a space are the words before it and the words after it.
pub proof fn lemma_words_after_space(a: Seq<char>, b: Seq<char>)
    requires
        a.len() > 0,
        is_space(a.last()),
    ensures
        words(a + b) == words(a) + words(b),
    decreases b.len(),
{
    if b.len() == 0 {
        assert(a + b =~= a);
        assert(words(a) + words(b) =~= words(a));
    } else {
        let b1 = b.drop_last();
        let c = b.last();
        lemma_words_after_space(a, b1);
        assert((a + b).drop_last() =~= a + b1);
        assert((a + b).last() == c);
        let wa = words(a);
        let wb = words(b1);
        if is_space(c) {
        } else {
            let prev_c = (a + b)[(a + b).len() - 2];
            if b1.len() > 0 {
                assert(prev_c == b1.last());
            } else {
                assert(prev_c == a.last());
                assert(b1 =~= Seq::<char>::empty());
            }
            if (a + b).len() >= 2 && !is_space(prev_c) {
                assert(b1.len() > 0);
                lemma_words_nonempty(b1);
                assert(b.len() >= 2 && !is_space(b[b.len() - 2]));
                let ab = wa + wb;
                assert(ab.update(ab.len() - 1, ab.last().push(c)) =~= wa + wb.update(
                    wb.len() - 1,
                    wb.last().push(c),
                ));
            } else {
                if b.len() >= 2 {
                    assert(b[b.len() - 2] == prev_c);
                }
                assert((wa + wb).push(seq![c]) =~= wa + wb.push(seq![c]));
            }
        }
    }
}

/// A word is the one word of itself.
pub proof fn lemma_words_of_word(w: Seq<char>)
    requires
        is_word(w),
    ensures
        words(w) == seq![w],
    decreases w.len(),
{
    assert(!is_space(w[w.len() - 1]));
    if w.len() == 1 {
        assert(w.drop_last() =~= Seq::<char>::empty());
        assert(words(Seq::<char>::empty()) == Seq::<Seq<char>>::empty());
        assert(seq![w.last()] =~= w);
        assert(words(w) == Seq::<Seq<char>>::empty().push(seq![w.last()]));
        assert(Seq::<Seq<char>>::empty().push(seq![w.last()]) =~= seq![w]);
    } else {
        let w1 = w.drop_last();
        assert(is_word(w1)) by {
            assert forall|i: int| 0 <= i < w1.len() implies !is_space(#[trigger] w1[i]) by {
                assert(w1[i] == w[i]);
            }
        }
        lemma_words_of_word(w1);
        assert(!is_space(w[w.len() - 2]));
        assert(w1.push(w.last()) =~= w);
        assert(seq![w1].update(0, w1.push(w.last())) =~= seq![w]);
    }
}

/// A space at the end adds no word.
pub proof fn lemma_words_space_end(w: Seq<char>)
    ensures
        words(w.push(' ')) == words(w),
{
    assert(w.push(' ').drop_last() =~= w);
}

/// The words of a word, a space and more text are the word and the words of the rest.
pub proof fn lemma_words_word_then(w: Seq<char>, rest: Seq<char>)
    requires
        is_word(w),
    ensures
        words(w + seq![' '] + rest) == seq![w] + words(rest),
{
    let a = w.push(' ');
    assert(w + seq![' '] =~= a);
    lemma_words_space_end(w);
    lemma_words_of_word(w);
    lemma_words_after_space(a, rest);
}

/// The spelling of a number is a word.
pub proof fn lemma_decimal_is_word(n: nat)
    ensures
        is_word(decimal(n)),
{
    lemma_decimal_digits(n);
    assert forall|i: int| 0 <= i < decimal(n).len() implies !is_space(#[trigger] decimal(n)[i]) by {
        assert('0' <= decimal(n)[i] <= '9');
    }
}

/// Reading back the spelling of a `u32` gives the number.
pub proof fn lemma_parse_u32_decimal(n: u32)
    ensures
        parse_u32(decimal(n as nat)) == Some(n),
{
    lemma_decimal_digits(n as nat);
    assert(decimal(n as nat)[0] != '+');
}

/// The hexadecimal digit character of `d`, in lower case.
pub open spec fn hex_digit(d: nat) -> char {
    "0123456789abcdef"@[d as int]
}

/// The last `n` hexadecimal digits of `v`, most significant first, zeros in front.
pub open spec fn hex_fixed(v: nat, n: nat) -> Seq<char>
    decreases n,
{
    if n == 0 {
        Seq::empty()
    } else {
        hex_fixed(v / 16, (n - 1) as nat).push(hex_digit(v % 16))
    }
}

/// Appends the last `n` hexadecimal digits of `v` to `out`.
pub fn push_hex(out: &mut String, v: u64, n: u32)
    ensures
        final(out)@ == old(out)@ + hex_fixed(v as nat, n as nat),
    decreases n,
{
    if n == 0 {
        assert(old(out)@ + hex_fixed(v as nat, 0) =~= old(out)@);
        return;
    }
    push_hex(out, v / 16, n - 1);
    let digits = "0123456789abcdef";
    proof {
        reveal_strlit("0123456789abcdef");
    }
    let d = (v % 16) as usize;
    let piece = digits.substring_char(d, d + 1);
    let ghost before = out@;
    out.append(piece);
    proof {
        let dc = hex_digit((v % 16) as nat);
        assert(piece@ =~= seq![dc]) by {
            assert(piece@[0] == digits@[d as int]);
        }
        assert(before + seq![dc] =~= old(out)@ + hex_fixed((v / 16) as nat, (n - 1) as nat).push(dc));
    }
}

} // verus!
