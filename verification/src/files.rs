//! The mount table format of `/etc/fstab`: one entry per line, six whitespace-separated fields,
//! blank lines and lines starting with `#` ignored.

use crate::text::{
    chars_of, decimal, is_space, is_word, lemma_decimal_is_word, lemma_lines_are_split,
    lemma_lines_of_nonempty, lemma_parse_u32_decimal, lemma_split_concat, lemma_split_on_nonempty,
    lemma_split_plain, lemma_words_of_word, lemma_words_word_then, lines_of, parse_u32,
    parse_u32_at, push_decimal, split_on, word_ranges, words,
};
use vstd::prelude::*;

verus! {

/// The fields of an fstab entry as plain values: device, mount point, file system type,
/// options, dump frequency and pass number.
pub type EntryModel = (Seq<char>, Seq<char>, Seq<char>, Seq<char>, u32, u32);

/// Structure that represents `/etc/fstab`.
#[derive(Debug, Clone)]
pub struct Fstab(pub Vec<FstabEntry>);

/// An entry in `/etc/fstab`.
#[derive(Debug, Clone)]
pub struct FstabEntry {
    pub device: String,
    pub mount_point: String,
    pub fs_type: String,
    pub options: String,
    pub dump: u32,
    pub pass: u32,
}

/// An error while parsing a data structure.
#[derive(Debug, Clone, Copy, PartialEq, Eq, Structural)]
pub struct ParseError;

impl View for FstabEntry {
    type V = EntryModel;

    open spec fn view(&self) -> EntryModel {
        (self.device@, self.mount_point@, self.fs_type@, self.options@, self.dump, self.pass)
    }
}

impl View for Fstab {
    type V = Seq<EntryModel>;

    open spec fn view(&self) -> Seq<EntryModel> {
        self.0@.map_values(|e: FstabEntry| e@)
    }
}

/// The entry that a line describes: its first six words, the last two read as numbers; further
/// words are ignored.
pub open spec fn parse_entry(line: Seq<char>) -> Option<EntryModel> {
    let w = words(line);
    if w.len() < 6 {
        None
    } else {
        match (parse_u32(w[4]), parse_u32(w[5])) {
            (Some(dump), Some(pass)) => Some((w[0], w[1], w[2], w[3], dump, pass)),
            _ => None,
        }
    }
}

/// Whether a line holds an entry: it is not blank and does not start with `#`.
pub open spec fn is_entry_line(line: Seq<char>) -> bool {
    words(line).len() > 0 && line[0] != '#'
}

/// The entries of a sequence of lines, or `None` if an entry line does not parse.
pub open spec fn parse_lines(lines: Seq<Seq<char>>) -> Option<Seq<EntryModel>>
    decreases lines.len(),
{
    if lines.len() == 0 {
        Some(Seq::<EntryModel>::empty())
    } else {
        match parse_lines(lines.drop_last()) {
            None => None,
            Some(entries) => if !is_entry_line(lines.last()) {
                Some(entries)
            } else {
                match parse_entry(lines.last()) {
                    Some(e) => Some(entries.push(e)),
                    None => None,
                }
            },
        }
    }
}

/// The table that a text describes.
pub open spec fn parse_fstab(s: Seq<char>) -> Option<Seq<EntryModel>> {
    parse_lines(lines_of(s))
}

impl FstabEntry {
    /// Builds the entry described by `chars[from..to]`, the characters of `s`.
    fn parse_range(s: &str, chars: &Vec<char>, from: usize, to: usize) -> (r: Result<
        FstabEntry,
        ParseError,
    >)
        requires
            chars@ == s@,
            from <= to <= chars@.len(),
        ensures
            match r {
                Ok(e) => parse_entry(chars@.subrange(from as int, to as int)) == Some(e@),
                Err(_) => parse_entry(chars@.subrange(from as int, to as int)) is None,
            },
    {
        let w = word_ranges(chars, from, to);
        if w.len() < 6 {
            return Err(ParseError);
        }
        let dump = match parse_u32_at(chars, w[4].0, w[4].1) {
            Some(v) => v,
            None => return Err(ParseError),
        };
        let pass = match parse_u32_at(chars, w[5].0, w[5].1) {
            Some(v) => v,
            None => return Err(ParseError),
        };
        let device = String::from_str(s.substring_char(w[0].0, w[0].1));
        let mount_point = String::from_str(s.substring_char(w[1].0, w[1].1));
        let fs_type = String::from_str(s.substring_char(w[2].0, w[2].1));
        let options = String::from_str(s.substring_char(w[3].0, w[3].1));
        Ok(FstabEntry { device, mount_point, fs_type, options, dump, pass })
    }

    /// Parses one fstab entry from `s`.
    pub fn parse(s: &str) -> (r: Result<FstabEntry, ParseError>)
        ensures
            match r {
                Ok(e) => parse_entry(s@) == Some(e@),
                Err(_) => parse_entry(s@) is None,
            },
    {
        let chars = chars_of(s);
        assert(chars@.subrange(0, chars@.len() as int) =~= s@);
        FstabEntry::parse_range(s, &chars, 0, chars.len())
    }

    /// The line that describes this entry: the six fields separated by single spaces.
    pub fn to_string(&self) -> (r: String)
        ensures
            r@ == entry_line(self@),
    {
        let mut r = String::from_str(self.device.as_str());
        r.append(" ");
        r.append(self.mount_point.as_str());
        r.append(" ");
        r.append(self.fs_type.as_str());
        r.append(" ");
        r.append(self.options.as_str());
        r.append(" ");
        push_decimal(&mut r, self.dump as u64);
        r.append(" ");
        push_decimal(&mut r, self.pass as u64);
        proof {
            reveal_strlit(" ");
        }
        r
    }
}

/// The line that describes an entry: the six fields separated by single spaces.
pub open spec fn entry_line(e: EntryModel) -> Seq<char> {
    e.0 + seq![' '] + e.1 + seq![' '] + e.2 + seq![' '] + e.3 + seq![' '] + decimal(e.4 as nat)
        + seq![' '] + decimal(e.5 as nat)
}

/// The text that describes a table: each entry's line followed by a line feed.
pub open spec fn fstab_text(entries: Seq<EntryModel>) -> Seq<char>
    decreases entries.len(),
{
    if entries.len() == 0 {
        Seq::<char>::empty()
    } else {
        fstab_text(entries.drop_last()) + entry_line(entries.last()) + seq!['\n']
    }
}

impl Fstab {
    /// Parses a whole fstab text.
    pub fn parse(s: &str) -> (r: Result<Fstab, ParseError>)
        ensures
            match r {
                Ok(t) => parse_fstab(s@) == Some(t@),
                Err(_) => parse_fstab(s@) is None,
            },
    {
        let chars = chars_of(s);
        let n = chars.len();
        let mut entries: Vec<FstabEntry> = Vec::new();
        let mut start: usize = 0;
        let mut i: usize = 0;
        assert(s@.take(0) =~= Seq::<char>::empty());
        while i < n
            invariant
                chars@ == s@,
                n == chars@.len(),
                start <= i <= n,
                lines_of(s@.take(i as int)).last() == s@.subrange(start as int, i as int),
                parse_lines(lines_of(s@.take(i as int)).drop_last()) == Some(
                    entries@.map_values(|e: FstabEntry| e@),
                ),
            decreases n - i,
        {
            proof {
                lemma_lines_of_nonempty(s@.take(i as int));
                lemma_lines_of_nonempty(s@.take(i + 1));
            }
            let ghost prev_lines = lines_of(s@.take(i as int));
            assert(s@.take(i + 1).drop_last() =~= s@.take(i as int));
            if chars[i] == '\n' {
                let ghost line = s@.subrange(start as int, i as int);
                assert(lines_of(s@.take(i + 1)).drop_last() =~= prev_lines);
                assert(prev_lines.drop_last().push(line) =~= prev_lines);
                let ghost done = entries@.map_values(|e: FstabEntry| e@);
                let w = word_ranges(&chars, start, i);
                if w.len() > 0 && chars[start] != '#' {
                    assert(line[0] == chars@[start as int]);
                    match FstabEntry::parse_range(s, &chars, start, i) {
                        Ok(e) => {
                            entries.push(e);
                            assert(entries@.map_values(|e: FstabEntry| e@) =~= done.push(e@));
                        },
                        Err(_) => {
                            assert(lines_of(s@.take(i + 1)).drop_last() =~= prev_lines);
                            assert(parse_lines(prev_lines) is None);
                            proof {
                                lemma_parse_lines_none_stays(s@, (i + 1) as int);
                            }
                            return Err(ParseError);
                        },
                    }
                } else {
                    if w.len() > 0 {
                        assert(line[0] == chars@[start as int]);
                    }
                }
                start = i + 1;
                assert(s@.subrange(start as int, i + 1) =~= Seq::<char>::empty());
            } else {
                let ghost old_last = prev_lines.last();
                assert(s@.subrange(start as int, i + 1) =~= s@.subrange(start as int, i as int).push(
                    chars@[i as int],
                ));
                assert(lines_of(s@.take(i + 1)).drop_last() =~= prev_lines.drop_last());
            }
            i = i + 1;
        }
        assert(s@.take(n as int) =~= s@);
        proof {
            lemma_lines_of_nonempty(s@);
        }
        let ghost all = lines_of(s@);
        assert(all.drop_last().push(all.last()) =~= all);
        let ghost done = entries@.map_values(|e: FstabEntry| e@);
        let w = word_ranges(&chars, start, n);
        if w.len() > 0 && chars[start] != '#' {
            assert(s@.subrange(start as int, n as int)[0] == chars@[start as int]);
            match FstabEntry::parse_range(s, &chars, start, n) {
                Ok(e) => {
                    entries.push(e);
                    assert(entries@.map_values(|e: FstabEntry| e@) =~= done.push(e@));
                },
                Err(_) => return Err(ParseError),
            }
        } else {
            if w.len() > 0 {
                assert(s@.subrange(start as int, n as int)[0] == chars@[start as int]);
            }
        }
        Ok(Fstab(entries))
    }

    /// The text that describes this table: each entry on a line of its own.
    pub fn to_string(&self) -> (r: String)
        ensures
            r@ == fstab_text(self@),
    {
        let mut r = String::new();
        let mut i: usize = 0;
        while i < self.0.len()
            invariant
                i <= self.0@.len(),
                r@ == fstab_text(self@.take(i as int)),
            decreases self.0@.len() - i,
        {
            let line = self.0[i].to_string();
            r.append(line.as_str());
            r.append("\n");
            proof {
                reveal_strlit("\n");
                assert(self@.take(i + 1).drop_last() =~= self@.take(i as int));
            }
            i = i + 1;
        }
        assert(self@.take(self.0@.len() as int) =~= self@);
        r
    }
}

/// Once an entry line fails to parse, the table as a whole fails, whatever lines follow.
proof fn lemma_parse_lines_none_stays(s: Seq<char>, i: int)
    requires
        0 <= i <= s.len(),
        parse_lines(lines_of(s.take(i)).drop_last()) is None,
    ensures
        parse_lines(lines_of(s)) is None,
    decreases s.len() - i,
{
    lemma_lines_of_nonempty(s.take(i));
    let prev = lines_of(s.take(i));
    if i == s.len() {
        assert(s.take(i) =~= s);
        assert(prev.drop_last().push(prev.last()) =~= prev);
    } else {
        assert(s.take(i + 1).drop_last() =~= s.take(i));
        lemma_lines_of_nonempty(s.take(i + 1));
        let next = lines_of(s.take(i + 1));
        if s[i] == '\n' {
            assert(next.drop_last() =~= prev);
            assert(prev.drop_last().push(prev.last()) =~= prev);
        } else {
            assert(next.drop_last() =~= prev.drop_last());
        }
        lemma_parse_lines_none_stays(s, i + 1);
    }
}

impl core::str::FromStr for Fstab {
    type Err = ParseError;

    fn from_str(s: &str) -> (r: Result<Self, Self::Err>)
        ensures
            match r {
                Ok(t) => parse_fstab(s@) == Some(t@),
                Err(_) => parse_fstab(s@) is None,
            },
    {
        Fstab::parse(s)
    }
}

impl core::str::FromStr for FstabEntry {
    type Err = ParseError;

    fn from_str(s: &str) -> (r: Result<Self, Self::Err>)
        ensures
            match r {
                Ok(e) => parse_entry(s@) == Some(e@),
                Err(_) => parse_entry(s@) is None,
            },
    {
        FstabEntry::parse(s)
    }
}


/// Whether an entry can be written as a line and read back: its text fields are words, and its
/// device does not start a comment.
pub open spec fn entry_writable(e: EntryModel) -> bool {
    is_word(e.0) && is_word(e.1) && is_word(e.2) && is_word(e.3) && e.0[0] != '#'
}

/// Reading the line of an entry whose text fields are words gives the entry back.
pub proof fn lemma_entry_round_trip(e: EntryModel)
    requires
        is_word(e.0),
        is_word(e.1),
        is_word(e.2),
        is_word(e.3),
    ensures
        parse_entry(entry_line(e)) == Some(e),
{
    let d4 = decimal(e.4 as nat);
    let d5 = decimal(e.5 as nat);
    lemma_decimal_is_word(e.4 as nat);
    lemma_decimal_is_word(e.5 as nat);
    let r5 = d5;
    let r4 = d4 + seq![' '] + r5;
    let r3 = e.3 + seq![' '] + r4;
    let r2 = e.2 + seq![' '] + r3;
    let r1 = e.1 + seq![' '] + r2;
    let r0 = e.0 + seq![' '] + r1;
    assert(entry_line(e) =~= r0);
    lemma_words_of_word(d5);
    lemma_words_word_then(d4, r5);
    lemma_words_word_then(e.3, r4);
    lemma_words_word_then(e.2, r3);
    lemma_words_word_then(e.1, r2);
    lemma_words_word_then(e.0, r1);
    assert(words(r0) =~= seq![e.0, e.1, e.2, e.3, d4, d5]);
    lemma_parse_u32_decimal(e.4);
    lemma_parse_u32_decimal(e.5);
}

proof fn lemma_entry_line_no_newline(e: EntryModel)
    requires
        is_word(e.0),
        is_word(e.1),
        is_word(e.2),
        is_word(e.3),
    ensures
        forall|i: int| 0 <= i < entry_line(e).len() ==> #[trigger] entry_line(e)[i] != '\n',
        entry_line(e).len() > 0,
        entry_line(e)[0] == e.0[0],
{
    lemma_decimal_is_word(e.4 as nat);
    lemma_decimal_is_word(e.5 as nat);
    let l = entry_line(e);
    assert forall|i: int| 0 <= i < l.len() implies #[trigger] l[i] != '\n' by {
        assert(is_space('\n'));
        let s0 = e.0.len();
        let s1 = s0 + 1 + e.1.len();
        let s2 = s1 + 1 + e.2.len();
        let s3 = s2 + 1 + e.3.len();
        let s4 = s3 + 1 + decimal(e.4 as nat).len();
        if i < s0 {
            assert(l[i] == e.0[i]);
        } else if i == s0 || i == s1 || i == s2 || i == s3 || i == s4 {
        } else if i < s1 {
            assert(l[i] == e.1[i - s0 - 1]);
        } else if i < s2 {
            assert(l[i] == e.2[i - s1 - 1]);
        } else if i < s3 {
            assert(l[i] == e.3[i - s2 - 1]);
        } else if i < s4 {
            assert(l[i] == decimal(e.4 as nat)[i - s3 - 1]);
        } else {
            assert(l[i] == decimal(e.5 as nat)[i - s4 - 1]);
        }
    }
}

/// The lines of the text of a table, before the final empty one.
pub open spec fn table_lines(entries: Seq<EntryModel>) -> Seq<Seq<char>>
    decreases entries.len(),
{
    if entries.len() == 0 {
        Seq::empty()
    } else {
        table_lines(entries.drop_last()).push(entry_line(entries.last()))
    }
}

proof fn lemma_table_split(entries: Seq<EntryModel>)
    requires
        forall|i: int| 0 <= i < entries.len() ==> entry_writable(#[trigger] entries[i]),
    ensures
        split_on(fstab_text(entries), '\n') == table_lines(entries).push(Seq::<char>::empty()),
    decreases entries.len(),
{
    if entries.len() == 0 {
        assert(fstab_text(entries) =~= Seq::<char>::empty());
        assert(table_lines(entries) =~= Seq::<Seq<char>>::empty());
        assert(split_on(Seq::<char>::empty(), '\n') =~= seq![Seq::<char>::empty()]);
        assert(Seq::<Seq<char>>::empty().push(Seq::<char>::empty()) =~= seq![Seq::<char>::empty()]);
    } else {
        let prev = entries.drop_last();
        let e = entries.last();
        assert(entry_writable(entries[entries.len() - 1]));
        assert forall|i: int| 0 <= i < prev.len() implies entry_writable(#[trigger] prev[i]) by {
            assert(prev[i] == entries[i]);
        }
        lemma_table_split(prev);
        lemma_entry_line_no_newline(e);
        let line = entry_line(e);
        let u = line.push('\n');
        lemma_split_plain(line, '\n');
        assert(u.drop_last() =~= line);
        assert(split_on(u, '\n') == seq![line].push(Seq::<char>::empty()));
        if prev.len() == 0 {
            assert(fstab_text(entries) =~= u);
            assert(fstab_text(prev) =~= Seq::<char>::empty());
            assert(table_lines(prev) =~= Seq::<Seq<char>>::empty());
            assert(seq![line] =~= Seq::<Seq<char>>::empty().push(line));
        } else {
            let t = fstab_text(prev);
            assert(t.last() == '\n');
            assert(fstab_text(entries) =~= t + u);
            lemma_split_concat(t, u, '\n');
            let tl = table_lines(prev);
            assert(split_on(t, '\n').drop_last() =~= tl);
            assert(tl + split_on(u, '\n') =~= tl.push(line).push(Seq::<char>::empty()));
        }
    }
}

proof fn lemma_parse_table_lines(entries: Seq<EntryModel>)
    requires
        forall|i: int| 0 <= i < entries.len() ==> entry_writable(#[trigger] entries[i]),
    ensures
        parse_lines(table_lines(entries)) == Some(entries),
    decreases entries.len(),
{
    if entries.len() == 0 {
        assert(table_lines(entries) =~= Seq::<Seq<char>>::empty());
        assert(entries =~= Seq::<EntryModel>::empty());
    } else {
        let prev = entries.drop_last();
        let e = entries.last();
        assert(entry_writable(entries[entries.len() - 1]));
        assert forall|i: int| 0 <= i < prev.len() implies entry_writable(#[trigger] prev[i]) by {
            assert(prev[i] == entries[i]);
        }
        lemma_parse_table_lines(prev);
        lemma_entry_round_trip(e);
        lemma_entry_line_no_newline(e);
        assert(table_lines(entries).drop_last() =~= table_lines(prev));
        assert(words(entry_line(e)).len() > 0);
        assert(prev.push(e) =~= entries);
    }
}

/// Reading the text that a table is written as gives the table back, where every entry can be
/// written: its text fields are words and its device does not start a comment.
pub proof fn lemma_fstab_round_trip(entries: Seq<EntryModel>)
    requires
        forall|i: int| 0 <= i < entries.len() ==> entry_writable(#[trigger] entries[i]),
    ensures
        parse_fstab(fstab_text(entries)) == Some(entries),
{
    lemma_lines_are_split(fstab_text(entries));
    lemma_table_split(entries);
    lemma_parse_table_lines(entries);
    let all = table_lines(entries).push(Seq::<char>::empty());
    assert(all.drop_last() =~= table_lines(entries));
    assert(words(Seq::<char>::empty()) == Seq::<Seq<char>>::empty());
}

} // verus!
