//! The table of virtual file descriptors: the descriptors of the process that stand for files
//! the server keeps, and its text form, which survives `execve`.

use vstd::prelude::*;

use crate::error::LxError;
use crate::fs::OpenFlags;
use crate::text::{
    lemma_split_concat, lemma_split_on_nonempty, lemma_split_plain, split_on,
    chars_of, int_decimal, decimal, parse_i32, parse_i32_at, parse_u64, parse_u64_at,
    push_decimal, push_i32_decimal,
};

verus! {

/// The virtual descriptor that the entries give `fd`: that of the last entry for it.
pub open spec fn entries_get(s: Seq<(i32, u64)>, fd: i32) -> Option<u64>
    decreases s.len(),
{
    if s.len() == 0 {
        None
    } else if s.last().0 == fd {
        Some(s.last().1)
    } else {
        entries_get(s.drop_last(), fd)
    }
}

/// The entries without those for `fd`.
pub open spec fn entries_without(s: Seq<(i32, u64)>, fd: i32) -> Seq<(i32, u64)>
    decreases s.len(),
{
    if s.len() == 0 {
        s
    } else {
        let rest = entries_without(s.drop_last(), fd);
        if s.last().0 == fd {
            rest
        } else {
            rest.push(s.last())
        }
    }
}

/// The entries after registering each of `es`, in order.
pub open spec fn entries_registered(base: Seq<(i32, u64)>, es: Seq<(i32, u64)>) -> Seq<(i32, u64)>
    decreases es.len(),
{
    if es.len() == 0 {
        base
    } else {
        entries_without(entries_registered(base, es.drop_last()), es.last().0).push(es.last())
    }
}

proof fn lemma_without_get(s: Seq<(i32, u64)>, fd: i32, x: i32)
    ensures
        entries_get(entries_without(s, fd), x) == if x == fd {
            None
        } else {
            entries_get(s, x)
        },
    decreases s.len(),
{
    if s.len() > 0 {
        lemma_without_get(s.drop_last(), fd, x);
        let rest = entries_without(s.drop_last(), fd);
        if s.last().0 != fd {
            assert(rest.push(s.last()).drop_last() =~= rest);
        }
    }
}

/// The descriptors of the process that stand for virtual ones, and which virtual ones.
#[derive(Debug, Clone)]
pub struct VfdTable {
    pub entries: Vec<(i32, u64)>,
}

impl View for VfdTable {
    type V = Map<i32, u64>;

    open spec fn view(&self) -> Map<i32, u64> {
        Map::new(
            |fd: i32| entries_get(self.entries@, fd) is Some,
            |fd: i32| entries_get(self.entries@, fd)->Some_0,
        )
    }
}

impl VfdTable {
    /// An empty table.
    pub fn new() -> (r: Self)
        ensures
            r.entries@.len() == 0,
            r@ == Map::<i32, u64>::empty(),
    {
        let r = VfdTable { entries: Vec::new() };
        assert(r@ =~= Map::<i32, u64>::empty());
        r
    }

    /// The virtual descriptor behind `fd`, if any.
    pub fn get(&self, fd: i32) -> (r: Option<u64>)
        ensures
            r == entries_get(self.entries@, fd),
            r == self@.get(fd),
    {
        let mut k = self.entries.len();
        assert(self.entries@.take(self.entries@.len() as int) =~= self.entries@);
        while k > 0
            invariant
                k <= self.entries@.len(),
                entries_get(self.entries@, fd) == entries_get(self.entries@.take(k as int), fd),
            decreases k,
        {
            let ghost pre = self.entries@.take(k as int);
            assert(pre.drop_last() =~= self.entries@.take(k - 1));
            let (f, v) = self.entries[k - 1];
            if f == fd {
                return Some(v);
            }
            k = k - 1;
        }
        None
    }

    fn remove_all(&mut self, fd: i32)
        ensures
            final(self).entries@ == entries_without(old(self).entries@, fd),
    {
        let ghost start = self.entries@;
        let mut kept: Vec<(i32, u64)> = Vec::new();
        let mut i: usize = 0;
        while i < self.entries.len()
            invariant
                i <= self.entries@.len(),
                self.entries@ == start,
                kept@ == entries_without(start.take(i as int), fd),
            decreases self.entries@.len() - i,
        {
            assert(start.take(i + 1).drop_last() =~= start.take(i as int));
            let e = self.entries[i];
            if e.0 != fd {
                kept.push(e);
            }
            i = i + 1;
        }
        assert(start.take(start.len() as int) =~= start);
        self.entries = kept;
    }

    /// Removes `fd` from the table, answering the virtual descriptor it stood for.
    pub fn take(&mut self, fd: i32) -> (r: Option<u64>)
        ensures
            r == old(self)@.get(fd),
            final(self).entries@ == entries_without(old(self).entries@, fd),
            final(self)@ == old(self)@.remove(fd),
    {
        let r = self.get(fd);
        self.remove_all(fd);
        proof {
            assert forall|x: i32| #[trigger] entries_get(self.entries@, x) == if x == fd {
                None
            } else {
                entries_get(old(self).entries@, x)
            } by {
                lemma_without_get(old(self).entries@, fd, x);
            }
            assert(self@ =~= old(self)@.remove(fd));
        }
        r
    }

    /// Makes `fd` stand for the virtual descriptor `vfd`, in place of what it stood for.
    pub fn register(&mut self, fd: i32, vfd: u64)
        ensures
            final(self).entries@ == entries_without(old(self).entries@, fd).push((fd, vfd)),
            final(self)@ == old(self)@.insert(fd, vfd),
    {
        self.remove_all(fd);
        let ghost mid = self.entries@;
        self.entries.push((fd, vfd));
        proof {
            assert(self.entries@.drop_last() =~= mid);
            assert forall|x: i32| #[trigger] entries_get(self.entries@, x) == if x == fd {
                Some(vfd)
            } else {
                entries_get(old(self).entries@, x)
            } by {
                lemma_without_get(old(self).entries@, fd, x);
            }
            assert(self@ =~= old(self)@.insert(fd, vfd));
        }
    }

    /// The Darwin flags to open the placeholder `/dev/null` with for a new virtual
    /// descriptor: read-only, and close-on-exec where the Linux flags ask for it.
    pub fn create_flags(flags: OpenFlags) -> (r: i32)
        ensures
            r == if flags.0 & OpenFlags::O_CLOEXEC == OpenFlags::O_CLOEXEC {
                0x0100_0000i32
            } else {
                0i32
            },
    {
        if flags.0 & OpenFlags::O_CLOEXEC == OpenFlags::O_CLOEXEC {
            0x0100_0000
        } else {
            0
        }
    }

    /// Registers the placeholder `opened` for `vfd` and answers it; a failed open is the
    /// answer and changes nothing.
    pub fn create(&mut self, opened: Result<i32, LxError>, vfd: u64) -> (r: Result<i32, LxError>)
        ensures
            r == opened,
            match opened {
                Ok(fd) => final(self)@ == old(self)@.insert(fd, vfd),
                Err(_) => final(self)@ == old(self)@ && final(self).entries@ == old(self).entries@,
            },
    {
        match opened {
            Ok(fd) => {
                self.register(fd, vfd);
                Ok(fd)
            },
            Err(e) => Err(e),
        }
    }
}

/// The position of the first `c` in `s`, if any.
pub open spec fn first_sep(s: Seq<char>, c: char) -> Option<int>
    decreases s.len(),
{
    if s.len() == 0 {
        None
    } else if s[0] == c {
        Some(0)
    } else {
        match first_sep(s.drop_first(), c) {
            Some(i) => Some(i + 1),
            None => None,
        }
    }
}

proof fn lemma_first_sep_at(s: Seq<char>, c: char, n: int)
    requires
        0 <= n < s.len(),
        s[n] == c,
        forall|j: int| 0 <= j < n ==> s[j] != c,
    ensures
        first_sep(s, c) == Some(n),
    decreases s.len(),
{
    if n > 0 {
        lemma_first_sep_at(s.drop_first(), c, n - 1);
    }
}

proof fn lemma_first_sep_none(s: Seq<char>, c: char)
    requires
        forall|j: int| 0 <= j < s.len() ==> s[j] != c,
    ensures
        first_sep(s, c) is None,
    decreases s.len(),
{
    if s.len() > 0 {
        lemma_first_sep_none(s.drop_first(), c);
    }
}

/// The entry that a piece `fd:vfd` of the text form names.
pub open spec fn parse_entry(p: Seq<char>) -> Option<(i32, u64)> {
    match first_sep(p, ':') {
        None => None,
        Some(k) => match (parse_i32(p.take(k)), parse_u64(p.skip(k + 1))) {
            (Some(fd), Some(vfd)) => Some((fd, vfd)),
            _ => None,
        },
    }
}

/// The entries that the pieces name, in order, up to the first piece that names none; and
/// whether every piece is empty or names one.
pub open spec fn pieces_entries(pieces: Seq<Seq<char>>) -> (Seq<(i32, u64)>, bool)
    decreases pieces.len(),
{
    if pieces.len() == 0 {
        (Seq::empty(), true)
    } else {
        let (prev, ok) = pieces_entries(pieces.drop_last());
        if !ok {
            (prev, false)
        } else if pieces.last().len() == 0 {
            (prev, true)
        } else {
            match parse_entry(pieces.last()) {
                Some(e) => (prev.push(e), true),
                None => (prev, false),
            }
        }
    }
}

fn parse_entry_at(chars: &Vec<char>, from: usize, to: usize) -> (r: Option<(i32, u64)>)
    requires
        from <= to <= chars@.len(),
    ensures
        r == parse_entry(chars@.subrange(from as int, to as int)),
{
    let ghost p = chars@.subrange(from as int, to as int);
    let mut k = from;
    while k < to
        invariant
            from <= k <= to <= chars@.len(),
            p == chars@.subrange(from as int, to as int),
            forall|j: int| 0 <= j < k - from ==> p[j] != ':',
        decreases to - k,
    {
        if chars[k] == ':' {
            proof {
                lemma_first_sep_at(p, ':', (k - from) as int);
                assert(p.take(k - from) =~= chars@.subrange(from as int, k as int));
                assert(p.skip(k - from + 1) =~= chars@.subrange(k + 1, to as int));
            }
            let fd = parse_i32_at(chars, from, k);
            let vfd = parse_u64_at(chars, k + 1, to);
            return match (fd, vfd) {
                (Some(a), Some(b)) => Some((a, b)),
                _ => None,
            };
        }
        k = k + 1;
    }
    proof {
        lemma_first_sep_none(p, ':');
    }
    None
}

impl VfdTable {
    /// Registers the entries of the text form `s`: pieces `fd:vfd` separated by commas, empty
    /// pieces skipped. A piece that names no entry is `EINVAL`; the entries before it stay
    /// registered.
    pub fn fill_table(&mut self, s: &str) -> (r: Result<(), LxError>)
        ensures
            final(self).entries@ == entries_registered(
                old(self).entries@,
                pieces_entries(split_on(s@, ',')).0,
            ),
            pieces_entries(split_on(s@, ',')).1 ==> r is Ok,
            !pieces_entries(split_on(s@, ',')).1 ==> r == Err::<(), LxError>(
                LxError(LxError::EINVAL),
            ),
    {
        let chars = chars_of(s);
        let ghost start_entries = self.entries@;
        let ghost mut done: Seq<Seq<char>> = Seq::empty();
        let mut start: usize = 0;
        let mut i: usize = 0;
        assert(chars@.take(0) =~= Seq::<char>::empty());
        assert(chars@.subrange(0, 0) =~= Seq::<char>::empty());
        assert(split_on(chars@.take(0), ',') =~= done.push(chars@.subrange(0, 0)));
        while i < chars.len()
            invariant
                start <= i <= chars@.len(),
                chars@ == s@,
                split_on(chars@.take(i as int), ',') == done.push(
                    chars@.subrange(start as int, i as int),
                ),
                pieces_entries(done).1,
                start_entries == old(self).entries@,
                self.entries@ == entries_registered(start_entries, pieces_entries(done).0),
            decreases chars@.len() - i,
        {
            let c = chars[i];
            let ghost pre = chars@.take(i as int);
            assert(chars@.take(i + 1).drop_last() =~= pre);
            if c == ',' {
                let ghost piece = chars@.subrange(start as int, i as int);
                if start < i {
                    match parse_entry_at(&chars, start, i) {
                        Some((fd, vfd)) => {
                            self.register(fd, vfd);
                            proof {
                                let es = pieces_entries(done).0;
                                assert(es.push((fd, vfd)).drop_last() =~= es);
                            }
                        },
                        None => {
                            proof {
                                assert(done.push(piece).drop_last() =~= done);
                                let t = chars@.take(i + 1);
                                let u = chars@.skip(i + 1);
                                assert(t + u =~= chars@);
                                assert(t.drop_last() =~= pre);
                                lemma_split_concat(t, u, ',');
                                assert(split_on(t, ',').drop_last() =~= done.push(piece));
                                lemma_entries_fail_append(done.push(piece), split_on(u, ','));
                                assert(split_on(s@, ',') == done.push(piece) + split_on(u, ','));
                                assert(pieces_entries(done.push(piece)).0 == pieces_entries(done).0);
                            }
                            return Err(LxError(LxError::EINVAL));
                        },
                    }
                }
                proof {
                    assert(done.push(piece).drop_last() =~= done);
                    done = done.push(piece);
                    assert(chars@.subrange((i + 1) as int, (i + 1) as int) =~= Seq::<char>::empty());
                }
                start = i + 1;
            } else {
                proof {
                    let q = split_on(pre, ',');
                    assert(chars@.subrange(start as int, i + 1) =~= chars@.subrange(
                        start as int,
                        i as int,
                    ).push(c));
                    assert(q.update(q.len() - 1, q.last().push(c)) =~= done.push(
                        chars@.subrange(start as int, i + 1),
                    ));
                }
            }
            i = i + 1;
        }
        assert(chars@.take(chars@.len() as int) =~= chars@);
        let ghost last = chars@.subrange(start as int, i as int);
        assert(done.push(last).drop_last() =~= done);
        if start < i {
            match parse_entry_at(&chars, start, i) {
                Some((fd, vfd)) => {
                    self.register(fd, vfd);
                    proof {
                        let es = pieces_entries(done).0;
                        assert(es.push((fd, vfd)).drop_last() =~= es);
                    }
                },
                None => {
                    return Err(LxError(LxError::EINVAL));
                },
            }
        }
        Ok(())
    }
}

proof fn lemma_entries_fail_append(prefix: Seq<Seq<char>>, rest: Seq<Seq<char>>)
    requires
        !pieces_entries(prefix).1,
    ensures
        pieces_entries(prefix + rest) == pieces_entries(prefix),
    decreases rest.len(),
{
    if rest.len() > 0 {
        assert((prefix + rest).drop_last() =~= prefix + rest.drop_last());
        lemma_entries_fail_append(prefix, rest.drop_last());
    }
}


/// The text form of one entry: `fd:vfd,`.
pub open spec fn entry_text(e: (i32, u64)) -> Seq<char> {
    int_decimal(e.0 as int) + seq![':'] + decimal(e.1 as nat) + seq![',']
}

/// The text form of entries, one after the other.
pub open spec fn exported(es: Seq<(i32, u64)>) -> Seq<char>
    decreases es.len(),
{
    if es.len() == 0 {
        Seq::empty()
    } else {
        exported(es.drop_last()) + entry_text(es.last())
    }
}

/// The Darwin flag of a descriptor that is closed on exec.
pub const APPLE_FD_CLOEXEC: i32 = 1;

/// The first `n` entries whose descriptors survive `execve`, by their descriptor flags
/// `fd_flags`; the first failure to read the flags is the outcome.
pub open spec fn export_kept(
    entries: Seq<(i32, u64)>,
    fd_flags: Seq<Result<i32, LxError>>,
    n: int,
) -> Result<Seq<(i32, u64)>, LxError>
    decreases n,
{
    if n <= 0 {
        Ok(Seq::empty())
    } else {
        match export_kept(entries, fd_flags, n - 1) {
            Err(e) => Err(e),
            Ok(prev) => match fd_flags[n - 1] {
                Err(e) => Err(e),
                Ok(f) => if f & APPLE_FD_CLOEXEC == 0 {
                    Ok(prev.push(entries[n - 1]))
                } else {
                    Ok(prev)
                },
            },
        }
    }
}

impl VfdTable {
    /// The text form of the entries whose descriptors survive `execve`; `fd_flags[i]` is what
    /// reading the descriptor flags of the `i`-th entry gave.
    pub fn export_table(&self, fd_flags: &[Result<i32, LxError>]) -> (r: Result<String, LxError>)
        requires
            fd_flags@.len() == self.entries@.len(),
        ensures
            match export_kept(self.entries@, fd_flags@, self.entries@.len() as int) {
                Ok(kept) => r matches Ok(text) && text@ == exported(kept),
                Err(e) => r == Err::<String, LxError>(e),
            },
    {
        let mut out = String::new();
        let ghost mut kept: Seq<(i32, u64)> = Seq::empty();
        let mut i: usize = 0;
        while i < self.entries.len()
            invariant
                i <= self.entries@.len() == fd_flags@.len(),
                export_kept(self.entries@, fd_flags@, i as int) == Ok::<Seq<(i32, u64)>, LxError>(
                    kept,
                ),
                out@ == exported(kept),
            decreases self.entries@.len() - i,
        {
            let (fd, vfd) = self.entries[i];
            match &fd_flags[i] {
                Err(e) => {
                    proof {
                        lemma_export_err_stays(
                            self.entries@,
                            fd_flags@,
                            i + 1,
                            self.entries@.len() as int,
                        );
                    }
                    return Err(*e);
                },
                Ok(f) => {
                    if *f & APPLE_FD_CLOEXEC == 0 {
                        let ghost before = out@;
                        push_i32_decimal(&mut out, fd);
                        out.append(":");
                        push_decimal(&mut out, vfd);
                        out.append(",");
                        proof {
                            reveal_strlit(":");
                            reveal_strlit(",");
                            let k2 = kept.push((fd, vfd));
                            assert(k2.drop_last() =~= kept);
                            assert(out@ =~= before + entry_text((fd, vfd)));
                            kept = k2;
                        }
                    }
                },
            }
            i = i + 1;
        }
        Ok(out)
    }
}

proof fn lemma_export_err_stays(
    entries: Seq<(i32, u64)>,
    fd_flags: Seq<Result<i32, LxError>>,
    k: int,
    n: int,
)
    requires
        0 <= k <= n,
        export_kept(entries, fd_flags, k) is Err,
    ensures
        export_kept(entries, fd_flags, n) == export_kept(entries, fd_flags, k),
    decreases n - k,
{
    if k < n {
        lemma_export_err_stays(entries, fd_flags, k, n - 1);
    }
}

proof fn lemma_entry_pieces(e: (i32, u64))
    ensures
        split_on(entry_text(e), ',') == seq![
            int_decimal(e.0 as int) + seq![':'] + decimal(e.1 as nat),
            Seq::<char>::empty(),
        ],
        parse_entry(int_decimal(e.0 as int) + seq![':'] + decimal(e.1 as nat)) == Some(e),
{
    let a = int_decimal(e.0 as int);
    let b = decimal(e.1 as nat);
    let w = a + seq![':'] + b;
    crate::text::lemma_decimal_digits(e.1 as nat);
    crate::text::lemma_parse_u64_decimal(e.1);
    crate::text::lemma_parse_i32_decimal(e.0);
    if e.0 < 0 {
        crate::text::lemma_decimal_digits((-e.0) as nat);
    } else {
        crate::text::lemma_decimal_digits(e.0 as nat);
    }
    assert forall|i: int| 0 <= i < a.len() implies a[i] != ':' && a[i] != ',' by {
        if e.0 < 0 {
            if i > 0 {
                assert(a[i] == decimal((-e.0) as nat)[i - 1]);
            }
        }
    }
    assert forall|i: int| 0 <= i < w.len() implies w[i] != ',' by {
        if i < a.len() {
        } else if i > a.len() {
            assert(w[i] == b[i - a.len() - 1]);
        }
    }
    lemma_split_plain(w, ',');
    assert(entry_text(e) =~= w.push(','));
    assert(entry_text(e).drop_last() =~= w);
    assert forall|j: int| 0 <= j < a.len() implies w[j] != ':' by {
        assert(w[j] == a[j]);
    }
    lemma_first_sep_at(w, ':', a.len() as int);
    assert(w.take(a.len() as int) =~= a);
    assert(w.skip(a.len() as int + 1) =~= b);
}

/// Reading the text form of entries gives back the entries, and no failure.
pub proof fn lemma_fill_reads_export(es: Seq<(i32, u64)>)
    ensures
        pieces_entries(split_on(exported(es), ',')) == (es, true),
    decreases es.len(),
{
    if es.len() == 0 {
        assert(exported(es) =~= Seq::<char>::empty());
        assert(split_on(exported(es), ',') =~= seq![Seq::<char>::empty()]);
        assert(seq![Seq::<char>::empty()].drop_last() =~= Seq::<Seq<char>>::empty());
        assert(es =~= Seq::<(i32, u64)>::empty());
        assert(pieces_entries(Seq::<Seq<char>>::empty()) == (Seq::<(i32, u64)>::empty(), true));
        assert(pieces_entries(seq![Seq::<char>::empty()]) == (Seq::<(i32, u64)>::empty(), true));
    } else {
        let prev = es.drop_last();
        let e = es.last();
        let piece = int_decimal(e.0 as int) + seq![':'] + decimal(e.1 as nat);
        lemma_entry_pieces(e);
        lemma_fill_reads_export(prev);
        let pp = split_on(exported(prev), ',');
        let all = split_on(exported(es), ',');
        if prev.len() == 0 {
            assert(exported(es) =~= entry_text(e));
            assert(all == seq![piece, Seq::<char>::empty()]);
            assert(all.drop_last() =~= seq![piece]);
            assert(seq![piece].drop_last() =~= Seq::<Seq<char>>::empty());
            assert(Seq::<(i32, u64)>::empty().push(e) =~= es);
            assert(piece.len() > 0);
            assert(seq![piece].drop_last() =~= Seq::<Seq<char>>::empty());
            assert(pieces_entries(Seq::<Seq<char>>::empty()) == (Seq::<(i32, u64)>::empty(), true));
            assert(pieces_entries(seq![piece]) == (Seq::<(i32, u64)>::empty().push(e), true));
            assert(pieces_entries(all) == (es, true));
        } else {
            let t = exported(prev);
            assert(t == exported(prev.drop_last()) + entry_text(prev.last()));
            assert(t.last() == ',');
            lemma_split_concat(t, entry_text(e), ',');
            lemma_split_on_nonempty(t, ',');
            let q = pp.drop_last();
            assert(all == q + seq![piece, Seq::<char>::empty()]);
            assert(pp.last().len() == 0) by {
                assert(t.drop_last() + seq![','] =~= t);
            }
            assert(pp == q.push(Seq::<char>::empty())) by {
                assert(q.push(pp.last()) =~= pp);
            }
            assert(pieces_entries(q) == (prev, true)) by {
                assert(pp.drop_last() =~= q);
            }
            assert(all.drop_last() =~= q.push(piece));
            assert(q.push(piece).drop_last() =~= q);
            assert(prev.push(e) =~= es);
            assert(piece.len() > 0);
            assert(pieces_entries(q.push(piece)) == (es, true));
            assert(pieces_entries(all) == (es, true));
        }
    }
}

/// Every table that `export_table` writes, `fill_table` reads back to the entries it kept.
pub proof fn lemma_export_fill_round_trip(
    entries: Seq<(i32, u64)>,
    fd_flags: Seq<Result<i32, LxError>>,
    kept: Seq<(i32, u64)>,
)
    requires
        export_kept(entries, fd_flags, entries.len() as int) == Ok::<Seq<(i32, u64)>, LxError>(
            kept,
        ),
    ensures
        pieces_entries(split_on(exported(kept), ',')) == (kept, true),
{
    lemma_fill_reads_export(kept);
}

} // verus!
