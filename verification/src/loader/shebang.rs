//! Scripts that start with `#!`: the interpreter line and the interpreter's arguments.

use crate::error::LxError;
use crate::loader::Error;
use vstd::prelude::*;

verus! {

/// Whether `b` is ASCII white space: space, tab, line feed, form feed or carriage return.
pub open spec fn is_ascii_space(b: u8) -> bool {
    b == 0x20 || b == 0x09 || b == 0x0a || b == 0x0c || b == 0x0d
}

/// `s` without its leading ASCII white space.
pub open spec fn trim_start(s: Seq<u8>) -> Seq<u8>
    decreases s.len(),
{
    if s.len() > 0 && is_ascii_space(s[0]) {
        trim_start(s.drop_first())
    } else {
        s
    }
}

/// `s` without its trailing ASCII white space.
pub open spec fn trim_end(s: Seq<u8>) -> Seq<u8>
    decreases s.len(),
{
    if s.len() > 0 && is_ascii_space(s.last()) {
        trim_end(s.drop_last())
    } else {
        s
    }
}

/// The position of the first space byte of `s`, if any.
pub open spec fn first_space(s: Seq<u8>) -> Option<int>
    decreases s.len(),
{
    if s.len() == 0 {
        None
    } else if s[0] == 0x20 {
        Some(0)
    } else {
        match first_space(s.drop_first()) {
            Some(k) => Some(k + 1),
            None => None,
        }
    }
}

/// The interpreter and its optional argument that the first line of a script names: what
/// follows `#!`, trimmed, split at its first space; the interpreter must be an absolute path.
pub open spec fn shebang_of(line: Seq<u8>) -> Result<(Seq<u8>, Option<Seq<u8>>), Option<LxError>> {
    if line.len() <= 3 {
        Err(None)
    } else {
        let interp = trim_end(trim_start(line.skip(2)));
        let (prog, arg) = match first_space(interp) {
            Some(k) => (interp.take(k), Some(interp.skip(k + 1))),
            None => (interp, None),
        };
        if prog.len() > 0 && prog[0] == 0x2f {
            Ok((prog, arg))
        } else {
            Err(Some(LxError(LxError::ENOENT)))
        }
    }
}

/// A script to be run by an interpreter.
#[derive(Debug, Clone)]
pub struct Program {
    pub prog: Vec<u8>,
    pub arg: Option<Vec<u8>>,
}

/// The plain values of an optional byte vector.
pub open spec fn opt_bytes(v: Option<Vec<u8>>) -> Option<Seq<u8>> {
    match v {
        Some(x) => Some(x@),
        None => None,
    }
}

proof fn lemma_first_space_at(s: Seq<u8>, n: int)
    requires
        0 <= n < s.len(),
        s[n] == 0x20,
        forall|j: int| 0 <= j < n ==> s[j] != 0x20,
    ensures
        first_space(s) == Some(n),
    decreases s.len(),
{
    if n > 0 {
        lemma_first_space_at(s.drop_first(), n - 1);
    }
}

proof fn lemma_first_space_none(s: Seq<u8>)
    requires
        forall|j: int| 0 <= j < s.len() ==> s[j] != 0x20,
    ensures
        first_space(s) is None,
    decreases s.len(),
{
    if s.len() > 0 {
        lemma_first_space_none(s.drop_first());
    }
}

/// Copies `s[from..to]`.
fn copy_range(s: &[u8], from: usize, to: usize) -> (r: Vec<u8>)
    requires
        from <= to <= s@.len(),
    ensures
        r@ == s@.subrange(from as int, to as int),
{
    let mut r: Vec<u8> = Vec::new();
    let mut k = from;
    while k < to
        invariant
            from <= k <= to <= s@.len(),
            r@ == s@.subrange(from as int, k as int),
        decreases to - k,
    {
        r.push(s[k]);
        k = k + 1;
        assert(r@ =~= s@.subrange(from as int, k as int));
    }
    r
}

fn byte_is_space(b: u8) -> (r: bool)
    ensures
        r == is_ascii_space(b),
{
    b == 0x20 || b == 0x09 || b == 0x0a || b == 0x0c || b == 0x0d
}

impl Program {
    /// The magic number that starts a script.
    pub open spec fn magic() -> Seq<u8> {
        seq![0x23u8, 0x21u8]
    }

    /// Reads the first line of a script (its line feed, if any, included): an image format
    /// error if it is too short to name an interpreter, `ENOENT` if the interpreter is not an
    /// absolute path.
    pub fn from_first_line(first_line: &[u8]) -> (r: Result<Program, Error>)
        ensures
            match r {
                Ok(p) => shebang_of(first_line@) == Ok::<(Seq<u8>, Option<Seq<u8>>), Option<LxError>>(
                    (p.prog@, opt_bytes(p.arg)),
                ),
                Err(Error::ImageFormat(msg)) => shebang_of(first_line@) == Err::<
                    (Seq<u8>, Option<Seq<u8>>),
                    Option<LxError>,
                >(None) && msg@ == "invalid shebang line"@,
                Err(Error::ReadImage(e)) => shebang_of(first_line@) == Err::<
                    (Seq<u8>, Option<Seq<u8>>),
                    Option<LxError>,
                >(Some(e)),
                Err(Error::LoadImage(_)) => false,
            },
    {
        let n = first_line.len();
        if n <= 3 {
            return Err(Error::ImageFormat(String::from_str("invalid shebang line")));
        }
        let ghost rest = first_line@.skip(2);
        let mut a: usize = 2;
        while a < n && byte_is_space(first_line[a])
            invariant
                2 <= a <= n == first_line@.len(),
                rest == first_line@.skip(2),
                trim_start(rest) == trim_start(first_line@.skip(a as int)),
            decreases n - a,
        {
            proof {
                let t = first_line@.skip(a as int);
                assert(t.drop_first() =~= first_line@.skip(a + 1));
            }
            a = a + 1;
        }
        let ghost started = first_line@.skip(a as int);
        assert(trim_start(started) == started);
        let mut b: usize = n;
        while b > a && byte_is_space(first_line[b - 1])
            invariant
                a <= b <= n == first_line@.len(),
                started == first_line@.skip(a as int),
                trim_end(started) == trim_end(first_line@.subrange(a as int, b as int)),
            decreases b - a,
        {
            proof {
                let t = first_line@.subrange(a as int, b as int);
                assert(t.drop_last() =~= first_line@.subrange(a as int, b - 1));
            }
            b = b - 1;
        }
        let ghost interp = first_line@.subrange(a as int, b as int);
        assert(started =~= first_line@.subrange(a as int, n as int));
        assert(trim_end(interp) == interp);
        assert(interp == trim_end(trim_start(rest)));
        let mut k = a;
        while k < b && first_line[k] != 0x20
            invariant
                a <= k <= b <= n == first_line@.len(),
                interp == first_line@.subrange(a as int, b as int),
                forall|j: int| 0 <= j < k - a ==> interp[j] != 0x20,
            decreases b - k,
        {
            k = k + 1;
        }
        let (prog, arg) = if k < b {
            proof {
                lemma_first_space_at(interp, (k - a) as int);
            }
            let p = copy_range(first_line, a, k);
            let q = copy_range(first_line, k + 1, b);
            assert(p@ =~= interp.take((k - a) as int));
            assert(q@ =~= interp.skip((k - a) + 1));
            (p, Some(q))
        } else {
            proof {
                lemma_first_space_none(interp);
            }
            (copy_range(first_line, a, b), None)
        };
        if !(prog.len() > 0 && prog[0] == 0x2f) {
            return Err(Error::ReadImage(LxError(LxError::ENOENT)));
        }
        Ok(Program { prog, arg })
    }

    /// The arguments that the interpreter runs with: itself, its argument from the script line
    /// if there is one, then the script's own arguments.
    pub fn argv(&self, args: &Vec<Vec<u8>>) -> (r: Vec<Vec<u8>>)
        ensures
            r@.len() == 1 + (if self.arg is Some { 1int } else { 0 }) + args@.len(),
            r@[0]@ == self.prog@,
            self.arg matches Some(x) ==> r@[1]@ == x@,
            forall|i: int|
                0 <= i < args@.len() ==> r@[i + 1 + (if self.arg is Some { 1int } else { 0 })]@
                    == (#[trigger] args@[i])@,
    {
        let mut r: Vec<Vec<u8>> = Vec::new();
        r.push(self.prog.clone());
        let off: usize = match &self.arg {
            Some(x) => {
                r.push(x.clone());
                2
            },
            None => 1,
        };
        let mut i: usize = 0;
        while i < args.len()
            invariant
                i <= args@.len(),
                off == 1 + (if self.arg is Some { 1int } else { 0 }),
                r@.len() == off + i,
                r@[0]@ == self.prog@,
                self.arg matches Some(x) ==> r@[1]@ == x@,
                forall|j: int| 0 <= j < i ==> r@[j + off]@ == (#[trigger] args@[j])@,
            decreases args@.len() - i,
        {
            r.push(args[i].clone());
            i = i + 1;
        }
        r
    }
}

} // verus!
