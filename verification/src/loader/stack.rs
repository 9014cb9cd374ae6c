//! The initial stack of a new program.

use crate::loader::auxv::AuxiliaryInfo;
use vstd::prelude::*;

verus! {

/// The words of a new program's initial stack, lowest address first.
#[derive(Debug)]
pub struct StackInfo(pub Vec<usize>);

/// The words of the initial stack: argument count, argument pointers, a zero, environment
/// pointers, a zero, the auxiliary vector; and a zero more where that makes the count odd.
pub open spec fn stack_words(args: Seq<usize>, envs: Seq<usize>, auxv: AuxiliaryInfo) -> Seq<
    usize,
> {
    let body = seq![args.len() as usize] + args + seq![0usize] + envs + seq![0usize] + auxv.words();
    if body.len() % 2 != 0 {
        body.push(0)
    } else {
        body
    }
}

impl StackInfo {
    /// Lays out the initial stack. `args` and `envs` are the addresses of the NUL-terminated
    /// strings, in order.
    pub fn new(args: &[usize], envs: &[usize], auxv: AuxiliaryInfo) -> (r: Self)
        ensures
            r.0@ == stack_words(args@, envs@, auxv),
    {
        let mut vec: Vec<usize> = Vec::new();
        vec.push(args.len());
        let mut i: usize = 0;
        while i < args.len()
            invariant
                i <= args@.len(),
                vec@ == seq![args@.len() as usize] + args@.take(i as int),
            decreases args@.len() - i,
        {
            vec.push(args[i]);
            i = i + 1;
            assert(vec@ =~= seq![args@.len() as usize] + args@.take(i as int));
        }
        assert(args@.take(args@.len() as int) =~= args@);
        vec.push(0);
        let ghost prefix = vec@;
        let mut j: usize = 0;
        while j < envs.len()
            invariant
                j <= envs@.len(),
                vec@ == prefix + envs@.take(j as int),
            decreases envs@.len() - j,
        {
            vec.push(envs[j]);
            j = j + 1;
            assert(vec@ =~= prefix + envs@.take(j as int));
        }
        assert(envs@.take(envs@.len() as int) =~= envs@);
        vec.push(0);
        auxv.push_to_stack(&mut vec);
        assert(vec@ =~= seq![args@.len() as usize] + args@ + seq![0usize] + envs@ + seq![0usize]
            + auxv.words());
        if vec.len() % 2 != 0 {
            vec.push(0);
        }
        StackInfo(vec)
    }

    /// Whether the stack holds an even number of words, which keeps it 16-byte aligned.
    pub fn is_aligned(&self) -> (r: bool)
        ensures
            r == (self.0@.len() % 2 == 0),
    {
        self.0.len() % 2 == 0
    }
}

/// The laid-out stack always holds an even number of words.
pub proof fn lemma_stack_even(args: Seq<usize>, envs: Seq<usize>, auxv: AuxiliaryInfo)
    ensures
        stack_words(args, envs, auxv).len() % 2 == 0,
{
}

} // verus!
