//! The auxiliary vector that the kernel puts on a new program's stack.

use vstd::prelude::*;

verus! {

/// End of the vector.
pub const AT_NULL: usize = 0;
/// File descriptor of the program.
pub const AT_EXECFD: usize = 2;
/// Address of the program headers.
pub const AT_PHDR: usize = 3;
/// Size of one program header.
pub const AT_PHENT: usize = 4;
/// Number of program headers.
pub const AT_PHNUM: usize = 5;
/// Page size.
pub const AT_PAGESZ: usize = 6;
/// Base address of the interpreter.
pub const AT_BASE: usize = 7;
/// Entry point of the program.
pub const AT_ENTRY: usize = 9;
/// Entry of the vDSO.
pub const AT_SYSINFO: usize = 32;
/// Address of the vDSO's ELF header.
pub const AT_SYSINFO_EHDR: usize = 33;

/// The page size of the emulated x86_64 machine.
pub const PAGE_SIZE: usize = 0x1000;

/// What the auxiliary vector tells a new program.
#[derive(Debug, Clone, Copy, PartialEq, Eq, Structural)]
pub struct AuxiliaryInfo {
    pub exec_fd: usize,
    pub phdr_base: usize,
    pub phdr_size: usize,
    pub phdr_count: usize,
    pub entry: usize,
    pub base: usize,
}

impl AuxiliaryInfo {
    /// The words of the vector, in order, as pairs of a type and a value, terminator included.
    /// No vDSO is offered.
    pub open spec fn words(self) -> Seq<usize> {
        seq![
            AT_PAGESZ, PAGE_SIZE,
            AT_PHDR, self.phdr_base,
            AT_PHENT, self.phdr_size,
            AT_PHNUM, self.phdr_count,
            AT_BASE, self.base,
            AT_ENTRY, self.entry,
            AT_EXECFD, self.exec_fd,
            AT_SYSINFO, 0,
            AT_SYSINFO_EHDR, 0,
            AT_NULL, 0,
        ]
    }

    /// Appends the vector to `stack`.
    pub fn push_to_stack(&self, stack: &mut Vec<usize>)
        ensures
            final(stack)@ == old(stack)@ + self.words(),
    {
        stack.push(AT_PAGESZ);
        stack.push(PAGE_SIZE);
        stack.push(AT_PHDR);
        stack.push(self.phdr_base);
        stack.push(AT_PHENT);
        stack.push(self.phdr_size);
        stack.push(AT_PHNUM);
        stack.push(self.phdr_count);
        stack.push(AT_BASE);
        stack.push(self.base);
        stack.push(AT_ENTRY);
        stack.push(self.entry);
        stack.push(AT_EXECFD);
        stack.push(self.exec_fd);
        stack.push(AT_SYSINFO);
        stack.push(0);
        stack.push(AT_SYSINFO_EHDR);
        stack.push(0);
        stack.push(AT_NULL);
        stack.push(0);
        assert(stack@ =~= old(stack)@ + self.words());
    }
}

/// Whether the value `v` is what the auxiliary vector owes for the tag `t`: the page size, the
/// program headers' address, entry size and count, the interpreter's base, the entry point and
/// the program's descriptor under their own tags, and zero for the others.
pub open spec fn owed_value(info: AuxiliaryInfo, t: usize, v: usize) -> bool {
    &&& t == AT_PAGESZ ==> v == PAGE_SIZE
    &&& t == AT_PHDR ==> v == info.phdr_base
    &&& t == AT_PHENT ==> v == info.phdr_size
    &&& t == AT_PHNUM ==> v == info.phdr_count
    &&& t == AT_BASE ==> v == info.base
    &&& t == AT_ENTRY ==> v == info.entry
    &&& t == AT_EXECFD ==> v == info.exec_fd
    &&& (t == AT_SYSINFO || t == AT_SYSINFO_EHDR || t == AT_NULL) ==> v == 0
}

/// Whether the tag `t` stands at a tag position (an even one) of the words.
pub open spec fn has_tag(words: Seq<usize>, t: usize) -> bool {
    exists|i: int| 0 <= i < words.len() && i % 2 == 0 && #[trigger] words[i] == t
}

/// The auxiliary vector is a list of tag and value pairs ended by `AT_NULL`: each tag is
/// followed by the value it names, each of the seven tags that describe the program is there,
/// and no tag is there twice.
pub proof fn lemma_auxv_pairs(info: AuxiliaryInfo)
    ensures
        info.words().len() % 2 == 0,
        forall|i: int|
            0 <= i < info.words().len() && i % 2 == 0 ==> owed_value(
                info,
                #[trigger] info.words()[i],
                info.words()[i + 1],
            ),
        forall|i: int, j: int|
            0 <= i < j < info.words().len() && i % 2 == 0 && j % 2 == 0 ==> #[trigger] info.words()[i]
                != #[trigger] info.words()[j],
        has_tag(info.words(), AT_PAGESZ),
        has_tag(info.words(), AT_PHDR),
        has_tag(info.words(), AT_PHENT),
        has_tag(info.words(), AT_PHNUM),
        has_tag(info.words(), AT_BASE),
        has_tag(info.words(), AT_ENTRY),
        has_tag(info.words(), AT_EXECFD),
        info.words()[info.words().len() - 2] == AT_NULL,
        info.words()[info.words().len() - 1] == 0,
{
    let w = info.words();
    assert(w.len() == 20);
    assert(w[0] == AT_PAGESZ && w[2] == AT_PHDR && w[4] == AT_PHENT && w[6] == AT_PHNUM);
    assert(w[8] == AT_BASE && w[10] == AT_ENTRY && w[12] == AT_EXECFD);
}

} // verus!
