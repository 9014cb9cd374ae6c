//! Loading 64-bit little-endian ELF images: what to map where, and where the interpreter is.

use crate::loader::auxv::AuxiliaryInfo;
use crate::loader::mmap::{MappedAreaBuilder, PROT_EXEC, PROT_READ, PROT_WRITE};
use crate::loader::Error;
use object::read::elf::{ElfFile64, FileHeader, ProgramHeader};
use object::LittleEndian;
use vstd::prelude::*;

verus! {

/// Loadable segment.
pub const PT_LOAD: u32 = 1;
/// Segment naming the program interpreter.
pub const PT_INTERP: u32 = 3;
/// Shared object (position-independent) image.
pub const ET_DYN: u16 = 3;
/// Segment is executable.
pub const PF_X: u32 = 1;
/// Segment is writable.
pub const PF_W: u32 = 2;
/// Segment is readable.
pub const PF_R: u32 = 4;

/// The page size that segments are aligned to.
pub const PAGE_SIZE: u64 = 0x1000;

/// The page size of the x86_64 machine that images are loaded for.
pub fn page_size() -> (r: usize)
    ensures
        r == PAGE_SIZE,
{
    0x1000
}

/// The ELF magic number that starts every image.
pub open spec fn elf_magic() -> Seq<u8> {
    seq![0x7fu8, 0x45u8, 0x4cu8, 0x46u8]
}

/// Whether `data` starts with the ELF magic number.
pub fn has_elf_magic(data: &[u8]) -> (r: bool)
    ensures
        r == (data@.len() >= 4 && data@.take(4) == elf_magic()),
{
    let r = data.len() >= 4 && data[0] == 0x7f && data[1] == 0x45 && data[2] == 0x4c && data[3]
        == 0x46;
    proof {
        if data@.len() >= 4 {
            assert(r == (data@.take(4) =~= elf_magic()));
        }
    }
    r
}

/// The fields of a program header that loading reads: type, flags, file offset, virtual
/// address, size in the file and size in memory.
pub type PhdrModel = (u32, u32, u64, u64, u64, u64);

/// The fields of an ELF image that loading reads: type, entry point, program header offset,
/// program header entry size, program header count, and the program headers.
pub type ElfModel = (u16, u64, u64, u16, u16, Seq<PhdrModel>);

/// A program header, as plain values.
#[derive(Debug, Clone, Copy, PartialEq, Eq, Structural)]
pub struct ProgramHeaderInfo {
    pub p_type: u32,
    pub p_flags: u32,
    pub p_offset: u64,
    pub p_vaddr: u64,
    pub p_filesz: u64,
    pub p_memsz: u64,
}

impl View for ProgramHeaderInfo {
    type V = PhdrModel;

    open spec fn view(&self) -> PhdrModel {
        (self.p_type, self.p_flags, self.p_offset, self.p_vaddr, self.p_filesz, self.p_memsz)
    }
}

/// An ELF image header and its program headers, as plain values.
#[derive(Debug, Clone)]
pub struct ElfImage {
    pub e_type: u16,
    pub e_entry: u64,
    pub e_phoff: u64,
    pub e_phentsize: u16,
    pub e_phnum: u16,
    pub phdrs: Vec<ProgramHeaderInfo>,
}

/// The plain values of a list of program headers.
pub open spec fn phdr_models(v: Seq<ProgramHeaderInfo>) -> Seq<PhdrModel> {
    v.map_values(|p: ProgramHeaderInfo| p@)
}

impl View for ElfImage {
    type V = ElfModel;

    open spec fn view(&self) -> ElfModel {
        (
            self.e_type,
            self.e_entry,
            self.e_phoff,
            self.e_phentsize,
            self.e_phnum,
            phdr_models(self.phdrs@),
        )
    }
}

/// What `object` makes of `data` as a 64-bit little-endian ELF file: the header and program
/// header fields, or the message of its error.
pub uninterp spec fn elf64_parse(data: Seq<u8>) -> Result<ElfModel, Seq<char>>;

/// Parses `data` with `object::read::elf::ElfFile64::parse` and reads the header and program
/// header fields out of the result. `object` is built with its `unaligned` feature, so its ELF
/// types have alignment 1 and the outcome depends on the bytes alone, not on their address. Its contract only names the outcome: the checks that
/// `object` makes (magic, class, endianness, header sizes, section and symbol tables) are not
/// restated here.
#[verifier::external_body]
fn object_parse_elf64(data: &[u8]) -> (r: Result<ElfImage, String>)
    ensures
        match r {
            Ok(image) => elf64_parse(data@) == Ok::<ElfModel, Seq<char>>(image@),
            Err(msg) => elf64_parse(data@) == Err::<ElfModel, Seq<char>>(msg@),
        },
{
    let file = ElfFile64::<LittleEndian, &[u8]>::parse(data).map_err(|e| e.to_string())?;
    let (h, e) = (file.elf_header(), LittleEndian);
    let phdrs = file.elf_program_headers().iter().map(|p| ProgramHeaderInfo {
        p_type: p.p_type(e), p_flags: p.p_flags(e), p_offset: p.p_offset(e),
        p_vaddr: p.p_vaddr(e), p_filesz: p.p_filesz(e), p_memsz: p.p_memsz(e),
    }).collect();
    Ok(ElfImage {
        e_type: h.e_type(e), e_entry: h.e_entry(e), e_phoff: h.e_phoff(e),
        e_phentsize: h.e_phentsize(e), e_phnum: h.e_phnum(e), phdrs,
    })
}

impl ElfImage {
    /// Parses an ELF image; a parse failure is an image format error carrying the parser's
    /// message.
    pub fn parse(data: &[u8]) -> (r: Result<ElfImage, Error>)
        ensures
            match r {
                Ok(image) => elf64_parse(data@) == Ok::<ElfModel, Seq<char>>(image@),
                Err(Error::ImageFormat(msg)) => elf64_parse(data@) == Err::<ElfModel, Seq<char>>(
                    msg@,
                ),
                Err(_) => false,
            },
    {
        match object_parse_elf64(data) {
            Ok(image) => Ok(image),
            Err(msg) => Err(Error::ImageFormat(msg)),
        }
    }
}

/// The index of the loadable segment with the highest virtual address among the first `n`
/// program headers; the last such one where several share it.
pub open spec fn top_load_upto(phdrs: Seq<PhdrModel>, n: int) -> Option<int>
    decreases n,
{
    if n <= 0 {
        None
    } else {
        let prev = top_load_upto(phdrs, n - 1);
        let p = phdrs[n - 1];
        if p.0 != PT_LOAD {
            prev
        } else {
            match prev {
                None => Some(n - 1),
                Some(i) => if p.3 >= phdrs[i].3 {
                    Some(n - 1)
                } else {
                    prev
                },
            }
        }
    }
}

/// The mapping that reserves the address space of a position-independent image: the range up to
/// the end of its highest loadable segment. Other images are mapped where they say and need
/// none (`None`).
pub open spec fn base_request(image: ElfModel) -> Result<Option<MappedAreaBuilder>, ()> {
    if image.0 != ET_DYN {
        Ok(None)
    } else {
        match top_load_upto(image.5, image.5.len() as int) {
            None => Err(()),
            Some(i) => Ok(
                Some(MappedAreaBuilder { len: (image.5[i].3 + image.5[i].5) as usize, ..MappedAreaBuilder::initial() }),
            ),
        }
    }
}

/// Whether computing the base mapping of `image` stays within `u64`.
pub open spec fn base_request_fits(image: ElfModel) -> bool {
    image.0 == ET_DYN ==> match top_load_upto(image.5, image.5.len() as int) {
        None => true,
        Some(i) => image.5[i].3 + image.5[i].5 <= u64::MAX,
    }
}

/// Finds the loadable segment with the highest virtual address.
fn top_load(phdrs: &Vec<ProgramHeaderInfo>) -> (r: Option<usize>)
    ensures
        match top_load_upto(phdr_models(phdrs@), phdrs@.len() as int) {
            None => r is None,
            Some(i) => r == Some(i as usize),
        },
        r matches Some(k) ==> k < phdrs@.len() && top_load_upto(
            phdr_models(phdrs@),
            phdrs@.len() as int,
        ) == Some(k as int),
{
    let ghost model = phdr_models(phdrs@);
    let mut best: Option<usize> = None;
    let mut i: usize = 0;
    while i < phdrs.len()
        invariant
            i <= phdrs@.len(),
            model == phdr_models(phdrs@),
            match top_load_upto(model, i as int) {
                None => best is None,
                Some(k) => best == Some(k as usize) && 0 <= k < i,
            },
        decreases phdrs@.len() - i,
    {
        let p = phdrs[i];
        assert(model[i as int] == p@);
        if p.p_type == PT_LOAD {
            match best {
                None => {
                    best = Some(i);
                },
                Some(b) => {
                    assert(model[b as int] == phdrs@[b as int]@);
                    if p.p_vaddr >= phdrs[b].p_vaddr {
                        best = Some(i);
                    }
                },
            }
        }
        i = i + 1;
    }
    best
}

impl ElfImage {
    /// Whether the end of the highest loadable segment of a position-independent image can be
    /// computed in 64 bits.
    pub fn base_fits(&self) -> (r: bool)
        ensures
            r == base_request_fits(self@),
    {
        if self.e_type != ET_DYN {
            return true;
        }
        match top_load(&self.phdrs) {
            None => true,
            Some(i) => {
                let top = self.phdrs[i];
                assert(self@.5[i as int] == top@);
                top.p_vaddr as u128 + top.p_memsz as u128 <= u64::MAX as u128
            },
        }
    }
}

impl ElfImage {
    /// The mapping that reserves the address space of a position-independent image, `None` for
    /// an image that is mapped where it says; an image format error if a position-independent
    /// image has no loadable segment.
    pub fn map_base(&self) -> (r: Result<Option<MappedAreaBuilder>, Error>)
        requires
            base_request_fits(self@),
        ensures
            match r {
                Ok(req) => base_request(self@) == Ok::<Option<MappedAreaBuilder>, ()>(req),
                Err(Error::ImageFormat(msg)) => base_request(self@) is Err && msg@
                    == "image has no PT_LOAD segment"@,
                Err(_) => false,
            },
    {
        if self.e_type != ET_DYN {
            return Ok(None);
        }
        match top_load(&self.phdrs) {
            None => Err(Error::ImageFormat(String::from_str("image has no PT_LOAD segment"))),
            Some(i) => {
                let top = self.phdrs[i];
                assert(self@.5[i as int] == top@);
                assert(self@.5.len() == self.phdrs@.len());
                assert(top@.3 == top.p_vaddr);
                let max_addr = top.p_vaddr + top.p_memsz;
                Ok(Some(MappedAreaBuilder::new().len(max_addr as usize)))
            },
        }
    }
}

/// The access that a segment's flags ask for, added to `prot`. Executable pages are made
/// writable too: code that reaches thread-local storage through `fs` is rewritten in place to
/// use `gs`.
pub open spec fn perms_prot(prot: i32, flags: u32) -> i32 {
    let r = if flags & PF_R != 0 {
        prot | PROT_READ
    } else {
        prot
    };
    let w = if flags & PF_W != 0 {
        r | PROT_WRITE
    } else {
        r
    };
    if flags & PF_X != 0 {
        (w | PROT_EXEC) | PROT_WRITE
    } else {
        w
    }
}

/// Adds the access that a segment's flags ask for to a mapping request.
pub fn elf_mmap_perms(builder: &mut MappedAreaBuilder, flags: u32)
    ensures
        *final(builder) == (MappedAreaBuilder { prot: perms_prot(old(builder).prot, flags), ..*old(builder) }),
{
    if flags & PF_R != 0 {
        *builder = builder.readable();
    }
    if flags & PF_W != 0 {
        *builder = builder.writable();
    }
    if flags & PF_X != 0 {
        *builder = builder.executable();
        *builder = builder.writable();
    }
}

/// How to bring one loadable segment into memory: an anonymous mapping of its whole memory
/// size, the file's bytes mapped over it, and, for a writable segment, the range past the file
/// bytes to clear.
#[derive(Debug, Clone, Copy, PartialEq, Eq, Structural)]
pub struct SegmentPlan {
    pub anon: MappedAreaBuilder,
    pub file: MappedAreaBuilder,
    pub zero_fill: Option<ZeroFill>,
}

/// A range of memory to clear.
#[derive(Debug, Clone, Copy, PartialEq, Eq, Structural)]
pub struct ZeroFill {
    pub addr: usize,
    pub len: usize,
}

/// Whether the address arithmetic of mapping `p` at `mem_base` stays in range.
pub open spec fn segment_fits(p: PhdrModel, mem_base: usize) -> bool {
    let fill = p.3 % PAGE_SIZE;
    &&& mem_base + p.3 <= usize::MAX
    &&& p.5 + fill <= usize::MAX
    &&& p.4 + fill <= usize::MAX
    &&& p.4 <= usize::MAX
    &&& p.5 <= usize::MAX
    &&& p.2 >= fill
    &&& p.1 & PF_W != 0 ==> p.5 >= p.4 && mem_base + p.3 + p.4 <= usize::MAX
}

/// How to map the loadable segment `p` of the image open at `fd` for an image based at
/// `mem_base`: both mappings start at the page that holds the segment's first byte.
pub open spec fn segment_plan(p: PhdrModel, fd: i32, mem_base: usize) -> SegmentPlan {
    let fill = p.3 % PAGE_SIZE;
    let base = (mem_base + p.3 - fill) as usize;
    let init = MappedAreaBuilder::initial();
    let anon_flags = init.flags | crate::loader::mmap::MAP_FIXED;
    SegmentPlan {
        anon: MappedAreaBuilder {
            addr: base,
            len: (p.5 + fill) as usize,
            prot: perms_prot(0, p.1),
            flags: anon_flags,
            auto_unmap: mem_base == 0,
            ..init
        },
        file: MappedAreaBuilder {
            addr: base,
            len: (p.4 + fill) as usize,
            prot: perms_prot(0, p.1),
            flags: (init.flags & !crate::loader::mmap::MAP_ANONYMOUS)
                | crate::loader::mmap::MAP_FIXED,
            fd,
            offset: (p.2 - fill) as u64,
            auto_unmap: false,
        },
        zero_fill: if p.1 & PF_W != 0 {
            Some(ZeroFill { addr: (mem_base + p.3 + p.4) as usize, len: (p.5 - p.4) as usize })
        } else {
            None
        },
    }
}

impl ProgramHeaderInfo {
    /// How to map this loadable segment of the image open at `fd`, for an image based at
    /// `mem_base`.
    pub fn map_phdr(&self, fd: i32, mem_base: usize) -> (r: SegmentPlan)
        requires
            segment_fits(self@, mem_base),
        ensures
            r == segment_plan(self@, fd, mem_base),
    {
        let p_filesz = self.p_filesz as usize;
        let p_memsz = self.p_memsz as usize;
        let p_vaddr = self.p_vaddr as usize;
        let p_offset = self.p_offset;
        let fill_align = self.p_vaddr % PAGE_SIZE;
        let segment_base = mem_base + p_vaddr - fill_align as usize;

        let mut anon = MappedAreaBuilder::new().destination(segment_base).len(
            p_memsz + fill_align as usize,
        );
        if mem_base != 0 {
            anon = anon.auto_unmap(false);
        }
        elf_mmap_perms(&mut anon, self.p_flags);

        let mut file = MappedAreaBuilder::new().file(fd, p_offset - fill_align).len(
            p_filesz + fill_align as usize,
        ).destination(segment_base).auto_unmap(false);
        elf_mmap_perms(&mut file, self.p_flags);

        let zero_fill = if self.p_flags & PF_W != 0 {
            Some(ZeroFill { addr: mem_base + p_vaddr + p_filesz, len: p_memsz - p_filesz })
        } else {
            None
        };
        SegmentPlan { anon, file, zero_fill }
    }
}

impl ProgramHeaderInfo {
    /// Whether this segment can be mapped for an image based at `mem_base` without the
    /// address arithmetic leaving the range of `usize`.
    pub fn fits_at(&self, mem_base: usize) -> (r: bool)
        ensures
            r == segment_fits(self@, mem_base),
    {
        let max = usize::MAX as u128;
        let fill = (self.p_vaddr % PAGE_SIZE) as u128;
        let vaddr = self.p_vaddr as u128;
        let filesz = self.p_filesz as u128;
        let memsz = self.p_memsz as u128;
        let base = mem_base as u128;
        let plain = base + vaddr <= max && memsz + fill <= max && filesz + fill <= max
            && filesz <= max && memsz <= max && self.p_offset as u128 >= fill;
        let writable = self.p_flags & PF_W != 0;
        plain && (!writable || (memsz >= filesz && base + vaddr + filesz <= max))
    }
}

impl ElfImage {
    /// Whether this image can be loaded based at `base` without the address arithmetic
    /// leaving the range of `usize`.
    pub fn fits_at(&self, base: usize) -> (r: bool)
        ensures
            r == load_fits(self@, base),
    {
        let max = usize::MAX as u128;
        if base as u128 + self.e_entry as u128 > max || base as u128 + self.e_phoff as u128 > max {
            return false;
        }
        let ghost model = self@;
        let mut i: usize = 0;
        while i < self.phdrs.len()
            invariant
                i <= self.phdrs@.len(),
                model == self@,
                model.5.len() == self.phdrs@.len(),
                forall|j: int|
                    0 <= j < i && (#[trigger] model.5[j]).0 == PT_LOAD ==> segment_fits(
                        model.5[j],
                        base,
                    ),
            decreases self.phdrs@.len() - i,
        {
            let p = self.phdrs[i];
            assert(model.5[i as int] == p@);
            if p.p_type == PT_LOAD && !p.fits_at(base) {
                return false;
            }
            i = i + 1;
        }
        true
    }
}

/// The position of the first zero byte of `s`, if any.
pub open spec fn first_zero(s: Seq<u8>) -> Option<int>
    decreases s.len(),
{
    if s.len() == 0 {
        None
    } else if s[0] == 0 {
        Some(0)
    } else {
        match first_zero(s.drop_first()) {
            Some(k) => Some(k + 1),
            None => None,
        }
    }
}

proof fn lemma_first_zero_at(s: Seq<u8>, n: int)
    requires
        0 <= n < s.len(),
        s[n] == 0,
        forall|j: int| 0 <= j < n ==> s[j] != 0,
    ensures
        first_zero(s) == Some(n),
    decreases s.len(),
{
    if n > 0 {
        assert(s[0] != 0);
        lemma_first_zero_at(s.drop_first(), n - 1);
    }
}

proof fn lemma_first_zero_none(s: Seq<u8>)
    requires
        forall|j: int| 0 <= j < s.len() ==> s[j] != 0,
    ensures
        first_zero(s) is None,
    decreases s.len(),
{
    if s.len() > 0 {
        assert(s[0] != 0);
        lemma_first_zero_none(s.drop_first());
    }
}

/// The path that an interpreter segment names: its file bytes up to the first NUL.
pub open spec fn interp_path(data: Seq<u8>, p: PhdrModel) -> Result<Seq<u8>, Seq<char>> {
    if p.0 != PT_INTERP {
        Err("invalid PT_INTERP segment"@)
    } else if p.2 > data.len() || p.4 > data.len() - p.2 {
        Err("Invalid ELF interpreter segment offset or size"@)
    } else {
        let seg = data.subrange(p.2 as int, p.2 + p.4);
        match first_zero(seg) {
            Some(n) => Ok(seg.take(n)),
            None => Err("Invalid ELF interpreter segment data"@),
        }
    }
}

impl ProgramHeaderInfo {
    /// Reads the interpreter path that this `PT_INTERP` segment of the image `data` names.
    pub fn read_interp(&self, data: &[u8]) -> (r: Result<Vec<u8>, Error>)
        ensures
            match r {
                Ok(path) => interp_path(data@, self@) == Ok::<Seq<u8>, Seq<char>>(path@),
                Err(Error::ImageFormat(msg)) => interp_path(data@, self@) == Err::<
                    Seq<u8>,
                    Seq<char>,
                >(msg@),
                Err(_) => false,
            },
    {
        if self.p_type != PT_INTERP {
            return Err(Error::ImageFormat(String::from_str("invalid PT_INTERP segment")));
        }
        let len = data.len() as u64;
        if self.p_offset > len || self.p_filesz > len - self.p_offset {
            return Err(
                Error::ImageFormat(String::from_str("Invalid ELF interpreter segment offset or size")),
            );
        }
        let start = self.p_offset as usize;
        let end = (self.p_offset + self.p_filesz) as usize;
        let ghost seg = data@.subrange(start as int, end as int);
        assert(seg == data@.subrange(self@.2 as int, self@.2 + self@.4));
        let mut i = start;
        while i < end
            invariant
                start <= i <= end <= data@.len(),
                seg == data@.subrange(start as int, end as int),
                seg == data@.subrange(self@.2 as int, self@.2 + self@.4),
                self.p_type == PT_INTERP,
                self.p_offset <= data@.len(),
                self.p_filesz <= data@.len() - self.p_offset,
                forall|j: int| 0 <= j < i - start ==> seg[j] != 0,
            decreases end - i,
        {
            if data[i] == 0 {
                let mut path: Vec<u8> = Vec::new();
                let mut k = start;
                while k < i
                    invariant
                        start <= k <= i < end <= data@.len(),
                        path@ == data@.subrange(start as int, k as int),
                    decreases i - k,
                {
                    path.push(data[k]);
                    k = k + 1;
                    assert(path@ =~= data@.subrange(start as int, k as int));
                }
                proof {
                    let n = (i - start) as int;
                    assert(seg[n] == 0);
                    lemma_first_zero_at(seg, n);
                    assert(path@ =~= seg.take(n));
                }
                return Ok(path);
            }
            i = i + 1;
        }
        proof {
            lemma_first_zero_none(seg);
        }
        Err(Error::ImageFormat(String::from_str("Invalid ELF interpreter segment data")))
    }
}


/// One thing that loading an image asks of its caller.
#[derive(Debug, Clone)]
pub enum LoadStep {
    /// Load the interpreter at this path.
    Interpreter(Vec<u8>),
    /// Map a loadable segment.
    Segment(SegmentPlan),
}

/// A load step as plain values.
pub enum LoadStepModel {
    Interpreter(Seq<u8>),
    Segment(SegmentPlan),
}

impl View for LoadStep {
    type V = LoadStepModel;

    open spec fn view(&self) -> LoadStepModel {
        match self {
            LoadStep::Interpreter(path) => LoadStepModel::Interpreter(path@),
            LoadStep::Segment(plan) => LoadStepModel::Segment(*plan),
        }
    }
}

/// The plain values of a list of load steps.
pub open spec fn step_models(v: Seq<LoadStep>) -> Seq<LoadStepModel> {
    v.map_values(|s: LoadStep| s@)
}

/// How to load an image based at `base`: the steps in the order of the program headers, and
/// where the entry point and the program headers end up.
#[derive(Debug, Clone)]
pub struct LoadPlan {
    pub steps: Vec<LoadStep>,
    pub entry: usize,
    pub phdr: usize,
    pub phent: usize,
    pub phnum: usize,
}

/// Whether the address arithmetic of loading `image` at `base` stays in range.
pub open spec fn load_fits(image: ElfModel, base: usize) -> bool {
    &&& base + image.1 <= usize::MAX
    &&& base + image.2 <= usize::MAX
    &&& forall|i: int|
        0 <= i < image.5.len() && (#[trigger] image.5[i]).0 == PT_LOAD ==> segment_fits(
            image.5[i],
            base,
        )
}

/// The steps for the first `n` program headers of `image`: an interpreter for an interpreter
/// segment, a mapping for a loadable one, nothing for the others; the first interpreter
/// segment that cannot be read fails the whole.
pub open spec fn load_steps(data: Seq<u8>, image: ElfModel, fd: i32, base: usize, n: int) -> Result<
    Seq<LoadStepModel>,
    Seq<char>,
>
    decreases n,
{
    if n <= 0 {
        Ok(Seq::empty())
    } else {
        match load_steps(data, image, fd, base, n - 1) {
            Err(msg) => Err(msg),
            Ok(prev) => {
                let p = image.5[n - 1];
                if p.0 == PT_INTERP {
                    match interp_path(data, p) {
                        Ok(path) => Ok(prev.push(LoadStepModel::Interpreter(path))),
                        Err(msg) => Err(msg),
                    }
                } else if p.0 == PT_LOAD {
                    Ok(prev.push(LoadStepModel::Segment(segment_plan(p, fd, base))))
                } else {
                    Ok(prev)
                }
            },
        }
    }
}

proof fn lemma_load_steps_err_stays(
    data: Seq<u8>,
    image: ElfModel,
    fd: i32,
    base: usize,
    k: int,
    n: int,
)
    requires
        k <= n,
        load_steps(data, image, fd, base, k) is Err,
    ensures
        load_steps(data, image, fd, base, n) == load_steps(data, image, fd, base, k),
    decreases n - k,
{
    if k < n {
        lemma_load_steps_err_stays(data, image, fd, base, k, n - 1);
    }
}

impl ElfImage {
    /// Plans the loading of this image, read from `data` and open at `fd`, based at `base`.
    pub fn load_plan(&self, data: &[u8], fd: i32, base: usize) -> (r: Result<LoadPlan, Error>)
        requires
            load_fits(self@, base),
        ensures
            match r {
                Ok(plan) => {
                    &&& load_steps(data@, self@, fd, base, self@.5.len() as int) == Ok::<
                        Seq<LoadStepModel>,
                        Seq<char>,
                    >(step_models(plan.steps@))
                    &&& plan.entry == base + self.e_entry
                    &&& plan.phdr == base + self.e_phoff
                    &&& plan.phent == self.e_phentsize
                    &&& plan.phnum == self.e_phnum
                },
                Err(Error::ImageFormat(msg)) => load_steps(data@, self@, fd, base, self@.5.len() as int)
                    == Err::<Seq<LoadStepModel>, Seq<char>>(msg@),
                Err(_) => false,
            },
    {
        let ghost model = self@;
        let mut steps: Vec<LoadStep> = Vec::new();
        assert(step_models(steps@) =~= Seq::<LoadStepModel>::empty());
        let mut i: usize = 0;
        while i < self.phdrs.len()
            invariant
                i <= self.phdrs@.len(),
                model == self@,
                model.5.len() == self.phdrs@.len(),
                load_fits(model, base),
                load_steps(data@, model, fd, base, i as int) == Ok::<Seq<LoadStepModel>, Seq<char>>(
                    step_models(steps@),
                ),
            decreases self.phdrs@.len() - i,
        {
            let p = self.phdrs[i];
            assert(model.5[i as int] == p@);
            if p.p_type == PT_INTERP {
                match p.read_interp(data) {
                    Ok(path) => {
                        steps.push(LoadStep::Interpreter(path));
                    },
                    Err(e) => {
                        proof {
                            lemma_load_steps_err_stays(
                                data@,
                                model,
                                fd,
                                base,
                                i + 1,
                                model.5.len() as int,
                            );
                        }
                        return Err(e);
                    },
                }
            } else if p.p_type == PT_LOAD {
                steps.push(LoadStep::Segment(p.map_phdr(fd, base)));
            }
            assert(step_models(steps@) =~= match load_steps(data@, model, fd, base, i + 1) {
                Ok(s) => s,
                Err(_) => step_models(steps@),
            });
            i = i + 1;
        }
        Ok(LoadPlan {
            steps,
            entry: base + self.e_entry as usize,
            phdr: base + self.e_phoff as usize,
            phent: self.e_phentsize as usize,
            phnum: self.e_phnum as usize,
        })
    }
}

/// A loaded program: the descriptor it was read from, its interpreter, where its program
/// headers and its entry point are, and its base address (zero for one mapped where it says).
#[derive(Debug)]
pub struct Program {
    pub exec_fd: i32,
    pub interpreter: Option<Box<Program>>,
    pub phdr: usize,
    pub phent: usize,
    pub phnum: usize,
    pub entry: usize,
    pub base: usize,
}

impl Program {
    /// Where to start the program and what to tell it: the interpreter's entry point where it
    /// has one, else its own; the auxiliary vector names its own program headers and entry
    /// point and the interpreter's base.
    pub fn startup(&self) -> (r: (usize, AuxiliaryInfo))
        ensures
            r.0 == match self.interpreter {
                Some(interp) => interp.entry,
                None => self.entry,
            },
            r.1 == (AuxiliaryInfo {
                exec_fd: self.exec_fd as usize,
                phdr_base: self.phdr,
                phdr_size: self.phent,
                phdr_count: self.phnum,
                entry: self.entry,
                base: match self.interpreter {
                    Some(interp) => interp.base,
                    None => 0,
                },
            }),
    {
        let base = match &self.interpreter {
            Some(interp) => interp.base,
            None => 0,
        };
        let entry = match &self.interpreter {
            Some(interp) => interp.entry,
            None => self.entry,
        };
        let auxv = AuxiliaryInfo {
            exec_fd: self.exec_fd as usize,
            phdr_base: self.phdr,
            phdr_size: self.phent,
            phdr_count: self.phnum,
            entry: self.entry,
            base,
        };
        (entry, auxv)
    }
}

/// The access that a segment's flags ask for: readable where `PF_R` is set, executable where
/// `PF_X` is set, writable where `PF_W` or `PF_X` is set (code is rewritten in place), and
/// nothing else.
pub proof fn lemma_perms_access(flags: u32)
    ensures
        (perms_prot(0, flags) & PROT_READ != 0) == (flags & PF_R != 0),
        (perms_prot(0, flags) & PROT_EXEC != 0) == (flags & PF_X != 0),
        (perms_prot(0, flags) & PROT_WRITE != 0) == (flags & PF_W != 0 || flags
            & PF_X != 0),
        perms_prot(0, flags) & !7i32 == 0,
{
    let r = if flags & PF_R != 0 { 0i32 | 1i32 } else { 0i32 };
    let w = if flags & PF_W != 0 { r | 2i32 } else { r };
    let x = if flags & PF_X != 0 { (w | 4i32) | 2i32 } else { w };
    assert(x == perms_prot(0, flags));
    assert(
        (x & 1i32 != 0) == (flags & 4u32 != 0)
        && (x & 4i32 != 0) == (flags & 1u32 != 0)
        && (x & 2i32 != 0) == (flags & 2u32 != 0 || flags & 1u32 != 0)
        && x & !7i32 == 0
    ) by (bit_vector)
        requires
            r == (if flags & 4u32 != 0 { 0i32 | 1i32 } else { 0i32 }),
            w == (if flags & 2u32 != 0 { r | 2i32 } else { r }),
            x == (if flags & 1u32 != 0 { (w | 4i32) | 2i32 } else { w }),
    ;
}

/// Both mappings of a loadable segment, the anonymous one and the file's bytes over it, ask for
/// the access that the segment's flags give, so the file's bytes can be read and, for code,
/// executed.
pub proof fn lemma_segment_access(p: PhdrModel, fd: i32, mem_base: usize)
    ensures
        segment_plan(p, fd, mem_base).file.prot == perms_prot(0, p.1),
        segment_plan(p, fd, mem_base).file.prot == segment_plan(p, fd, mem_base).anon.prot,
        (segment_plan(p, fd, mem_base).file.prot & PROT_READ != 0) == (p.1
            & PF_R != 0),
        (segment_plan(p, fd, mem_base).file.prot & PROT_EXEC != 0) == (p.1
            & PF_X != 0),
        (segment_plan(p, fd, mem_base).file.prot & PROT_WRITE != 0) == (p.1
            & PF_W != 0 || p.1 & PF_X != 0),
{
    lemma_perms_access(p.1);
}

} // verus!
