//! Requests for memory mappings, and the record of a mapping made.

use vstd::prelude::*;

verus! {

/// Darwin `MAP_PRIVATE`.
pub const MAP_PRIVATE: i32 = 0x0002;
/// Darwin `MAP_FIXED`.
pub const MAP_FIXED: i32 = 0x0010;
/// Darwin `MAP_ANONYMOUS`.
pub const MAP_ANONYMOUS: i32 = 0x1000;
/// Darwin `PROT_READ`.
pub const PROT_READ: i32 = 1;
/// Darwin `PROT_WRITE`.
pub const PROT_WRITE: i32 = 2;
/// Darwin `PROT_EXEC`.
pub const PROT_EXEC: i32 = 4;

/// A mapped memory area. The one who holds it unmaps it when it goes away, if `auto_unmap` is
/// set.
#[derive(Debug, Clone, Copy, PartialEq, Eq, Structural)]
pub struct MappedArea {
    pub addr: usize,
    pub len: usize,
    pub auto_unmap: bool,
}

impl MappedArea {
    /// The empty area at address zero, which nobody unmaps.
    pub fn null() -> (r: Self)
        ensures
            r.addr == 0,
            r.len == 0,
            !r.auto_unmap,
    {
        MappedArea { addr: 0, len: 0, auto_unmap: false }
    }

    /// A request for a new mapping.
    pub fn builder() -> (r: MappedAreaBuilder)
        ensures
            r == MappedAreaBuilder::initial(),
    {
        MappedAreaBuilder::new()
    }

    /// The start address of the area.
    pub fn addr(&self) -> (r: usize)
        ensures
            r == self.addr,
    {
        self.addr
    }
}

/// A request for a memory mapping: the arguments of `mmap`, and whether the area made is to be
/// unmapped by its holder.
#[derive(Debug, Clone, Copy, PartialEq, Eq, Structural)]
pub struct MappedAreaBuilder {
    pub addr: usize,
    pub len: usize,
    pub prot: i32,
    pub flags: i32,
    pub fd: i32,
    pub offset: u64,
    pub auto_unmap: bool,
}

impl MappedAreaBuilder {
    /// A private anonymous mapping anywhere, of length zero and no access, unmapped by its holder.
    pub open spec fn initial() -> Self {
        MappedAreaBuilder {
            addr: 0,
            len: 0,
            prot: 0,
            flags: MAP_PRIVATE | MAP_ANONYMOUS,
            fd: -1i32,
            offset: 0,
            auto_unmap: true,
        }
    }

    /// A private anonymous mapping anywhere, of length zero and no access, unmapped by its holder.
    pub fn new() -> (r: Self)
        ensures
            r == Self::initial(),
    {
        MappedAreaBuilder {
            addr: 0,
            len: 0,
            prot: 0,
            flags: MAP_PRIVATE | MAP_ANONYMOUS,
            fd: -1,
            offset: 0,
            auto_unmap: true,
        }
    }

    /// Places the mapping at exactly `addr`.
    pub fn destination(self, addr: usize) -> (r: Self)
        ensures
            r == (Self { addr, flags: self.flags | MAP_FIXED, ..self }),
    {
        MappedAreaBuilder { addr, flags: self.flags | MAP_FIXED, ..self }
    }

    /// Sets the length of the mapping.
    pub fn len(self, len: usize) -> (r: Self)
        ensures
            r == (Self { len, ..self }),
    {
        MappedAreaBuilder { len, ..self }
    }

    /// Allows reading.
    pub fn readable(self) -> (r: Self)
        ensures
            r == (Self { prot: self.prot | PROT_READ, ..self }),
    {
        MappedAreaBuilder { prot: self.prot | PROT_READ, ..self }
    }

    /// Allows writing.
    pub fn writable(self) -> (r: Self)
        ensures
            r == (Self { prot: self.prot | PROT_WRITE, ..self }),
    {
        MappedAreaBuilder { prot: self.prot | PROT_WRITE, ..self }
    }

    /// Allows executing.
    pub fn executable(self) -> (r: Self)
        ensures
            r == (Self { prot: self.prot | PROT_EXEC, ..self }),
    {
        MappedAreaBuilder { prot: self.prot | PROT_EXEC, ..self }
    }

    /// Maps `fd` from `offset` instead of anonymous memory.
    pub fn file(self, fd: i32, offset: u64) -> (r: Self)
        ensures
            r == (Self { fd, offset, flags: self.flags & !MAP_ANONYMOUS, ..self }),
    {
        MappedAreaBuilder { fd, offset, flags: self.flags & !MAP_ANONYMOUS, ..self }
    }

    /// Indicates whether the holder of the area made is to unmap it.
    pub fn auto_unmap(self, value: bool) -> (r: Self)
        ensures
            r == (Self { auto_unmap: value, ..self }),
    {
        MappedAreaBuilder { auto_unmap: value, ..self }
    }

    /// The record of the area that this request made at `addr`.
    pub fn built_at(self, addr: usize) -> (r: MappedArea)
        ensures
            r == (MappedArea { addr, len: self.len, auto_unmap: self.auto_unmap }),
    {
        MappedArea { addr, len: self.len, auto_unmap: self.auto_unmap }
    }
}

} // verus!
