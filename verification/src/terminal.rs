//! Terminal attributes, window sizes and flow control.

use vstd::prelude::*;

use crate::error::LxError;
use crate::flags::{
    apple_disjoint, convert_from_apple, convert_to_apple, flags_from_apple, flags_known, flags_to_apple,
    lemma_flags_round_trip, lemma_from_apple_entry, lemma_to_apple_entry,
};
use crate::{FromApple, ToApple};

verus! {

/// The Darwin `termios` structure, as plain values.
#[derive(Debug, Clone, Copy)]
pub struct DarwinTermios {
    pub c_iflag: u64,
    pub c_oflag: u64,
    pub c_cflag: u64,
    pub c_lflag: u64,
    pub c_cc: [u8; 20],
    pub c_ispeed: u64,
    pub c_ospeed: u64,
}

impl DarwinTermios {
    /// Number of control characters.
    pub const NCCS: usize = 20;
    /// The value of a disabled control character.
    pub const _POSIX_VDISABLE: u8 = 0xff;
    pub const VEOF: usize = 0;
    pub const VEOL: usize = 1;
    pub const VEOL2: usize = 2;
    pub const VERASE: usize = 3;
    pub const VWERASE: usize = 4;
    pub const VKILL: usize = 5;
    pub const VREPRINT: usize = 6;
    pub const VINTR: usize = 8;
    pub const VQUIT: usize = 9;
    pub const VSUSP: usize = 10;
    pub const VSTART: usize = 12;
    pub const VSTOP: usize = 13;
    pub const VLNEXT: usize = 14;
    pub const VMIN: usize = 16;
    pub const VTIME: usize = 17;
    pub const VSTATUS: usize = 18;
}

/// A control character of a terminal; zero means disabled.
#[derive(Debug, Clone, Copy, PartialEq, Eq, Structural)]
pub struct ControlCharacter(pub u8);

/// The Linux control character that the Darwin one `apple` is read as.
pub open spec fn cc_from_apple(apple: u8) -> u8 {
    if apple == 0xff {
        0
    } else {
        apple
    }
}

/// The Darwin control character that the Linux one `linux` is written as.
pub open spec fn cc_to_apple(linux: u8) -> u8 {
    if linux == 0 {
        0xff
    } else {
        linux
    }
}

impl ControlCharacter {
    /// The disabled control character.
    pub const DISABLED: u8 = 0;

    pub fn from_apple(apple: u8) -> (r: Self)
        ensures
            r.0 == cc_from_apple(apple),
    {
        if apple == DarwinTermios::_POSIX_VDISABLE {
            ControlCharacter(Self::DISABLED)
        } else {
            ControlCharacter(apple)
        }
    }

    pub fn to_apple(self) -> (r: u8)
        ensures
            r == cc_to_apple(self.0),
    {
        if self.0 == Self::DISABLED {
            DarwinTermios::_POSIX_VDISABLE
        } else {
            self.0
        }
    }
}

/// A control character keeps its value through Darwin and back, unless it is the one value
/// that Darwin reserves for a disabled character.
pub proof fn lemma_control_character_round_trip(linux: u8)
    requires
        linux != 0xff,
    ensures
        cc_from_apple(cc_to_apple(linux)) == linux,
{
}

/// The control characters of a terminal, indexed by the Linux `V*` indices.
#[derive(Debug, Clone, Copy)]
pub struct ControlCharacters(pub [ControlCharacter; 19]);

/// The Darwin index of the control character at the Linux index `i`, where Darwin has one.
pub open spec fn cc_apple_index(i: usize) -> Option<usize> {
    match i {
        0 => Some(8),
        1 => Some(9),
        2 => Some(3),
        3 => Some(5),
        4 => Some(0),
        5 => Some(17),
        6 => Some(16),
        8 => Some(12),
        9 => Some(13),
        10 => Some(10),
        11 => Some(1),
        12 => Some(6),
        14 => Some(4),
        15 => Some(14),
        16 => Some(2),
        _ => None,
    }
}

/// The Linux index of the control character at the Darwin index `j`, where Linux has one.
pub open spec fn cc_linux_index(j: usize) -> Option<usize> {
    match j {
        8 => Some(0),
        9 => Some(1),
        3 => Some(2),
        5 => Some(3),
        0 => Some(4),
        17 => Some(5),
        16 => Some(6),
        12 => Some(8),
        13 => Some(9),
        10 => Some(10),
        1 => Some(11),
        6 => Some(12),
        4 => Some(14),
        14 => Some(15),
        2 => Some(16),
        _ => None,
    }
}

/// The Linux control characters read from the Darwin ones `apple`.
pub open spec fn ccs_from_apple(apple: Seq<u8>) -> Seq<u8> {
    Seq::new(
        19,
        |i: int|
            match cc_apple_index(i as usize) {
                Some(j) => cc_from_apple(apple[j as int]),
                None => 0u8,
            },
    )
}

/// The Darwin control characters written for the Linux ones `linux`.
pub open spec fn ccs_to_apple(linux: Seq<u8>) -> Seq<u8> {
    Seq::new(
        20,
        |j: int|
            match cc_linux_index(j as usize) {
                Some(i) => cc_to_apple(linux[i as int]),
                None => if j == 18 {
                    0x14u8
                } else {
                    0xffu8
                },
            },
    )
}

/// The raw values of a sequence of control characters.
pub open spec fn cc_values(ccs: Seq<ControlCharacter>) -> Seq<u8> {
    ccs.map_values(|c: ControlCharacter| c.0)
}

impl ControlCharacters {
    pub const VINTR: usize = 0;
    pub const VQUIT: usize = 1;
    pub const VERASE: usize = 2;
    pub const VKILL: usize = 3;
    pub const VEOF: usize = 4;
    pub const VTIME: usize = 5;
    pub const VMIN: usize = 6;
    pub const VSTART: usize = 8;
    pub const VSTOP: usize = 9;
    pub const VSUSP: usize = 10;
    pub const VEOL: usize = 11;
    pub const VREPRINT: usize = 12;
    pub const VDISCARD: usize = 13;
    pub const VWERASE: usize = 14;
    pub const VLNEXT: usize = 15;
    pub const VEOL2: usize = 16;

    /// The raw values of the control characters.
    pub open spec fn values(self) -> Seq<u8> {
        cc_values(self.0@)
    }

    pub fn from_apple(apple: [u8; 20]) -> (r: Self)
        ensures
            r.values() == ccs_from_apple(apple@),
    {
        let d = ControlCharacter(ControlCharacter::DISABLED);
        let r = ControlCharacters([
            ControlCharacter::from_apple(apple[DarwinTermios::VINTR]),
            ControlCharacter::from_apple(apple[DarwinTermios::VQUIT]),
            ControlCharacter::from_apple(apple[DarwinTermios::VERASE]),
            ControlCharacter::from_apple(apple[DarwinTermios::VKILL]),
            ControlCharacter::from_apple(apple[DarwinTermios::VEOF]),
            ControlCharacter::from_apple(apple[DarwinTermios::VTIME]),
            ControlCharacter::from_apple(apple[DarwinTermios::VMIN]),
            d,
            ControlCharacter::from_apple(apple[DarwinTermios::VSTART]),
            ControlCharacter::from_apple(apple[DarwinTermios::VSTOP]),
            ControlCharacter::from_apple(apple[DarwinTermios::VSUSP]),
            ControlCharacter::from_apple(apple[DarwinTermios::VEOL]),
            ControlCharacter::from_apple(apple[DarwinTermios::VREPRINT]),
            d,
            ControlCharacter::from_apple(apple[DarwinTermios::VWERASE]),
            ControlCharacter::from_apple(apple[DarwinTermios::VLNEXT]),
            ControlCharacter::from_apple(apple[DarwinTermios::VEOL2]),
            d,
            d,
        ]);
        assert(r.values() =~= ccs_from_apple(apple@));
        r
    }

    #[verifier::rlimit(40)]
    pub fn to_apple(self) -> (r: [u8; 20])
        ensures
            r@ == ccs_to_apple(self.values()),
    {
        let l = self.0;
        let x = DarwinTermios::_POSIX_VDISABLE;
        let ghost v = self.values();
        assert(forall|i: int| 0 <= i < 19 ==> v[i] == #[trigger] l@[i].0);
        let r = [
            l[Self::VEOF].to_apple(),
            l[Self::VEOL].to_apple(),
            l[Self::VEOL2].to_apple(),
            l[Self::VERASE].to_apple(),
            l[Self::VWERASE].to_apple(),
            l[Self::VKILL].to_apple(),
            l[Self::VREPRINT].to_apple(),
            x,
            l[Self::VINTR].to_apple(),
            l[Self::VQUIT].to_apple(),
            l[Self::VSUSP].to_apple(),
            x,
            l[Self::VSTART].to_apple(),
            l[Self::VSTOP].to_apple(),
            l[Self::VLNEXT].to_apple(),
            x,
            l[Self::VMIN].to_apple(),
            l[Self::VTIME].to_apple(),
            0x54u8 - 0x40u8,
            x,
        ];
        assert(r@ =~= ccs_to_apple(self.values()));
        r
    }
}

/// Input modes of a terminal.
#[derive(Debug, Clone, Copy, PartialEq, Eq, Structural)]
pub struct InputFlags(pub u32);

impl InputFlags {
    pub const IGNBRK: u32 = 0x1;
    pub const BRKINT: u32 = 0x2;
    pub const IGNPAR: u32 = 0x4;
    pub const PARMRK: u32 = 0x8;
    pub const INPCK: u32 = 0x10;
    pub const ISTRIP: u32 = 0x20;
    pub const INLCR: u32 = 0x40;
    pub const IGNCR: u32 = 0x80;
    pub const ICRNL: u32 = 0x100;
    pub const IUCLC: u32 = 0x200;
    pub const IXON: u32 = 0x400;
    pub const IXANY: u32 = 0x800;
    pub const IXOFF: u32 = 0x1000;
    pub const IMAXBEL: u32 = 0x2000;
    pub const IUTF8: u32 = 0x4000;

    /// The Linux and Darwin bits of each flag that both platforms know.
    pub open spec fn table() -> Seq<(u64, u64)> {
        seq![(0x1u64, 0x1u64), (0x2, 0x2), (0x4, 0x4), (0x8, 0x8), (0x10, 0x10), (0x20, 0x20), (0x40, 0x40), (0x80, 0x80), (0x100, 0x100), (0x400, 0x200), (0x800, 0x800), (0x1000, 0x400), (0x2000, 0x2000), (0x4000, 0x4000)]
    }

    fn exec_table() -> (r: Vec<(u64, u64)>)
        ensures
            r@ == Self::table(),
    {
        let r = vec![(0x1u64, 0x1u64), (0x2, 0x2), (0x4, 0x4), (0x8, 0x8), (0x10, 0x10), (0x20, 0x20), (0x40, 0x40), (0x80, 0x80), (0x100, 0x100), (0x400, 0x200), (0x800, 0x800), (0x1000, 0x400), (0x2000, 0x2000), (0x4000, 0x4000)];
        assert(r@ =~= Self::table());
        r
    }
}

impl FromApple for InputFlags {
    type Apple = u64;

    fn from_apple(apple: u64) -> (r: Result<Self, LxError>)
        ensures
            r == Ok::<InputFlags, LxError>(InputFlags(flags_from_apple(Self::table(), apple) as u32)),
    {
        let t = Self::exec_table();
        Ok(InputFlags(convert_from_apple(t.as_slice(), apple) as u32))
    }
}

impl ToApple for InputFlags {
    type Apple = u64;

    fn to_apple(self) -> (r: Result<u64, LxError>)
        ensures
            r == Ok::<u64, LxError>(flags_to_apple(Self::table(), self.0 as u64)),
    {
        let t = Self::exec_table();
        Ok(convert_to_apple(t.as_slice(), self.0 as u64))
    }
}

/// Output modes of a terminal.
#[derive(Debug, Clone, Copy, PartialEq, Eq, Structural)]
pub struct OutputFlags(pub u32);

impl OutputFlags {
    pub const OPOST: u32 = 0x1;
    pub const OLCUC: u32 = 0x2;
    pub const ONLCR: u32 = 0x4;
    pub const OCRNL: u32 = 0x8;
    pub const ONOCR: u32 = 0x10;
    pub const ONLRET: u32 = 0x20;
    pub const OFILL: u32 = 0x40;
    pub const OFDEL: u32 = 0x80;
    pub const NLDLY: u32 = 0x100;
    pub const CRDLY: u32 = 0x200;
    pub const TABDLY: u32 = 0x400;
    pub const BSDLY: u32 = 0x800;
    pub const VTDLY: u32 = 0x1000;
    pub const FFDLY: u32 = 0x2000;

    /// The Linux and Darwin bits of each flag that both platforms know.
    pub open spec fn table() -> Seq<(u64, u64)> {
        seq![(0x1u64, 0x1u64), (0x4, 0x2), (0x8, 0x10), (0x10, 0x20), (0x20, 0x40), (0x40, 0x80), (0x80, 0x20000), (0x100, 0x300), (0x200, 0x3000), (0x400, 0xc04), (0x800, 0x8000), (0x1000, 0x10000), (0x2000, 0x4000)]
    }

    fn exec_table() -> (r: Vec<(u64, u64)>)
        ensures
            r@ == Self::table(),
    {
        let r = vec![(0x1u64, 0x1u64), (0x4, 0x2), (0x8, 0x10), (0x10, 0x20), (0x20, 0x40), (0x40, 0x80), (0x80, 0x20000), (0x100, 0x300), (0x200, 0x3000), (0x400, 0xc04), (0x800, 0x8000), (0x1000, 0x10000), (0x2000, 0x4000)];
        assert(r@ =~= Self::table());
        r
    }
}

impl FromApple for OutputFlags {
    type Apple = u64;

    fn from_apple(apple: u64) -> (r: Result<Self, LxError>)
        ensures
            r == Ok::<OutputFlags, LxError>(OutputFlags(flags_from_apple(Self::table(), apple) as u32)),
    {
        let t = Self::exec_table();
        Ok(OutputFlags(convert_from_apple(t.as_slice(), apple) as u32))
    }
}

impl ToApple for OutputFlags {
    type Apple = u64;

    fn to_apple(self) -> (r: Result<u64, LxError>)
        ensures
            r == Ok::<u64, LxError>(flags_to_apple(Self::table(), self.0 as u64)),
    {
        let t = Self::exec_table();
        Ok(convert_to_apple(t.as_slice(), self.0 as u64))
    }
}

/// Control modes of a terminal.
#[derive(Debug, Clone, Copy, PartialEq, Eq, Structural)]
pub struct ControlFlags(pub u32);

impl ControlFlags {
    pub const CS5: u32 = 0x0;
    pub const CS6: u32 = 0x10;
    pub const CS7: u32 = 0x20;
    pub const CS8: u32 = 0x30;
    pub const CBAUD: u32 = 0x100f;
    pub const CBAUDEX: u32 = 0x1000;
    pub const CSTOPB: u32 = 0x40;
    pub const CREAD: u32 = 0x80;
    pub const PARENB: u32 = 0x100;
    pub const PARODD: u32 = 0x200;
    pub const HUPCL: u32 = 0x400;
    pub const CLOCAL: u32 = 0x800;
    pub const CIBAUD: u32 = 0x100f0000;
    pub const CMSPAR: u32 = 0x40000000;
    pub const CRTSCTS: u32 = 0x80000000;

    /// The Linux and Darwin bits of each flag that both platforms know.
    pub open spec fn table() -> Seq<(u64, u64)> {
        seq![(0x0u64, 0x0u64), (0x10, 0x100), (0x20, 0x200), (0x30, 0x300), (0x40, 0x400), (0x80, 0x800), (0x100, 0x1000), (0x200, 0x2000), (0x400, 0x4000), (0x800, 0x8000), (0x80000000, 0x30000)]
    }

    fn exec_table() -> (r: Vec<(u64, u64)>)
        ensures
            r@ == Self::table(),
    {
        let r = vec![(0x0u64, 0x0u64), (0x10, 0x100), (0x20, 0x200), (0x30, 0x300), (0x40, 0x400), (0x80, 0x800), (0x100, 0x1000), (0x200, 0x2000), (0x400, 0x4000), (0x800, 0x8000), (0x80000000, 0x30000)];
        assert(r@ =~= Self::table());
        r
    }
}

impl FromApple for ControlFlags {
    type Apple = u64;

    fn from_apple(apple: u64) -> (r: Result<Self, LxError>)
        ensures
            r == Ok::<ControlFlags, LxError>(ControlFlags(flags_from_apple(Self::table(), apple) as u32)),
    {
        let t = Self::exec_table();
        Ok(ControlFlags(convert_from_apple(t.as_slice(), apple) as u32))
    }
}

impl ToApple for ControlFlags {
    type Apple = u64;

    fn to_apple(self) -> (r: Result<u64, LxError>)
        ensures
            r == Ok::<u64, LxError>(flags_to_apple(Self::table(), self.0 as u64)),
    {
        let t = Self::exec_table();
        Ok(convert_to_apple(t.as_slice(), self.0 as u64))
    }
}

/// Local modes of a terminal.
#[derive(Debug, Clone, Copy, PartialEq, Eq, Structural)]
pub struct LocalFlags(pub u32);

impl LocalFlags {
    pub const ISIG: u32 = 0x1;
    pub const ICANON: u32 = 0x2;
    pub const ECHO: u32 = 0x8;
    pub const ECHOE: u32 = 0x10;
    pub const ECHOK: u32 = 0x20;
    pub const ECHONL: u32 = 0x40;
    pub const NOFLSH: u32 = 0x80;
    pub const TOSTOP: u32 = 0x100;
    pub const ECHOCTL: u32 = 0x200;
    pub const ECHOPRT: u32 = 0x400;
    pub const ECHOKE: u32 = 0x800;
    pub const FLUSHO: u32 = 0x1000;
    pub const PENDIN: u32 = 0x2000;
    pub const IEXTEN: u32 = 0x4000;

    /// The Linux and Darwin bits of each flag that both platforms know.
    pub open spec fn table() -> Seq<(u64, u64)> {
        seq![(0x1u64, 0x80u64), (0x2, 0x100), (0x8, 0x8), (0x10, 0x2), (0x20, 0x4), (0x40, 0x10), (0x80, 0x80000000), (0x100, 0x400000), (0x200, 0x40), (0x400, 0x20), (0x800, 0x1), (0x4000, 0x400)]
    }

    fn exec_table() -> (r: Vec<(u64, u64)>)
        ensures
            r@ == Self::table(),
    {
        let r = vec![(0x1u64, 0x80u64), (0x2, 0x100), (0x8, 0x8), (0x10, 0x2), (0x20, 0x4), (0x40, 0x10), (0x80, 0x80000000), (0x100, 0x400000), (0x200, 0x40), (0x400, 0x20), (0x800, 0x1), (0x4000, 0x400)];
        assert(r@ =~= Self::table());
        r
    }
}

impl FromApple for LocalFlags {
    type Apple = u64;

    fn from_apple(apple: u64) -> (r: Result<Self, LxError>)
        ensures
            r == Ok::<LocalFlags, LxError>(LocalFlags(flags_from_apple(Self::table(), apple) as u32)),
    {
        let t = Self::exec_table();
        Ok(LocalFlags(convert_from_apple(t.as_slice(), apple) as u32))
    }
}

impl ToApple for LocalFlags {
    type Apple = u64;

    fn to_apple(self) -> (r: Result<u64, LxError>)
        ensures
            r == Ok::<u64, LxError>(flags_to_apple(Self::table(), self.0 as u64)),
    {
        let t = Self::exec_table();
        Ok(convert_to_apple(t.as_slice(), self.0 as u64))
    }
}

/// An action of `tcflow`.
#[derive(Debug, Clone, Copy, PartialEq, Eq, Structural)]
pub struct TcFlowAction(pub u32);

impl TcFlowAction {
    pub const TCOOFF: u32 = 0;
    pub const TCOON: u32 = 1;
    pub const TCIOFF: u32 = 2;
    pub const TCION: u32 = 3;

    /// The Darwin value that the Linux value `linux` stands for, if Darwin has one.
    pub open spec fn apple_of(linux: u32) -> Option<i32> {
        match linux {
            0 => Some(1i32),
            1 => Some(2i32),
            2 => Some(3i32),
            3 => Some(4i32),
            _ => None,
        }
    }

    /// The Linux value that the Darwin value `apple` is read as, if any.
    pub open spec fn linux_of(apple: i32) -> Option<u32> {
        match apple {
            1 => Some(0u32),
            2 => Some(1u32),
            3 => Some(2u32),
            4 => Some(3u32),
            _ => None,
        }
    }

}

impl FromApple for TcFlowAction {
    type Apple = i32;

    fn from_apple(apple: i32) -> (r: Result<Self, LxError>)
        ensures
            r == (match Self::linux_of(apple) {
                Some(x) => Ok(TcFlowAction(x)),
                None => Err(LxError(LxError::EINVAL)),
            }),
    {
        match apple {
            1 => Ok(TcFlowAction(Self::TCOOFF)),
            2 => Ok(TcFlowAction(Self::TCOON)),
            3 => Ok(TcFlowAction(Self::TCIOFF)),
            4 => Ok(TcFlowAction(Self::TCION)),
            _ => Err(LxError(LxError::EINVAL)),
        }
    }
}

impl ToApple for TcFlowAction {
    type Apple = i32;

    fn to_apple(self) -> (r: Result<i32, LxError>)
        ensures
            r == (match Self::apple_of(self.0) {
                Some(a) => Ok(a),
                None => Err(LxError(LxError::EINVAL)),
            }),
    {
        match self.0 {
            0 => Ok(1),
            1 => Ok(2),
            2 => Ok(3),
            3 => Ok(4),
            _ => Err(LxError(LxError::EINVAL)),
        }
    }
}

/// Terminal attributes of the `TCGETS` family.
#[derive(Debug, Clone, Copy)]
pub struct Termios {
    pub c_iflag: InputFlags,
    pub c_oflag: OutputFlags,
    pub c_cflag: ControlFlags,
    pub c_lflag: LocalFlags,
    pub c_line: u8,
    pub c_cc: ControlCharacters,
}

/// Terminal attributes of the `TCGETS2` family, with speeds.
#[derive(Debug, Clone, Copy)]
pub struct Termios2 {
    pub c_iflag: InputFlags,
    pub c_oflag: OutputFlags,
    pub c_cflag: ControlFlags,
    pub c_lflag: LocalFlags,
    pub c_line: u8,
    pub c_cc: ControlCharacters,
    pub c_ispeed: u32,
    pub c_ospeed: u32,
}

impl From<Termios2> for Termios {
    fn from(value: Termios2) -> (r: Self) {
        Termios {
            c_iflag: value.c_iflag,
            c_oflag: value.c_oflag,
            c_cflag: value.c_cflag,
            c_lflag: value.c_lflag,
            c_line: 0,
            c_cc: value.c_cc,
        }
    }
}

impl vstd::std_specs::convert::FromSpecImpl<Termios2> for Termios {
    open spec fn obeys_from_spec() -> bool {
        true
    }

    open spec fn from_spec(v: Termios2) -> Termios {
        Termios {
            c_iflag: v.c_iflag,
            c_oflag: v.c_oflag,
            c_cflag: v.c_cflag,
            c_lflag: v.c_lflag,
            c_line: 0,
            c_cc: v.c_cc,
        }
    }
}

/// The Linux attributes read from the Darwin ones, before the speeds.
pub open spec fn termios2_matches_apple(t: Termios2, apple: DarwinTermios) -> bool {
    &&& t.c_iflag == InputFlags(flags_from_apple(InputFlags::table(), apple.c_iflag) as u32)
    &&& t.c_oflag == OutputFlags(flags_from_apple(OutputFlags::table(), apple.c_oflag) as u32)
    &&& t.c_cflag == ControlFlags(flags_from_apple(ControlFlags::table(), apple.c_cflag) as u32)
    &&& t.c_lflag == LocalFlags(flags_from_apple(LocalFlags::table(), apple.c_lflag) as u32)
    &&& t.c_line == 0
    &&& t.c_cc.values() == ccs_from_apple(apple.c_cc@)
}

/// The Darwin flag words and control characters written for the Linux ones.
pub open spec fn apple_matches_linux(
    a: DarwinTermios,
    iflag: InputFlags,
    oflag: OutputFlags,
    cflag: ControlFlags,
    lflag: LocalFlags,
    cc: ControlCharacters,
) -> bool {
    &&& a.c_iflag == flags_to_apple(InputFlags::table(), iflag.0 as u64)
    &&& a.c_oflag == flags_to_apple(OutputFlags::table(), oflag.0 as u64)
    &&& a.c_cflag == flags_to_apple(ControlFlags::table(), cflag.0 as u64)
    &&& a.c_lflag == flags_to_apple(LocalFlags::table(), lflag.0 as u64)
    &&& a.c_cc@ == ccs_to_apple(cc.values())
}

impl FromApple for Termios2 {
    type Apple = DarwinTermios;

    fn from_apple(apple: DarwinTermios) -> (r: Result<Self, LxError>)
        ensures
            r is Ok,
            termios2_matches_apple(r->Ok_0, apple),
            r->Ok_0.c_ispeed == apple.c_ispeed as u32,
            r->Ok_0.c_ospeed == apple.c_ospeed as u32,
    {
        let c_iflag = match InputFlags::from_apple(apple.c_iflag) {
            Ok(f) => f,
            Err(e) => return Err(e),
        };
        let c_oflag = match OutputFlags::from_apple(apple.c_oflag) {
            Ok(f) => f,
            Err(e) => return Err(e),
        };
        let c_cflag = match ControlFlags::from_apple(apple.c_cflag) {
            Ok(f) => f,
            Err(e) => return Err(e),
        };
        let c_lflag = match LocalFlags::from_apple(apple.c_lflag) {
            Ok(f) => f,
            Err(e) => return Err(e),
        };
        Ok(Termios2 {
            c_iflag,
            c_oflag,
            c_cflag,
            c_lflag,
            c_line: 0,
            c_cc: ControlCharacters::from_apple(apple.c_cc),
            c_ispeed: apple.c_ispeed as u32,
            c_ospeed: apple.c_ospeed as u32,
        })
    }
}

impl ToApple for Termios2 {
    type Apple = DarwinTermios;

    fn to_apple(self) -> (r: Result<DarwinTermios, LxError>)
        ensures
            r is Ok,
            apple_matches_linux(
                r->Ok_0,
                self.c_iflag,
                self.c_oflag,
                self.c_cflag,
                self.c_lflag,
                self.c_cc,
            ),
            r->Ok_0.c_ispeed == self.c_ispeed as u64,
            r->Ok_0.c_ospeed == self.c_ospeed as u64,
    {
        let c_iflag = match self.c_iflag.to_apple() {
            Ok(f) => f,
            Err(e) => return Err(e),
        };
        let c_oflag = match self.c_oflag.to_apple() {
            Ok(f) => f,
            Err(e) => return Err(e),
        };
        let c_cflag = match self.c_cflag.to_apple() {
            Ok(f) => f,
            Err(e) => return Err(e),
        };
        let c_lflag = match self.c_lflag.to_apple() {
            Ok(f) => f,
            Err(e) => return Err(e),
        };
        Ok(DarwinTermios {
            c_iflag,
            c_oflag,
            c_cflag,
            c_lflag,
            c_cc: self.c_cc.to_apple(),
            c_ispeed: self.c_ispeed as u64,
            c_ospeed: self.c_ospeed as u64,
        })
    }
}

impl FromApple for Termios {
    type Apple = DarwinTermios;

    fn from_apple(apple: DarwinTermios) -> (r: Result<Self, LxError>)
        ensures
            r is Ok,
            r->Ok_0.c_iflag == InputFlags(flags_from_apple(InputFlags::table(), apple.c_iflag) as u32),
            r->Ok_0.c_oflag == OutputFlags(
                flags_from_apple(OutputFlags::table(), apple.c_oflag) as u32,
            ),
            r->Ok_0.c_cflag == ControlFlags(
                flags_from_apple(ControlFlags::table(), apple.c_cflag) as u32,
            ),
            r->Ok_0.c_lflag == LocalFlags(flags_from_apple(LocalFlags::table(), apple.c_lflag) as u32),
            r->Ok_0.c_line == 0,
            r->Ok_0.c_cc.values() == ccs_from_apple(apple.c_cc@),
    {
        match Termios2::from_apple(apple) {
            Ok(t) => Ok(Termios::from(t)),
            Err(e) => Err(e),
        }
    }
}

impl ToApple for Termios {
    type Apple = DarwinTermios;

    fn to_apple(self) -> (r: Result<DarwinTermios, LxError>)
        ensures
            r is Ok,
            apple_matches_linux(
                r->Ok_0,
                self.c_iflag,
                self.c_oflag,
                self.c_cflag,
                self.c_lflag,
                self.c_cc,
            ),
            r->Ok_0.c_ispeed == 0,
            r->Ok_0.c_ospeed == 0,
    {
        let c_iflag = match self.c_iflag.to_apple() {
            Ok(f) => f,
            Err(e) => return Err(e),
        };
        let c_oflag = match self.c_oflag.to_apple() {
            Ok(f) => f,
            Err(e) => return Err(e),
        };
        let c_cflag = match self.c_cflag.to_apple() {
            Ok(f) => f,
            Err(e) => return Err(e),
        };
        let c_lflag = match self.c_lflag.to_apple() {
            Ok(f) => f,
            Err(e) => return Err(e),
        };
        Ok(DarwinTermios {
            c_iflag,
            c_oflag,
            c_cflag,
            c_lflag,
            c_cc: self.c_cc.to_apple(),
            c_ispeed: 0,
            c_ospeed: 0,
        })
    }
}

/// The Darwin `winsize` structure, as plain values.
#[derive(Debug, Clone, Copy, PartialEq, Eq, Structural)]
pub struct DarwinWinSize {
    pub ws_row: u16,
    pub ws_col: u16,
    pub ws_xpixel: u16,
    pub ws_ypixel: u16,
}

/// The size of a terminal window.
#[derive(Debug, Clone, Copy, PartialEq, Eq, Structural)]
pub struct WinSize {
    pub ws_row: u16,
    pub ws_col: u16,
    pub ws_xpixel: u16,
    pub ws_ypixel: u16,
}

impl WinSize {
    pub fn to_apple(self) -> (r: DarwinWinSize)
        ensures
            r.ws_row == self.ws_row,
            r.ws_col == self.ws_col,
            r.ws_xpixel == self.ws_xpixel,
            r.ws_ypixel == self.ws_ypixel,
    {
        DarwinWinSize {
            ws_row: self.ws_row,
            ws_col: self.ws_col,
            ws_xpixel: self.ws_xpixel,
            ws_ypixel: self.ws_ypixel,
        }
    }
}

impl From<DarwinWinSize> for WinSize {
    fn from(value: DarwinWinSize) -> (r: Self) {
        WinSize {
            ws_row: value.ws_row,
            ws_col: value.ws_col,
            ws_xpixel: value.ws_xpixel,
            ws_ypixel: value.ws_ypixel,
        }
    }
}

impl vstd::std_specs::convert::FromSpecImpl<DarwinWinSize> for WinSize {
    open spec fn obeys_from_spec() -> bool {
        true
    }

    open spec fn from_spec(v: DarwinWinSize) -> WinSize {
        WinSize { ws_row: v.ws_row, ws_col: v.ws_col, ws_xpixel: v.ws_xpixel, ws_ypixel: v.ws_ypixel }
    }
}

/// Each input flag has Darwin bits of its own.
proof fn lemma_input_table_disjoint()
    ensures
        apple_disjoint(InputFlags::table()),
{
    let t = InputFlags::table();
    assert(t[0].1 == 0x1u64);
    assert(t[1].1 == 0x2u64);
    assert(t[2].1 == 0x4u64);
    assert(t[3].1 == 0x8u64);
    assert(t[4].1 == 0x10u64);
    assert(t[5].1 == 0x20u64);
    assert(t[6].1 == 0x40u64);
    assert(t[7].1 == 0x80u64);
    assert(t[8].1 == 0x100u64);
    assert(t[9].1 == 0x200u64);
    assert(t[10].1 == 0x800u64);
    assert(t[11].1 == 0x400u64);
    assert(t[12].1 == 0x2000u64);
    assert(t[13].1 == 0x4000u64);
    assert(0x1u64 & 0x2u64 == 0 && 0x1u64 & 0x4u64 == 0 && 0x1u64 & 0x8u64 == 0 && 0x1u64 & 0x10u64 == 0 && 0x1u64 & 0x20u64 == 0 && 0x1u64 & 0x40u64 == 0 && 0x1u64 & 0x80u64 == 0 && 0x1u64 & 0x100u64 == 0 && 0x1u64 & 0x200u64 == 0 && 0x1u64 & 0x800u64 == 0 && 0x1u64 & 0x400u64 == 0 && 0x1u64 & 0x2000u64 == 0 && 0x1u64 & 0x4000u64 == 0 && 0x2u64 & 0x4u64 == 0 && 0x2u64 & 0x8u64 == 0 && 0x2u64 & 0x10u64 == 0 && 0x2u64 & 0x20u64 == 0 && 0x2u64 & 0x40u64 == 0 && 0x2u64 & 0x80u64 == 0 && 0x2u64 & 0x100u64 == 0 && 0x2u64 & 0x200u64 == 0 && 0x2u64 & 0x800u64 == 0 && 0x2u64 & 0x400u64 == 0 && 0x2u64 & 0x2000u64 == 0 && 0x2u64 & 0x4000u64 == 0 && 0x4u64 & 0x8u64 == 0 && 0x4u64 & 0x10u64 == 0 && 0x4u64 & 0x20u64 == 0 && 0x4u64 & 0x40u64 == 0 && 0x4u64 & 0x80u64 == 0 && 0x4u64 & 0x100u64 == 0 && 0x4u64 & 0x200u64 == 0 && 0x4u64 & 0x800u64 == 0 && 0x4u64 & 0x400u64 == 0 && 0x4u64 & 0x2000u64 == 0 && 0x4u64 & 0x4000u64 == 0 && 0x8u64 & 0x10u64 == 0 && 0x8u64 & 0x20u64 == 0 && 0x8u64 & 0x40u64 == 0 && 0x8u64 & 0x80u64 == 0 && 0x8u64 & 0x100u64 == 0 && 0x8u64 & 0x200u64 == 0 && 0x8u64 & 0x800u64 == 0 && 0x8u64 & 0x400u64 == 0 && 0x8u64 & 0x2000u64 == 0 && 0x8u64 & 0x4000u64 == 0 && 0x10u64 & 0x20u64 == 0 && 0x10u64 & 0x40u64 == 0 && 0x10u64 & 0x80u64 == 0 && 0x10u64 & 0x100u64 == 0 && 0x10u64 & 0x200u64 == 0 && 0x10u64 & 0x800u64 == 0 && 0x10u64 & 0x400u64 == 0 && 0x10u64 & 0x2000u64 == 0 && 0x10u64 & 0x4000u64 == 0 && 0x20u64 & 0x40u64 == 0 && 0x20u64 & 0x80u64 == 0 && 0x20u64 & 0x100u64 == 0 && 0x20u64 & 0x200u64 == 0 && 0x20u64 & 0x800u64 == 0 && 0x20u64 & 0x400u64 == 0 && 0x20u64 & 0x2000u64 == 0 && 0x20u64 & 0x4000u64 == 0 && 0x40u64 & 0x80u64 == 0 && 0x40u64 & 0x100u64 == 0 && 0x40u64 & 0x200u64 == 0 && 0x40u64 & 0x800u64 == 0 && 0x40u64 & 0x400u64 == 0 && 0x40u64 & 0x2000u64 == 0 && 0x40u64 & 0x4000u64 == 0 && 0x80u64 & 0x100u64 == 0 && 0x80u64 & 0x200u64 == 0 && 0x80u64 & 0x800u64 == 0 && 0x80u64 & 0x400u64 == 0 && 0x80u64 & 0x2000u64 == 0 && 0x80u64 & 0x4000u64 == 0 && 0x100u64 & 0x200u64 == 0 && 0x100u64 & 0x800u64 == 0 && 0x100u64 & 0x400u64 == 0 && 0x100u64 & 0x2000u64 == 0 && 0x100u64 & 0x4000u64 == 0 && 0x200u64 & 0x800u64 == 0 && 0x200u64 & 0x400u64 == 0 && 0x200u64 & 0x2000u64 == 0 && 0x200u64 & 0x4000u64 == 0 && 0x800u64 & 0x400u64 == 0 && 0x800u64 & 0x2000u64 == 0 && 0x800u64 & 0x4000u64 == 0 && 0x400u64 & 0x2000u64 == 0 && 0x400u64 & 0x4000u64 == 0 && 0x2000u64 & 0x4000u64 == 0) by (bit_vector);
    assert forall|i: int, j: int| 0 <= i < j < t.len() implies #[trigger] t[i].1 & #[trigger] t[j].1 == 0 by {
    }
}

/// The input flags that Darwin knows come back unchanged from a trip to Darwin and back.
pub proof fn lemma_input_flags_round_trip(flags: u32)
    ensures
        flags_from_apple(InputFlags::table(), flags_to_apple(InputFlags::table(), flags as u64))
            == flags_known(InputFlags::table(), flags as u64),
{
    lemma_input_table_disjoint();
    lemma_flags_round_trip(InputFlags::table(), flags as u64);
}

/// Each output flag has Darwin bits of its own.
proof fn lemma_output_table_disjoint()
    ensures
        apple_disjoint(OutputFlags::table()),
{
    let t = OutputFlags::table();
    assert(t[0].1 == 0x1u64);
    assert(t[1].1 == 0x2u64);
    assert(t[2].1 == 0x10u64);
    assert(t[3].1 == 0x20u64);
    assert(t[4].1 == 0x40u64);
    assert(t[5].1 == 0x80u64);
    assert(t[6].1 == 0x20000u64);
    assert(t[7].1 == 0x300u64);
    assert(t[8].1 == 0x3000u64);
    assert(t[9].1 == 0xc04u64);
    assert(t[10].1 == 0x8000u64);
    assert(t[11].1 == 0x10000u64);
    assert(t[12].1 == 0x4000u64);
    assert(0x1u64 & 0x2u64 == 0 && 0x1u64 & 0x10u64 == 0 && 0x1u64 & 0x20u64 == 0 && 0x1u64 & 0x40u64 == 0 && 0x1u64 & 0x80u64 == 0 && 0x1u64 & 0x20000u64 == 0 && 0x1u64 & 0x300u64 == 0 && 0x1u64 & 0x3000u64 == 0 && 0x1u64 & 0xc04u64 == 0 && 0x1u64 & 0x8000u64 == 0 && 0x1u64 & 0x10000u64 == 0 && 0x1u64 & 0x4000u64 == 0 && 0x2u64 & 0x10u64 == 0 && 0x2u64 & 0x20u64 == 0 && 0x2u64 & 0x40u64 == 0 && 0x2u64 & 0x80u64 == 0 && 0x2u64 & 0x20000u64 == 0 && 0x2u64 & 0x300u64 == 0 && 0x2u64 & 0x3000u64 == 0 && 0x2u64 & 0xc04u64 == 0 && 0x2u64 & 0x8000u64 == 0 && 0x2u64 & 0x10000u64 == 0 && 0x2u64 & 0x4000u64 == 0 && 0x10u64 & 0x20u64 == 0 && 0x10u64 & 0x40u64 == 0 && 0x10u64 & 0x80u64 == 0 && 0x10u64 & 0x20000u64 == 0 && 0x10u64 & 0x300u64 == 0 && 0x10u64 & 0x3000u64 == 0 && 0x10u64 & 0xc04u64 == 0 && 0x10u64 & 0x8000u64 == 0 && 0x10u64 & 0x10000u64 == 0 && 0x10u64 & 0x4000u64 == 0 && 0x20u64 & 0x40u64 == 0 && 0x20u64 & 0x80u64 == 0 && 0x20u64 & 0x20000u64 == 0 && 0x20u64 & 0x300u64 == 0 && 0x20u64 & 0x3000u64 == 0 && 0x20u64 & 0xc04u64 == 0 && 0x20u64 & 0x8000u64 == 0 && 0x20u64 & 0x10000u64 == 0 && 0x20u64 & 0x4000u64 == 0 && 0x40u64 & 0x80u64 == 0 && 0x40u64 & 0x20000u64 == 0 && 0x40u64 & 0x300u64 == 0 && 0x40u64 & 0x3000u64 == 0 && 0x40u64 & 0xc04u64 == 0 && 0x40u64 & 0x8000u64 == 0 && 0x40u64 & 0x10000u64 == 0 && 0x40u64 & 0x4000u64 == 0 && 0x80u64 & 0x20000u64 == 0 && 0x80u64 & 0x300u64 == 0 && 0x80u64 & 0x3000u64 == 0 && 0x80u64 & 0xc04u64 == 0 && 0x80u64 & 0x8000u64 == 0 && 0x80u64 & 0x10000u64 == 0 && 0x80u64 & 0x4000u64 == 0 && 0x20000u64 & 0x300u64 == 0 && 0x20000u64 & 0x3000u64 == 0 && 0x20000u64 & 0xc04u64 == 0 && 0x20000u64 & 0x8000u64 == 0 && 0x20000u64 & 0x10000u64 == 0 && 0x20000u64 & 0x4000u64 == 0 && 0x300u64 & 0x3000u64 == 0 && 0x300u64 & 0xc04u64 == 0 && 0x300u64 & 0x8000u64 == 0 && 0x300u64 & 0x10000u64 == 0 && 0x300u64 & 0x4000u64 == 0 && 0x3000u64 & 0xc04u64 == 0 && 0x3000u64 & 0x8000u64 == 0 && 0x3000u64 & 0x10000u64 == 0 && 0x3000u64 & 0x4000u64 == 0 && 0xc04u64 & 0x8000u64 == 0 && 0xc04u64 & 0x10000u64 == 0 && 0xc04u64 & 0x4000u64 == 0 && 0x8000u64 & 0x10000u64 == 0 && 0x8000u64 & 0x4000u64 == 0 && 0x10000u64 & 0x4000u64 == 0) by (bit_vector);
    assert forall|i: int, j: int| 0 <= i < j < t.len() implies #[trigger] t[i].1 & #[trigger] t[j].1 == 0 by {
    }
}

/// The output flags that Darwin knows come back unchanged from a trip to Darwin and back.
pub proof fn lemma_output_flags_round_trip(flags: u32)
    ensures
        flags_from_apple(OutputFlags::table(), flags_to_apple(OutputFlags::table(), flags as u64))
            == flags_known(OutputFlags::table(), flags as u64),
{
    lemma_output_table_disjoint();
    lemma_flags_round_trip(OutputFlags::table(), flags as u64);
}

/// Each local flag has Darwin bits of its own.
proof fn lemma_local_table_disjoint()
    ensures
        apple_disjoint(LocalFlags::table()),
{
    let t = LocalFlags::table();
    assert(t[0].1 == 0x80u64);
    assert(t[1].1 == 0x100u64);
    assert(t[2].1 == 0x8u64);
    assert(t[3].1 == 0x2u64);
    assert(t[4].1 == 0x4u64);
    assert(t[5].1 == 0x10u64);
    assert(t[6].1 == 0x80000000u64);
    assert(t[7].1 == 0x400000u64);
    assert(t[8].1 == 0x40u64);
    assert(t[9].1 == 0x20u64);
    assert(t[10].1 == 0x1u64);
    assert(t[11].1 == 0x400u64);
    assert(0x80u64 & 0x100u64 == 0 && 0x80u64 & 0x8u64 == 0 && 0x80u64 & 0x2u64 == 0 && 0x80u64 & 0x4u64 == 0 && 0x80u64 & 0x10u64 == 0 && 0x80u64 & 0x80000000u64 == 0 && 0x80u64 & 0x400000u64 == 0 && 0x80u64 & 0x40u64 == 0 && 0x80u64 & 0x20u64 == 0 && 0x80u64 & 0x1u64 == 0 && 0x80u64 & 0x400u64 == 0 && 0x100u64 & 0x8u64 == 0 && 0x100u64 & 0x2u64 == 0 && 0x100u64 & 0x4u64 == 0 && 0x100u64 & 0x10u64 == 0 && 0x100u64 & 0x80000000u64 == 0 && 0x100u64 & 0x400000u64 == 0 && 0x100u64 & 0x40u64 == 0 && 0x100u64 & 0x20u64 == 0 && 0x100u64 & 0x1u64 == 0 && 0x100u64 & 0x400u64 == 0 && 0x8u64 & 0x2u64 == 0 && 0x8u64 & 0x4u64 == 0 && 0x8u64 & 0x10u64 == 0 && 0x8u64 & 0x80000000u64 == 0 && 0x8u64 & 0x400000u64 == 0 && 0x8u64 & 0x40u64 == 0 && 0x8u64 & 0x20u64 == 0 && 0x8u64 & 0x1u64 == 0 && 0x8u64 & 0x400u64 == 0 && 0x2u64 & 0x4u64 == 0 && 0x2u64 & 0x10u64 == 0 && 0x2u64 & 0x80000000u64 == 0 && 0x2u64 & 0x400000u64 == 0 && 0x2u64 & 0x40u64 == 0 && 0x2u64 & 0x20u64 == 0 && 0x2u64 & 0x1u64 == 0 && 0x2u64 & 0x400u64 == 0 && 0x4u64 & 0x10u64 == 0 && 0x4u64 & 0x80000000u64 == 0 && 0x4u64 & 0x400000u64 == 0 && 0x4u64 & 0x40u64 == 0 && 0x4u64 & 0x20u64 == 0 && 0x4u64 & 0x1u64 == 0 && 0x4u64 & 0x400u64 == 0 && 0x10u64 & 0x80000000u64 == 0 && 0x10u64 & 0x400000u64 == 0 && 0x10u64 & 0x40u64 == 0 && 0x10u64 & 0x20u64 == 0 && 0x10u64 & 0x1u64 == 0 && 0x10u64 & 0x400u64 == 0 && 0x80000000u64 & 0x400000u64 == 0 && 0x80000000u64 & 0x40u64 == 0 && 0x80000000u64 & 0x20u64 == 0 && 0x80000000u64 & 0x1u64 == 0 && 0x80000000u64 & 0x400u64 == 0 && 0x400000u64 & 0x40u64 == 0 && 0x400000u64 & 0x20u64 == 0 && 0x400000u64 & 0x1u64 == 0 && 0x400000u64 & 0x400u64 == 0 && 0x40u64 & 0x20u64 == 0 && 0x40u64 & 0x1u64 == 0 && 0x40u64 & 0x400u64 == 0 && 0x20u64 & 0x1u64 == 0 && 0x20u64 & 0x400u64 == 0 && 0x1u64 & 0x400u64 == 0) by (bit_vector);
    assert forall|i: int, j: int| 0 <= i < j < t.len() implies #[trigger] t[i].1 & #[trigger] t[j].1 == 0 by {
    }
}

/// The local flags that Darwin knows come back unchanged from a trip to Darwin and back.
pub proof fn lemma_local_flags_round_trip(flags: u32)
    ensures
        flags_from_apple(LocalFlags::table(), flags_to_apple(LocalFlags::table(), flags as u64))
            == flags_known(LocalFlags::table(), flags as u64),
{
    lemma_local_table_disjoint();
    lemma_flags_round_trip(LocalFlags::table(), flags as u64);
}

/// Darwin `TCOOFF`.
pub const APPLE_TCOOFF: i32 = 1;
/// Darwin `TCOON`.
pub const APPLE_TCOON: i32 = 2;
/// Darwin `TCIOFF`.
pub const APPLE_TCIOFF: i32 = 3;
/// Darwin `TCION`.
pub const APPLE_TCION: i32 = 4;

/// Each flow action stands for the Darwin action of the same name.
pub proof fn lemma_tcflow_action_by_name()
    ensures
        TcFlowAction::apple_of(TcFlowAction::TCOOFF) == Some(APPLE_TCOOFF),
        TcFlowAction::linux_of(APPLE_TCOOFF) == Some(TcFlowAction::TCOOFF),
        TcFlowAction::apple_of(TcFlowAction::TCOON) == Some(APPLE_TCOON),
        TcFlowAction::linux_of(APPLE_TCOON) == Some(TcFlowAction::TCOON),
        TcFlowAction::apple_of(TcFlowAction::TCIOFF) == Some(APPLE_TCIOFF),
        TcFlowAction::linux_of(APPLE_TCIOFF) == Some(TcFlowAction::TCIOFF),
        TcFlowAction::apple_of(TcFlowAction::TCION) == Some(APPLE_TCION),
        TcFlowAction::linux_of(APPLE_TCION) == Some(TcFlowAction::TCION),
{
}

/// Darwin `IGNBRK`.
pub const APPLE_IGNBRK: u64 = 0x1;
/// Darwin `BRKINT`.
pub const APPLE_BRKINT: u64 = 0x2;
/// Darwin `IGNPAR`.
pub const APPLE_IGNPAR: u64 = 0x4;
/// Darwin `PARMRK`.
pub const APPLE_PARMRK: u64 = 0x8;
/// Darwin `INPCK`.
pub const APPLE_INPCK: u64 = 0x10;
/// Darwin `ISTRIP`.
pub const APPLE_ISTRIP: u64 = 0x20;
/// Darwin `INLCR`.
pub const APPLE_INLCR: u64 = 0x40;
/// Darwin `IGNCR`.
pub const APPLE_IGNCR: u64 = 0x80;
/// Darwin `ICRNL`.
pub const APPLE_ICRNL: u64 = 0x100;
/// Darwin `IXON`.
pub const APPLE_IXON: u64 = 0x200;
/// Darwin `IXANY`.
pub const APPLE_IXANY: u64 = 0x800;
/// Darwin `IXOFF`.
pub const APPLE_IXOFF: u64 = 0x400;
/// Darwin `IMAXBEL`.
pub const APPLE_IMAXBEL: u64 = 0x2000;
/// Darwin `IUTF8`.
pub const APPLE_IUTF8: u64 = 0x4000;

/// Each input mode flag becomes the Darwin flag of the same name, and each Darwin flag is read back
/// as the Linux flag of its name.
pub proof fn lemma_input_flags_by_name()
    ensures
        flags_to_apple(InputFlags::table(), InputFlags::IGNBRK as u64) == APPLE_IGNBRK,
        flags_to_apple(InputFlags::table(), InputFlags::BRKINT as u64) == APPLE_BRKINT,
        flags_to_apple(InputFlags::table(), InputFlags::IGNPAR as u64) == APPLE_IGNPAR,
        flags_to_apple(InputFlags::table(), InputFlags::PARMRK as u64) == APPLE_PARMRK,
        flags_to_apple(InputFlags::table(), InputFlags::INPCK as u64) == APPLE_INPCK,
        flags_to_apple(InputFlags::table(), InputFlags::ISTRIP as u64) == APPLE_ISTRIP,
        flags_to_apple(InputFlags::table(), InputFlags::INLCR as u64) == APPLE_INLCR,
        flags_to_apple(InputFlags::table(), InputFlags::IGNCR as u64) == APPLE_IGNCR,
        flags_to_apple(InputFlags::table(), InputFlags::ICRNL as u64) == APPLE_ICRNL,
        flags_to_apple(InputFlags::table(), InputFlags::IXON as u64) == APPLE_IXON,
        flags_to_apple(InputFlags::table(), InputFlags::IXANY as u64) == APPLE_IXANY,
        flags_to_apple(InputFlags::table(), InputFlags::IXOFF as u64) == APPLE_IXOFF,
        flags_to_apple(InputFlags::table(), InputFlags::IMAXBEL as u64) == APPLE_IMAXBEL,
        flags_to_apple(InputFlags::table(), InputFlags::IUTF8 as u64) == APPLE_IUTF8,
        flags_from_apple(InputFlags::table(), APPLE_IGNBRK) == InputFlags::IGNBRK as u64,
        flags_from_apple(InputFlags::table(), APPLE_BRKINT) == InputFlags::BRKINT as u64,
        flags_from_apple(InputFlags::table(), APPLE_IGNPAR) == InputFlags::IGNPAR as u64,
        flags_from_apple(InputFlags::table(), APPLE_PARMRK) == InputFlags::PARMRK as u64,
        flags_from_apple(InputFlags::table(), APPLE_INPCK) == InputFlags::INPCK as u64,
        flags_from_apple(InputFlags::table(), APPLE_ISTRIP) == InputFlags::ISTRIP as u64,
        flags_from_apple(InputFlags::table(), APPLE_INLCR) == InputFlags::INLCR as u64,
        flags_from_apple(InputFlags::table(), APPLE_IGNCR) == InputFlags::IGNCR as u64,
        flags_from_apple(InputFlags::table(), APPLE_ICRNL) == InputFlags::ICRNL as u64,
        flags_from_apple(InputFlags::table(), APPLE_IXON) == InputFlags::IXON as u64,
        flags_from_apple(InputFlags::table(), APPLE_IXANY) == InputFlags::IXANY as u64,
        flags_from_apple(InputFlags::table(), APPLE_IXOFF) == InputFlags::IXOFF as u64,
        flags_from_apple(InputFlags::table(), APPLE_IMAXBEL) == InputFlags::IMAXBEL as u64,
        flags_from_apple(InputFlags::table(), APPLE_IUTF8) == InputFlags::IUTF8 as u64,
{
    let t = InputFlags::table();
    assert(t[0] == (0x1u64, 0x1u64));
    assert(t[1] == (0x2u64, 0x2u64));
    assert(t[2] == (0x4u64, 0x4u64));
    assert(t[3] == (0x8u64, 0x8u64));
    assert(t[4] == (0x10u64, 0x10u64));
    assert(t[5] == (0x20u64, 0x20u64));
    assert(t[6] == (0x40u64, 0x40u64));
    assert(t[7] == (0x80u64, 0x80u64));
    assert(t[8] == (0x100u64, 0x100u64));
    assert(t[9] == (0x400u64, 0x200u64));
    assert(t[10] == (0x800u64, 0x800u64));
    assert(t[11] == (0x1000u64, 0x400u64));
    assert(t[12] == (0x2000u64, 0x2000u64));
    assert(t[13] == (0x4000u64, 0x4000u64));
    assert(0x1u64 & 0x1u64 == 0x1u64 && 0x1u64 & 0x2u64 != 0x2u64 && 0x1u64 & 0x4u64 != 0x4u64 && 0x1u64 & 0x8u64 != 0x8u64 && 0x1u64 & 0x10u64 != 0x10u64 && 0x1u64 & 0x20u64 != 0x20u64 && 0x1u64 & 0x40u64 != 0x40u64 && 0x1u64 & 0x80u64 != 0x80u64 && 0x1u64 & 0x100u64 != 0x100u64 && 0x1u64 & 0x400u64 != 0x400u64 && 0x1u64 & 0x800u64 != 0x800u64 && 0x1u64 & 0x1000u64 != 0x1000u64 && 0x1u64 & 0x2000u64 != 0x2000u64 && 0x1u64 & 0x4000u64 != 0x4000u64 && 0x2u64 & 0x2u64 == 0x2u64 && 0x2u64 & 0x1u64 != 0x1u64 && 0x2u64 & 0x4u64 != 0x4u64 && 0x2u64 & 0x8u64 != 0x8u64 && 0x2u64 & 0x10u64 != 0x10u64 && 0x2u64 & 0x20u64 != 0x20u64 && 0x2u64 & 0x40u64 != 0x40u64 && 0x2u64 & 0x80u64 != 0x80u64 && 0x2u64 & 0x100u64 != 0x100u64 && 0x2u64 & 0x400u64 != 0x400u64 && 0x2u64 & 0x800u64 != 0x800u64 && 0x2u64 & 0x1000u64 != 0x1000u64 && 0x2u64 & 0x2000u64 != 0x2000u64 && 0x2u64 & 0x4000u64 != 0x4000u64 && 0x4u64 & 0x4u64 == 0x4u64 && 0x4u64 & 0x1u64 != 0x1u64 && 0x4u64 & 0x2u64 != 0x2u64 && 0x4u64 & 0x8u64 != 0x8u64 && 0x4u64 & 0x10u64 != 0x10u64 && 0x4u64 & 0x20u64 != 0x20u64 && 0x4u64 & 0x40u64 != 0x40u64 && 0x4u64 & 0x80u64 != 0x80u64 && 0x4u64 & 0x100u64 != 0x100u64 && 0x4u64 & 0x400u64 != 0x400u64 && 0x4u64 & 0x800u64 != 0x800u64 && 0x4u64 & 0x1000u64 != 0x1000u64 && 0x4u64 & 0x2000u64 != 0x2000u64 && 0x4u64 & 0x4000u64 != 0x4000u64 && 0x8u64 & 0x8u64 == 0x8u64 && 0x8u64 & 0x1u64 != 0x1u64 && 0x8u64 & 0x2u64 != 0x2u64 && 0x8u64 & 0x4u64 != 0x4u64 && 0x8u64 & 0x10u64 != 0x10u64 && 0x8u64 & 0x20u64 != 0x20u64 && 0x8u64 & 0x40u64 != 0x40u64 && 0x8u64 & 0x80u64 != 0x80u64 && 0x8u64 & 0x100u64 != 0x100u64 && 0x8u64 & 0x400u64 != 0x400u64 && 0x8u64 & 0x800u64 != 0x800u64 && 0x8u64 & 0x1000u64 != 0x1000u64 && 0x8u64 & 0x2000u64 != 0x2000u64 && 0x8u64 & 0x4000u64 != 0x4000u64 && 0x10u64 & 0x10u64 == 0x10u64 && 0x10u64 & 0x1u64 != 0x1u64 && 0x10u64 & 0x2u64 != 0x2u64 && 0x10u64 & 0x4u64 != 0x4u64 && 0x10u64 & 0x8u64 != 0x8u64 && 0x10u64 & 0x20u64 != 0x20u64 && 0x10u64 & 0x40u64 != 0x40u64 && 0x10u64 & 0x80u64 != 0x80u64 && 0x10u64 & 0x100u64 != 0x100u64 && 0x10u64 & 0x400u64 != 0x400u64 && 0x10u64 & 0x800u64 != 0x800u64 && 0x10u64 & 0x1000u64 != 0x1000u64 && 0x10u64 & 0x2000u64 != 0x2000u64 && 0x10u64 & 0x4000u64 != 0x4000u64 && 0x20u64 & 0x20u64 == 0x20u64 && 0x20u64 & 0x1u64 != 0x1u64 && 0x20u64 & 0x2u64 != 0x2u64 && 0x20u64 & 0x4u64 != 0x4u64 && 0x20u64 & 0x8u64 != 0x8u64 && 0x20u64 & 0x10u64 != 0x10u64 && 0x20u64 & 0x40u64 != 0x40u64 && 0x20u64 & 0x80u64 != 0x80u64 && 0x20u64 & 0x100u64 != 0x100u64 && 0x20u64 & 0x400u64 != 0x400u64 && 0x20u64 & 0x800u64 != 0x800u64 && 0x20u64 & 0x1000u64 != 0x1000u64 && 0x20u64 & 0x2000u64 != 0x2000u64 && 0x20u64 & 0x4000u64 != 0x4000u64 && 0x40u64 & 0x40u64 == 0x40u64 && 0x40u64 & 0x1u64 != 0x1u64 && 0x40u64 & 0x2u64 != 0x2u64 && 0x40u64 & 0x4u64 != 0x4u64 && 0x40u64 & 0x8u64 != 0x8u64 && 0x40u64 & 0x10u64 != 0x10u64 && 0x40u64 & 0x20u64 != 0x20u64 && 0x40u64 & 0x80u64 != 0x80u64 && 0x40u64 & 0x100u64 != 0x100u64 && 0x40u64 & 0x400u64 != 0x400u64 && 0x40u64 & 0x800u64 != 0x800u64 && 0x40u64 & 0x1000u64 != 0x1000u64 && 0x40u64 & 0x2000u64 != 0x2000u64 && 0x40u64 & 0x4000u64 != 0x4000u64 && 0x80u64 & 0x80u64 == 0x80u64 && 0x80u64 & 0x1u64 != 0x1u64 && 0x80u64 & 0x2u64 != 0x2u64 && 0x80u64 & 0x4u64 != 0x4u64 && 0x80u64 & 0x8u64 != 0x8u64 && 0x80u64 & 0x10u64 != 0x10u64 && 0x80u64 & 0x20u64 != 0x20u64 && 0x80u64 & 0x40u64 != 0x40u64 && 0x80u64 & 0x100u64 != 0x100u64 && 0x80u64 & 0x400u64 != 0x400u64 && 0x80u64 & 0x800u64 != 0x800u64 && 0x80u64 & 0x1000u64 != 0x1000u64 && 0x80u64 & 0x2000u64 != 0x2000u64 && 0x80u64 & 0x4000u64 != 0x4000u64 && 0x100u64 & 0x100u64 == 0x100u64 && 0x100u64 & 0x1u64 != 0x1u64 && 0x100u64 & 0x2u64 != 0x2u64 && 0x100u64 & 0x4u64 != 0x4u64 && 0x100u64 & 0x8u64 != 0x8u64 && 0x100u64 & 0x10u64 != 0x10u64 && 0x100u64 & 0x20u64 != 0x20u64 && 0x100u64 & 0x40u64 != 0x40u64 && 0x100u64 & 0x80u64 != 0x80u64 && 0x100u64 & 0x400u64 != 0x400u64 && 0x100u64 & 0x800u64 != 0x800u64 && 0x100u64 & 0x1000u64 != 0x1000u64 && 0x100u64 & 0x2000u64 != 0x2000u64 && 0x100u64 & 0x4000u64 != 0x4000u64 && 0x400u64 & 0x400u64 == 0x400u64 && 0x400u64 & 0x1u64 != 0x1u64 && 0x400u64 & 0x2u64 != 0x2u64 && 0x400u64 & 0x4u64 != 0x4u64 && 0x400u64 & 0x8u64 != 0x8u64 && 0x400u64 & 0x10u64 != 0x10u64 && 0x400u64 & 0x20u64 != 0x20u64 && 0x400u64 & 0x40u64 != 0x40u64 && 0x400u64 & 0x80u64 != 0x80u64 && 0x400u64 & 0x100u64 != 0x100u64 && 0x400u64 & 0x800u64 != 0x800u64 && 0x400u64 & 0x1000u64 != 0x1000u64 && 0x400u64 & 0x2000u64 != 0x2000u64 && 0x400u64 & 0x4000u64 != 0x4000u64 && 0x800u64 & 0x800u64 == 0x800u64 && 0x800u64 & 0x1u64 != 0x1u64 && 0x800u64 & 0x2u64 != 0x2u64 && 0x800u64 & 0x4u64 != 0x4u64 && 0x800u64 & 0x8u64 != 0x8u64 && 0x800u64 & 0x10u64 != 0x10u64 && 0x800u64 & 0x20u64 != 0x20u64 && 0x800u64 & 0x40u64 != 0x40u64 && 0x800u64 & 0x80u64 != 0x80u64 && 0x800u64 & 0x100u64 != 0x100u64 && 0x800u64 & 0x400u64 != 0x400u64 && 0x800u64 & 0x1000u64 != 0x1000u64 && 0x800u64 & 0x2000u64 != 0x2000u64 && 0x800u64 & 0x4000u64 != 0x4000u64 && 0x1000u64 & 0x1000u64 == 0x1000u64 && 0x1000u64 & 0x1u64 != 0x1u64 && 0x1000u64 & 0x2u64 != 0x2u64 && 0x1000u64 & 0x4u64 != 0x4u64 && 0x1000u64 & 0x8u64 != 0x8u64 && 0x1000u64 & 0x10u64 != 0x10u64 && 0x1000u64 & 0x20u64 != 0x20u64 && 0x1000u64 & 0x40u64 != 0x40u64 && 0x1000u64 & 0x80u64 != 0x80u64 && 0x1000u64 & 0x100u64 != 0x100u64 && 0x1000u64 & 0x400u64 != 0x400u64 && 0x1000u64 & 0x800u64 != 0x800u64 && 0x1000u64 & 0x2000u64 != 0x2000u64 && 0x1000u64 & 0x4000u64 != 0x4000u64 && 0x2000u64 & 0x2000u64 == 0x2000u64 && 0x2000u64 & 0x1u64 != 0x1u64 && 0x2000u64 & 0x2u64 != 0x2u64 && 0x2000u64 & 0x4u64 != 0x4u64 && 0x2000u64 & 0x8u64 != 0x8u64 && 0x2000u64 & 0x10u64 != 0x10u64 && 0x2000u64 & 0x20u64 != 0x20u64 && 0x2000u64 & 0x40u64 != 0x40u64 && 0x2000u64 & 0x80u64 != 0x80u64 && 0x2000u64 & 0x100u64 != 0x100u64 && 0x2000u64 & 0x400u64 != 0x400u64 && 0x2000u64 & 0x800u64 != 0x800u64 && 0x2000u64 & 0x1000u64 != 0x1000u64 && 0x2000u64 & 0x4000u64 != 0x4000u64 && 0x4000u64 & 0x4000u64 == 0x4000u64 && 0x4000u64 & 0x1u64 != 0x1u64 && 0x4000u64 & 0x2u64 != 0x2u64 && 0x4000u64 & 0x4u64 != 0x4u64 && 0x4000u64 & 0x8u64 != 0x8u64 && 0x4000u64 & 0x10u64 != 0x10u64 && 0x4000u64 & 0x20u64 != 0x20u64 && 0x4000u64 & 0x40u64 != 0x40u64 && 0x4000u64 & 0x80u64 != 0x80u64 && 0x4000u64 & 0x100u64 != 0x100u64 && 0x4000u64 & 0x400u64 != 0x400u64 && 0x4000u64 & 0x800u64 != 0x800u64 && 0x4000u64 & 0x1000u64 != 0x1000u64 && 0x4000u64 & 0x2000u64 != 0x2000u64 && 0x1u64 != 0 && 0x2u64 != 0 && 0x4u64 != 0 && 0x8u64 != 0 && 0x10u64 != 0 && 0x20u64 != 0 && 0x40u64 != 0 && 0x80u64 != 0 && 0x100u64 != 0 && 0x200u64 != 0 && 0x800u64 != 0 && 0x400u64 != 0 && 0x2000u64 != 0 && 0x4000u64 != 0) by (bit_vector);
    lemma_input_table_disjoint();
    lemma_to_apple_entry(t, InputFlags::IGNBRK as u64, 0);
    lemma_from_apple_entry(t, 0);
    lemma_to_apple_entry(t, InputFlags::BRKINT as u64, 1);
    lemma_from_apple_entry(t, 1);
    lemma_to_apple_entry(t, InputFlags::IGNPAR as u64, 2);
    lemma_from_apple_entry(t, 2);
    lemma_to_apple_entry(t, InputFlags::PARMRK as u64, 3);
    lemma_from_apple_entry(t, 3);
    lemma_to_apple_entry(t, InputFlags::INPCK as u64, 4);
    lemma_from_apple_entry(t, 4);
    lemma_to_apple_entry(t, InputFlags::ISTRIP as u64, 5);
    lemma_from_apple_entry(t, 5);
    lemma_to_apple_entry(t, InputFlags::INLCR as u64, 6);
    lemma_from_apple_entry(t, 6);
    lemma_to_apple_entry(t, InputFlags::IGNCR as u64, 7);
    lemma_from_apple_entry(t, 7);
    lemma_to_apple_entry(t, InputFlags::ICRNL as u64, 8);
    lemma_from_apple_entry(t, 8);
    lemma_to_apple_entry(t, InputFlags::IXON as u64, 9);
    lemma_from_apple_entry(t, 9);
    lemma_to_apple_entry(t, InputFlags::IXANY as u64, 10);
    lemma_from_apple_entry(t, 10);
    lemma_to_apple_entry(t, InputFlags::IXOFF as u64, 11);
    lemma_from_apple_entry(t, 11);
    lemma_to_apple_entry(t, InputFlags::IMAXBEL as u64, 12);
    lemma_from_apple_entry(t, 12);
    lemma_to_apple_entry(t, InputFlags::IUTF8 as u64, 13);
    lemma_from_apple_entry(t, 13);
}

/// Darwin `OPOST`.
pub const APPLE_OPOST: u64 = 0x1;
/// Darwin `ONLCR`.
pub const APPLE_ONLCR: u64 = 0x2;
/// Darwin `OCRNL`.
pub const APPLE_OCRNL: u64 = 0x10;
/// Darwin `ONOCR`.
pub const APPLE_ONOCR: u64 = 0x20;
/// Darwin `ONLRET`.
pub const APPLE_ONLRET: u64 = 0x40;
/// Darwin `OFILL`.
pub const APPLE_OFILL: u64 = 0x80;
/// Darwin `OFDEL`.
pub const APPLE_OFDEL: u64 = 0x20000;
/// Darwin `NLDLY`.
pub const APPLE_NLDLY: u64 = 0x300;
/// Darwin `CRDLY`.
pub const APPLE_CRDLY: u64 = 0x3000;
/// Darwin `TABDLY`.
pub const APPLE_TABDLY: u64 = 0xc04;
/// Darwin `BSDLY`.
pub const APPLE_BSDLY: u64 = 0x8000;
/// Darwin `VTDLY`.
pub const APPLE_VTDLY: u64 = 0x10000;
/// Darwin `FFDLY`.
pub const APPLE_FFDLY: u64 = 0x4000;

/// Each output mode flag becomes the Darwin flag of the same name, and each Darwin flag is read
/// back as the Linux flag of its name.
pub proof fn lemma_output_flags_by_name()
    ensures
        flags_to_apple(OutputFlags::table(), OutputFlags::OPOST as u64) == APPLE_OPOST,
        flags_to_apple(OutputFlags::table(), OutputFlags::ONLCR as u64) == APPLE_ONLCR,
        flags_to_apple(OutputFlags::table(), OutputFlags::OCRNL as u64) == APPLE_OCRNL,
        flags_to_apple(OutputFlags::table(), OutputFlags::ONOCR as u64) == APPLE_ONOCR,
        flags_to_apple(OutputFlags::table(), OutputFlags::ONLRET as u64) == APPLE_ONLRET,
        flags_to_apple(OutputFlags::table(), OutputFlags::OFILL as u64) == APPLE_OFILL,
        flags_to_apple(OutputFlags::table(), OutputFlags::OFDEL as u64) == APPLE_OFDEL,
        flags_to_apple(OutputFlags::table(), OutputFlags::NLDLY as u64) == APPLE_NLDLY,
        flags_to_apple(OutputFlags::table(), OutputFlags::CRDLY as u64) == APPLE_CRDLY,
        flags_to_apple(OutputFlags::table(), OutputFlags::TABDLY as u64) == APPLE_TABDLY,
        flags_to_apple(OutputFlags::table(), OutputFlags::BSDLY as u64) == APPLE_BSDLY,
        flags_to_apple(OutputFlags::table(), OutputFlags::VTDLY as u64) == APPLE_VTDLY,
        flags_to_apple(OutputFlags::table(), OutputFlags::FFDLY as u64) == APPLE_FFDLY,
        flags_from_apple(OutputFlags::table(), APPLE_OPOST) == OutputFlags::OPOST as u64,
        flags_from_apple(OutputFlags::table(), APPLE_ONLCR) == OutputFlags::ONLCR as u64,
        flags_from_apple(OutputFlags::table(), APPLE_OCRNL) == OutputFlags::OCRNL as u64,
        flags_from_apple(OutputFlags::table(), APPLE_ONOCR) == OutputFlags::ONOCR as u64,
        flags_from_apple(OutputFlags::table(), APPLE_ONLRET) == OutputFlags::ONLRET as u64,
        flags_from_apple(OutputFlags::table(), APPLE_OFILL) == OutputFlags::OFILL as u64,
        flags_from_apple(OutputFlags::table(), APPLE_OFDEL) == OutputFlags::OFDEL as u64,
        flags_from_apple(OutputFlags::table(), APPLE_NLDLY) == OutputFlags::NLDLY as u64,
        flags_from_apple(OutputFlags::table(), APPLE_CRDLY) == OutputFlags::CRDLY as u64,
        flags_from_apple(OutputFlags::table(), APPLE_TABDLY) == OutputFlags::TABDLY as u64,
        flags_from_apple(OutputFlags::table(), APPLE_BSDLY) == OutputFlags::BSDLY as u64,
        flags_from_apple(OutputFlags::table(), APPLE_VTDLY) == OutputFlags::VTDLY as u64,
        flags_from_apple(OutputFlags::table(), APPLE_FFDLY) == OutputFlags::FFDLY as u64,
{
    let t = OutputFlags::table();
    assert(t[0] == (0x1u64, 0x1u64));
    assert(t[1] == (0x4u64, 0x2u64));
    assert(t[2] == (0x8u64, 0x10u64));
    assert(t[3] == (0x10u64, 0x20u64));
    assert(t[4] == (0x20u64, 0x40u64));
    assert(t[5] == (0x40u64, 0x80u64));
    assert(t[6] == (0x80u64, 0x20000u64));
    assert(t[7] == (0x100u64, 0x300u64));
    assert(t[8] == (0x200u64, 0x3000u64));
    assert(t[9] == (0x400u64, 0xc04u64));
    assert(t[10] == (0x800u64, 0x8000u64));
    assert(t[11] == (0x1000u64, 0x10000u64));
    assert(t[12] == (0x2000u64, 0x4000u64));
    assert(0x1u64 & 0x1u64 == 0x1u64 && 0x1u64 & 0x4u64 != 0x4u64 && 0x1u64 & 0x8u64 != 0x8u64 && 0x1u64 & 0x10u64 != 0x10u64 && 0x1u64 & 0x20u64 != 0x20u64 && 0x1u64 & 0x40u64 != 0x40u64 && 0x1u64 & 0x80u64 != 0x80u64 && 0x1u64 & 0x100u64 != 0x100u64 && 0x1u64 & 0x200u64 != 0x200u64 && 0x1u64 & 0x400u64 != 0x400u64 && 0x1u64 & 0x800u64 != 0x800u64 && 0x1u64 & 0x1000u64 != 0x1000u64 && 0x1u64 & 0x2000u64 != 0x2000u64 && 0x4u64 & 0x4u64 == 0x4u64 && 0x4u64 & 0x1u64 != 0x1u64 && 0x4u64 & 0x8u64 != 0x8u64 && 0x4u64 & 0x10u64 != 0x10u64 && 0x4u64 & 0x20u64 != 0x20u64 && 0x4u64 & 0x40u64 != 0x40u64 && 0x4u64 & 0x80u64 != 0x80u64 && 0x4u64 & 0x100u64 != 0x100u64 && 0x4u64 & 0x200u64 != 0x200u64 && 0x4u64 & 0x400u64 != 0x400u64 && 0x4u64 & 0x800u64 != 0x800u64 && 0x4u64 & 0x1000u64 != 0x1000u64 && 0x4u64 & 0x2000u64 != 0x2000u64 && 0x8u64 & 0x8u64 == 0x8u64 && 0x8u64 & 0x1u64 != 0x1u64 && 0x8u64 & 0x4u64 != 0x4u64 && 0x8u64 & 0x10u64 != 0x10u64 && 0x8u64 & 0x20u64 != 0x20u64 && 0x8u64 & 0x40u64 != 0x40u64 && 0x8u64 & 0x80u64 != 0x80u64 && 0x8u64 & 0x100u64 != 0x100u64 && 0x8u64 & 0x200u64 != 0x200u64 && 0x8u64 & 0x400u64 != 0x400u64 && 0x8u64 & 0x800u64 != 0x800u64 && 0x8u64 & 0x1000u64 != 0x1000u64 && 0x8u64 & 0x2000u64 != 0x2000u64 && 0x10u64 & 0x10u64 == 0x10u64 && 0x10u64 & 0x1u64 != 0x1u64 && 0x10u64 & 0x4u64 != 0x4u64 && 0x10u64 & 0x8u64 != 0x8u64 && 0x10u64 & 0x20u64 != 0x20u64 && 0x10u64 & 0x40u64 != 0x40u64 && 0x10u64 & 0x80u64 != 0x80u64 && 0x10u64 & 0x100u64 != 0x100u64 && 0x10u64 & 0x200u64 != 0x200u64 && 0x10u64 & 0x400u64 != 0x400u64 && 0x10u64 & 0x800u64 != 0x800u64 && 0x10u64 & 0x1000u64 != 0x1000u64 && 0x10u64 & 0x2000u64 != 0x2000u64 && 0x20u64 & 0x20u64 == 0x20u64 && 0x20u64 & 0x1u64 != 0x1u64 && 0x20u64 & 0x4u64 != 0x4u64 && 0x20u64 & 0x8u64 != 0x8u64 && 0x20u64 & 0x10u64 != 0x10u64 && 0x20u64 & 0x40u64 != 0x40u64 && 0x20u64 & 0x80u64 != 0x80u64 && 0x20u64 & 0x100u64 != 0x100u64 && 0x20u64 & 0x200u64 != 0x200u64 && 0x20u64 & 0x400u64 != 0x400u64 && 0x20u64 & 0x800u64 != 0x800u64 && 0x20u64 & 0x1000u64 != 0x1000u64 && 0x20u64 & 0x2000u64 != 0x2000u64 && 0x40u64 & 0x40u64 == 0x40u64 && 0x40u64 & 0x1u64 != 0x1u64 && 0x40u64 & 0x4u64 != 0x4u64 && 0x40u64 & 0x8u64 != 0x8u64 && 0x40u64 & 0x10u64 != 0x10u64 && 0x40u64 & 0x20u64 != 0x20u64 && 0x40u64 & 0x80u64 != 0x80u64 && 0x40u64 & 0x100u64 != 0x100u64 && 0x40u64 & 0x200u64 != 0x200u64 && 0x40u64 & 0x400u64 != 0x400u64 && 0x40u64 & 0x800u64 != 0x800u64 && 0x40u64 & 0x1000u64 != 0x1000u64 && 0x40u64 & 0x2000u64 != 0x2000u64 && 0x80u64 & 0x80u64 == 0x80u64 && 0x80u64 & 0x1u64 != 0x1u64 && 0x80u64 & 0x4u64 != 0x4u64 && 0x80u64 & 0x8u64 != 0x8u64 && 0x80u64 & 0x10u64 != 0x10u64 && 0x80u64 & 0x20u64 != 0x20u64 && 0x80u64 & 0x40u64 != 0x40u64 && 0x80u64 & 0x100u64 != 0x100u64 && 0x80u64 & 0x200u64 != 0x200u64 && 0x80u64 & 0x400u64 != 0x400u64 && 0x80u64 & 0x800u64 != 0x800u64 && 0x80u64 & 0x1000u64 != 0x1000u64 && 0x80u64 & 0x2000u64 != 0x2000u64 && 0x100u64 & 0x100u64 == 0x100u64 && 0x100u64 & 0x1u64 != 0x1u64 && 0x100u64 & 0x4u64 != 0x4u64 && 0x100u64 & 0x8u64 != 0x8u64 && 0x100u64 & 0x10u64 != 0x10u64 && 0x100u64 & 0x20u64 != 0x20u64 && 0x100u64 & 0x40u64 != 0x40u64 && 0x100u64 & 0x80u64 != 0x80u64 && 0x100u64 & 0x200u64 != 0x200u64 && 0x100u64 & 0x400u64 != 0x400u64 && 0x100u64 & 0x800u64 != 0x800u64 && 0x100u64 & 0x1000u64 != 0x1000u64 && 0x100u64 & 0x2000u64 != 0x2000u64 && 0x200u64 & 0x200u64 == 0x200u64 && 0x200u64 & 0x1u64 != 0x1u64 && 0x200u64 & 0x4u64 != 0x4u64 && 0x200u64 & 0x8u64 != 0x8u64 && 0x200u64 & 0x10u64 != 0x10u64 && 0x200u64 & 0x20u64 != 0x20u64 && 0x200u64 & 0x40u64 != 0x40u64 && 0x200u64 & 0x80u64 != 0x80u64 && 0x200u64 & 0x100u64 != 0x100u64 && 0x200u64 & 0x400u64 != 0x400u64 && 0x200u64 & 0x800u64 != 0x800u64 && 0x200u64 & 0x1000u64 != 0x1000u64 && 0x200u64 & 0x2000u64 != 0x2000u64 && 0x400u64 & 0x400u64 == 0x400u64 && 0x400u64 & 0x1u64 != 0x1u64 && 0x400u64 & 0x4u64 != 0x4u64 && 0x400u64 & 0x8u64 != 0x8u64 && 0x400u64 & 0x10u64 != 0x10u64 && 0x400u64 & 0x20u64 != 0x20u64 && 0x400u64 & 0x40u64 != 0x40u64 && 0x400u64 & 0x80u64 != 0x80u64 && 0x400u64 & 0x100u64 != 0x100u64 && 0x400u64 & 0x200u64 != 0x200u64 && 0x400u64 & 0x800u64 != 0x800u64 && 0x400u64 & 0x1000u64 != 0x1000u64 && 0x400u64 & 0x2000u64 != 0x2000u64 && 0x800u64 & 0x800u64 == 0x800u64 && 0x800u64 & 0x1u64 != 0x1u64 && 0x800u64 & 0x4u64 != 0x4u64 && 0x800u64 & 0x8u64 != 0x8u64 && 0x800u64 & 0x10u64 != 0x10u64 && 0x800u64 & 0x20u64 != 0x20u64 && 0x800u64 & 0x40u64 != 0x40u64 && 0x800u64 & 0x80u64 != 0x80u64 && 0x800u64 & 0x100u64 != 0x100u64 && 0x800u64 & 0x200u64 != 0x200u64 && 0x800u64 & 0x400u64 != 0x400u64 && 0x800u64 & 0x1000u64 != 0x1000u64 && 0x800u64 & 0x2000u64 != 0x2000u64 && 0x1000u64 & 0x1000u64 == 0x1000u64 && 0x1000u64 & 0x1u64 != 0x1u64 && 0x1000u64 & 0x4u64 != 0x4u64 && 0x1000u64 & 0x8u64 != 0x8u64 && 0x1000u64 & 0x10u64 != 0x10u64 && 0x1000u64 & 0x20u64 != 0x20u64 && 0x1000u64 & 0x40u64 != 0x40u64 && 0x1000u64 & 0x80u64 != 0x80u64 && 0x1000u64 & 0x100u64 != 0x100u64 && 0x1000u64 & 0x200u64 != 0x200u64 && 0x1000u64 & 0x400u64 != 0x400u64 && 0x1000u64 & 0x800u64 != 0x800u64 && 0x1000u64 & 0x2000u64 != 0x2000u64 && 0x2000u64 & 0x2000u64 == 0x2000u64 && 0x2000u64 & 0x1u64 != 0x1u64 && 0x2000u64 & 0x4u64 != 0x4u64 && 0x2000u64 & 0x8u64 != 0x8u64 && 0x2000u64 & 0x10u64 != 0x10u64 && 0x2000u64 & 0x20u64 != 0x20u64 && 0x2000u64 & 0x40u64 != 0x40u64 && 0x2000u64 & 0x80u64 != 0x80u64 && 0x2000u64 & 0x100u64 != 0x100u64 && 0x2000u64 & 0x200u64 != 0x200u64 && 0x2000u64 & 0x400u64 != 0x400u64 && 0x2000u64 & 0x800u64 != 0x800u64 && 0x2000u64 & 0x1000u64 != 0x1000u64 && 0x1u64 != 0 && 0x2u64 != 0 && 0x10u64 != 0 && 0x20u64 != 0 && 0x40u64 != 0 && 0x80u64 != 0 && 0x20000u64 != 0 && 0x300u64 != 0 && 0x3000u64 != 0 && 0xc04u64 != 0 && 0x8000u64 != 0 && 0x10000u64 != 0 && 0x4000u64 != 0) by (bit_vector);
    lemma_output_table_disjoint();
    lemma_to_apple_entry(t, OutputFlags::OPOST as u64, 0);
    lemma_from_apple_entry(t, 0);
    lemma_to_apple_entry(t, OutputFlags::ONLCR as u64, 1);
    lemma_from_apple_entry(t, 1);
    lemma_to_apple_entry(t, OutputFlags::OCRNL as u64, 2);
    lemma_from_apple_entry(t, 2);
    lemma_to_apple_entry(t, OutputFlags::ONOCR as u64, 3);
    lemma_from_apple_entry(t, 3);
    lemma_to_apple_entry(t, OutputFlags::ONLRET as u64, 4);
    lemma_from_apple_entry(t, 4);
    lemma_to_apple_entry(t, OutputFlags::OFILL as u64, 5);
    lemma_from_apple_entry(t, 5);
    lemma_to_apple_entry(t, OutputFlags::OFDEL as u64, 6);
    lemma_from_apple_entry(t, 6);
    lemma_to_apple_entry(t, OutputFlags::NLDLY as u64, 7);
    lemma_from_apple_entry(t, 7);
    lemma_to_apple_entry(t, OutputFlags::CRDLY as u64, 8);
    lemma_from_apple_entry(t, 8);
    lemma_to_apple_entry(t, OutputFlags::TABDLY as u64, 9);
    lemma_from_apple_entry(t, 9);
    lemma_to_apple_entry(t, OutputFlags::BSDLY as u64, 10);
    lemma_from_apple_entry(t, 10);
    lemma_to_apple_entry(t, OutputFlags::VTDLY as u64, 11);
    lemma_from_apple_entry(t, 11);
    lemma_to_apple_entry(t, OutputFlags::FFDLY as u64, 12);
    lemma_from_apple_entry(t, 12);
}

/// Darwin `ISIG`.
pub const APPLE_ISIG: u64 = 0x80;
/// Darwin `ICANON`.
pub const APPLE_ICANON: u64 = 0x100;
/// Darwin `ECHO`.
pub const APPLE_ECHO: u64 = 0x8;
/// Darwin `ECHOE`.
pub const APPLE_ECHOE: u64 = 0x2;
/// Darwin `ECHOK`.
pub const APPLE_ECHOK: u64 = 0x4;
/// Darwin `ECHONL`.
pub const APPLE_ECHONL: u64 = 0x10;
/// Darwin `NOFLSH`.
pub const APPLE_NOFLSH: u64 = 0x80000000;
/// Darwin `TOSTOP`.
pub const APPLE_TOSTOP: u64 = 0x400000;
/// Darwin `ECHOCTL`.
pub const APPLE_ECHOCTL: u64 = 0x40;
/// Darwin `ECHOPRT`.
pub const APPLE_ECHOPRT: u64 = 0x20;
/// Darwin `ECHOKE`.
pub const APPLE_ECHOKE: u64 = 0x1;
/// Darwin `IEXTEN`.
pub const APPLE_IEXTEN: u64 = 0x400;

/// Each local mode flag becomes the Darwin flag of the same name, and each Darwin flag is read back
/// as the Linux flag of its name.
pub proof fn lemma_local_flags_by_name()
    ensures
        flags_to_apple(LocalFlags::table(), LocalFlags::ISIG as u64) == APPLE_ISIG,
        flags_to_apple(LocalFlags::table(), LocalFlags::ICANON as u64) == APPLE_ICANON,
        flags_to_apple(LocalFlags::table(), LocalFlags::ECHO as u64) == APPLE_ECHO,
        flags_to_apple(LocalFlags::table(), LocalFlags::ECHOE as u64) == APPLE_ECHOE,
        flags_to_apple(LocalFlags::table(), LocalFlags::ECHOK as u64) == APPLE_ECHOK,
        flags_to_apple(LocalFlags::table(), LocalFlags::ECHONL as u64) == APPLE_ECHONL,
        flags_to_apple(LocalFlags::table(), LocalFlags::NOFLSH as u64) == APPLE_NOFLSH,
        flags_to_apple(LocalFlags::table(), LocalFlags::TOSTOP as u64) == APPLE_TOSTOP,
        flags_to_apple(LocalFlags::table(), LocalFlags::ECHOCTL as u64) == APPLE_ECHOCTL,
        flags_to_apple(LocalFlags::table(), LocalFlags::ECHOPRT as u64) == APPLE_ECHOPRT,
        flags_to_apple(LocalFlags::table(), LocalFlags::ECHOKE as u64) == APPLE_ECHOKE,
        flags_to_apple(LocalFlags::table(), LocalFlags::IEXTEN as u64) == APPLE_IEXTEN,
        flags_from_apple(LocalFlags::table(), APPLE_ISIG) == LocalFlags::ISIG as u64,
        flags_from_apple(LocalFlags::table(), APPLE_ICANON) == LocalFlags::ICANON as u64,
        flags_from_apple(LocalFlags::table(), APPLE_ECHO) == LocalFlags::ECHO as u64,
        flags_from_apple(LocalFlags::table(), APPLE_ECHOE) == LocalFlags::ECHOE as u64,
        flags_from_apple(LocalFlags::table(), APPLE_ECHOK) == LocalFlags::ECHOK as u64,
        flags_from_apple(LocalFlags::table(), APPLE_ECHONL) == LocalFlags::ECHONL as u64,
        flags_from_apple(LocalFlags::table(), APPLE_NOFLSH) == LocalFlags::NOFLSH as u64,
        flags_from_apple(LocalFlags::table(), APPLE_TOSTOP) == LocalFlags::TOSTOP as u64,
        flags_from_apple(LocalFlags::table(), APPLE_ECHOCTL) == LocalFlags::ECHOCTL as u64,
        flags_from_apple(LocalFlags::table(), APPLE_ECHOPRT) == LocalFlags::ECHOPRT as u64,
        flags_from_apple(LocalFlags::table(), APPLE_ECHOKE) == LocalFlags::ECHOKE as u64,
        flags_from_apple(LocalFlags::table(), APPLE_IEXTEN) == LocalFlags::IEXTEN as u64,
{
    let t = LocalFlags::table();
    assert(t[0] == (0x1u64, 0x80u64));
    assert(t[1] == (0x2u64, 0x100u64));
    assert(t[2] == (0x8u64, 0x8u64));
    assert(t[3] == (0x10u64, 0x2u64));
    assert(t[4] == (0x20u64, 0x4u64));
    assert(t[5] == (0x40u64, 0x10u64));
    assert(t[6] == (0x80u64, 0x80000000u64));
    assert(t[7] == (0x100u64, 0x400000u64));
    assert(t[8] == (0x200u64, 0x40u64));
    assert(t[9] == (0x400u64, 0x20u64));
    assert(t[10] == (0x800u64, 0x1u64));
    assert(t[11] == (0x4000u64, 0x400u64));
    assert(0x1u64 & 0x1u64 == 0x1u64 && 0x1u64 & 0x2u64 != 0x2u64 && 0x1u64 & 0x8u64 != 0x8u64 && 0x1u64 & 0x10u64 != 0x10u64 && 0x1u64 & 0x20u64 != 0x20u64 && 0x1u64 & 0x40u64 != 0x40u64 && 0x1u64 & 0x80u64 != 0x80u64 && 0x1u64 & 0x100u64 != 0x100u64 && 0x1u64 & 0x200u64 != 0x200u64 && 0x1u64 & 0x400u64 != 0x400u64 && 0x1u64 & 0x800u64 != 0x800u64 && 0x1u64 & 0x4000u64 != 0x4000u64 && 0x2u64 & 0x2u64 == 0x2u64 && 0x2u64 & 0x1u64 != 0x1u64 && 0x2u64 & 0x8u64 != 0x8u64 && 0x2u64 & 0x10u64 != 0x10u64 && 0x2u64 & 0x20u64 != 0x20u64 && 0x2u64 & 0x40u64 != 0x40u64 && 0x2u64 & 0x80u64 != 0x80u64 && 0x2u64 & 0x100u64 != 0x100u64 && 0x2u64 & 0x200u64 != 0x200u64 && 0x2u64 & 0x400u64 != 0x400u64 && 0x2u64 & 0x800u64 != 0x800u64 && 0x2u64 & 0x4000u64 != 0x4000u64 && 0x8u64 & 0x8u64 == 0x8u64 && 0x8u64 & 0x1u64 != 0x1u64 && 0x8u64 & 0x2u64 != 0x2u64 && 0x8u64 & 0x10u64 != 0x10u64 && 0x8u64 & 0x20u64 != 0x20u64 && 0x8u64 & 0x40u64 != 0x40u64 && 0x8u64 & 0x80u64 != 0x80u64 && 0x8u64 & 0x100u64 != 0x100u64 && 0x8u64 & 0x200u64 != 0x200u64 && 0x8u64 & 0x400u64 != 0x400u64 && 0x8u64 & 0x800u64 != 0x800u64 && 0x8u64 & 0x4000u64 != 0x4000u64 && 0x10u64 & 0x10u64 == 0x10u64 && 0x10u64 & 0x1u64 != 0x1u64 && 0x10u64 & 0x2u64 != 0x2u64 && 0x10u64 & 0x8u64 != 0x8u64 && 0x10u64 & 0x20u64 != 0x20u64 && 0x10u64 & 0x40u64 != 0x40u64 && 0x10u64 & 0x80u64 != 0x80u64 && 0x10u64 & 0x100u64 != 0x100u64 && 0x10u64 & 0x200u64 != 0x200u64 && 0x10u64 & 0x400u64 != 0x400u64 && 0x10u64 & 0x800u64 != 0x800u64 && 0x10u64 & 0x4000u64 != 0x4000u64 && 0x20u64 & 0x20u64 == 0x20u64 && 0x20u64 & 0x1u64 != 0x1u64 && 0x20u64 & 0x2u64 != 0x2u64 && 0x20u64 & 0x8u64 != 0x8u64 && 0x20u64 & 0x10u64 != 0x10u64 && 0x20u64 & 0x40u64 != 0x40u64 && 0x20u64 & 0x80u64 != 0x80u64 && 0x20u64 & 0x100u64 != 0x100u64 && 0x20u64 & 0x200u64 != 0x200u64 && 0x20u64 & 0x400u64 != 0x400u64 && 0x20u64 & 0x800u64 != 0x800u64 && 0x20u64 & 0x4000u64 != 0x4000u64 && 0x40u64 & 0x40u64 == 0x40u64 && 0x40u64 & 0x1u64 != 0x1u64 && 0x40u64 & 0x2u64 != 0x2u64 && 0x40u64 & 0x8u64 != 0x8u64 && 0x40u64 & 0x10u64 != 0x10u64 && 0x40u64 & 0x20u64 != 0x20u64 && 0x40u64 & 0x80u64 != 0x80u64 && 0x40u64 & 0x100u64 != 0x100u64 && 0x40u64 & 0x200u64 != 0x200u64 && 0x40u64 & 0x400u64 != 0x400u64 && 0x40u64 & 0x800u64 != 0x800u64 && 0x40u64 & 0x4000u64 != 0x4000u64 && 0x80u64 & 0x80u64 == 0x80u64 && 0x80u64 & 0x1u64 != 0x1u64 && 0x80u64 & 0x2u64 != 0x2u64 && 0x80u64 & 0x8u64 != 0x8u64 && 0x80u64 & 0x10u64 != 0x10u64 && 0x80u64 & 0x20u64 != 0x20u64 && 0x80u64 & 0x40u64 != 0x40u64 && 0x80u64 & 0x100u64 != 0x100u64 && 0x80u64 & 0x200u64 != 0x200u64 && 0x80u64 & 0x400u64 != 0x400u64 && 0x80u64 & 0x800u64 != 0x800u64 && 0x80u64 & 0x4000u64 != 0x4000u64 && 0x100u64 & 0x100u64 == 0x100u64 && 0x100u64 & 0x1u64 != 0x1u64 && 0x100u64 & 0x2u64 != 0x2u64 && 0x100u64 & 0x8u64 != 0x8u64 && 0x100u64 & 0x10u64 != 0x10u64 && 0x100u64 & 0x20u64 != 0x20u64 && 0x100u64 & 0x40u64 != 0x40u64 && 0x100u64 & 0x80u64 != 0x80u64 && 0x100u64 & 0x200u64 != 0x200u64 && 0x100u64 & 0x400u64 != 0x400u64 && 0x100u64 & 0x800u64 != 0x800u64 && 0x100u64 & 0x4000u64 != 0x4000u64 && 0x200u64 & 0x200u64 == 0x200u64 && 0x200u64 & 0x1u64 != 0x1u64 && 0x200u64 & 0x2u64 != 0x2u64 && 0x200u64 & 0x8u64 != 0x8u64 && 0x200u64 & 0x10u64 != 0x10u64 && 0x200u64 & 0x20u64 != 0x20u64 && 0x200u64 & 0x40u64 != 0x40u64 && 0x200u64 & 0x80u64 != 0x80u64 && 0x200u64 & 0x100u64 != 0x100u64 && 0x200u64 & 0x400u64 != 0x400u64 && 0x200u64 & 0x800u64 != 0x800u64 && 0x200u64 & 0x4000u64 != 0x4000u64 && 0x400u64 & 0x400u64 == 0x400u64 && 0x400u64 & 0x1u64 != 0x1u64 && 0x400u64 & 0x2u64 != 0x2u64 && 0x400u64 & 0x8u64 != 0x8u64 && 0x400u64 & 0x10u64 != 0x10u64 && 0x400u64 & 0x20u64 != 0x20u64 && 0x400u64 & 0x40u64 != 0x40u64 && 0x400u64 & 0x80u64 != 0x80u64 && 0x400u64 & 0x100u64 != 0x100u64 && 0x400u64 & 0x200u64 != 0x200u64 && 0x400u64 & 0x800u64 != 0x800u64 && 0x400u64 & 0x4000u64 != 0x4000u64 && 0x800u64 & 0x800u64 == 0x800u64 && 0x800u64 & 0x1u64 != 0x1u64 && 0x800u64 & 0x2u64 != 0x2u64 && 0x800u64 & 0x8u64 != 0x8u64 && 0x800u64 & 0x10u64 != 0x10u64 && 0x800u64 & 0x20u64 != 0x20u64 && 0x800u64 & 0x40u64 != 0x40u64 && 0x800u64 & 0x80u64 != 0x80u64 && 0x800u64 & 0x100u64 != 0x100u64 && 0x800u64 & 0x200u64 != 0x200u64 && 0x800u64 & 0x400u64 != 0x400u64 && 0x800u64 & 0x4000u64 != 0x4000u64 && 0x4000u64 & 0x4000u64 == 0x4000u64 && 0x4000u64 & 0x1u64 != 0x1u64 && 0x4000u64 & 0x2u64 != 0x2u64 && 0x4000u64 & 0x8u64 != 0x8u64 && 0x4000u64 & 0x10u64 != 0x10u64 && 0x4000u64 & 0x20u64 != 0x20u64 && 0x4000u64 & 0x40u64 != 0x40u64 && 0x4000u64 & 0x80u64 != 0x80u64 && 0x4000u64 & 0x100u64 != 0x100u64 && 0x4000u64 & 0x200u64 != 0x200u64 && 0x4000u64 & 0x400u64 != 0x400u64 && 0x4000u64 & 0x800u64 != 0x800u64 && 0x80u64 != 0 && 0x100u64 != 0 && 0x8u64 != 0 && 0x2u64 != 0 && 0x4u64 != 0 && 0x10u64 != 0 && 0x80000000u64 != 0 && 0x400000u64 != 0 && 0x40u64 != 0 && 0x20u64 != 0 && 0x1u64 != 0 && 0x400u64 != 0) by (bit_vector);
    lemma_local_table_disjoint();
    lemma_to_apple_entry(t, LocalFlags::ISIG as u64, 0);
    lemma_from_apple_entry(t, 0);
    lemma_to_apple_entry(t, LocalFlags::ICANON as u64, 1);
    lemma_from_apple_entry(t, 1);
    lemma_to_apple_entry(t, LocalFlags::ECHO as u64, 2);
    lemma_from_apple_entry(t, 2);
    lemma_to_apple_entry(t, LocalFlags::ECHOE as u64, 3);
    lemma_from_apple_entry(t, 3);
    lemma_to_apple_entry(t, LocalFlags::ECHOK as u64, 4);
    lemma_from_apple_entry(t, 4);
    lemma_to_apple_entry(t, LocalFlags::ECHONL as u64, 5);
    lemma_from_apple_entry(t, 5);
    lemma_to_apple_entry(t, LocalFlags::NOFLSH as u64, 6);
    lemma_from_apple_entry(t, 6);
    lemma_to_apple_entry(t, LocalFlags::TOSTOP as u64, 7);
    lemma_from_apple_entry(t, 7);
    lemma_to_apple_entry(t, LocalFlags::ECHOCTL as u64, 8);
    lemma_from_apple_entry(t, 8);
    lemma_to_apple_entry(t, LocalFlags::ECHOPRT as u64, 9);
    lemma_from_apple_entry(t, 9);
    lemma_to_apple_entry(t, LocalFlags::ECHOKE as u64, 10);
    lemma_from_apple_entry(t, 10);
    lemma_to_apple_entry(t, LocalFlags::IEXTEN as u64, 11);
    lemma_from_apple_entry(t, 11);
}

/// Darwin `CS6`.
pub const APPLE_CS6: u64 = 0x100;
/// Darwin `CS7`.
pub const APPLE_CS7: u64 = 0x200;
/// Darwin `CS8`.
pub const APPLE_CS8: u64 = 0x300;
/// Darwin `CSTOPB`.
pub const APPLE_CSTOPB: u64 = 0x400;
/// Darwin `CREAD`.
pub const APPLE_CREAD: u64 = 0x800;
/// Darwin `PARENB`.
pub const APPLE_PARENB: u64 = 0x1000;
/// Darwin `PARODD`.
pub const APPLE_PARODD: u64 = 0x2000;
/// Darwin `HUPCL`.
pub const APPLE_HUPCL: u64 = 0x4000;
/// Darwin `CLOCAL`.
pub const APPLE_CLOCAL: u64 = 0x8000;
/// Darwin `CRTSCTS`.
pub const APPLE_CRTSCTS: u64 = 0x30000;

/// Each control mode flag that stands for one bit group of its own becomes the Darwin flag of the
/// same name.
pub proof fn lemma_control_flags_by_name()
    ensures
        flags_to_apple(ControlFlags::table(), ControlFlags::CS6 as u64) == APPLE_CS6,
        flags_to_apple(ControlFlags::table(), ControlFlags::CS7 as u64) == APPLE_CS7,
        flags_to_apple(ControlFlags::table(), ControlFlags::CSTOPB as u64) == APPLE_CSTOPB,
        flags_to_apple(ControlFlags::table(), ControlFlags::CREAD as u64) == APPLE_CREAD,
        flags_to_apple(ControlFlags::table(), ControlFlags::PARENB as u64) == APPLE_PARENB,
        flags_to_apple(ControlFlags::table(), ControlFlags::PARODD as u64) == APPLE_PARODD,
        flags_to_apple(ControlFlags::table(), ControlFlags::HUPCL as u64) == APPLE_HUPCL,
        flags_to_apple(ControlFlags::table(), ControlFlags::CLOCAL as u64) == APPLE_CLOCAL,
        flags_to_apple(ControlFlags::table(), ControlFlags::CRTSCTS as u64) == APPLE_CRTSCTS,
{
    let t = ControlFlags::table();
    assert(t[0] == (0x0u64, 0x0u64));
    assert(t[1] == (0x10u64, 0x100u64));
    assert(t[2] == (0x20u64, 0x200u64));
    assert(t[3] == (0x30u64, 0x300u64));
    assert(t[4] == (0x40u64, 0x400u64));
    assert(t[5] == (0x80u64, 0x800u64));
    assert(t[6] == (0x100u64, 0x1000u64));
    assert(t[7] == (0x200u64, 0x2000u64));
    assert(t[8] == (0x400u64, 0x4000u64));
    assert(t[9] == (0x800u64, 0x8000u64));
    assert(t[10] == (0x80000000u64, 0x30000u64));
    assert(0x10u64 & 0x10u64 == 0x10u64 && 0x10u64 & 0x20u64 != 0x20u64 && 0x10u64 & 0x30u64 != 0x30u64 && 0x10u64 & 0x40u64 != 0x40u64 && 0x10u64 & 0x80u64 != 0x80u64 && 0x10u64 & 0x100u64 != 0x100u64 && 0x10u64 & 0x200u64 != 0x200u64 && 0x10u64 & 0x400u64 != 0x400u64 && 0x10u64 & 0x800u64 != 0x800u64 && 0x10u64 & 0x80000000u64 != 0x80000000u64 && 0x20u64 & 0x20u64 == 0x20u64 && 0x20u64 & 0x10u64 != 0x10u64 && 0x20u64 & 0x30u64 != 0x30u64 && 0x20u64 & 0x40u64 != 0x40u64 && 0x20u64 & 0x80u64 != 0x80u64 && 0x20u64 & 0x100u64 != 0x100u64 && 0x20u64 & 0x200u64 != 0x200u64 && 0x20u64 & 0x400u64 != 0x400u64 && 0x20u64 & 0x800u64 != 0x800u64 && 0x20u64 & 0x80000000u64 != 0x80000000u64 && 0x40u64 & 0x40u64 == 0x40u64 && 0x40u64 & 0x10u64 != 0x10u64 && 0x40u64 & 0x20u64 != 0x20u64 && 0x40u64 & 0x30u64 != 0x30u64 && 0x40u64 & 0x80u64 != 0x80u64 && 0x40u64 & 0x100u64 != 0x100u64 && 0x40u64 & 0x200u64 != 0x200u64 && 0x40u64 & 0x400u64 != 0x400u64 && 0x40u64 & 0x800u64 != 0x800u64 && 0x40u64 & 0x80000000u64 != 0x80000000u64 && 0x80u64 & 0x80u64 == 0x80u64 && 0x80u64 & 0x10u64 != 0x10u64 && 0x80u64 & 0x20u64 != 0x20u64 && 0x80u64 & 0x30u64 != 0x30u64 && 0x80u64 & 0x40u64 != 0x40u64 && 0x80u64 & 0x100u64 != 0x100u64 && 0x80u64 & 0x200u64 != 0x200u64 && 0x80u64 & 0x400u64 != 0x400u64 && 0x80u64 & 0x800u64 != 0x800u64 && 0x80u64 & 0x80000000u64 != 0x80000000u64 && 0x100u64 & 0x100u64 == 0x100u64 && 0x100u64 & 0x10u64 != 0x10u64 && 0x100u64 & 0x20u64 != 0x20u64 && 0x100u64 & 0x30u64 != 0x30u64 && 0x100u64 & 0x40u64 != 0x40u64 && 0x100u64 & 0x80u64 != 0x80u64 && 0x100u64 & 0x200u64 != 0x200u64 && 0x100u64 & 0x400u64 != 0x400u64 && 0x100u64 & 0x800u64 != 0x800u64 && 0x100u64 & 0x80000000u64 != 0x80000000u64 && 0x200u64 & 0x200u64 == 0x200u64 && 0x200u64 & 0x10u64 != 0x10u64 && 0x200u64 & 0x20u64 != 0x20u64 && 0x200u64 & 0x30u64 != 0x30u64 && 0x200u64 & 0x40u64 != 0x40u64 && 0x200u64 & 0x80u64 != 0x80u64 && 0x200u64 & 0x100u64 != 0x100u64 && 0x200u64 & 0x400u64 != 0x400u64 && 0x200u64 & 0x800u64 != 0x800u64 && 0x200u64 & 0x80000000u64 != 0x80000000u64 && 0x400u64 & 0x400u64 == 0x400u64 && 0x400u64 & 0x10u64 != 0x10u64 && 0x400u64 & 0x20u64 != 0x20u64 && 0x400u64 & 0x30u64 != 0x30u64 && 0x400u64 & 0x40u64 != 0x40u64 && 0x400u64 & 0x80u64 != 0x80u64 && 0x400u64 & 0x100u64 != 0x100u64 && 0x400u64 & 0x200u64 != 0x200u64 && 0x400u64 & 0x800u64 != 0x800u64 && 0x400u64 & 0x80000000u64 != 0x80000000u64 && 0x800u64 & 0x800u64 == 0x800u64 && 0x800u64 & 0x10u64 != 0x10u64 && 0x800u64 & 0x20u64 != 0x20u64 && 0x800u64 & 0x30u64 != 0x30u64 && 0x800u64 & 0x40u64 != 0x40u64 && 0x800u64 & 0x80u64 != 0x80u64 && 0x800u64 & 0x100u64 != 0x100u64 && 0x800u64 & 0x200u64 != 0x200u64 && 0x800u64 & 0x400u64 != 0x400u64 && 0x800u64 & 0x80000000u64 != 0x80000000u64 && 0x80000000u64 & 0x80000000u64 == 0x80000000u64 && 0x80000000u64 & 0x10u64 != 0x10u64 && 0x80000000u64 & 0x20u64 != 0x20u64 && 0x80000000u64 & 0x30u64 != 0x30u64 && 0x80000000u64 & 0x40u64 != 0x40u64 && 0x80000000u64 & 0x80u64 != 0x80u64 && 0x80000000u64 & 0x100u64 != 0x100u64 && 0x80000000u64 & 0x200u64 != 0x200u64 && 0x80000000u64 & 0x400u64 != 0x400u64 && 0x80000000u64 & 0x800u64 != 0x800u64 && 0x100u64 != 0 && 0x200u64 != 0 && 0x300u64 != 0 && 0x400u64 != 0 && 0x800u64 != 0 && 0x1000u64 != 0 && 0x2000u64 != 0 && 0x4000u64 != 0 && 0x8000u64 != 0 && 0x30000u64 != 0) by (bit_vector);
    lemma_to_apple_entry(t, ControlFlags::CS6 as u64, 1);
    lemma_to_apple_entry(t, ControlFlags::CS7 as u64, 2);
    lemma_to_apple_entry(t, ControlFlags::CSTOPB as u64, 4);
    lemma_to_apple_entry(t, ControlFlags::CREAD as u64, 5);
    lemma_to_apple_entry(t, ControlFlags::PARENB as u64, 6);
    lemma_to_apple_entry(t, ControlFlags::PARODD as u64, 7);
    lemma_to_apple_entry(t, ControlFlags::HUPCL as u64, 8);
    lemma_to_apple_entry(t, ControlFlags::CLOCAL as u64, 9);
    lemma_to_apple_entry(t, ControlFlags::CRTSCTS as u64, 10);
}

} // verus!
