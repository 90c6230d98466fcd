//! Which stdin and stdout can be read and written asynchronously.
//!
//! Only stdin and stdout with pipe-like backends actually support asynchronous reads and writes.
//! This currently means one of:
//! - FIFO pipes. Eg. named pipes and unnamed pipes.
//! - Sockets. Eg. TCP connections and UNIX domain sockets.
//! - Character devices. Eg. terminals.
//!
//! Reading the mode of a file and setting its flags is left to the program around the library.
use vstd::prelude::*;

use crate::text::join;

verus! {

/// The type of a file.
#[derive(Debug, Clone, Copy, PartialEq, Eq, Structural)]
pub enum FileKind {
    /// A regular file.
    RegularFile,
    /// A directory.
    Directory,
    /// A symbolic link.
    Symlink,
    /// A pipe.
    Fifo,
    /// A socket.
    Socket,
    /// A character device.
    CharacterDevice,
    /// A block device.
    BlockDevice,
    /// Anything else.
    Unknown,
}

impl FileKind {
    /// The type of a file with this mode, as the bits of the mode for it tell.
    pub open spec fn of_mode(mode: u32) -> FileKind {
        match mode & 0xf000u32 {
            0x8000u32 => FileKind::RegularFile,
            0x4000u32 => FileKind::Directory,
            0xa000u32 => FileKind::Symlink,
            0x1000u32 => FileKind::Fifo,
            0xc000u32 => FileKind::Socket,
            0x2000u32 => FileKind::CharacterDevice,
            0x6000u32 => FileKind::BlockDevice,
            _ => FileKind::Unknown,
        }
    }

    /// Asynchronous reads and writes are supported.
    pub open spec fn pipe_like(self) -> bool {
        self == FileKind::Fifo || self == FileKind::Socket || self == FileKind::CharacterDevice
    }

    /// The name of the type.
    pub open spec fn shown(self) -> Seq<char> {
        match self {
            FileKind::RegularFile => "RegularFile"@,
            FileKind::Directory => "Directory"@,
            FileKind::Symlink => "Symlink"@,
            FileKind::Fifo => "Fifo"@,
            FileKind::Socket => "Socket"@,
            FileKind::CharacterDevice => "CharacterDevice"@,
            FileKind::BlockDevice => "BlockDevice"@,
            FileKind::Unknown => "Unknown"@,
        }
    }

    /// Shows the type for debugging.
    fn debug(&self) -> (name: &'static str)
        ensures
            name@ == self.shown(),
    {
        match self {
            FileKind::RegularFile => "RegularFile",
            FileKind::Directory => "Directory",
            FileKind::Symlink => "Symlink",
            FileKind::Fifo => "Fifo",
            FileKind::Socket => "Socket",
            FileKind::CharacterDevice => "CharacterDevice",
            FileKind::BlockDevice => "BlockDevice",
            FileKind::Unknown => "Unknown",
        }
    }
}

/// [`rustix::fs::FileType::from_raw_mode`], which reads the type bits of the mode of a file.
#[verifier::external_body]
fn file_kind(mode: u32) -> (kind: FileKind)
    ensures
        kind == FileKind::of_mode(mode),
{
    match rustix::fs::FileType::from_raw_mode(mode) {
        rustix::fs::FileType::RegularFile => FileKind::RegularFile,
        rustix::fs::FileType::Directory => FileKind::Directory,
        rustix::fs::FileType::Symlink => FileKind::Symlink,
        rustix::fs::FileType::Fifo => FileKind::Fifo,
        rustix::fs::FileType::Socket => FileKind::Socket,
        rustix::fs::FileType::CharacterDevice => FileKind::CharacterDevice,
        rustix::fs::FileType::BlockDevice => FileKind::BlockDevice,
        rustix::fs::FileType::Unknown => FileKind::Unknown,
    }
}

/// The bits of [`rustix::fs::OFlags::NONBLOCK`], which depend on the system.
#[verifier::external_body]
fn nonblock_bits() -> (bits: u32) {
    rustix::fs::OFlags::NONBLOCK.bits()
}

/// These are the bits of the flag for asynchronous mode.
pub closed spec fn is_nonblock(bits: u32) -> bool {
    call_ensures(nonblock_bits, (), bits)
}

/// Whether a file with this mode supports asynchronous reads and writes, and else the text of the
/// error.
pub fn check_pipe_like(mode: u32) -> (checked: Result<(), String>)
    ensures
        match checked {
            Ok(_) => FileKind::of_mode(mode).pipe_like(),
            Err(text) => !FileKind::of_mode(mode).pipe_like() && text@ == "File type "@
                + FileKind::of_mode(mode).shown() + " is not pipe-like"@,
        },
{
    let kind = file_kind(mode);
    match kind {
        FileKind::Fifo | FileKind::Socket | FileKind::CharacterDevice => Ok(()),
        _ => {
            let mut text = join("File type ", kind.debug());
            text.append(" is not pipe-like");
            Err(text)
        },
    }
}

/// The flags of a file in asynchronous mode, given those that it has.
pub fn nonblocking(flags: u32) -> (set: u32)
    ensures
        exists|bits: u32| #[trigger] is_nonblock(bits) && set == flags | bits,
{
    let nonblock = nonblock_bits;
    let bits: u32 = nonblock();
    assert(is_nonblock(bits));
    flags | bits
}

/// Pipes, sockets and character devices are supported, as the type bits of the mode tell whatever
/// its other bits are, and nothing else is; the error names the type.
pub proof fn law_pipe_like_files(mode: u32, checked: Result<(), String>)
    requires
        call_ensures(check_pipe_like, (mode,), checked),
    ensures
        checked is Ok <==> mode & 0xf000u32 == 0x1000u32 || mode & 0xf000u32 == 0xc000u32 || mode
            & 0xf000u32 == 0x2000u32,
        checked matches Err(text) ==> {
            let bits = mode & 0xf000u32;
            let name = if bits == 0x8000u32 {
                "RegularFile"@
            } else if bits == 0x4000u32 {
                "Directory"@
            } else if bits == 0xa000u32 {
                "Symlink"@
            } else if bits == 0x6000u32 {
                "BlockDevice"@
            } else {
                "Unknown"@
            };
            text@ == "File type "@ + name + " is not pipe-like"@
        },
{
}

/// Asynchronous mode adds one flag and keeps all others.
pub proof fn law_asynchronous_mode(flags: u32, set: u32)
    requires
        call_ensures(nonblocking, (flags,), set),
    ensures
        set & flags == flags,
        exists|bits: u32| #[trigger] is_nonblock(bits) && set & bits == bits && set == flags | bits,
{
    let bits = choose|bits: u32| #[trigger] is_nonblock(bits) && set == flags | bits;
    assert((flags | bits) & flags == flags) by (bit_vector);
    assert((flags | bits) & bits == bits) by (bit_vector);
    assert(is_nonblock(bits));
}

} // verus!
