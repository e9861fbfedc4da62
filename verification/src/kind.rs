//! Classification of a directory entry's kind from its type character.

use vstd::prelude::*;

use vstd::string::StrSliceExecFns;

verus! {

/// Kind of a parsed entry. Unrecognized type characters map to `UNKNOWN`;
/// classification never fails.
#[derive(Debug, Clone, Copy, PartialEq, Eq, Structural)]
pub enum FtpEntryKind {
    UNKNOWN,
    Directory,
    File,
    BlockDevice,
    CharacterDevice,
    Pipe,
    Socket,
    Symlink,
}

/// The fixed type-character table of the Unix layout: `-` file, `d`
/// directory, `b` block device, `c` character device, `p` pipe, `s` socket,
/// `l` symlink; everything else is `UNKNOWN`.
pub open spec fn kind_of_char(c: char) -> FtpEntryKind {
    if c == '-' {
        FtpEntryKind::File
    } else if c == 'd' {
        FtpEntryKind::Directory
    } else if c == 'b' {
        FtpEntryKind::BlockDevice
    } else if c == 'c' {
        FtpEntryKind::CharacterDevice
    } else if c == 'p' {
        FtpEntryKind::Pipe
    } else if c == 's' {
        FtpEntryKind::Socket
    } else if c == 'l' {
        FtpEntryKind::Symlink
    } else {
        FtpEntryKind::UNKNOWN
    }
}

/// Maps a type character to its entry kind, per `kind_of_char`.
pub fn kind_from_char(c: char) -> (k: FtpEntryKind)
    ensures
        k == kind_of_char(c),
{
    match c {
        '-' => FtpEntryKind::File,
        'd' => FtpEntryKind::Directory,
        'b' => FtpEntryKind::BlockDevice,
        'c' => FtpEntryKind::CharacterDevice,
        'p' => FtpEntryKind::Pipe,
        's' => FtpEntryKind::Socket,
        'l' => FtpEntryKind::Symlink,
        _ => FtpEntryKind::UNKNOWN,
    }
}

/// Maps a one-character string to its entry kind. Text of any other length
/// is rejected.
pub fn kind_from_str(value: &str) -> (r: Result<FtpEntryKind, &'static str>)
    ensures
        value@.len() == 1 ==> r == Result::<FtpEntryKind, &'static str>::Ok(kind_of_char(value@[0])),
        value@.len() != 1 ==> r is Err,
{
    let n = value.unicode_len();
    if n == 1 {
        Ok(kind_from_char(value.get_char(0)))
    } else {
        Err("length of the value must be equal to 1")
    }
}

/// Kind classification is a total, deterministic function of the type
/// character: the seven mapped characters yield their tabled kinds, and any
/// other character yields `UNKNOWN` rather than a failure.
pub proof fn lemma_kind_classification_total(c: char)
    ensures
        kind_of_char('-') == FtpEntryKind::File,
        kind_of_char('d') == FtpEntryKind::Directory,
        kind_of_char('b') == FtpEntryKind::BlockDevice,
        kind_of_char('c') == FtpEntryKind::CharacterDevice,
        kind_of_char('p') == FtpEntryKind::Pipe,
        kind_of_char('s') == FtpEntryKind::Socket,
        kind_of_char('l') == FtpEntryKind::Symlink,
        c != '-' && c != 'd' && c != 'b' && c != 'c' && c != 'p' && c != 's' && c != 'l'
            ==> kind_of_char(c) == FtpEntryKind::UNKNOWN,
{
}

} // verus!
