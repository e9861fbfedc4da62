//! The format-tagged entry, its uniform projection, and the dispatcher that
//! tries the Unix layout first and the MSDOS layout second.

use vstd::prelude::*;

use crate::kind::FtpEntryKind;
use crate::msdos::FtpEntryMsdos;
use crate::msdos::MsdosModel;
use crate::msdos::msdos_model;
use crate::unix::FtpEntryUnix;
use crate::unix::UnixModel;
use crate::unix::unix_model;
use vstd::pervasive::unreached;

verus! {

/// Permission text of a Unix-like entry: exactly nine characters in
/// rwx-triplet form, after sticky-bit folding.
#[derive(Debug)]
pub struct FtpEntryPermissions(pub String);

impl View for FtpEntryPermissions {
    type V = Seq<char>;

    open spec fn view(&self) -> Seq<char> {
        self.0@
    }
}

impl FtpEntryPermissions {
    /// The permission text.
    pub fn as_str(&self) -> (r: &str)
        ensures
            r@ == self@,
    {
        self.0.as_str()
    }
}

/// The fields both layouts support, as a uniform read-only projection.
/// Each method returns the corresponding abstract field of the implementing
/// type's model.
pub trait FtpEntryInfo {
    /// The kind the implementing type's model assigns.
    spec fn info_kind(&self) -> FtpEntryKind;

    /// The name the implementing type's model assigns.
    spec fn info_name(&self) -> Seq<char>;

    /// The size the implementing type's model assigns.
    spec fn info_size(&self) -> nat;

    /// The date text the implementing type's model assigns.
    spec fn info_date_str(&self) -> Seq<char>;

    /// Type of the entry: Directory, File, Symlink or other.
    fn kind(&self) -> (k: FtpEntryKind)
        ensures
            k == self.info_kind(),
    ;

    /// Name of the entry.
    fn name(&self) -> (r: &str)
        ensures
            r@ == self.info_name(),
    ;

    /// Size of the entry.
    fn size(&self) -> (r: usize)
        ensures
            r as nat == self.info_size(),
    ;

    /// Date of the entry.
    fn date_str(&self) -> (r: &str)
        ensures
            r@ == self.info_date_str(),
    ;
}

impl FtpEntryInfo for FtpEntryUnix {
    open spec fn info_kind(&self) -> FtpEntryKind {
        self@.kind
    }

    open spec fn info_name(&self) -> Seq<char> {
        self@.name
    }

    open spec fn info_size(&self) -> nat {
        self@.size
    }

    open spec fn info_date_str(&self) -> Seq<char> {
        self@.date_str
    }

    fn kind(&self) -> (k: FtpEntryKind) {
        self.kind
    }

    fn name(&self) -> (r: &str) {
        self.name.as_str()
    }

    fn size(&self) -> (r: usize) {
        self.size
    }

    fn date_str(&self) -> (r: &str) {
        self.date_str.as_str()
    }
}

impl FtpEntryInfo for FtpEntryMsdos {
    open spec fn info_kind(&self) -> FtpEntryKind {
        self@.kind
    }

    open spec fn info_name(&self) -> Seq<char> {
        self@.name
    }

    open spec fn info_size(&self) -> nat {
        self@.size
    }

    open spec fn info_date_str(&self) -> Seq<char> {
        self@.date_str
    }

    fn kind(&self) -> (k: FtpEntryKind) {
        self.kind
    }

    fn name(&self) -> (r: &str) {
        self.name.as_str()
    }

    fn size(&self) -> (r: usize) {
        self.size
    }

    fn date_str(&self) -> (r: &str) {
        self.date_str.as_str()
    }
}

/// The abstract content of a parsed entry, tagged by its layout.
pub enum EntryModel {
    Unix(UnixModel),
    Msdos(MsdosModel),
}

/// The entry a line denotes: the Unix layout is tried first, the MSDOS
/// layout second, and a line conforming to neither denotes no entry.
pub open spec fn entry_model(s: Seq<char>) -> Option<EntryModel> {
    match unix_model(s) {
        Option::Some(u) => Some(EntryModel::Unix(u)),
        Option::None => match msdos_model(s) {
            Option::Some(m) => Some(EntryModel::Msdos(m)),
            Option::None => None,
        },
    }
}

/// A parsed listing line, tagged by the layout that matched it.
#[derive(Debug)]
pub enum FtpEntry {
    Unix(FtpEntryUnix),
    Msdos(FtpEntryMsdos),
}

impl View for FtpEntry {
    type V = EntryModel;

    open spec fn view(&self) -> EntryModel {
        match self {
            FtpEntry::Unix(e) => EntryModel::Unix(e@),
            FtpEntry::Msdos(e) => EntryModel::Msdos(e@),
        }
    }
}

/// The kind either variant's model assigns.
pub open spec fn model_kind(m: EntryModel) -> FtpEntryKind {
    match m {
        EntryModel::Unix(u) => u.kind,
        EntryModel::Msdos(d) => d.kind,
    }
}

/// The name either variant's model assigns.
pub open spec fn model_name(m: EntryModel) -> Seq<char> {
    match m {
        EntryModel::Unix(u) => u.name,
        EntryModel::Msdos(d) => d.name,
    }
}

/// The size either variant's model assigns.
pub open spec fn model_size(m: EntryModel) -> nat {
    match m {
        EntryModel::Unix(u) => u.size,
        EntryModel::Msdos(d) => d.size,
    }
}

/// The date text either variant's model assigns.
pub open spec fn model_date_str(m: EntryModel) -> Seq<char> {
    match m {
        EntryModel::Unix(u) => u.date_str,
        EntryModel::Msdos(d) => d.date_str,
    }
}

impl FtpEntry {
    /// Parses one listing line: the Unix layout is tried first, the MSDOS
    /// layout second. Returns the entry of the first layout that matched, or
    /// `None` when the line conforms to neither — a normal negative result,
    /// not an error.
    pub fn new(string: &str) -> (r: Option<FtpEntry>)
        ensures
            r matches Some(e) ==> entry_model(string@) == Some(e@),
            r is None ==> entry_model(string@) is None,
    {
        match FtpEntryUnix::new(string) {
            Option::Some(u) => Some(FtpEntry::Unix(u)),
            Option::None => match FtpEntryMsdos::new(string) {
                Option::Some(m) => Some(FtpEntry::Msdos(m)),
                Option::None => None,
            },
        }
    }

    /// True if this entry came from the Unix layout.
    pub fn is_unix_type(&self) -> (b: bool)
        ensures
            b == (self@ matches EntryModel::Unix(_)),
    {
        match self {
            FtpEntry::Unix(_) => true,
            _ => false,
        }
    }

    /// True if this entry came from the MSDOS layout.
    pub fn is_msdos_type(&self) -> (b: bool)
        ensures
            b == (self@ matches EntryModel::Msdos(_)),
    {
        match self {
            FtpEntry::Msdos(_) => true,
            _ => false,
        }
    }

    /// Converts this entry to its Unix-specific form, which exposes
    /// permissions, owner, group and the other Unix-only fields.
    ///
    /// The caller must have established that the entry is Unix-tagged; this
    /// is a programmer-error contract, and a violation from unverified code
    /// terminates the program. Use `try_to_unix_type` when unsure.
    pub fn to_unix_type(self) -> (r: FtpEntryUnix)
        requires
            self@ matches EntryModel::Unix(_),
        ensures
            self@ matches EntryModel::Unix(u) && r@ == u,
    {
        match self.try_to_unix_type() {
            Result::Ok(e) => e,
            Result::Err(_) => unreached(),
        }
    }

    /// Converts this entry to its MSDOS-specific form.
    ///
    /// The caller must have established that the entry is MSDOS-tagged; this
    /// is a programmer-error contract, and a violation from unverified code
    /// terminates the program. Use `try_to_msdos_type` when unsure.
    pub fn to_msdos_type(self) -> (r: FtpEntryMsdos)
        requires
            self@ matches EntryModel::Msdos(_),
        ensures
            self@ matches EntryModel::Msdos(m) && r@ == m,
    {
        match self.try_to_msdos_type() {
            Result::Ok(e) => e,
            Result::Err(_) => unreached(),
        }
    }

    /// Tries to convert this entry to its Unix-specific form. On a mismatch
    /// the entry itself comes back unchanged, so no information is lost.
    pub fn try_to_unix_type(self) -> (r: Result<FtpEntryUnix, FtpEntry>)
        ensures
            self@ matches EntryModel::Unix(u) ==> r matches Ok(e) && e@ == u,
            self@ matches EntryModel::Msdos(_) ==> r matches Err(b) && b == self,
    {
        if let FtpEntry::Unix(entry) = self {
            Ok(entry)
        } else {
            Err(self)
        }
    }

    /// Tries to convert this entry to its MSDOS-specific form. On a mismatch
    /// the entry itself comes back unchanged, so no information is lost.
    pub fn try_to_msdos_type(self) -> (r: Result<FtpEntryMsdos, FtpEntry>)
        ensures
            self@ matches EntryModel::Msdos(m) ==> r matches Ok(e) && e@ == m,
            self@ matches EntryModel::Unix(_) ==> r matches Err(b) && b == self,
    {
        if let FtpEntry::Msdos(entry) = self {
            Ok(entry)
        } else {
            Err(self)
        }
    }

    /// Type of the entry, whatever its layout.
    pub fn kind(&self) -> (k: FtpEntryKind)
        ensures
            k == model_kind(self@),
    {
        match self {
            FtpEntry::Unix(e) => e.kind(),
            FtpEntry::Msdos(e) => e.kind(),
        }
    }

    /// Name of the entry, whatever its layout.
    pub fn name(&self) -> (r: &str)
        ensures
            r@ == model_name(self@),
    {
        match self {
            FtpEntry::Unix(e) => e.name(),
            FtpEntry::Msdos(e) => e.name(),
        }
    }

    /// Size of the entry, whatever its layout.
    pub fn size(&self) -> (r: usize)
        ensures
            r as nat == model_size(self@),
    {
        match self {
            FtpEntry::Unix(e) => e.size(),
            FtpEntry::Msdos(e) => e.size(),
        }
    }

    /// Date text of the entry, whatever its layout.
    pub fn date_str(&self) -> (r: &str)
        ensures
            r@ == model_date_str(self@),
    {
        match self {
            FtpEntry::Unix(e) => e.date_str(),
            FtpEntry::Msdos(e) => e.date_str(),
        }
    }
}

/// Parsing is deterministic: a line denotes at most one entry model, so
/// parsing the same line twice yields structurally identical entries.
pub proof fn lemma_parse_deterministic(s: Seq<char>, m1: EntryModel, m2: EntryModel)
    requires
        entry_model(s) == Some(m1),
        entry_model(s) == Some(m2),
    ensures
        m1 == m2,
{
}

/// The dispatcher's order: a line matching the Unix layout yields the
/// Unix-tagged entry whatever the MSDOS layout would say; only a line
/// matching neither layout denotes no entry.
pub proof fn lemma_dispatch_order(s: Seq<char>)
    ensures
        unix_model(s) matches Some(u) ==> entry_model(s) == Some(EntryModel::Unix(u)),
        unix_model(s) is None ==> (msdos_model(s) matches Some(m) ==> entry_model(s) == Some(
            EntryModel::Msdos(m),
        )),
        unix_model(s) is None && msdos_model(s) is None ==> entry_model(s) is None,
{
}

} // verus!
