//! Parser for single lines of an FTP server's `LIST` response.
//!
//! Two textual layouts occur in the wild: a Unix `ls -l`-style line and an
//! MSDOS `dir`-style line. Each layout has its own parser; [`FtpEntry::new`]
//! tries the Unix layout first and the MSDOS layout second, and wraps the
//! first success in a tagged union with a uniform projection (kind, name,
//! size, date text).
//!
//! * Unix-style:
//! ```text
//! drwxr-xr-x  10 root   root    4096 Dec 21  2012 usr
//! brw-rw----  1 root disk    8,   0 Nov 24 10:13 sda
//! lrwxrwxrwx 1 root root 51 Apr  4 23:57 www -> /etc/nginx/sites-available/www
//! ```
//!
//! * MSDOS-style:
//! ```text
//! 08-22-2018  02:05PM       <DIR>          wwwroot
//! 08-22-18  12:59PM                99710 logo.jpg
//! ```
//!
//! A line that conforms to neither layout yields `None`: that is a normal
//! negative result, not an error. Every parser here is a pure, terminating
//! function of its input line, and each result is pinned down by a
//! specification-level model of the grammar, so parsing the same line twice
//! yields structurally identical entries.

pub mod entry;
pub mod kind;
pub mod msdos;
pub mod scan;
pub mod unix;

pub use entry::FtpEntry;
pub use entry::FtpEntryInfo;
pub use entry::FtpEntryPermissions;
pub use kind::FtpEntryKind;
pub use msdos::FtpEntryMsdos;
pub use unix::FtpEntryUnix;
