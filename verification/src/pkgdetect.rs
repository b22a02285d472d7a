//! Telling a package file's format from its name and its first bytes.

use vstd::prelude::*;
use vstd::string::StringExecFns;
use crate::error::{BridgeError, ErrorKind};
use crate::paths::{extension_of, path_extension};
use crate::text::{lower, lowered, same, to_chars};

verus! {

/// The two package formats.
#[derive(Clone, Copy, Debug, PartialEq, Eq, Structural)]
pub enum PackageFormat {
    Deb,
    Rpm,
}

/// How many leading bytes of a file are searched for the member name.
pub const SCAN_LIMIT: usize = 2048;

/// The lead signature of an RPM file.
pub open spec fn rpm_magic() -> Seq<u8> {
    seq![0xedu8, 0xabu8, 0xeeu8, 0xdbu8]
}

/// The signature of an `ar` archive, `!<arch>` and a line feed.
pub open spec fn ar_magic() -> Seq<u8> {
    seq![0x21u8, 0x3cu8, 0x61u8, 0x72u8, 0x63u8, 0x68u8, 0x3eu8, 0x0au8]
}

/// The bytes of the member name `debian-binary`.
pub open spec fn debian_member() -> Seq<u8> {
    seq![100u8, 101u8, 98u8, 105u8, 97u8, 110u8, 45u8, 98u8, 105u8, 110u8, 97u8, 114u8, 121u8]
}

/// Whether `p` occurs in `s` starting at index `i`.
pub open spec fn bytes_at(s: Seq<u8>, p: Seq<u8>, i: int) -> bool {
    0 <= i && i + p.len() <= s.len() && s.subrange(i, i + p.len()) == p
}

/// Whether `p` occurs in the first `limit` bytes of `s`.
pub open spec fn bytes_within(s: Seq<u8>, p: Seq<u8>, limit: int) -> bool {
    exists|i: int| bytes_at(s, p, i) && i + p.len() <= limit
}

/// The format that a file name extension stands for, whatever its case.
pub open spec fn format_of_extension(ext: Option<Seq<char>>) -> Option<PackageFormat> {
    match ext {
        Some(e) => if lower(e) == "deb"@ {
            Some(PackageFormat::Deb)
        } else if lower(e) == "rpm"@ {
            Some(PackageFormat::Rpm)
        } else {
            None
        },
        None => None,
    }
}

/// The format that the leading bytes of a file show: an RPM package where
/// its first four bytes are the RPM lead, a Debian package where its first
/// eight are the archive signature, else a Debian package where the member
/// name stands within the first [`SCAN_LIMIT`] bytes.
pub open spec fn format_of_bytes(head: Seq<u8>) -> Option<PackageFormat> {
    if head.len() >= 4 && head.subrange(0, 4) == rpm_magic() {
        Some(PackageFormat::Rpm)
    } else if head.len() >= 8 && head.subrange(0, 8) == ar_magic() {
        Some(PackageFormat::Deb)
    } else if bytes_within(head, debian_member(), SCAN_LIMIT as int) {
        Some(PackageFormat::Deb)
    } else {
        None
    }
}

/// The format of a file with extension `ext` and leading bytes `head`: the
/// extension decides where it names a format, the bytes decide otherwise.
pub open spec fn detected(ext: Option<Seq<char>>, head: Seq<u8>) -> Option<PackageFormat> {
    match format_of_extension(ext) {
        Some(f) => Some(f),
        None => format_of_bytes(head),
    }
}

fn bytes_match(s: &[u8], p: &[u8], i: usize) -> (b: bool)
    ensures
        b == bytes_at(s@, p@, i as int),
{
    if p.len() > s.len() || i > s.len() - p.len() {
        return false;
    }
    let mut k: usize = 0;
    while k < p.len()
        invariant
            k <= p.len(),
            i + p.len() <= s.len(),
            s@.subrange(i as int, i + k) == p@.take(k as int),
        decreases p.len() - k,
    {
        if s[i + k] != p[k] {
            assert(s@.subrange(i as int, i + p.len())[k as int] != p@[k as int]);
            return false;
        }
        k += 1;
        assert(s@.subrange(i as int, i + k) =~= s@.subrange(i as int, i + k - 1).push(
            s@[i + k - 1],
        ));
        assert(p@.take(k as int) =~= p@.take(k - 1).push(p@[k - 1]));
    }
    assert(p@.take(p.len() as int) =~= p@);
    true
}

fn bytes_found(s: &[u8], p: &[u8], limit: usize) -> (b: bool)
    requires
        p.len() >= 1,
    ensures
        b == bytes_within(s@, p@, limit as int),
{
    let bound: usize = if s.len() < limit {
        s.len()
    } else {
        limit
    };
    if p.len() > bound {
        assert(forall|i: int| !(bytes_at(s@, p@, i) && i + p@.len() <= limit));
        return false;
    }
    let last: usize = bound - p.len();
    let mut i: usize = 0;
    while i <= last
        invariant
            last == bound - p.len(),
            bound <= s.len(),
            bound <= limit,
            bound == s.len() || bound == limit,
            p.len() >= 1,
            i <= last + 1,
            forall|j: int| 0 <= j < i ==> !bytes_at(s@, p@, j),
        decreases last + 1 - i,
    {
        if bytes_match(s, p, i) {
            return true;
        }
        i += 1;
    }
    assert(forall|j: int| !(bytes_at(s@, p@, j) && j + p@.len() <= limit));
    false
}

/// Tells the format from the extension that the path has, `ext`, and from the
/// leading bytes of the file.
pub fn classify_package(ext: Option<&str>, head: &[u8]) -> (r: Option<PackageFormat>)
    ensures
        r == detected(
            match ext {
                Some(e) => Some(e@),
                None => None,
            },
            head@,
        ),
{
    if let Some(e) = ext {
        let low = lowered(to_chars(e).as_slice());
        if same(low.as_slice(), to_chars("deb").as_slice()) {
            return Some(PackageFormat::Deb);
        }
        if same(low.as_slice(), to_chars("rpm").as_slice()) {
            return Some(PackageFormat::Rpm);
        }
    }
    if head.len() >= 4 {
        let rpm: [u8; 4] = [0xed, 0xab, 0xee, 0xdb];
        assert(rpm@ =~= rpm_magic());
        if bytes_match(head, rpm.as_slice(), 0) {
            return Some(PackageFormat::Rpm);
        }
    }
    if head.len() >= 8 {
        let ar: [u8; 8] = [0x21, 0x3c, 0x61, 0x72, 0x63, 0x68, 0x3e, 0x0a];
        assert(ar@ =~= ar_magic());
        if bytes_match(head, ar.as_slice(), 0) {
            return Some(PackageFormat::Deb);
        }
    }
    let member: [u8; 13] = [100, 101, 98, 105, 97, 110, 45, 98, 105, 110, 97, 114, 121];
    assert(member@ =~= debian_member());
    if bytes_found(head, member.as_slice(), SCAN_LIMIT) {
        return Some(PackageFormat::Deb);
    }
    None
}

/// The text of the failure for a file at `path` of neither format.
pub open spec fn unknown_format_message(path: Seq<char>) -> Seq<char> {
    "unknown package format for "@ + path
}

/// Tells the format of the package file at `path`, whose leading bytes are
/// `head` (all of the file where it is shorter than [`SCAN_LIMIT`] bytes).
/// The extension is tried first, then the bytes; a file that shows neither
/// format is refused.
pub fn detect_package_format(path: &str, head: &[u8]) -> (r: Result<PackageFormat, BridgeError>)
    ensures
        match detected(path_extension(path@), head@) {
            Some(f) => r == Ok::<PackageFormat, BridgeError>(f),
            None => r is Err && r->Err_0.kind == ErrorKind::FormatUnknown && r->Err_0.message@
                == unknown_format_message(path@),
        },
{
    let ext = extension_of(path);
    let found = match &ext {
        Some(e) => classify_package(Some(e.as_str()), head),
        None => classify_package(None, head),
    };
    match found {
        Some(f) => Ok(f),
        None => {
            let mut message = String::from_str("unknown package format for ");
            message.append(path);
            Err(BridgeError { kind: ErrorKind::FormatUnknown, message })
        },
    }
}

/// A file whose name ends in `.deb`, in any case, is a Debian package, and
/// one whose name ends in `.rpm` an RPM package, whatever it holds. A file
/// with another name, or none, is told by its first bytes: the archive
/// signature in the first eight makes it a Debian package, the RPM lead in
/// the first four an RPM package. Any other file is of unknown format,
/// unless the member name of a Debian package stands near its beginning.
pub proof fn law_detection(ext: Option<Seq<char>>, head: Seq<u8>)
    ensures
        ext is Some && lower(ext->0) == "deb"@ ==> detected(ext, head) == Some(PackageFormat::Deb),
        ext is Some && lower(ext->0) == "rpm"@ ==> detected(ext, head) == Some(PackageFormat::Rpm),
        format_of_extension(ext) is None && head.len() >= 8 && head.subrange(0, 8) == ar_magic()
            ==> detected(ext, head) == Some(PackageFormat::Deb),
        format_of_extension(ext) is None && head.len() >= 4 && head.subrange(0, 4) == rpm_magic()
            ==> detected(ext, head) == Some(PackageFormat::Rpm),
        format_of_extension(ext) is None && !(head.len() >= 8 && head.subrange(0, 8) == ar_magic())
            && !(head.len() >= 4 && head.subrange(0, 4) == rpm_magic()) && !bytes_within(
            head,
            debian_member(),
            SCAN_LIMIT as int,
        ) ==> detected(ext, head) is None,
{
    reveal_strlit("deb");
    reveal_strlit("rpm");
    assert("deb"@[0] != "rpm"@[0]);
    if head.len() >= 8 && head.subrange(0, 8) == ar_magic() {
        assert(head.subrange(0, 8)[0] == 0x21u8);
        assert(head.subrange(0, 4)[0] == head[0]);
        assert(rpm_magic()[0] == 0xedu8);
    }
}

} // verus!
