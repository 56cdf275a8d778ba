use vstd::prelude::*;

use crate::text::text_eq;

verus! {

/// The file lists of an incremental update package.
#[derive(Debug, Clone)]
pub struct ChangesJson {
    pub added: Vec<String>,
    pub deleted: Vec<String>,
    pub modified: Vec<String>,
}

/// How an update archive is packed.
#[derive(Debug, Clone, Copy, PartialEq, Eq, Structural)]
pub enum ArchiveKind {
    Zip,
    TarGz,
}

/// The lower-case form of a text.
pub uninterp spec fn lower_of(s: Seq<char>) -> Seq<char>;

/// Relies on `str::to_lowercase`: the result depends on the characters alone.
#[verifier::external_body]
fn lowercase(s: &str) -> (r: String)
    ensures
        r@ == lower_of(s@),
{
    s.to_lowercase()
}

pub open spec fn has_suffix(s: Seq<char>, suffix: Seq<char>) -> bool {
    suffix.len() <= s.len() && s.subrange(s.len() - suffix.len(), s.len() as int) == suffix
}

/// Whether a text ends with a suffix.
pub fn ends_with_text(s: &str, suffix: &str) -> (r: bool)
    ensures
        r == has_suffix(s@, suffix@),
{
    let n = s.unicode_len();
    let m = suffix.unicode_len();
    if m > n {
        return false;
    }
    let tail = s.substring_char(n - m, n);
    text_eq(tail, suffix)
}

pub open spec fn archive_kind_of(lowered: Seq<char>) -> ArchiveKind {
    if has_suffix(lowered, ".tar.gz"@) || has_suffix(lowered, ".tgz"@) {
        ArchiveKind::TarGz
    } else {
        ArchiveKind::Zip
    }
}

/// The packing of an archive whose lower-cased path is `lowered`: gzip'd tar
/// for `.tar.gz` and `.tgz`, zip for everything else.
pub fn archive_kind_of_lowered(lowered: &str) -> (r: ArchiveKind)
    ensures
        r == archive_kind_of(lowered@),
{
    if ends_with_text(lowered, ".tar.gz") || ends_with_text(lowered, ".tgz") {
        ArchiveKind::TarGz
    } else {
        ArchiveKind::Zip
    }
}

/// The packing of an archive, told by its path's extension in any case.
pub fn archive_kind(path: &str) -> (r: ArchiveKind)
    ensures
        r == archive_kind_of(lower_of(path@)),
{
    let lowered = lowercase(path);
    archive_kind_of_lowered(lowered.as_str())
}

pub open spec fn decimal_digits() -> Seq<char> {
    "0123456789"@
}

/// The two decimal digits of a number below one hundred.
pub open spec fn two_digits(n: int) -> Seq<char> {
    seq![decimal_digits()[n / 10], decimal_digits()[n % 10]]
}

/// The name under which the `n`-th backup of `base` is kept: `<base>.bakNN`.
pub fn backup_file_name(base: &str, n: u8) -> (r: String)
    requires
        1 <= n <= 99,
    ensures
        r@ == base@ + ".bak"@ + two_digits(n as int),
{
    let digits = "0123456789";
    proof {
        reveal_strlit("0123456789");
    }
    let tens = (n / 10) as usize;
    let ones = (n % 10) as usize;
    let mut r = base.to_owned();
    r.append(".bak");
    r.append(digits.substring_char(tens, tens + 1));
    r.append(digits.substring_char(ones, ones + 1));
    proof {
        assert(r@ =~= base@ + ".bak"@ + two_digits(n as int));
    }
    r
}

} // verus!
