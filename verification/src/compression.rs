//! Archive format selection for unpacking a runtime distribution.
//! The decoding itself is file I/O performed by the unverified shell;
//! the library fixes which decoder runs for which declared format.

use vstd::prelude::*;

use crate::strutil::str_eq;

verus! {

/// The archive formats a distribution can declare.
#[derive(Clone, Copy, PartialEq, Eq, Structural, Debug)]
pub enum ArchiveFormat {
    /// A tar archive compressed with bzip2.
    TarBzip2,
    /// A tar archive compressed with gzip.
    TarGzip,
    /// A tar archive compressed with zstd.
    TarZstd,
    /// A zip archive.
    Zip,
}

/// The decoder a declared format selects, if any.
pub open spec fn spec_unpack(format: Seq<char>) -> Option<ArchiveFormat> {
    if format == "tar|bzip2"@ {
        Some(ArchiveFormat::TarBzip2)
    } else if format == "tar|gzip"@ {
        Some(ArchiveFormat::TarGzip)
    } else if format == "tar|zstd"@ {
        Some(ArchiveFormat::TarZstd)
    } else if format == "zip"@ {
        Some(ArchiveFormat::Zip)
    } else {
        None
    }
}

/// Selects the decoder for a declared distribution format.  An
/// unknown format is an error, reported with `unsupported_message`.
pub fn unpack(format: &str) -> (r: Option<ArchiveFormat>)
    ensures
        r == spec_unpack(format@),
{
    if str_eq(format, "tar|bzip2") {
        Some(ArchiveFormat::TarBzip2)
    } else if str_eq(format, "tar|gzip") {
        Some(ArchiveFormat::TarGzip)
    } else if str_eq(format, "tar|zstd") {
        Some(ArchiveFormat::TarZstd)
    } else if str_eq(format, "zip") {
        Some(ArchiveFormat::Zip)
    } else {
        None
    }
}

/// The progress label shown while a distribution unpacks.
pub open spec fn spec_unpack_message(format: Seq<char>) -> Seq<char> {
    "Unpacking distribution ("@ + format + ")"@
}

/// The progress label shown while a distribution unpacks.
pub fn unpack_message(format: &str) -> (r: String)
    ensures
        r@ == spec_unpack_message(format@),
{
    let mut s = String::new();
    s.append("Unpacking distribution (");
    s.append(format);
    s.append(")");
    s
}

/// The error message for an unknown distribution format.
pub open spec fn spec_unsupported_message(format: Seq<char>) -> Seq<char> {
    "unsupported distribution format: "@ + format
}

/// The error message for an unknown distribution format.
pub fn unsupported_message(format: &str) -> (r: String)
    ensures
        r@ == spec_unsupported_message(format@),
{
    let mut s = String::new();
    s.append("unsupported distribution format: ");
    s.append(format);
    s
}

} // verus!
