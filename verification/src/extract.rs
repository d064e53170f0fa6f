//! Choosing the decoder of an archive from its file name.
//!
//! Every supported archive is a tar stream behind one compression; which one
//! is decided by the extension of the file alone.

use vstd::prelude::*;
use vstd::string::StringExecFns;

use crate::error::{fault, BuildError, ErrorKind, ErrorView};
use crate::text::{
    after_last, chars_of, find_back, lemma_find_back, lemma_find_back_is, slice_of, spells,
};

verus! {

/// The compression around the tar stream of an archive.
#[derive(Debug, Clone, Copy, PartialEq, Eq, Structural)]
pub enum ArchiveFormat {
    /// An LZMA stream, in files that end in `.xz`.
    Xz,
    /// A gzip stream, in files that end in `.gz`.
    Gzip,
    /// A bzip2 stream, in files that end in `.bz2`.
    Bzip2,
}

/// The name of the file that `path` ends in: what follows its last `/`, or
/// all of it.
pub open spec fn file_name(path: Seq<char>) -> Seq<char> {
    path.subrange(find_back(path, '/', path.len() as int) + 1, path.len() as int)
}

/// The extension of the file that `path` ends in: what follows the last `.`
/// of the file's name. A name without `.`, and a name whose only `.` is its
/// first character, has none.
pub open spec fn extension(path: Seq<char>) -> Option<Seq<char>> {
    let name = file_name(path);
    let dot = find_back(name, '.', name.len() as int);
    if dot <= 0 {
        None
    } else {
        Some(name.subrange(dot + 1, name.len() as int))
    }
}

/// The format that the extension `ext` stands for.
pub open spec fn format_named(ext: Seq<char>) -> Option<ArchiveFormat> {
    if ext == "xz"@ {
        Some(ArchiveFormat::Xz)
    } else if ext == "gz"@ {
        Some(ArchiveFormat::Gzip)
    } else if ext == "bz2"@ {
        Some(ArchiveFormat::Bzip2)
    } else {
        None
    }
}

/// The format of the archive at `path`, or the refusal of a path with
/// another extension or with none.
pub open spec fn format_of(path: Seq<char>) -> Result<ArchiveFormat, ErrorView> {
    match extension(path) {
        Some(ext) => match format_named(ext) {
            Some(format) => Ok(format),
            None => Err(fault(ErrorKind::UnsupportedArchiveFormat, path)),
        },
        None => Err(fault(ErrorKind::UnsupportedArchiveFormat, path)),
    }
}

/// Decides from the extension of `path` how the archive is to be decoded.
pub fn archive_format(path: &str) -> (result: Result<ArchiveFormat, BuildError>)
    ensures
        match result {
            Ok(format) => format_of(path@) == Ok::<ArchiveFormat, ErrorView>(format),
            Err(e) => format_of(path@) == Err::<ArchiveFormat, ErrorView>(e@),
        },
{
    let chars = chars_of(path);
    let name = slice_of(&chars, after_last(&chars, '/'), chars.len());
    let after_dot = after_last(&name, '.');
    let mut format: Option<ArchiveFormat> = None;
    if after_dot > 1 {
        if spells(&name, after_dot, name.len(), "xz") {
            format = Some(ArchiveFormat::Xz);
        } else if spells(&name, after_dot, name.len(), "gz") {
            format = Some(ArchiveFormat::Gzip);
        } else if spells(&name, after_dot, name.len(), "bz2") {
            format = Some(ArchiveFormat::Bzip2);
        }
    }
    match format {
        Some(format) => Ok(format),
        None => Err(BuildError::new(ErrorKind::UnsupportedArchiveFormat, String::from_str(path))),
    }
}

/// The name of the file that a path ends in holds no `/`.
pub proof fn lemma_file_name_is_bare(path: Seq<char>)
    ensures
        !file_name(path).contains('/'),
{
    lemma_find_back(path, '/', path.len() as int);
    let start = find_back(path, '/', path.len() as int) + 1;
    assert forall|k: int| 0 <= k < file_name(path).len() implies file_name(path)[k] != '/' by {
        assert(file_name(path)[k] == path[start + k]);
    }
}

/// A file name made of a stem that is not empty, a `.` and an extension has
/// that extension, whatever directories stand before it.
pub proof fn lemma_extension_of(directory: Seq<char>, stem: Seq<char>, ext: Seq<char>)
    requires
        directory.len() == 0 || directory.last() == '/',
        stem.len() > 0,
        !stem.contains('/'),
        !ext.contains('/'),
        !ext.contains('.'),
    ensures
        extension(directory + stem + seq!['.'] + ext) == Some(ext),
{
    let name = stem + seq!['.'] + ext;
    let path = directory + name;
    assert(path == directory + stem + seq!['.'] + ext);
    let d = directory.len() as int;
    assert forall|k: int| d - 1 < k < path.len() implies path[k] != '/' by {
        if k < d + stem.len() {
            assert(stem.contains(path[k])) by {
                assert(stem[k - d] == path[k]);
            }
        } else if k > d + stem.len() {
            assert(ext.contains(path[k])) by {
                assert(ext[k - d - stem.len() - 1] == path[k]);
            }
        }
    }
    lemma_find_back_is(path, '/', path.len() as int, d - 1);
    assert(file_name(path) == name);
    let dot = stem.len() as int;
    assert forall|k: int| dot < k < name.len() implies name[k] != '.' by {
        assert(ext.contains(name[k])) by {
            assert(ext[k - dot - 1] == name[k]);
        }
    }
    lemma_find_back_is(name, '.', name.len() as int, dot);
    assert(name.subrange(dot + 1, name.len() as int) == ext);
}

/// A file whose name ends in `.xz`, `.gz` or `.bz2` after a stem that is not
/// empty is decoded as LZMA, gzip or bzip2.
pub proof fn lemma_known_extensions(directory: Seq<char>, stem: Seq<char>)
    requires
        directory.len() == 0 || directory.last() == '/',
        stem.len() > 0,
        !stem.contains('/'),
    ensures
        format_of(directory + stem + ".xz"@) == Ok::<ArchiveFormat, ErrorView>(ArchiveFormat::Xz),
        format_of(directory + stem + ".gz"@) == Ok::<ArchiveFormat, ErrorView>(ArchiveFormat::Gzip),
        format_of(directory + stem + ".bz2"@) == Ok::<ArchiveFormat, ErrorView>(
            ArchiveFormat::Bzip2,
        ),
{
    reveal_strlit(".xz");
    reveal_strlit(".gz");
    reveal_strlit(".bz2");
    reveal_strlit("xz");
    reveal_strlit("gz");
    reveal_strlit("bz2");
    assert(".xz"@ == seq!['.'] + "xz"@);
    assert(".gz"@ == seq!['.'] + "gz"@);
    assert(".bz2"@ == seq!['.'] + "bz2"@);
    assert(directory + stem + ".xz"@ == directory + stem + seq!['.'] + "xz"@);
    assert(directory + stem + ".gz"@ == directory + stem + seq!['.'] + "gz"@);
    assert(directory + stem + ".bz2"@ == directory + stem + seq!['.'] + "bz2"@);
    lemma_extension_of(directory, stem, "xz"@);
    lemma_extension_of(directory, stem, "gz"@);
    lemma_extension_of(directory, stem, "bz2"@);
    assert("gz"@[0] != "xz"@[0]);
    assert("bz2"@.len() != "xz"@.len());
    assert("bz2"@.len() != "gz"@.len());
}

} // verus!
