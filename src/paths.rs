//! Classification of project files by their extension.

use vstd::prelude::*;

use crate::text::{opt_view, same_text};

verus! {

/// What `std::path::Path::extension` reports for a path: the text after the
/// last dot of its final component, if it has one.
pub uninterp spec fn path_extension(p: Seq<char>) -> Option<Seq<char>>;

/// Relies on `std::path::Path::extension`, read back as text; the result
/// depends on the characters of the path alone.
#[verifier::external_body]
fn extension(p: &str) -> (r: Option<String>)
    ensures
        opt_view(r) == path_extension(p@),
{
    std::path::Path::new(p).extension().and_then(|e| e.to_str()).map(|e| e.to_string())
}

/// The kind of a file named as input or output of a build.
#[derive(PartialEq, Eq, Structural, Clone, Copy, Debug)]
pub enum FileKind {
    /// Halcyon source text, compiled by the front end.
    SourceFile,
    /// An already compiled WebAssembly module.
    PrebuiltModule,
    /// Anything else.
    Invalid,
}

/// The kind of a file with the given extension.
pub open spec fn kind_of(ext: Option<Seq<char>>) -> FileKind {
    match ext {
        Some(e) => if e == "hc"@ {
            FileKind::SourceFile
        } else if e == "wasm"@ {
            FileKind::PrebuiltModule
        } else {
            FileKind::Invalid
        },
        None => FileKind::Invalid,
    }
}

/// The kind of the file at path `p`.
pub open spec fn path_kind(p: Seq<char>) -> FileKind {
    kind_of(path_extension(p))
}

/// Whether path `p` names a Markdown document.
pub open spec fn is_doc_path(p: Seq<char>) -> bool {
    path_extension(p) == Some("md"@)
}

/// The kind of a file with the given extension.
pub fn kind_of_extension(ext: &Option<String>) -> (k: FileKind)
    ensures
        k == kind_of(opt_view(*ext)),
{
    match ext {
        Some(e) => {
            if same_text(e.as_str(), "hc") {
                FileKind::SourceFile
            } else if same_text(e.as_str(), "wasm") {
                FileKind::PrebuiltModule
            } else {
                FileKind::Invalid
            }
        },
        None => FileKind::Invalid,
    }
}

/// The kind of the file at path `p`, by its extension.
pub fn classify(p: &str) -> (k: FileKind)
    ensures
        k == path_kind(p@),
{
    let ext = extension(p);
    kind_of_extension(&ext)
}

/// Whether the extension names a Markdown document.
pub fn is_doc_extension(ext: &Option<String>) -> (r: bool)
    ensures
        r == (opt_view(*ext) == Some("md"@)),
{
    match ext {
        Some(e) => same_text(e.as_str(), "md"),
        None => false,
    }
}

/// Whether the file at path `p` is a Markdown document.
pub fn is_doc_file(p: &str) -> (r: bool)
    ensures
        r == is_doc_path(p@),
{
    let ext = extension(p);
    is_doc_extension(&ext)
}

} // verus!
