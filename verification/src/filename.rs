//! The name of the file under compilation, and its path relative to a base
//! directory.

use vstd::prelude::*;

verus! {

/// Where the source of a module comes from.
#[derive(Clone, Debug, PartialEq, Eq)]
pub enum FileName {
    /// A file on the file system, by its path.
    Real(String),
    /// Any other source, by the text that stands for it.
    Custom(String),
}

/// The view of `FileName`.
pub enum FileNameView {
    Real(Seq<char>),
    Custom(Seq<char>),
}

impl View for FileName {
    type V = FileNameView;

    open spec fn view(&self) -> FileNameView {
        match *self {
            FileName::Real(p) => FileNameView::Real(p@),
            FileName::Custom(s) => FileNameView::Custom(s@),
        }
    }
}

/// The text that stands for a file name: the path of a real file as it is
/// written, and the text of any other source.
pub open spec fn display(file: FileNameView) -> Seq<char> {
    match file {
        FileNameView::Real(p) => p,
        FileNameView::Custom(s) => s,
    }
}

impl FileName {
    /// The text that stands for this file name.
    pub fn to_string(&self) -> (r: String)
        ensures
            r@ == display(self@),
    {
        match self {
            FileName::Real(p) => p.clone(),
            FileName::Custom(s) => s.clone(),
        }
    }
}

/// The view of an optional string.
pub open spec fn text_of(s: Option<String>) -> Option<Seq<char>> {
    match s {
        Some(s) => Some(s@),
        None => None,
    }
}

/// The view of an optional string slice.
pub open spec fn slice_text_of(s: Option<&str>) -> Option<Seq<char>> {
    match s {
        Some(s) => Some(s@),
        None => None,
    }
}

/// What `pathdiff::diff_paths` returns for the path `path` and the base
/// directory `base`, written out as text: a path that leads from `base` to
/// `path`, or nothing where it finds none. It is computed from the components
/// of the two paths alone, in the path syntax of the platform; the file system
/// is not consulted.
pub uninterp spec fn diff_paths_result(path: Seq<char>, base: Seq<char>) -> Option<Seq<char>>;

/// Calls `pathdiff::diff_paths` and writes the path it returns out as text.
/// Nothing is claimed of the result but that it is `diff_paths_result` of the
/// two arguments.
#[verifier::external_body]
fn diff_paths(path: &str, base: &str) -> (r: Option<String>)
    ensures
        text_of(r) == diff_paths_result(path@, base@),
{
    pathdiff::diff_paths(path, base).map(|p| p.display().to_string())
}

/// The relative path where one was found, the path itself where none was.
pub open spec fn relative_or_whole(path: Seq<char>, diff: Option<Seq<char>>) -> Seq<char> {
    match diff {
        Some(rel) => rel,
        None => path,
    }
}

/// The name of `file` relative to `base`: the text that stands for `file`
/// where there is no base or `file` is no real file; else the path from `base`
/// to the file, and the whole path of the file where there is no such path.
pub open spec fn rel_filename_of(base: Option<Seq<char>>, file: FileNameView) -> Seq<char> {
    match base {
        None => display(file),
        Some(b) => match file {
            FileNameView::Real(p) => relative_or_whole(p, diff_paths_result(p, b)),
            FileNameView::Custom(s) => s,
        },
    }
}

/// Chooses between the relative path that was found for `path`, if any, and
/// `path` itself.
pub fn pick_rel_filename(path: &String, diff: Option<String>) -> (r: String)
    ensures
        r@ == relative_or_whole(path@, text_of(diff)),
{
    match diff {
        Some(rel) => rel,
        None => path.clone(),
    }
}

/// The name of `file` relative to the directory `base`.
pub fn rel_filename(base: Option<&str>, file: &FileName) -> (r: String)
    ensures
        r@ == rel_filename_of(slice_text_of(base), file@),
{
    let base = match base {
        Some(v) => v,
        None => {
            return file.to_string();
        },
    };
    let path = match file {
        FileName::Real(v) => v,
        _ => {
            return file.to_string();
        },
    };
    let diff = diff_paths(path.as_str(), base);
    pick_rel_filename(path, diff)
}

} // verus!
