//! Paths, held as text. What is done to a path is what `std::path` does to it, and that depends on the
//! conventions of the platform; a path holds the separator that tells them. Text that is made of text
//! stays valid Unicode, so no conversion here loses anything.
use std::path::Path;
use vstd::prelude::*;

use crate::text;

verus! {

/// What `Path::join` makes of a path and of what is adjoined to it, on the platform with the given
/// separator.
pub uninterp spec fn joined_path(separator: char, base: Seq<char>, rest: Seq<char>) -> Seq<char>;

/// What `Path::parent` makes of a path.
pub uninterp spec fn parent_path(separator: char, path: Seq<char>) -> Option<Seq<char>>;

/// What `Path::file_name` makes of a path.
pub uninterp spec fn file_name_of(separator: char, path: Seq<char>) -> Option<Seq<char>>;

/// What `Path::with_extension` makes of a path and of an extension.
pub uninterp spec fn path_with_extension(
    separator: char,
    path: Seq<char>,
    extension: Seq<char>,
) -> Seq<char>;

/// What `Path::strip_prefix` makes of a path and of the path that it is to lie under.
pub uninterp spec fn path_below(separator: char, path: Seq<char>, base: Seq<char>) -> Option<
    Seq<char>,
>;

/// Whether two texts are one path to `==` of `Path`.
pub uninterp spec fn same_path(separator: char, a: Seq<char>, b: Seq<char>) -> bool;

/// A path of the platform that the program runs on. Its separator is always that of the platform:
/// `new` takes it from there, and nothing changes it.
pub struct HostPath {
    separator: char,
    text: String,
}

/// A path, with the separator that tells the conventions that it follows.
pub struct PathView {
    pub separator: char,
    pub text: Seq<char>,
}

impl View for HostPath {
    type V = PathView;

    closed spec fn view(&self) -> PathView {
        PathView { separator: self.separator, text: self.text@ }
    }
}

impl PathView {
    /// Another path of the same platform.
    pub open spec fn with_text(self, text: Seq<char>) -> PathView {
        PathView { text, ..self }
    }

    /// The path with another adjoined to it.
    pub open spec fn join(self, rest: Seq<char>) -> PathView {
        self.with_text(joined_path(self.separator, self.text, rest))
    }

    /// The path without its last component, if it has one to lose.
    pub open spec fn parent(self) -> Option<PathView> {
        match parent_path(self.separator, self.text) {
            Some(text) => Some(self.with_text(text)),
            None => None,
        }
    }

    /// The last component of the path, if it is a normal one.
    pub open spec fn file_name(self) -> Option<Seq<char>> {
        file_name_of(self.separator, self.text)
    }

    /// The path with another extension.
    pub open spec fn with_extension(self, extension: Seq<char>) -> PathView {
        self.with_text(path_with_extension(self.separator, self.text, extension))
    }

    /// What is left of the path below another, if it lies there.
    pub open spec fn below(self, base: PathView) -> Option<PathView> {
        match path_below(self.separator, self.text, base.text) {
            Some(text) => Some(self.with_text(text)),
            None => None,
        }
    }

    /// Whether the path and another have the same components.
    pub open spec fn same(self, other: PathView) -> bool {
        same_path(self.separator, self.text, other.text)
    }
}

/// A list of paths.
pub open spec fn paths_view(list: Seq<HostPath>) -> Seq<PathView> {
    Seq::new(list.len(), |i: int| list[i]@)
}

/// `std::path::MAIN_SEPARATOR`: the separator of the platform. Nothing is claimed of which one it is.
#[verifier::external_body]
fn main_separator() -> (r: char) {
    std::path::MAIN_SEPARATOR
}

impl HostPath {
    /// The path of a text.
    pub fn new(text: &str) -> (r: HostPath)
        ensures
            r@.text == text@,
    {
        HostPath { separator: main_separator(), text: text.to_owned() }
    }

    /// The text of the path.
    pub fn as_str(&self) -> (r: &str)
        ensures
            r@ == self@.text,
    {
        self.text.as_str()
    }

    /// Another copy of the path.
    pub fn duplicate(&self) -> (r: HostPath)
        ensures
            r@ == self@,
    {
        HostPath { separator: self.separator, text: self.text.clone() }
    }

    /// Another path of the same platform.
    pub fn with_text(&self, text: &str) -> (r: HostPath)
        ensures
            r@ == self@.with_text(text@),
    {
        HostPath { separator: self.separator, text: text.to_owned() }
    }

    /// `Path::join`: the path with another adjoined to it.
    #[verifier::external_body]
    pub(crate) fn join(&self, rest: &str) -> (r: HostPath)
        ensures
            r@ == self@.with_text(joined_path(self@.separator, self@.text, rest@)),
    {
        let text = Path::new(&self.text).join(rest).to_string_lossy().into_owned();
        HostPath { separator: self.separator, text }
    }

    /// `Path::parent`: the path without its last component, if it has one to lose.
    #[verifier::external_body]
    pub(crate) fn parent(&self) -> (r: Option<HostPath>)
        ensures
            r is Some <==> parent_path(self@.separator, self@.text) is Some,
            r matches Some(parent) ==> parent@ == self@.with_text(
                parent_path(self@.separator, self@.text)->0,
            ),
    {
        let text = Path::new(&self.text).parent().map(|p| p.to_string_lossy().into_owned());
        text.map(|text| HostPath { separator: self.separator, text })
    }

    /// `Path::file_name`: the last component of the path, if it is a normal one.
    #[verifier::external_body]
    pub(crate) fn file_name(&self) -> (r: Option<String>)
        ensures
            text::opt_text(r) == file_name_of(self@.separator, self@.text),
    {
        Path::new(&self.text).file_name().map(|name| name.to_string_lossy().into_owned())
    }

    /// `Path::with_extension`: the path with its extension replaced. It panics where the extension
    /// holds a path separator.
    #[verifier::external_body]
    pub(crate) fn with_extension(&self, extension: &str) -> (r: HostPath)
        requires
            !extension@.contains('/'),
            !extension@.contains('\\'),
        ensures
            r@ == self@.with_text(
                path_with_extension(self@.separator, self@.text, extension@),
            ),
    {
        let text = Path::new(&self.text).with_extension(extension).to_string_lossy().into_owned();
        HostPath { separator: self.separator, text }
    }

    /// `Path::strip_prefix`: what is left of the path below `base`, if it lies there.
    #[verifier::external_body]
    pub(crate) fn below(&self, base: &HostPath) -> (r: Option<HostPath>)
        ensures
            r is Some <==> path_below(self@.separator, self@.text, base@.text) is Some,
            r matches Some(rest) ==> rest@ == self@.with_text(
                path_below(self@.separator, self@.text, base@.text)->0,
            ),
    {
        let rest = Path::new(&self.text).strip_prefix(&base.text).ok();
        let text = rest.map(|p| p.to_string_lossy().into_owned());
        text.map(|text| HostPath { separator: self.separator, text })
    }

    /// `==` of `Path`: whether two paths have the same components.
    #[verifier::external_body]
    pub(crate) fn same(&self, other: &HostPath) -> (r: bool)
        ensures
            r == same_path(self@.separator, self@.text, other@.text),
    {
        Path::new(&self.text) == Path::new(&other.text)
    }
}

/// What is done to a path is done to its text by the conventions of its platform, and gives a path of
/// the same platform.
pub proof fn law_paths(path: PathView, rest: Seq<char>, other: PathView)
    ensures
        path.join(rest) == (PathView {
            separator: path.separator,
            text: joined_path(path.separator, path.text, rest),
        }),
        path.with_extension(rest) == (PathView {
            separator: path.separator,
            text: path_with_extension(path.separator, path.text, rest),
        }),
        path.with_text(rest) == (PathView { separator: path.separator, text: rest }),
        path.file_name() == file_name_of(path.separator, path.text),
        parent_path(path.separator, path.text) matches Some(text) ==> path.parent() == Some(
            PathView { separator: path.separator, text },
        ),
        parent_path(path.separator, path.text) is None ==> path.parent() is None,
        path_below(path.separator, path.text, other.text) matches Some(text) ==> path.below(other)
            == Some(PathView { separator: path.separator, text }),
        path_below(path.separator, path.text, other.text) is None ==> path.below(other) is None,
        path.same(other) == same_path(path.separator, path.text, other.text),
{
}

} // verus!
