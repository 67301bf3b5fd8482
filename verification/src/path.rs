//! The check that a resolved path lies in the invoking user's home directory.

use crate::text::{chars_of, find_from, position_of, same_text, slice_of, texts};
use vstd::prelude::*;
use vstd::string::*;

verus! {

/// Why a path was refused.
#[derive(Debug, PartialEq, Eq)]
pub enum PathError {
    /// The resolved path lies outside the invoking user's home directory, or
    /// is too short to lie in any home directory.
    NotInHomeDirectory,
    /// The path does not exist or could not be resolved. Holds the text of
    /// the failure on the file system.
    ResolutionError(String),
    /// The resolved path cannot be written as text.
    EncodingError,
}

/// A `PathError` over sequences of characters.
pub enum PathErrorView {
    NotInHomeDirectory,
    ResolutionError(Seq<char>),
    EncodingError,
}

impl View for PathError {
    type V = PathErrorView;

    open spec fn view(&self) -> PathErrorView {
        match self {
            PathError::NotInHomeDirectory => PathErrorView::NotInHomeDirectory,
            PathError::ResolutionError(cause) => PathErrorView::ResolutionError(cause@),
            PathError::EncodingError => PathErrorView::EncodingError,
        }
    }
}

/// What resolving a path on the file system gave.
#[derive(Debug, PartialEq, Eq)]
pub enum Resolution {
    /// The path does not exist or could not be resolved. Holds the text of
    /// the failure on the file system.
    Missing(String),
    /// The absolute form of the path, free of symbolic links. Where that form
    /// is no text, `path` holds it with the offending parts replaced, and
    /// `exact` is false.
    Found { path: String, exact: bool },
}

/// A `Resolution` over sequences of characters.
pub enum ResolutionView {
    Missing(Seq<char>),
    Found { path: Seq<char>, exact: bool },
}

impl View for Resolution {
    type V = ResolutionView;

    open spec fn view(&self) -> ResolutionView {
        match self {
            Resolution::Missing(cause) => ResolutionView::Missing(cause@),
            Resolution::Found { path, exact } => ResolutionView::Found {
                path: path@,
                exact: *exact,
            },
        }
    }
}

/// What follows the first `/` of `path`; nothing where it holds none.
pub open spec fn after_first_slash(path: Seq<char>) -> Seq<char> {
    let k = position_of(path, '/') as int;
    if k < path.len() {
        path.subrange(k + 1, path.len() as int)
    } else {
        Seq::empty()
    }
}

/// The segments of `path`: the pieces between its `/` characters that are
/// not empty, in order.
pub open spec fn segments(path: Seq<char>) -> Seq<Seq<char>>
    decreases path.len(),
{
    if path.len() == 0 {
        Seq::empty()
    } else {
        let k = position_of(path, '/') as int;
        if k == 0 {
            segments(after_first_slash(path))
        } else {
            seq![path.subrange(0, k)] + segments(after_first_slash(path))
        }
    }
}

/// Whether `path` starts at the root of the file system.
pub open spec fn is_rooted(path: Seq<char>) -> bool {
    path.len() > 0 && path[0] == '/'
}

/// Whether the absolute path `path` lies in the home directory `home` of
/// `user`. Both paths start at the root, the segments of `home` are the
/// first segments of `path`, and `path` is long enough to name the owner of
/// a home directory, as its second segment, which is `user`. The home
/// directory itself counts.
pub open spec fn in_home(path: Seq<char>, home: Seq<char>, user: Seq<char>) -> bool {
    &&& is_rooted(path)
    &&& is_rooted(home)
    &&& segments(home).is_prefix_of(segments(path))
    &&& segments(path).len() >= 2
    &&& segments(path)[1] == user
}

/// The segments of `parts`, each followed by the next after a `/`.
pub open spec fn joined(parts: Seq<Seq<char>>) -> Seq<char>
    decreases parts.len(),
{
    if parts.len() == 0 {
        Seq::empty()
    } else if parts.len() == 1 {
        parts[0]
    } else {
        joined(parts.drop_last()) + seq!['/'] + parts.last()
    }
}

/// The path below the home directory `home` that `path` names: its
/// segments after those of `home`, joined by `/`. It is empty for the home
/// directory itself and for any path that is no longer.
pub open spec fn below_home(path: Seq<char>, home: Seq<char>) -> Seq<char> {
    if segments(path).len() <= segments(home).len() {
        Seq::empty()
    } else {
        joined(segments(path).skip(segments(home).len() as int))
    }
}

/// What the check of one resolved path gives for the home directory `home`
/// of `user`.
pub open spec fn checked_path(resolution: ResolutionView, home: Seq<char>, user: Seq<char>) -> Result<
    Seq<char>,
    PathErrorView,
> {
    match resolution {
        ResolutionView::Missing(cause) => Err(PathErrorView::ResolutionError(cause)),
        ResolutionView::Found { path, exact } => if !in_home(path, home, user) {
            Err(PathErrorView::NotInHomeDirectory)
        } else if !exact {
            Err(PathErrorView::EncodingError)
        } else {
            Ok(path)
        },
    }
}

/// The segments of `path`, in order.
pub fn split_segments(path: &str) -> (parts: Vec<String>)
    ensures
        texts(parts@) == segments(path@),
{
    let chars = chars_of(path);
    let n = chars.len();
    let mut parts: Vec<String> = Vec::new();
    let mut start: usize = 0;
    assert(path@.subrange(0, n as int) =~= path@);
    assert(texts(parts@) + segments(path@) =~= segments(path@));
    while start < n
        invariant
            chars@ == path@,
            n == chars.len(),
            start <= n,
            segments(path@) == texts(parts@) + segments(path@.subrange(start as int, n as int)),
        decreases n - start,
    {
        let end = find_from(&chars, start, '/');
        let next = if end < n {
            end + 1
        } else {
            n
        };
        let ghost before = texts(parts@);
        proof {
            let rest = path@.subrange(start as int, n as int);
            assert(after_first_slash(rest) =~= path@.subrange(next as int, n as int));
            assert(rest.subrange(0, end - start) =~= path@.subrange(start as int, end as int));
        }
        if start < end {
            parts.push(slice_of(path, start, end));
            proof {
                let piece = path@.subrange(start as int, end as int);
                let tail = segments(path@.subrange(next as int, n as int));
                assert(texts(parts@) =~= before + seq![piece]);
                assert((before + seq![piece]) + tail =~= before + (seq![piece] + tail));
            }
        }
        start = next;
    }
    assert(path@.subrange(n as int, n as int) =~= Seq::<char>::empty());
    assert(texts(parts@) + Seq::<Seq<char>>::empty() =~= texts(parts@));
    parts
}

/// Whether `path` starts at the root of the file system.
pub fn starts_at_root(path: &str) -> (yes: bool)
    ensures
        yes == is_rooted(path@),
{
    path.unicode_len() > 0 && path.get_char(0) == '/'
}

/// Whether the strings of `first` are the first strings of `list`.
pub fn begins_with(list: &Vec<String>, first: &Vec<String>) -> (yes: bool)
    ensures
        yes == texts(first@).is_prefix_of(texts(list@)),
{
    if first.len() > list.len() {
        return false;
    }
    let mut i: usize = 0;
    while i < first.len()
        invariant
            i <= first.len() <= list.len(),
            forall|j: int| 0 <= j < i ==> texts(first@)[j] == texts(list@)[j],
        decreases first.len() - i,
    {
        if !same_text(first[i].as_str(), list[i].as_str()) {
            assert(texts(list@).subrange(0, first@.len() as int)[i as int] != texts(first@)[i as int]);
            return false;
        }
        i += 1;
    }
    assert(texts(first@) =~= texts(list@).subrange(0, first@.len() as int));
    true
}

/// Whether the absolute path `path` lies in the home directory `home` of
/// `user`.
pub fn is_in_home(path: &str, home: &str, user: &str) -> (yes: bool)
    ensures
        yes == in_home(path@, home@, user@),
{
    if !starts_at_root(path) || !starts_at_root(home) {
        return false;
    }
    let parts = split_segments(path);
    let above = split_segments(home);
    assert(parts.len() >= 2 ==> texts(parts@)[1] == parts@[1]@);
    begins_with(&parts, &above) && parts.len() >= 2 && same_text(parts[1].as_str(), user)
}

/// Checks one resolved path against the home directory `home` of the
/// invoking user `user`.
///
/// A path that could not be resolved gives `ResolutionError`, with the text
/// of the failure. A resolved path outside `home`, or one whose second
/// segment is not `user`, gives `NotInHomeDirectory`, whatever else holds of
/// it. One inside that is no text gives `EncodingError`. Any other path is
/// handed back unchanged.
pub fn canonicalize_file_path(resolution: &Resolution, home: &str, user: &str) -> (checked: Result<
    String,
    PathError,
>)
    ensures
        match checked_path(resolution@, home@, user@) {
            Ok(path) => checked matches Ok(text) && text@ == path,
            Err(error) => checked matches Err(found) && found@ == error,
        },
{
    match resolution {
        Resolution::Missing(cause) => Err(PathError::ResolutionError(cause.clone())),
        Resolution::Found { path, exact } => {
            if !is_in_home(path.as_str(), home, user) {
                Err(PathError::NotInHomeDirectory)
            } else if !*exact {
                Err(PathError::EncodingError)
            } else {
                Ok(path.clone())
            }
        },
    }
}

/// The path below the home directory `home` that the absolute path `path`
/// names.
pub fn path_below_home(path: &str, home: &str) -> (below: String)
    ensures
        below@ == below_home(path@, home@),
{
    let parts = split_segments(path);
    let above = split_segments(home);
    let skip = above.len();
    let mut below = String::new();
    if parts.len() <= skip {
        return below;
    }
    let mut i: usize = skip;
    let ghost rest = segments(path@).skip(skip as int);
    assert(rest.take(0) =~= Seq::<Seq<char>>::empty());
    while i < parts.len()
        invariant
            skip <= i <= parts.len(),
            skip < parts.len(),
            texts(parts@) == segments(path@),
            rest == segments(path@).skip(skip as int),
            below@ == joined(rest.take(i - skip)),
        decreases parts.len() - i,
    {
        if i > skip {
            below.append("/");
        }
        below.append(parts[i].as_str());
        proof {
            reveal_strlit("/");
            assert("/"@ =~= seq!['/']);
            let shown = rest.take(i - skip + 1);
            assert(shown.drop_last() =~= rest.take(i - skip));
            assert(shown.last() == texts(parts@)[i as int]);
            assert(texts(parts@)[i as int] == parts@[i as int]@);
            assert(below@ =~= joined(shown));
        }
        i += 1;
    }
    assert(rest.take(parts.len() - skip) =~= rest);
    below
}

} // verus!
