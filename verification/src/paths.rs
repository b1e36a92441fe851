//! Paths as text: the output path of a conversion and the path shown in
//! report lines.

use vstd::prelude::*;

verus! {

/// What `pathdiff::diff_paths` returns for a path and a base directory: the
/// path expressed relative to the base, where it finds one.
pub uninterp spec fn relative_path(path: Seq<char>, base: Seq<char>) -> Option<Seq<char>>;

/// What `std::path::Path::with_extension` returns for a path and an extension.
pub uninterp spec fn with_extension(path: Seq<char>, extension: Seq<char>) -> Seq<char>;

/// No character of `text` separates path components, on any platform.
pub open spec fn separator_free(text: Seq<char>) -> bool {
    forall|i: int| 0 <= i < text.len() ==> text[i] != '/' && text[i] != '\\'
}

/// The first of the relative path, the canonical path and the raw path that
/// is there.
pub open spec fn display_choice(
    relative: Option<Seq<char>>,
    canonical: Option<Seq<char>>,
    raw: Seq<char>,
) -> Seq<char> {
    match relative {
        Some(shown) => shown,
        None => match canonical {
            Some(shown) => shown,
            None => raw,
        },
    }
}

/// The path relative to the base directory, where a base directory is known
/// and such a relative path exists.
pub open spec fn relative_to(path: Seq<char>, base: Option<Seq<char>>) -> Option<Seq<char>> {
    match base {
        Some(dir) => relative_path(path, dir),
        None => None,
    }
}

/// Calls `pathdiff::diff_paths`. Trusted: the result is a function of the two
/// paths alone, named `relative_path`. Both arguments are valid UTF-8, and the
/// result is put together from their components and `..`, so turning it back
/// into a string loses nothing.
#[verifier::external_body]
fn diff_paths(path: &str, base: &str) -> (shown: Option<String>)
    ensures
        match shown {
            Some(text) => relative_path(path@, base@) == Some(text@),
            None => relative_path(path@, base@) is None,
        },
{
    pathdiff::diff_paths(path, base).map(|found| found.to_string_lossy().into_owned())
}

/// Calls `std::path::Path::with_extension`. Trusted: the result is a function
/// of the path and the extension alone, named `with_extension`. The standard
/// library panics on an extension that holds a path separator, so such an
/// extension is not admitted.
#[verifier::external_body]
pub(crate) fn replace_extension(path: &str, extension: &str) -> (replaced: String)
    requires
        separator_free(extension@),
    ensures
        replaced@ == with_extension(path@, extension@),
{
    std::path::Path::new(path).with_extension(extension).to_string_lossy().into_owned()
}

/// Whether no character of `text` separates path components.
pub fn is_separator_free(text: &str) -> (free: bool)
    ensures
        free == separator_free(text@),
{
    let n = text.unicode_len();
    let mut i: usize = 0;
    while i < n
        invariant
            n == text@.len(),
            i <= n,
            forall|j: int| 0 <= j < i ==> text@[j] != '/' && text@[j] != '\\',
        decreases n - i,
    {
        let c = text.get_char(i);
        if c == '/' || c == '\\' {
            return false;
        }
        i += 1;
    }
    true
}

/// `path` relative to `base`, if a base directory is known and the path can be
/// expressed relative to it.
pub fn relative_display(path: &str, base: &Option<String>) -> (shown: Option<String>)
    ensures
        option_text(shown) == relative_to(path@, option_text(*base)),
{
    match base {
        Some(dir) => diff_paths(path, dir.as_str()),
        None => None,
    }
}

/// The view of an optional string.
pub open spec fn option_text(text: Option<String>) -> Option<Seq<char>> {
    match text {
        Some(held) => Some(held@),
        None => None,
    }
}

/// Picks the path to show: the relative one, else the canonical one, else the
/// path as it was given.
pub fn select_display_path(relative: Option<String>, canonical: Option<String>, raw: &str) -> (shown:
    String)
    ensures
        shown@ == display_choice(option_text(relative), option_text(canonical), raw@),
{
    match relative {
        Some(text) => text,
        None => match canonical {
            Some(text) => text,
            None => String::from_str(raw),
        },
    }
}

} // verus!
