//! Where things are kept below the user's home directory.
use vstd::prelude::*;
use vstd::string::*;

verus! {

/// `a` followed by `b`.
pub fn cat(a: &str, b: &str) -> (s: String)
    ensures
        s@ == a@ + b@,
{
    String::from_str(a).concat(b)
}

/// The directory that holds the settings and the themes.
pub open spec fn raven_dir(home: Seq<char>) -> Seq<char> {
    home + "/.config/raven"@
}

/// A file or directory directly in the settings directory.
pub open spec fn raven_file(home: Seq<char>, file: Seq<char>) -> Seq<char> {
    home + "/.config/raven/"@ + file
}

/// The directory of the theme `name`.
pub open spec fn theme_dir(home: Seq<char>, name: Seq<char>) -> Seq<char> {
    home + "/.config/raven/themes/"@ + name
}

/// The file `file` of the theme `name`.
pub open spec fn theme_file(home: Seq<char>, name: Seq<char>, file: Seq<char>) -> Seq<char> {
    home + "/.config/raven/themes/"@ + name + "/"@ + file
}

/// The directory that holds the settings and the themes.
pub fn raven_dir_path(home: &str) -> (path: String)
    ensures
        path@ == raven_dir(home@),
{
    cat(home, "/.config/raven")
}

/// A file or directory directly in the settings directory.
pub fn raven_file_path(home: &str, file: &str) -> (path: String)
    ensures
        path@ == raven_file(home@, file@),
{
    cat(home, "/.config/raven/").concat(file)
}

/// The directory of the theme `name`.
pub fn theme_dir_path(home: &str, name: &str) -> (path: String)
    ensures
        path@ == theme_dir(home@, name@),
{
    cat(home, "/.config/raven/themes/").concat(name)
}

/// The file `file` of the theme `name`.
pub fn theme_file_path(home: &str, name: &str, file: &str) -> (path: String)
    ensures
        path@ == theme_file(home@, name@, file@),
{
    cat(home, "/.config/raven/themes/").concat(name).concat("/").concat(file)
}

/// The sibling of a file that takes a new version of it before the file
/// itself is replaced: the same directory, and the file's name after a
/// tilde.
pub open spec fn temp_sibling(dir: Seq<char>, file: Seq<char>) -> Seq<char> {
    dir + "/~"@ + file
}

/// The sibling of `dir/file` that takes a new version of it first.
pub fn temp_sibling_path(dir: &str, file: &str) -> (path: String)
    ensures
        path@ == temp_sibling(dir@, file@),
{
    cat(dir, "/~").concat(file)
}

} // verus!
