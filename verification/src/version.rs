//! The package version, read from the build tool's package identifier.
//!
//! An identifier has the shape `<path>#<name>@<version>` or
//! `<path>#<version>`.

use crate::command::{Command, CommandView};
use crate::text::{
    is_whitespace, lemma_index_of_first_absent, lemma_index_of_first_at,
    lemma_trimmed_keeps_tight, second_field, split_second, trim, trimmed,
};
use vstd::prelude::*;
use vstd::string::*;

verus! {

/// The version that stands for an identifier without a `#`.
pub open spec fn default_version() -> Seq<char> {
    "0.0.0"@
}

/// The version that a package identifier names.
///
/// The identifier's second `#`-separated field is taken, or
/// [`default_version`] where it has none.  Of that, the second `@`-separated
/// field is the version, or all of it where it holds no `@`.  White space
/// around the version does not count.
pub open spec fn version_of(pkgid: Seq<char>) -> Seq<char> {
    let fragment = match second_field(pkgid, '#') {
        Some(f) => f,
        None => default_version(),
    };
    let version = match second_field(fragment, '@') {
        Some(v) => v,
        None => fragment,
    };
    trimmed(version)
}

/// A version as it stands in a well-formed identifier: free of `#` and `@`,
/// with no white space at either end.
pub open spec fn is_plain_version(v: Seq<char>) -> bool {
    &&& forall|i: int| 0 <= i < v.len() ==> v[i] != '#' && v[i] != '@'
    &&& v.len() > 0 ==> !is_whitespace(v.first()) && !is_whitespace(v.last())
}

/// A version written with decimal digits and dots only, such as `0.115.0`.
pub open spec fn is_dotted_version(v: Seq<char>) -> bool {
    forall|i: int| 0 <= i < v.len() ==> ('0' <= #[trigger] v[i] <= '9' || v[i] == '.')
}

/// The command that prints the package identifier: `cargo pkgid`.
pub fn pkgid_command() -> (command: Command)
    ensures
        command@ == (CommandView { program: "cargo"@, args: seq!["pkgid"@], dir: None }),
{
    let command = Command {
        program: "cargo".to_owned(),
        args: vec!["pkgid".to_owned()],
        dir: None,
    };
    assert(command@.args =~= seq!["pkgid"@]);
    command
}

/// The version named by the output of [`pkgid_command`].
pub fn get_version(pkgid: &str) -> (version: String)
    ensures
        version@ == version_of(pkgid@),
{
    let fragment = match split_second(pkgid, '#') {
        Some(f) => f,
        None => "0.0.0",
    };
    let version = match split_second(fragment, '@') {
        Some(v) => v,
        None => fragment,
    };
    trim(version)
}

/// A version of digits and dots is a plain version.
pub proof fn lemma_dotted_version_is_plain(v: Seq<char>)
    requires
        is_dotted_version(v),
    ensures
        is_plain_version(v),
{
}

/// A fragment without `#` that follows the first `#` of an identifier is the
/// identifier's second field.
proof fn lemma_fragment_after_path(path: Seq<char>, fragment: Seq<char>)
    requires
        forall|i: int| 0 <= i < path.len() ==> path[i] != '#',
        forall|i: int| 0 <= i < fragment.len() ==> fragment[i] != '#',
    ensures
        second_field(path + seq!['#'] + fragment, '#') == Some(fragment),
{
    let pkgid = path + seq!['#'] + fragment;
    lemma_index_of_first_at(pkgid, '#', path.len() as int);
    assert(pkgid.skip(path.len() as int + 1) =~= fragment);
    lemma_index_of_first_absent(fragment, '#');
}

/// For an identifier `<path>#<name>@<version>` the version is `<version>`,
/// whenever the path holds no `#`, the name neither `#` nor `@`, and the
/// version is plain.
pub proof fn lemma_version_of_named_package(
    path: Seq<char>,
    name: Seq<char>,
    version: Seq<char>,
)
    requires
        forall|i: int| 0 <= i < path.len() ==> path[i] != '#',
        forall|i: int| 0 <= i < name.len() ==> name[i] != '#' && name[i] != '@',
        is_plain_version(version),
    ensures
        version_of(path + seq!['#'] + name + seq!['@'] + version) == version,
{
    let fragment = name + seq!['@'] + version;
    assert(path + seq!['#'] + name + seq!['@'] + version =~= path + seq!['#'] + fragment);
    lemma_fragment_after_path(path, fragment);
    lemma_index_of_first_at(fragment, '@', name.len() as int);
    assert(fragment.skip(name.len() as int + 1) =~= version);
    lemma_index_of_first_absent(version, '@');
    lemma_trimmed_keeps_tight(version);
}

/// For an identifier `<path>#<version>` the version is `<version>`, whenever
/// the path holds no `#` and the version is plain.
pub proof fn lemma_version_of_unnamed_package(path: Seq<char>, version: Seq<char>)
    requires
        forall|i: int| 0 <= i < path.len() ==> path[i] != '#',
        is_plain_version(version),
    ensures
        version_of(path + seq!['#'] + version) == version,
{
    lemma_fragment_after_path(path, version);
    lemma_index_of_first_absent(version, '@');
    lemma_trimmed_keeps_tight(version);
}

/// For an identifier without a `#` the version is `0.0.0`.
pub proof fn lemma_version_of_bare_output(pkgid: Seq<char>)
    requires
        forall|i: int| 0 <= i < pkgid.len() ==> pkgid[i] != '#',
    ensures
        version_of(pkgid) == default_version(),
        default_version() == seq!['0', '.', '0', '.', '0'],
{
    reveal_strlit("0.0.0");
    let zero = default_version();
    lemma_index_of_first_absent(pkgid, '#');
    lemma_index_of_first_absent(zero, '@');
    lemma_trimmed_keeps_tight(zero);
}

} // verus!
