use vstd::prelude::*;

use crate::platform::TargetOs;

verus! {

/// File name of the viewer executable on the given operating system.
pub open spec fn viewer_exe_name_spec(os: TargetOs) -> Seq<char> {
    match os {
        TargetOs::Windows => "simulang-log-viewer.exe"@,
        _ => "simulang-log-viewer"@,
    }
}

/// `true` when `c` separates path components on some supported platform.
pub open spec fn is_path_separator(c: char) -> bool {
    c == '/' || c == '\\'
}

/// `true` when `name` is a single relative path component: non-empty, with
/// no separator and no drive colon.
pub open spec fn is_plain_component(name: Seq<char>) -> bool {
    &&& name.len() > 0
    &&& forall|i: int| 0 <= i < name.len() ==> !is_path_separator(#[trigger] name[i]) && name[i] != ':'
}

/// `path` has no drive, network, verbatim or device prefix on any
/// platform: it holds no backslash and no colon, and does not start with two
/// slashes. Every platform splits such a path into components alike, at its
/// slashes.
pub open spec fn has_no_prefix(path: Seq<char>) -> bool {
    &&& forall|i: int| 0 <= i < path.len() ==> #[trigger] path[i] != '\\' && path[i] != ':'
    &&& !(path.len() >= 2 && path[0] == '/' && path[1] == '/')
}

/// `path` ends with a file name: it is not empty, has no prefix, and its
/// last `/`-separated segment is neither empty nor `.`. Such a path has a
/// final component, and so a parent directory, on every platform.
pub open spec fn ends_in_file_name(path: Seq<char>) -> bool {
    &&& path.len() > 0
    &&& has_no_prefix(path)
    &&& path.last() != '/'
    &&& !(path.last() == '.' && (path.len() == 1 || path[path.len() - 2] == '/'))
}

/// `path` is the root `/`.
pub open spec fn is_root(path: Seq<char>) -> bool {
    path.len() == 1 && path[0] == '/'
}

/// `path` starts with two separators, as network, verbatim and device paths
/// do on Windows.
pub open spec fn starts_with_two_separators(path: Seq<char>) -> bool {
    path.len() >= 2 && is_path_separator(path[0]) && is_path_separator(path[1])
}

/// The characters after the last separator (`/` or `\\`) of `path`.
pub open spec fn last_segment(path: Seq<char>) -> Seq<char>
    decreases path.len(),
{
    if path.len() == 0 || is_path_separator(path.last()) {
        Seq::empty()
    } else {
        last_segment(path.drop_last()).push(path.last())
    }
}

/// `path` ends in a name on every platform: it does not start with two
/// separators, and what follows its last separator (`/` or `\\`) is not
/// empty, not `.` and holds no colon. Drive-letter and backslash paths such
/// as `C:\\a\\lib.node` are among them. Such a path has a final component,
/// and so a parent directory, whatever the platform's path syntax.
pub open spec fn ends_in_name(path: Seq<char>) -> bool {
    &&& !starts_with_two_separators(path)
    &&& last_segment(path).len() > 0
    &&& !last_segment(path).contains(':')
    &&& last_segment(path) != seq!['.']
}

/// `path` holds no slash.
pub open spec fn has_no_slash(path: Seq<char>) -> bool {
    forall|i: int| 0 <= i < path.len() ==> #[trigger] path[i] != '/'
}

/// Length of the part of `path` that trimming never removes: a leading
/// root slash, or a leading `.` segment followed by a slash.
pub open spec fn body_start(path: Seq<char>) -> int {
    if path.len() > 0 && path[0] == '/' {
        1
    } else if path.len() >= 2 && path[0] == '.' && path[1] == '/' {
        1
    } else {
        0
    }
}

/// `s` without its trailing slashes and trailing `.` segments, never
/// shortened below `floor` characters.
pub open spec fn trim_dir_end(s: Seq<char>, floor: int) -> Seq<char>
    decreases s.len(),
{
    if s.len() > floor && floor >= 0 && (s.last() == '/' || (s.last() == '.' && (s.len() - 1 == floor
        || s[s.len() - 2] == '/'))) {
        trim_dir_end(s.drop_last(), floor)
    } else {
        s
    }
}

/// The last slash of `path` is at `k`.
pub open spec fn last_slash_at(path: Seq<char>, k: int) -> bool {
    &&& 0 <= k < path.len()
    &&& path[k] == '/'
    &&& has_no_slash(path.skip(k + 1))
}

/// The parent directory of a path without prefix whose last slash is at
/// `k`: everything up to that slash, less trailing slashes and `.`
/// segments, but keeping a leading root or `.` segment. `/x` gives `/`,
/// `a//x` and `a/./x` give `a`, `./x` gives `.`.
pub open spec fn parent_dir_spec(path: Seq<char>, k: int) -> Seq<char> {
    trim_dir_end(path.take(k + 1), body_start(path))
}

/// What `Path::join` gives for a directory without prefix and a plain
/// component: the directory, a separator unless the directory is empty or
/// ends in a slash, then the component.
pub open spec fn join_spec(res: Seq<char>, dir: Seq<char>, name: Seq<char>) -> bool {
    if dir.len() == 0 || dir.last() == '/' {
        res == dir + name
    } else {
        joined_with_separator(res, dir, name)
    }
}

/// `parent` is the empty path.
pub open spec fn is_empty_dir(parent: Option<String>) -> bool {
    parent matches Some(dir) && dir@.len() == 0
}

/// For a path without prefix that ends in a file name after a slash,
/// `parent` is the directory before that slash.
pub open spec fn parent_is_dir_spec(path: Seq<char>, parent: Option<String>) -> bool {
    forall|k: int|
        ends_in_file_name(path) && #[trigger] last_slash_at(path, k) ==> (parent matches Some(dir) && dir@
            == parent_dir_spec(path, k))
}

/// `res` is `dir`, one separator (which one depends on the platform), then
/// `name`.
pub open spec fn joined_with_separator(res: Seq<char>, dir: Seq<char>, name: Seq<char>) -> bool {
    exists|sep: char| is_path_separator(sep) && res == dir + seq![sep] + name
}

/// `dir` joined with `name`: `dir`, at most one separator, then `name`.
pub open spec fn is_join_of(res: Seq<char>, dir: Seq<char>, name: Seq<char>) -> bool {
    ||| res == dir + name
    ||| joined_with_separator(res, dir, name)
}

/// `res` names the file `name` in a directory that is a strict prefix of
/// `path` (its parent directory).
pub open spec fn is_sibling_of(res: Seq<char>, path: Seq<char>, name: Seq<char>) -> bool {
    exists|dir: Seq<char>|
        #![trigger is_join_of(res, dir, name)]
        dir.len() < path.len() && dir == path.subrange(0, dir.len() as int) && is_join_of(res, dir, name)
}

/// `exe` is the path `name`.
pub open spec fn exe_is(exe: Option<String>, name: Seq<char>) -> bool {
    exe matches Some(e) && e@ == name
}

/// `exe`, if any, names `name` in a directory that is a strict prefix of
/// `library`.
pub open spec fn exe_is_sibling(exe: Option<String>, library: Seq<char>, name: Seq<char>) -> bool {
    exe matches Some(e) ==> is_sibling_of(e@, library, name)
}

/// For a library path without prefix that ends in a file name after a
/// slash, `exe` is `name` joined to the library's parent directory.
pub open spec fn exe_is_beside_parent(exe: Option<String>, library: Seq<char>, name: Seq<char>) -> bool {
    forall|k: int|
        ends_in_file_name(library) && #[trigger] last_slash_at(library, k) ==> (exe matches Some(e) && join_spec(
            e@,
            parent_dir_spec(library, k),
            name,
        ))
}

/// The executable's name: the viewer binary ships next to the loaded
/// library as `simulang-log-viewer`, with `.exe` on Windows.
pub fn viewer_exe_name(os: TargetOs) -> (name: &'static str)
    ensures
        name@ == viewer_exe_name_spec(os),
{
    match os {
        TargetOs::Windows => "simulang-log-viewer.exe",
        _ => "simulang-log-viewer",
    }
}

/// Calls `std::path::Path::parent` on `path`, which removes the final
/// component. The result depends on the platform's path syntax, so only what
/// holds on every platform is stated: a parent is a strictly shorter prefix
/// of the path; the empty path and the root `/` have none; a path without
/// prefix that ends in a file name has one: the empty path when it holds no
/// slash, and otherwise the part before its last slash less trailing
/// slashes and `.` segments, keeping a leading root or `.` segment. What
/// other paths give (drive letters, backslashes, network prefixes, paths
/// ending in a slash or `.`) is left unsaid.
#[verifier::external_body]
fn path_parent(path: &str) -> (parent: Option<String>)
    ensures
        path@.len() == 0 ==> parent is None,
        is_root(path@) ==> parent is None,
        ends_in_file_name(path@) ==> parent is Some,
        ends_in_name(path@) ==> parent is Some,
        ends_in_file_name(path@) && has_no_slash(path@) ==> is_empty_dir(parent),
        parent_is_dir_spec(path@, parent),
        parent matches Some(dir) ==> dir@.len() < path@.len() && dir@ == path@.subrange(0, dir@.len() as int),
{
    std::path::Path::new(path).parent().map(|dir| dir.to_string_lossy().into_owned())
}

/// Calls `std::path::Path::join`. For a directory without prefix and a
/// single plain component, the result is the directory, then a separator
/// unless the directory is empty or ends in a slash (`/` or `\\`, depending
/// on the platform), then the component. Other arguments (prefixed or
/// verbatim directories, absolute or prefixed components) are left unsaid.
#[verifier::external_body]
fn path_join(dir: &str, name: &str) -> (joined: String)
    ensures
        is_plain_component(name@) && has_no_prefix(dir@) ==> join_spec(joined@, dir@, name@),
        is_plain_component(name@) && !starts_with_two_separators(dir@) ==> is_join_of(joined@, dir@, name@),
{
    std::path::Path::new(dir).join(name).to_string_lossy().into_owned()
}

/// Location of the viewer executable, given the path of the loaded library
/// (`None` where discovering it failed): the executable's name in the
/// library's directory. `None` when the library path is unknown or has no
/// parent directory; there is one whenever the path ends in a file name. For
/// a path without prefix that ends in a file name, the result is the name
/// alone when the path holds no slash, and otherwise the name joined to the
/// directory before the last slash (`/opt/pkg/x.node` gives
/// `/opt/pkg/simulang-log-viewer` with the platform's separator, `/x.node`
/// gives `/simulang-log-viewer`).
pub fn viewer_binary(library: Option<String>, os: TargetOs) -> (exe: Option<String>)
    ensures
        library is None ==> exe is None,
        library matches Some(p) && (p@.len() == 0 || is_root(p@)) ==> exe is None,
        library matches Some(p) && ends_in_file_name(p@) ==> exe is Some,
        library matches Some(p) && ends_in_file_name(p@) && has_no_slash(p@) ==> exe_is(exe, viewer_exe_name_spec(os)),
        library matches Some(p) ==> exe_is_beside_parent(exe, p@, viewer_exe_name_spec(os)),
        exe is Some ==> library is Some,
        library matches Some(p) && ends_in_name(p@) ==> exe is Some,
        library matches Some(p) ==> (!starts_with_two_separators(p@) ==> exe_is_sibling(exe, p@, viewer_exe_name_spec(os))),
{
    match library {
        None => None,
        Some(lib) => match path_parent(lib.as_str()) {
            None => None,
            Some(dir) => {
                let name = viewer_exe_name(os);
                proof {
                    reveal_strlit("simulang-log-viewer.exe");
                    reveal_strlit("simulang-log-viewer");
                }
                assert(is_plain_component(viewer_exe_name_spec(os)));
                let exe = path_join(dir.as_str(), name);
                proof {
                    if !starts_with_two_separators(lib@) {
                        if dir@.len() >= 2 {
                            assert(dir@[0] == lib@[0] && dir@[1] == lib@[1]);
                        }
                        assert(!starts_with_two_separators(dir@));
                        assert(is_join_of(exe@, dir@, viewer_exe_name_spec(os)));
                        assert(is_sibling_of(exe@, lib@, viewer_exe_name_spec(os)));
                    }
                    assert forall|k: int|
                        ends_in_file_name(lib@) && #[trigger] last_slash_at(lib@, k) implies join_spec(
                        exe@,
                        parent_dir_spec(lib@, k),
                        viewer_exe_name_spec(os),
                    ) by {
                        assert(has_no_prefix(dir@)) by {
                            assert forall|i: int| 0 <= i < dir@.len() implies #[trigger] dir@[i] != '\\' && dir@[i] != ':' by {
                                assert(dir@[i] == lib@[i]);
                            }
                            if dir@.len() >= 2 {
                                assert(dir@[0] == lib@[0] && dir@[1] == lib@[1]);
                            }
                        }
                    }
                }
                Some(exe)
            },
        },
    }
}

} // verus!
