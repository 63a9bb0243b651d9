use vstd::prelude::*;
use vstd::string::StringExecFns;

use crate::text::{chars_of, push_str, starts_with, str_equals, str_starts_with};

verus! {

/// The project root for a working directory given by its path components: the
/// directory itself, with a trailing `src-tauri` and then a trailing `gui` component
/// taken off (the application may be started from either folder).
pub open spec fn project_root_of(c: Seq<Seq<char>>) -> Seq<Seq<char>> {
    let a = if c.len() > 0 && c.last() == "src-tauri"@ {
        c.drop_last()
    } else {
        c
    };
    if a.len() > 0 && a.last() == "gui"@ {
        a.drop_last()
    } else {
        a
    }
}

/// The project root for the working directory with these path components.
pub fn project_root(components: Vec<String>) -> (root: Vec<String>)
    ensures
        root@.map_values(|s: String| s@) == project_root_of(components@.map_values(|s: String| s@)),
{
    let ghost c = components@.map_values(|s: String| s@);
    let mut root = components;
    let n = root.len();
    if n > 0 && str_equals(root[n - 1].as_str(), "src-tauri") {
        root.pop();
        assert(root@.map_values(|s: String| s@) =~= c.drop_last());
    }
    let ghost a = root@.map_values(|s: String| s@);
    let n = root.len();
    if n > 0 && str_equals(root[n - 1].as_str(), "gui") {
        root.pop();
        assert(root@.map_values(|s: String| s@) =~= a.drop_last());
    }
    root
}

/// `path` with every `/` turned into `\`, as a folder is opened on Windows.
pub open spec fn windows_path_of(path: Seq<char>) -> Seq<char> {
    path.map_values(|c: char| if c == '/' { '\\' } else { c })
}

/// Law: only `/` is rewritten. The result has the path's length; at every index it holds
/// `\` where the path holds `/`, and the path's own character everywhere else.
pub proof fn lemma_windows_path_only_slashes(path: Seq<char>)
    ensures
        windows_path_of(path).len() == path.len(),
        forall|k: int|
            0 <= k < path.len() ==> #[trigger] windows_path_of(path)[k] == (if path[k] == '/' {
                '\\'
            } else {
                path[k]
            }),
{
}

/// `path` with every `/` turned into `\`.
pub fn windows_path(path: &str) -> (out: String)
    ensures
        out@ == windows_path_of(path@),
        out@.len() == path@.len(),
        forall|k: int|
            0 <= k < path@.len() ==> #[trigger] out@[k] == (if path@[k] == '/' {
                '\\'
            } else {
                path@[k]
            }),
{
    proof {
        lemma_windows_path_only_slashes(path@);
    }
    let v = chars_of(path);
    let mut out = String::new();
    let mut i: usize = 0;
    while i < v.len()
        invariant
            i <= v.len(),
            v@ == path@,
            out@ == windows_path_of(v@.take(i as int)),
        decreases v.len() - i,
    {
        let c = if v[i] == '/' { '\\' } else { v[i] };
        out.push(c);
        i += 1;
        assert(windows_path_of(v@.take(i as int)) =~= windows_path_of(v@.take(i - 1)).push(c));
    }
    assert(v@.take(v@.len() as int) == v@);
    out
}

/// The file name proposed when a workflow is saved.
pub fn workflow_file_name(default_name: &str) -> (out: String)
    ensures
        out@ == default_name@ + ".json"@,
{
    let mut out = String::new();
    push_str(&mut out, default_name);
    push_str(&mut out, ".json");
    out
}

/// The folder of a CPython 3.12 that `uv` installed.
pub open spec fn is_python_install(name: Seq<char>) -> bool {
    starts_with(name, "cpython-3.12"@)
}

/// The first entry of the Python install folder that is a CPython 3.12 install whose
/// interpreter exists: `names[i]` is the entry's name, `has_binary[i]` whether its
/// interpreter is there.
pub fn first_python_install(names: &Vec<String>, has_binary: &Vec<bool>) -> (r: Option<usize>)
    requires
        names.len() == has_binary.len(),
    ensures
        match r {
            Some(i) => {
                &&& i < names.len()
                &&& is_python_install(names@[i as int]@) && has_binary@[i as int]
                &&& forall|j: int| 0 <= j < i ==> !(is_python_install(#[trigger] names@[j]@)
                    && has_binary@[j])
            },
            None => forall|j: int| 0 <= j < names.len() ==> !(is_python_install(
                #[trigger] names@[j]@,
            ) && has_binary@[j]),
        },
{
    let mut i: usize = 0;
    while i < names.len()
        invariant
            i <= names.len(),
            names.len() == has_binary.len(),
            forall|j: int| 0 <= j < i ==> !(is_python_install(#[trigger] names@[j]@)
                && has_binary@[j]),
        decreases names.len() - i,
    {
        if has_binary[i] && str_starts_with(names[i].as_str(), "cpython-3.12") {
            return Some(i);
        }
        i += 1;
    }
    None
}

/// The log line for an archive being unpacked.
pub fn extracting_message(name: &str) -> (out: String)
    ensures
        out@ == "Extracting "@ + name@ + "..."@,
{
    let mut out = String::from_str("Extracting ");
    push_str(&mut out, name);
    push_str(&mut out, "...");
    out
}

} // verus!
