use vstd::prelude::*;

use crate::component::{spec_hip_root_vars, spec_lib_name, spec_own_vars, Component};
use crate::paths::{join_path, path_join};

verus! {

/// Where to find a native library and what to link: the pair handed to the
/// linker for one component.
#[derive(Debug)]
pub struct LinkSpec {
    pub search_dir: String,
    pub lib_name: String,
}

/// The views of a list of strings.
pub open spec fn string_views(v: Seq<String>) -> Seq<Seq<char>> {
    v.map_values(|s: String| s@)
}

/// The link settings of `c` installed under `root`: its `lib` directory and
/// its fixed library name.
pub fn link_spec(c: Component, root: &str) -> (r: LinkSpec)
    ensures
        r.search_dir@ == path_join(root@, "lib"@),
        r.lib_name@ == spec_lib_name(c),
{
    LinkSpec { search_dir: join_path(root, "lib"), lib_name: String::from_str(c.lib_name()) }
}

/// The build directives that put `s` on the link line.
pub open spec fn spec_link_directives(s: LinkSpec) -> Seq<Seq<char>> {
    seq![
        "cargo:rustc-link-search=native="@ + s.search_dir@,
        "cargo:rustc-link-lib=dylib="@ + s.lib_name@,
    ]
}

/// The directives asking for a rebuild when any variable consulted for `c`
/// changes.
pub open spec fn spec_rerun_directives(c: Component) -> Seq<Seq<char>> {
    (spec_hip_root_vars(c) + spec_own_vars(c)).map_values(|v: Seq<char>| rerun_line(v))
}

/// The directive asking for a rebuild when variable `v` changes.
pub open spec fn rerun_line(v: Seq<char>) -> Seq<char> {
    "cargo:rerun-if-env-changed="@ + v
}

impl LinkSpec {
    /// The linker search-path directive followed by the library directive.
    pub fn directives(&self) -> (r: Vec<String>)
        ensures
            string_views(r@) == spec_link_directives(*self),
    {
        let mut r: Vec<String> = Vec::new();
        r.push(String::from_str("cargo:rustc-link-search=native=").concat(self.search_dir.as_str()));
        r.push(String::from_str("cargo:rustc-link-lib=dylib=").concat(self.lib_name.as_str()));
        assert(string_views(r@) =~= spec_link_directives(*self));
        r
    }
}

/// One rebuild directive for each variable consulted for `c`, in the order
/// they are consulted.
pub fn rerun_directives(c: Component) -> (r: Vec<String>)
    ensures
        string_views(r@) == spec_rerun_directives(c),
{
    let mut names = c.hip_root_vars();
    let mut own = c.own_vars();
    names.append(&mut own);
    let ghost want = spec_hip_root_vars(c) + spec_own_vars(c);
    assert(crate::component::views(names@) =~= want);
    let mut r: Vec<String> = Vec::new();
    let mut i: usize = 0;
    while i < names.len()
        invariant
            0 <= i <= names@.len(),
            names@.len() == want.len(),
            forall|k: int| 0 <= k < names@.len() ==> (#[trigger] names@[k])@ == want[k],
            r@.len() == i,
            forall|k: int| 0 <= k < i ==> (#[trigger] r@[k])@ == rerun_line(want[k]),
        decreases names@.len() - i,
    {
        r.push(String::from_str("cargo:rerun-if-env-changed=").concat(names[i]));
        i += 1;
    }
    assert(string_views(r@) =~= spec_rerun_directives(c));
    r
}

} // verus!
