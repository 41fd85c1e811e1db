use vstd::prelude::*;

use crate::component::views;
use crate::link::string_views;
use crate::paths::{join_path, path_join};

verus! {

/// Everything the header translator is given for one component: the entry
/// header, where its output goes, the search directories and compiler flags,
/// the symbol filters, and the representation and derive policies.
#[derive(Debug)]
pub struct TranslationConfig {
    pub header: String,
    pub output: String,
    pub raw_lines: Vec<String>,
    pub search_dirs: Vec<String>,
    pub flags: Vec<String>,
    pub allow_functions: Vec<String>,
    pub allow_types: Vec<String>,
    pub allow_vars: Vec<String>,
    pub block_types: Vec<String>,
    pub block_functions: Vec<String>,
    pub open_enums: Vec<String>,
    pub generate_block: bool,
    pub size_t_is_usize: bool,
    pub ctypes_prefix: String,
    pub derive_default: bool,
    pub derive_eq: bool,
    pub derive_ord: bool,
    pub derive_hash: bool,
}

/// The content of a [`TranslationConfig`], with each string as its characters.
#[verifier::ext_equal]
pub struct TranslationView {
    pub header: Seq<char>,
    pub output: Seq<char>,
    pub raw_lines: Seq<Seq<char>>,
    pub search_dirs: Seq<Seq<char>>,
    pub flags: Seq<Seq<char>>,
    pub allow_functions: Seq<Seq<char>>,
    pub allow_types: Seq<Seq<char>>,
    pub allow_vars: Seq<Seq<char>>,
    pub block_types: Seq<Seq<char>>,
    pub block_functions: Seq<Seq<char>>,
    pub open_enums: Seq<Seq<char>>,
    pub generate_block: bool,
    pub size_t_is_usize: bool,
    pub ctypes_prefix: Seq<char>,
    pub derive_default: bool,
    pub derive_eq: bool,
    pub derive_ord: bool,
    pub derive_hash: bool,
}

impl View for TranslationConfig {
    type V = TranslationView;

    open spec fn view(&self) -> TranslationView {
        TranslationView {
            header: self.header@,
            output: self.output@,
            raw_lines: string_views(self.raw_lines@),
            search_dirs: string_views(self.search_dirs@),
            flags: string_views(self.flags@),
            allow_functions: string_views(self.allow_functions@),
            allow_types: string_views(self.allow_types@),
            allow_vars: string_views(self.allow_vars@),
            block_types: string_views(self.block_types@),
            block_functions: string_views(self.block_functions@),
            open_enums: string_views(self.open_enums@),
            generate_block: self.generate_block,
            size_t_is_usize: self.size_t_is_usize,
            ctypes_prefix: self.ctypes_prefix@,
            derive_default: self.derive_default,
            derive_eq: self.derive_eq,
            derive_ord: self.derive_ord,
            derive_hash: self.derive_hash,
        }
    }
}

/// The settings shared by every component: the wrapper header, the output
/// file, lint allowances for the generated names, open enums for every
/// `hip`-prefixed enum, `size_t` as `usize`, C types from `::libc`, and the
/// equality, ordering, hashing and default derives.
pub open spec fn spec_config(
    search_dirs: Seq<Seq<char>>,
    flags: Seq<Seq<char>>,
    allow_functions: Seq<Seq<char>>,
    allow_types: Seq<Seq<char>>,
    allow_vars: Seq<Seq<char>>,
    block_types: Seq<Seq<char>>,
    block_functions: Seq<Seq<char>>,
) -> TranslationView {
    TranslationView {
        header: "wrapper.h"@,
        output: "src/bindings.rs"@,
        raw_lines: seq![
            "#![allow(non_camel_case_types)]"@,
            "#![allow(non_upper_case_globals)]"@,
            "#![allow(non_snake_case)]"@,
        ],
        search_dirs,
        flags,
        allow_functions,
        allow_types,
        allow_vars,
        block_types,
        block_functions,
        open_enums: seq!["hip.*"@],
        generate_block: false,
        size_t_is_usize: true,
        ctypes_prefix: "::libc"@,
        derive_default: true,
        derive_eq: true,
        derive_ord: true,
        derive_hash: true,
    }
}

/// The runtime's translation: a C header, searched for under the runtime's
/// `include` and `include/hipify` directories, with the AMD platform macro and
/// no symbol filter.
pub open spec fn spec_runtime_translation(hip_root: Seq<char>) -> TranslationView {
    spec_config(
        seq![path_join(hip_root, "include"@), path_join(hip_root, "include/hipify"@)],
        seq!["-D__HIP_PLATFORM_AMD__"@],
        seq![],
        seq![],
        seq![],
        seq![],
        seq![],
    )
}

/// hipBLAS's translation: a C header, searched for under its own `include`
/// directory and then the runtime's, with no flag and no symbol filter.
pub open spec fn spec_blas_translation(blas_root: Seq<char>, hip_root: Seq<char>) -> TranslationView {
    spec_config(
        seq![path_join(blas_root, "include"@), path_join(hip_root, "include"@)],
        seq![],
        seq![],
        seq![],
        seq![],
        seq![],
        seq![],
    )
}

/// The hipBLAS headers directory that hipBLASLt's translation probes first:
/// beside the runtime root.
pub open spec fn spec_blas_dir_beside_runtime(hip_root: Seq<char>) -> Seq<char> {
    path_join(path_join(path_join(hip_root, ".."@), "hipblas"@), "include"@)
}

/// The hipBLAS headers directory that hipBLASLt's translation falls back to:
/// beside hipBLASLt's own root.
pub open spec fn spec_blas_dir_beside_lt(lt_root: Seq<char>) -> Seq<char> {
    path_join(path_join(path_join(lt_root, ".."@), "hipblas"@), "include"@)
}

/// hipBLASLt's translation: C++14 with the AMD platform macro; its own
/// `include` and `include/hipblaslt` directories, the runtime's, and the
/// hipBLAS headers (beside the runtime root when `beside_runtime_found`, else
/// beside its own root); only `hipblasLt`, `hip` and `HIP` symbols, and no
/// `std` symbol leaking in from the C++ headers.
pub open spec fn spec_blaslt_translation(
    lt_root: Seq<char>,
    hip_root: Seq<char>,
    beside_runtime_found: bool,
) -> TranslationView {
    let lt_dir = path_join(lt_root, "include"@);
    let blas_dir = if beside_runtime_found {
        spec_blas_dir_beside_runtime(hip_root)
    } else {
        spec_blas_dir_beside_lt(lt_root)
    };
    spec_config(
        seq![lt_dir, path_join(lt_dir, "hipblaslt"@), path_join(hip_root, "include"@), blas_dir],
        seq!["-xc++"@, "-std=c++14"@, "-D__HIP_PLATFORM_AMD__"@],
        seq!["hipblasLt.*"@, "hip.*"@],
        seq!["hipblasLt.*"@, "hip.*"@],
        seq!["hipblasLt.*"@, "hip.*"@, "HIP.*"@],
        seq!["std.*"@],
        seq!["std.*"@],
    )
}

/// Owned copies of a list of names.
fn owned(v: Vec<&'static str>) -> (r: Vec<String>)
    ensures
        string_views(r@) == views(v@),
{
    let mut r: Vec<String> = Vec::new();
    let mut i: usize = 0;
    while i < v.len()
        invariant
            0 <= i <= v@.len(),
            r@.len() == i,
            forall|k: int| 0 <= k < i ==> (#[trigger] r@[k])@ == v@[k]@,
        decreases v@.len() - i,
    {
        r.push(String::from_str(v[i]));
        i += 1;
    }
    assert(string_views(r@) =~= views(v@));
    r
}

/// Assembles a configuration from its component-specific parts.
fn config(
    search_dirs: Vec<String>,
    flags: Vec<&'static str>,
    allow_functions: Vec<&'static str>,
    allow_types: Vec<&'static str>,
    allow_vars: Vec<&'static str>,
    block_types: Vec<&'static str>,
    block_functions: Vec<&'static str>,
) -> (r: TranslationConfig)
    ensures
        r@ == spec_config(
            string_views(search_dirs@),
            views(flags@),
            views(allow_functions@),
            views(allow_types@),
            views(allow_vars@),
            views(block_types@),
            views(block_functions@),
        ),
{
    let raw_lines = owned(
        vec![
            "#![allow(non_camel_case_types)]",
            "#![allow(non_upper_case_globals)]",
            "#![allow(non_snake_case)]",
        ],
    );
    let open_enums = owned(vec!["hip.*"]);
    let r = TranslationConfig {
        header: String::from_str("wrapper.h"),
        output: String::from_str("src/bindings.rs"),
        raw_lines,
        search_dirs,
        flags: owned(flags),
        allow_functions: owned(allow_functions),
        allow_types: owned(allow_types),
        allow_vars: owned(allow_vars),
        block_types: owned(block_types),
        block_functions: owned(block_functions),
        open_enums,
        generate_block: false,
        size_t_is_usize: true,
        ctypes_prefix: String::from_str("::libc"),
        derive_default: true,
        derive_eq: true,
        derive_ord: true,
        derive_hash: true,
    };
    assert(r@.raw_lines =~= spec_config(seq![], seq![], seq![], seq![], seq![], seq![], seq![]).raw_lines);
    assert(r@.open_enums =~= seq!["hip.*"@]);
    r
}


/// The two strings as a list.
fn pair(a: String, b: String) -> (r: Vec<String>)
    ensures
        string_views(r@) == seq![a@, b@],
{
    let mut r: Vec<String> = Vec::new();
    r.push(a);
    r.push(b);
    assert(string_views(r@) =~= seq![a@, b@]);
    r
}

/// The translation configuration of the HIP runtime installed at `hip_root`.
pub fn runtime_translation(hip_root: &str) -> (r: TranslationConfig)
    ensures
        r@ == spec_runtime_translation(hip_root@),
{
    let dirs = pair(join_path(hip_root, "include"), join_path(hip_root, "include/hipify"));
    let flags = vec!["-D__HIP_PLATFORM_AMD__"];
    let none: Vec<&'static str> = vec![];
    assert(views(flags@) =~= seq!["-D__HIP_PLATFORM_AMD__"@]);
    assert(views(none@) =~= seq![]);
    let r = config(dirs, flags, none.clone(), none.clone(), none.clone(), none.clone(), none);
    assert(r@ =~= spec_runtime_translation(hip_root@));
    r
}

/// The translation configuration of hipBLAS installed at `blas_root`, with
/// the runtime at `hip_root`.
pub fn blas_translation(blas_root: &str, hip_root: &str) -> (r: TranslationConfig)
    ensures
        r@ == spec_blas_translation(blas_root@, hip_root@),
{
    let dirs = pair(join_path(blas_root, "include"), join_path(hip_root, "include"));
    let none: Vec<&'static str> = vec![];
    assert(views(none@) =~= seq![]);
    let r = config(dirs, none.clone(), none.clone(), none.clone(), none.clone(), none.clone(), none);
    assert(r@ =~= spec_blas_translation(blas_root@, hip_root@));
    r
}

/// `<hip_root>/../hipblas/include`: the directory whose existence decides
/// which hipBLAS headers hipBLASLt's translation searches.
pub fn blas_dir_beside_runtime(hip_root: &str) -> (r: String)
    ensures
        r@ == spec_blas_dir_beside_runtime(hip_root@),
{
    let up = join_path(hip_root, "..");
    let blas = join_path(up.as_str(), "hipblas");
    join_path(blas.as_str(), "include")
}

/// The translation configuration of hipBLASLt installed at `lt_root`, with
/// the runtime at `hip_root`; `beside_runtime_found` tells whether the
/// directory of [`blas_dir_beside_runtime`] exists.
pub fn blaslt_translation(lt_root: &str, hip_root: &str, beside_runtime_found: bool) -> (r:
    TranslationConfig)
    ensures
        r@ == spec_blaslt_translation(lt_root@, hip_root@, beside_runtime_found),
{
    let lt_dir = join_path(lt_root, "include");
    let nested = join_path(lt_dir.as_str(), "hipblaslt");
    let blas_dir = if beside_runtime_found {
        blas_dir_beside_runtime(hip_root)
    } else {
        let up = join_path(lt_root, "..");
        let blas = join_path(up.as_str(), "hipblas");
        join_path(blas.as_str(), "include")
    };
    let ghost blas_dir_view = blas_dir@;
    let mut dirs: Vec<String> = Vec::new();
    dirs.push(lt_dir);
    dirs.push(nested);
    dirs.push(join_path(hip_root, "include"));
    dirs.push(blas_dir);
    assert(string_views(dirs@) =~= seq![
        path_join(lt_root@, "include"@),
        path_join(path_join(lt_root@, "include"@), "hipblaslt"@),
        path_join(hip_root@, "include"@),
        blas_dir_view,
    ]);
    let flags = vec!["-xc++", "-std=c++14", "-D__HIP_PLATFORM_AMD__"];
    let ours = vec!["hipblasLt.*", "hip.*"];
    let ours_and_macros = vec!["hipblasLt.*", "hip.*", "HIP.*"];
    let std_names = vec!["std.*"];
    assert(views(flags@) =~= seq!["-xc++"@, "-std=c++14"@, "-D__HIP_PLATFORM_AMD__"@]);
    assert(views(ours@) =~= seq!["hipblasLt.*"@, "hip.*"@]);
    assert(views(ours_and_macros@) =~= seq!["hipblasLt.*"@, "hip.*"@, "HIP.*"@]);
    assert(views(std_names@) =~= seq!["std.*"@]);
    let r = config(
        dirs,
        flags,
        ours.clone(),
        ours,
        ours_and_macros,
        std_names.clone(),
        std_names,
    );
    assert(r@ =~= spec_blaslt_translation(lt_root@, hip_root@, beside_runtime_found));
    r
}


/// The compiler arguments of a configuration: its flags, then one `-I`
/// argument per search directory, in order.
pub open spec fn spec_clang_args(v: TranslationView) -> Seq<Seq<char>> {
    v.flags + v.search_dirs.map_values(|d: Seq<char>| "-I"@ + d)
}

impl TranslationConfig {
    /// The arguments handed to the C/C++ front end.
    pub fn clang_args(&self) -> (r: Vec<String>)
        ensures
            string_views(r@) == spec_clang_args(self@),
    {
        let mut r: Vec<String> = Vec::new();
        let mut i: usize = 0;
        while i < self.flags.len()
            invariant
                0 <= i <= self.flags@.len(),
                r@.len() == i,
                forall|k: int| 0 <= k < i ==> (#[trigger] r@[k])@ == self.flags@[k]@,
            decreases self.flags@.len() - i,
        {
            r.push(self.flags[i].clone());
            i += 1;
        }
        let n = self.flags.len();
        let mut j: usize = 0;
        while j < self.search_dirs.len()
            invariant
                n == self.flags@.len(),
                0 <= j <= self.search_dirs@.len(),
                r@.len() == n + j,
                forall|k: int| 0 <= k < n ==> (#[trigger] r@[k])@ == self.flags@[k]@,
                forall|k: int|
                    0 <= k < j ==> (#[trigger] r@[n + k])@ == "-I"@ + self.search_dirs@[k]@,
            decreases self.search_dirs@.len() - j,
        {
            r.push(String::from_str("-I").concat(self.search_dirs[j].as_str()));
            proof {
                assert(r@[n + j as int]@ == "-I"@ + self.search_dirs@[j as int]@);
            }
            j += 1;
        }
        proof {
            let want = spec_clang_args(self@);
            assert forall|k: int| 0 <= k < r@.len() implies (#[trigger] string_views(r@)[k])
                == want[k] by {
                if k >= n {
                    assert(r@[n + (k - n)] == r@[k]);
                }
            }
            assert(string_views(r@) =~= want);
        }
        r
    }
}

/// Only hipBLASLt is parsed as C++: its configuration searches both its own
/// and the runtime's header directories and selects the C++ dialect, while
/// neither the runtime's nor hipBLAS's configuration selects it.
pub proof fn lemma_only_blaslt_parses_cxx(
    lt_root: Seq<char>,
    hip_root: Seq<char>,
    beside_runtime_found: bool,
    blas_root: Seq<char>,
)
    ensures
        spec_blaslt_translation(lt_root, hip_root, beside_runtime_found).search_dirs.contains(
            path_join(lt_root, "include"@),
        ),
        spec_blaslt_translation(lt_root, hip_root, beside_runtime_found).search_dirs.contains(
            path_join(hip_root, "include"@),
        ),
        spec_blaslt_translation(lt_root, hip_root, beside_runtime_found).flags.contains("-xc++"@),
        !spec_runtime_translation(hip_root).flags.contains("-xc++"@),
        !spec_blas_translation(blas_root, hip_root).flags.contains("-xc++"@),
{
    let lt = spec_blaslt_translation(lt_root, hip_root, beside_runtime_found);
    assert(lt.search_dirs[0] == path_join(lt_root, "include"@));
    assert(lt.search_dirs[2] == path_join(hip_root, "include"@));
    assert(lt.flags[0] == "-xc++"@);
    reveal_strlit("-xc++");
    reveal_strlit("-D__HIP_PLATFORM_AMD__");
    let rt = spec_runtime_translation(hip_root);
    assert(rt.flags[0] != "-xc++"@);
}

} // verus!
