use hip_sys::{blas_dir_beside_runtime, blas_translation, blaslt_translation, runtime_translation};

fn strings(v: &[&str]) -> Vec<String> {
    v.iter().map(|s| s.to_string()).collect()
}

#[test]
fn runtime_is_plain_c() {
    let c = runtime_translation("/opt/rocm/hip");
    assert_eq!(c.header, "wrapper.h");
    assert_eq!(c.output, "src/bindings.rs");
    assert_eq!(c.search_dirs, strings(&["/opt/rocm/hip/include", "/opt/rocm/hip/include/hipify"]));
    assert_eq!(c.flags, strings(&["-D__HIP_PLATFORM_AMD__"]));
    assert!(!c.flags.iter().any(|f| f == "-xc++"));
    assert!(c.allow_functions.is_empty() && c.allow_types.is_empty() && c.allow_vars.is_empty());
    assert!(c.block_types.is_empty() && c.block_functions.is_empty());
    assert_eq!(
        c.clang_args(),
        strings(&[
            "-D__HIP_PLATFORM_AMD__",
            "-I/opt/rocm/hip/include",
            "-I/opt/rocm/hip/include/hipify",
        ])
    );
}

#[test]
fn blas_is_plain_c_with_both_dirs() {
    let c = blas_translation("/opt/rocm/hipblas", "/opt/rocm/hip");
    assert_eq!(c.search_dirs, strings(&["/opt/rocm/hipblas/include", "/opt/rocm/hip/include"]));
    assert!(c.flags.is_empty());
    assert!(c.allow_functions.is_empty() && c.block_types.is_empty());
}

#[test]
fn blaslt_is_filtered_cxx() {
    let c = blaslt_translation("/opt/rocm/hipblaslt", "/opt/rocm/hip", true);
    assert_eq!(c.flags, strings(&["-xc++", "-std=c++14", "-D__HIP_PLATFORM_AMD__"]));
    assert_eq!(
        c.search_dirs,
        strings(&[
            "/opt/rocm/hipblaslt/include",
            "/opt/rocm/hipblaslt/include/hipblaslt",
            "/opt/rocm/hip/include",
            "/opt/rocm/hip/../hipblas/include",
        ])
    );
    assert_eq!(c.allow_functions, strings(&["hipblasLt.*", "hip.*"]));
    assert_eq!(c.allow_types, strings(&["hipblasLt.*", "hip.*"]));
    assert_eq!(c.allow_vars, strings(&["hipblasLt.*", "hip.*", "HIP.*"]));
    assert_eq!(c.block_types, strings(&["std.*"]));
    assert_eq!(c.block_functions, strings(&["std.*"]));
}

#[test]
fn blaslt_blas_headers_fall_back_beside_own_root() {
    assert_eq!(blas_dir_beside_runtime("/opt/rocm/hip"), "/opt/rocm/hip/../hipblas/include");
    let c = blaslt_translation("/x/hipblaslt", "/opt/rocm/hip", false);
    assert_eq!(c.search_dirs[3], "/x/hipblaslt/../hipblas/include");
}

#[test]
fn uniform_policies() {
    for c in [
        runtime_translation("/h"),
        blas_translation("/b", "/h"),
        blaslt_translation("/l", "/h", false),
    ] {
        assert_eq!(c.open_enums, strings(&["hip.*"]));
        assert!(!c.generate_block);
        assert!(c.size_t_is_usize);
        assert_eq!(c.ctypes_prefix, "::libc");
        assert!(c.derive_default && c.derive_eq && c.derive_ord && c.derive_hash);
        assert_eq!(c.raw_lines.len(), 3);
        assert_eq!(c.raw_lines[0], "#![allow(non_camel_case_types)]");
    }
}
