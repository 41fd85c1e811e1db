use hip_sys::{link_spec, rerun_directives, resolve_runtime_root, Component, EnvVar, VarValue};

#[test]
fn end_to_end_runtime_link() {
    let vars = vec![
        EnvVar {
            name: "HIP_PATH".to_string(),
            value: VarValue::Present { path: "/opt/rocm/hip".to_string(), exists: true },
        },
        EnvVar { name: "ROCM_PATH".to_string(), value: VarValue::NotPresent },
    ];
    let res = resolve_runtime_root(&vars).expect("resolved");
    assert_eq!(res.root, "/opt/rocm/hip");
    let spec = link_spec(Component::Runtime, &res.root);
    assert_eq!(spec.search_dir, "/opt/rocm/hip/lib");
    assert_eq!(spec.lib_name, "amdhip64");
    assert_eq!(
        spec.directives(),
        vec![
            "cargo:rustc-link-search=native=/opt/rocm/hip/lib".to_string(),
            "cargo:rustc-link-lib=dylib=amdhip64".to_string(),
        ]
    );
}

#[test]
fn library_names() {
    assert_eq!(link_spec(Component::Blas, "/opt/rocm/hipblas").lib_name, "hipblas");
    assert_eq!(link_spec(Component::BlasLt, "/opt/rocm/hipblaslt").lib_name, "hipblaslt");
    assert_eq!(link_spec(Component::BlasLt, "/opt/rocm/hipblaslt").search_dir, "/opt/rocm/hipblaslt/lib");
    assert_eq!(Component::Blas.dir_name(), "hipblas");
    assert_eq!(Component::Runtime.dir_name(), "hip");
}

#[test]
fn consulted_variables() {
    assert_eq!(Component::Runtime.hip_root_vars(), vec!["HIP_PATH", "ROCM_PATH"]);
    assert_eq!(Component::Blas.hip_root_vars(), vec!["HIP_PATH"]);
    assert!(Component::Runtime.own_vars().is_empty());
    assert_eq!(Component::Blas.own_vars(), vec!["HIP_BLAS_PATH", "HIPBLAS_PATH"]);
    assert_eq!(Component::BlasLt.own_vars(), vec!["HIP_BLASLT_PATH", "HIPBLASLT_PATH"]);
}

#[test]
fn rebuild_directives() {
    assert_eq!(
        rerun_directives(Component::Runtime),
        vec![
            "cargo:rerun-if-env-changed=HIP_PATH".to_string(),
            "cargo:rerun-if-env-changed=ROCM_PATH".to_string(),
        ]
    );
    assert_eq!(
        rerun_directives(Component::BlasLt),
        vec![
            "cargo:rerun-if-env-changed=HIP_PATH".to_string(),
            "cargo:rerun-if-env-changed=HIP_BLASLT_PATH".to_string(),
            "cargo:rerun-if-env-changed=HIPBLASLT_PATH".to_string(),
        ]
    );
}
