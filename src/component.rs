use vstd::prelude::*;

verus! {

/// One of the three native libraries whose installation is located.
#[derive(Clone, Copy, Debug, PartialEq, Eq)]
pub enum Component {
    /// The HIP runtime (`amdhip64`).
    Runtime,
    /// The dense linear-algebra library (`hipblas`).
    Blas,
    /// The lightweight linear-algebra library (`hipblaslt`).
    BlasLt,
}

/// Name of the shared library that a component links against.
pub open spec fn spec_lib_name(c: Component) -> Seq<char> {
    match c {
        Component::Runtime => "amdhip64"@,
        Component::Blas => "hipblas"@,
        Component::BlasLt => "hipblaslt"@,
    }
}

/// Name of the directory a component is installed under, beside the other
/// components of the toolkit.
pub open spec fn spec_dir_name(c: Component) -> Seq<char> {
    match c {
        Component::Runtime => "hip"@,
        Component::Blas => "hipblas"@,
        Component::BlasLt => "hipblaslt"@,
    }
}

/// The variables that locate the HIP runtime root, most specific first, as
/// seen by the pipeline of `c`.  Only the runtime's own pipeline also
/// consults `ROCM_PATH`.
pub open spec fn spec_hip_root_vars(c: Component) -> Seq<Seq<char>> {
    match c {
        Component::Runtime => seq!["HIP_PATH"@, "ROCM_PATH"@],
        _ => seq!["HIP_PATH"@],
    }
}

/// The variables that name the root of a dependent component directly, most
/// specific first.  The runtime has none besides its root variables.
pub open spec fn spec_own_vars(c: Component) -> Seq<Seq<char>> {
    match c {
        Component::Runtime => seq![],
        Component::Blas => seq!["HIP_BLAS_PATH"@, "HIPBLAS_PATH"@],
        Component::BlasLt => seq!["HIP_BLASLT_PATH"@, "HIPBLASLT_PATH"@],
    }
}

/// The views of a list of names.
pub open spec fn views(v: Seq<&'static str>) -> Seq<Seq<char>> {
    v.map_values(|s: &'static str| s@)
}

impl Component {
    /// The shared library to link against.
    pub fn lib_name(&self) -> (r: &'static str)
        ensures
            r@ == spec_lib_name(*self),
    {
        match self {
            Component::Runtime => "amdhip64",
            Component::Blas => "hipblas",
            Component::BlasLt => "hipblaslt",
        }
    }

    /// The directory the component is installed under.
    pub fn dir_name(&self) -> (r: &'static str)
        ensures
            r@ == spec_dir_name(*self),
    {
        match self {
            Component::Runtime => "hip",
            Component::Blas => "hipblas",
            Component::BlasLt => "hipblaslt",
        }
    }

    /// The variables consulted for the HIP runtime root, in precedence order.
    pub fn hip_root_vars(&self) -> (r: Vec<&'static str>)
        ensures
            views(r@) == spec_hip_root_vars(*self),
    {
        let r = match self {
            Component::Runtime => vec!["HIP_PATH", "ROCM_PATH"],
            _ => vec!["HIP_PATH"],
        };
        assert(views(r@) =~= spec_hip_root_vars(*self));
        r
    }

    /// The variables naming this component's own root, in precedence order.
    pub fn own_vars(&self) -> (r: Vec<&'static str>)
        ensures
            views(r@) == spec_own_vars(*self),
    {
        let r = match self {
            Component::Runtime => vec![],
            Component::Blas => vec!["HIP_BLAS_PATH", "HIPBLAS_PATH"],
            Component::BlasLt => vec!["HIP_BLASLT_PATH", "HIPBLASLT_PATH"],
        };
        assert(views(r@) =~= spec_own_vars(*self));
        r
    }
}

} // verus!
