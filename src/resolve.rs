use vstd::prelude::*;

use crate::paths::{path_join, DEFAULT_HIP_PATH};

verus! {

/// What the environment holds under one variable's name, together with
/// whether a present value names something that exists on disk.
#[derive(Debug)]
pub enum VarValue {
    /// The variable is not set.
    NotPresent,
    /// The variable is set but its value is not valid Unicode.
    NotUnicode,
    /// The variable is set to `path`; `exists` tells whether it exists.
    Present { path: String, exists: bool },
}

/// One environment variable as read by the caller.
#[derive(Debug)]
pub struct EnvVar {
    pub name: String,
    pub value: VarValue,
}

/// Which source produced a resolved root.
#[derive(Debug)]
pub enum RootSource {
    /// The named environment variable.
    Variable(String),
    /// The compiled-in default location.
    Default,
    /// Derived from the location of the HIP runtime.
    Sibling,
}

/// A resolved installation root and where it came from.
#[derive(Debug)]
pub struct Resolution {
    pub root: String,
    pub source: RootSource,
}

/// Why a root could not be resolved.  Every one of them is fatal.
#[derive(Debug)]
pub enum ResolveError {
    /// The variable is set but does not hold valid Unicode.
    NotUnicode { var: String },
    /// The variable is set to a path that does not exist.
    NotFound { var: String, path: String },
    /// The path derived from the runtime root could not be canonicalized.
    DerivationFailed { path: String },
}

/// The outcome of consulting the variables in order: the first one that is
/// present decides, whatever follows it; `Ok(None)` when none is present.
pub open spec fn explicit_resolution(vars: Seq<EnvVar>) -> Result<Option<Resolution>, ResolveError>
    decreases vars.len(),
{
    if vars.len() == 0 {
        Ok(None)
    } else {
        let v = vars[0];
        match v.value {
            VarValue::NotPresent => explicit_resolution(vars.drop_first()),
            VarValue::NotUnicode => Err(ResolveError::NotUnicode { var: v.name }),
            VarValue::Present { path, exists } => if exists {
                Ok(Some(Resolution { root: path, source: RootSource::Variable(v.name) }))
            } else {
                Err(ResolveError::NotFound { var: v.name, path })
            },
        }
    }
}

/// No variable of the list is present.
pub open spec fn none_present(vars: Seq<EnvVar>) -> bool {
    forall|j: int| 0 <= j < vars.len() ==> (#[trigger] vars[j]).value is NotPresent
}

/// `i` is the position of the first present variable.
pub open spec fn is_first_present(vars: Seq<EnvVar>, i: int) -> bool {
    &&& 0 <= i < vars.len()
    &&& !(vars[i].value is NotPresent)
    &&& forall|j: int| 0 <= j < i ==> (#[trigger] vars[j]).value is NotPresent
}

proof fn lemma_skip_absent(vars: Seq<EnvVar>, i: int)
    requires
        0 <= i < vars.len(),
        vars[i].value is NotPresent,
    ensures
        explicit_resolution(vars.subrange(i, vars.len() as int)) == explicit_resolution(
            vars.subrange(i + 1, vars.len() as int),
        ),
{
    assert(vars.subrange(i, vars.len() as int).drop_first() =~= vars.subrange(
        i + 1,
        vars.len() as int,
    ));
}

/// Consults the variables in precedence order.  The first present one is
/// authoritative: a value that is not Unicode, or a path that does not exist,
/// is an error and no later variable is tried.  `Ok(None)` when none is set.
pub fn resolve_explicit(vars: &Vec<EnvVar>) -> (r: Result<Option<Resolution>, ResolveError>)
    ensures
        r == explicit_resolution(vars@),
{
    let n = vars.len();
    let mut i: usize = 0;
    assert(vars@.subrange(0, n as int) =~= vars@);
    while i < n
        invariant
            n == vars@.len(),
            0 <= i <= n,
            explicit_resolution(vars@) == explicit_resolution(vars@.subrange(i as int, n as int)),
        decreases n - i,
    {
        let v = &vars[i];
        proof {
            assert(vars@.subrange(i as int, n as int)[0] == vars@[i as int]);
        }
        match &v.value {
            VarValue::NotPresent => {
                proof {
                    lemma_skip_absent(vars@, i as int);
                }
            },
            VarValue::NotUnicode => {
                return Err(ResolveError::NotUnicode { var: v.name.clone() });
            },
            VarValue::Present { path, exists } => {
                if *exists {
                    return Ok(
                        Some(
                            Resolution {
                                root: path.clone(),
                                source: RootSource::Variable(v.name.clone()),
                            },
                        ),
                    );
                } else {
                    return Err(ResolveError::NotFound { var: v.name.clone(), path: path.clone() });
                }
            },
        }
        i += 1;
    }
    Ok(None)
}


/// The HIP runtime root: the explicit variables decide as in
/// [`resolve_explicit`]; when none is present the compiled-in default is used
/// without checking that it exists.
pub fn resolve_runtime_root(vars: &Vec<EnvVar>) -> (r: Result<Resolution, ResolveError>)
    ensures
        match explicit_resolution(vars@) {
            Ok(Some(res)) => r == Ok::<Resolution, ResolveError>(res),
            Ok(None) => r is Ok && r->Ok_0.root@ == DEFAULT_HIP_PATH@ && r->Ok_0.source is Default,
            Err(e) => r == Err::<Resolution, ResolveError>(e),
        },
{
    match resolve_explicit(vars) {
        Ok(Some(res)) => Ok(res),
        Ok(None) => Ok(Resolution { root: String::from_str(DEFAULT_HIP_PATH), source: RootSource::Default }),
        Err(e) => Err(e),
    }
}

/// The path at which a dependent component is looked for when no variable
/// names it: the directory `dir` beside the runtime root.
pub open spec fn spec_sibling_candidate(hip_root: Seq<char>, dir: Seq<char>) -> Seq<char> {
    path_join(path_join(hip_root, ".."@), dir)
}

/// The path `<hip_root>/../<dir>`, before canonicalization.
pub fn sibling_candidate(hip_root: &str, dir: &str) -> (r: String)
    ensures
        r@ == spec_sibling_candidate(hip_root@, dir@),
{
    let up = crate::paths::join_path(hip_root, "..");
    crate::paths::join_path(up.as_str(), dir)
}

/// The outcome of deriving a root from `candidate`, given what
/// canonicalizing it gave (`None` when it failed).
pub open spec fn derived_resolution(candidate: String, canonical: Option<String>) -> Result<Resolution, ResolveError> {
    match canonical {
        Some(c) => Ok(Resolution { root: c, source: RootSource::Sibling }),
        None => Err(ResolveError::DerivationFailed { path: candidate }),
    }
}

/// The root of a dependent component: its own variables decide as in
/// [`explicit_resolution`]; when none is present the root is derived from the
/// runtime's, and must canonicalize.
pub open spec fn dependent_resolution(
    vars: Seq<EnvVar>,
    candidate: String,
    canonical: Option<String>,
) -> Result<Resolution, ResolveError> {
    match explicit_resolution(vars) {
        Ok(Some(res)) => Ok(res),
        Ok(None) => derived_resolution(candidate, canonical),
        Err(e) => Err(e),
    }
}

/// Resolves the root of a dependent component.  `candidate` is the sibling
/// path of [`sibling_candidate`] and `canonical` what canonicalizing it gave
/// (`None` when that failed); they are used only when no variable is present.
pub fn resolve_dependent_root(
    vars: &Vec<EnvVar>,
    candidate: &String,
    canonical: Option<String>,
) -> (r: Result<Resolution, ResolveError>)
    ensures
        r == dependent_resolution(vars@, *candidate, canonical),
{
    match resolve_explicit(vars) {
        Ok(Some(res)) => Ok(res),
        Ok(None) => match canonical {
            Some(c) => Ok(Resolution { root: c, source: RootSource::Sibling }),
            None => Err(ResolveError::DerivationFailed { path: candidate.clone() }),
        },
        Err(e) => Err(e),
    }
}

/// The HIP path from the value of `HIP_PATH` alone: the value when it names
/// an existing path, the default when the variable is not set.  A set value
/// that does not exist, or that is not Unicode, is an error naming
/// `HIP_PATH`.
pub fn get_hip_path(hip_path: &VarValue) -> (r: Result<String, ResolveError>)
    ensures
        match hip_path {
            VarValue::Present { path, exists } => if *exists {
                r == Ok::<String, ResolveError>(*path)
            } else {
                &&& r is Err
                &&& r->Err_0 is NotFound
                &&& r->Err_0->NotFound_var@ == "HIP_PATH"@
                &&& r->Err_0->NotFound_path == *path
            },
            VarValue::NotPresent => r is Ok && r->Ok_0@ == DEFAULT_HIP_PATH@,
            VarValue::NotUnicode => {
                &&& r is Err
                &&& r->Err_0 is NotUnicode
                &&& r->Err_0->NotUnicode_var@ == "HIP_PATH"@
            },
        },
{
    match hip_path {
        VarValue::Present { path, exists } => {
            if *exists {
                Ok(path.clone())
            } else {
                Err(ResolveError::NotFound { var: String::from_str("HIP_PATH"), path: path.clone() })
            }
        },
        VarValue::NotPresent => Ok(String::from_str(DEFAULT_HIP_PATH)),
        VarValue::NotUnicode => Err(ResolveError::NotUnicode { var: String::from_str("HIP_PATH") }),
    }
}

/// The outcome that one present variable decides on its own.
pub open spec fn entry_resolution(v: EnvVar) -> Result<Option<Resolution>, ResolveError> {
    explicit_resolution(seq![v])
}

/// The first present variable decides the outcome, whatever the variables
/// after it hold: replacing everything after it changes nothing, and the
/// outcome is the one that variable gives alone.
pub proof fn lemma_first_present_decides(vars: Seq<EnvVar>, i: int, rest: Seq<EnvVar>)
    requires
        is_first_present(vars, i),
    ensures
        explicit_resolution(vars) == entry_resolution(vars[i]),
        explicit_resolution(vars.subrange(0, i + 1) + rest) == explicit_resolution(vars),
    decreases i,
{
    let other = vars.subrange(0, i + 1) + rest;
    assert(seq![vars[i]].drop_first() =~= Seq::<EnvVar>::empty());
    if i > 0 {
        let tail = vars.drop_first();
        assert forall|j: int| 0 <= j < i - 1 implies (#[trigger] tail[j]).value is NotPresent by {
            assert(tail[j] == vars[j + 1]);
        }
        lemma_first_present_decides(tail, i - 1, rest);
        assert(vars[0].value is NotPresent);
        assert(other[0] == vars[0]);
        assert(other.drop_first() =~= tail.subrange(0, i) + rest);
    }
}

/// A variable that is present but names a path that does not exist is an
/// error, even when a later variable names one that exists.
pub proof fn lemma_missing_path_not_masked(vars: Seq<EnvVar>, i: int)
    requires
        is_first_present(vars, i),
        vars[i].value is Present,
        !vars[i].value->exists,
    ensures
        explicit_resolution(vars) == Err::<Option<Resolution>, ResolveError>(
            ResolveError::NotFound { var: vars[i].name, path: vars[i].value->path },
        ),
{
    lemma_first_present_decides(vars, i, seq![]);
}

/// A present variable whose value is not Unicode is a decoding error, never a
/// not-found error, and no later variable is consulted.
pub proof fn lemma_undecodable_is_fatal(vars: Seq<EnvVar>, i: int)
    requires
        is_first_present(vars, i),
        vars[i].value is NotUnicode,
    ensures
        explicit_resolution(vars) == Err::<Option<Resolution>, ResolveError>(
            ResolveError::NotUnicode { var: vars[i].name },
        ),
        !(explicit_resolution(vars)->Err_0 is NotFound),
{
    lemma_first_present_decides(vars, i, seq![]);
}

/// With no variable present, nothing is resolved explicitly: the runtime
/// falls back to its default (see [`resolve_runtime_root`]) and a dependent
/// component to its canonicalized sibling path.
pub proof fn lemma_absent_vars_fall_back(vars: Seq<EnvVar>, candidate: String, canonical: Option<String>)
    requires
        none_present(vars),
    ensures
        explicit_resolution(vars) == Ok::<Option<Resolution>, ResolveError>(None),
        dependent_resolution(vars, candidate, canonical) == derived_resolution(candidate, canonical),
    decreases vars.len(),
{
    if vars.len() > 0 {
        let tail = vars.drop_first();
        assert forall|j: int| 0 <= j < tail.len() implies (#[trigger] tail[j]).value is NotPresent by {
            assert(tail[j] == vars[j + 1]);
        }
        assert(vars[0].value is NotPresent);
        lemma_absent_vars_fall_back(tail, candidate, canonical);
    }
}


/// The text of an error, naming the variable or path at fault.
pub open spec fn spec_error_message(e: ResolveError) -> Seq<char> {
    match e {
        ResolveError::NotUnicode { var } => var@ + ": environment variable was not valid unicode"@,
        ResolveError::NotFound { var, path } => var@ + " is set to '"@ + path@
            + "', but that path doesn't exist"@,
        ResolveError::DerivationFailed { path } => "derived path '"@ + path@
            + "' does not exist or cannot be canonicalized"@,
    }
}

/// The text of a notice saying which root is used for `label` and why.
pub open spec fn spec_notice(res: Resolution, label: Seq<char>) -> Seq<char> {
    "Using '"@ + res.root@ + "' as "@ + label + match res.source {
        RootSource::Variable(name) => " (from "@ + name@ + ")"@,
        RootSource::Default => " (default)"@,
        RootSource::Sibling => " (derived from the HIP runtime root)"@,
    }
}

impl ResolveError {
    /// A human-readable description of the error.
    pub fn message(&self) -> (r: String)
        ensures
            r@ == spec_error_message(*self),
    {
        match self {
            ResolveError::NotUnicode { var } => {
                var.clone().concat(": environment variable was not valid unicode")
            },
            ResolveError::NotFound { var, path } => {
                var.clone().concat(" is set to '").concat(path.as_str()).concat(
                    "', but that path doesn't exist",
                )
            },
            ResolveError::DerivationFailed { path } => {
                String::from_str("derived path '").concat(path.as_str()).concat(
                    "' does not exist or cannot be canonicalized",
                )
            },
        }
    }
}

impl Resolution {
    /// A diagnostic notice naming the root chosen for `label` and its source.
    pub fn notice(&self, label: &str) -> (r: String)
        ensures
            r@ == spec_notice(*self, label@),
    {
        let head = String::from_str("Using '").concat(self.root.as_str()).concat("' as ").concat(
            label,
        );
        match &self.source {
            RootSource::Variable(name) => head.concat(" (from ").concat(name.as_str()).concat(")"),
            RootSource::Default => head.concat(" (default)"),
            RootSource::Sibling => head.concat(" (derived from the HIP runtime root)"),
        }
    }
}

} // verus!
