//! Locating the instrumentation artifacts.
//!
//! The shim needs two files to exist before it rewrites anything: the
//! instrumentation pass library and the default runtime object.  They are
//! searched for first beside the running executable, then inside a configured
//! search directory.  The filesystem probes themselves are I/O and happen in
//! the surrounding program; this module holds the decision logic: given the
//! probe results, either the set of artifact paths to use or the fatal
//! configuration error to report.

use vstd::prelude::*;

verus! {

/// What probing one candidate directory for the artifacts found.
///
/// The paths are the directory's name joined with each artifact file name.
/// `has_pass` and `has_runtime` say whether the pass library and the default
/// runtime object exist there as regular files; the bit-specific runtime
/// objects are not required to exist at this stage.
#[derive(Debug, PartialEq, Eq)]
pub struct DirProbe {
    pub pass_lib: String,
    pub runtime_default: String,
    pub runtime_32: String,
    pub runtime_64: String,
    pub has_pass: bool,
    pub has_runtime: bool,
}

/// The mathematical shadow of [`DirProbe`].
#[verifier::ext_equal]
pub ghost struct DirProbeView {
    pub pass_lib: Seq<char>,
    pub runtime_default: Seq<char>,
    pub runtime_32: Seq<char>,
    pub runtime_64: Seq<char>,
    pub has_pass: bool,
    pub has_runtime: bool,
}

impl View for DirProbe {
    type V = DirProbeView;

    open spec fn view(&self) -> DirProbeView {
        DirProbeView {
            pass_lib: self.pass_lib@,
            runtime_default: self.runtime_default@,
            runtime_32: self.runtime_32@,
            runtime_64: self.runtime_64@,
            has_pass: self.has_pass,
            has_runtime: self.has_runtime,
        }
    }
}

/// What inspecting the search-directory environment variable found: whether
/// its target exists, whether it is a directory, and the artifact probe
/// inside it.
#[derive(Debug, PartialEq, Eq)]
pub struct SearchDirProbe {
    pub dir_exists: bool,
    pub is_dir: bool,
    pub probe: DirProbe,
}

/// The mathematical shadow of [`SearchDirProbe`].
#[verifier::ext_equal]
pub ghost struct SearchDirProbeView {
    pub dir_exists: bool,
    pub is_dir: bool,
    pub probe: DirProbeView,
}

impl View for SearchDirProbe {
    type V = SearchDirProbeView;

    open spec fn view(&self) -> SearchDirProbeView {
        SearchDirProbeView { dir_exists: self.dir_exists, is_dir: self.is_dir, probe: self.probe@ }
    }
}

impl DeepView for SearchDirProbe {
    type V = SearchDirProbeView;

    open spec fn deep_view(&self) -> SearchDirProbeView {
        self.view()
    }
}

/// The absolute paths of the instrumentation artifacts the rewriter links
/// against.  The pass library and default runtime were seen on disk when this
/// set was built; the 32- and 64-bit runtime paths may or may not exist and
/// are checked only when the corresponding bit mode is requested.
#[derive(Debug, PartialEq, Eq)]
pub struct ArtifactSet {
    pub pass_lib: String,
    pub runtime_default: String,
    pub runtime_32: String,
    pub runtime_64: String,
}

/// The mathematical shadow of [`ArtifactSet`].
#[verifier::ext_equal]
pub ghost struct ArtifactSetView {
    pub pass_lib: Seq<char>,
    pub runtime_default: Seq<char>,
    pub runtime_32: Seq<char>,
    pub runtime_64: Seq<char>,
}

impl View for ArtifactSet {
    type V = ArtifactSetView;

    open spec fn view(&self) -> ArtifactSetView {
        ArtifactSetView {
            pass_lib: self.pass_lib@,
            runtime_default: self.runtime_default@,
            runtime_32: self.runtime_32@,
            runtime_64: self.runtime_64@,
        }
    }
}

/// Why the artifacts could not be located.  Every variant is fatal: the shim
/// reports a diagnostic and exits without running the compiler.
#[derive(Clone, Copy, Debug, PartialEq, Eq, Structural)]
pub enum LocateError {
    /// Nothing beside the executable, and the search-directory variable is unset.
    SearchDirUnset,
    /// The search-directory variable names a path that does not exist.
    SearchDirMissing,
    /// The search-directory variable names something that is not a directory.
    SearchDirNotADir,
    /// The search directory exists but lacks the pass library or the runtime object.
    ArtifactsNotFound,
}

/// What `locate` must return for given probe results.
pub open spec fn spec_locate(exe_dir: DirProbeView, search: Option<SearchDirProbeView>) -> Result<
    ArtifactSetView,
    LocateError,
> {
    if exe_dir.has_pass && exe_dir.has_runtime {
        Ok(probe_artifacts(exe_dir))
    } else {
        match search {
            None => Err(LocateError::SearchDirUnset),
            Some(sd) => {
                if !sd.dir_exists {
                    Err(LocateError::SearchDirMissing)
                } else if !sd.is_dir {
                    Err(LocateError::SearchDirNotADir)
                } else if sd.probe.has_pass && sd.probe.has_runtime {
                    Ok(probe_artifacts(sd.probe))
                } else {
                    Err(LocateError::ArtifactsNotFound)
                }
            },
        }
    }
}

/// The artifact paths recorded from a successful directory probe.
pub open spec fn probe_artifacts(p: DirProbeView) -> ArtifactSetView {
    ArtifactSetView {
        pass_lib: p.pass_lib,
        runtime_default: p.runtime_default,
        runtime_32: p.runtime_32,
        runtime_64: p.runtime_64,
    }
}

/// Chooses the artifact set from the ordered candidate directories: first the
/// executable's own directory, then the configured search directory, failing
/// with the error the original shim reported at each missing link of the chain.
pub fn locate(exe_dir: DirProbe, search: Option<SearchDirProbe>) -> (r: Result<
    ArtifactSet,
    LocateError,
>)
    ensures
        match r {
            Ok(a) => spec_locate(exe_dir@, search.deep_view()) == Ok::<
                ArtifactSetView,
                LocateError,
            >(a@),
            Err(e) => spec_locate(exe_dir@, search.deep_view()) == Err::<
                ArtifactSetView,
                LocateError,
            >(e),
        },
{
    if exe_dir.has_pass && exe_dir.has_runtime {
        Ok(ArtifactSet {
            pass_lib: exe_dir.pass_lib,
            runtime_default: exe_dir.runtime_default,
            runtime_32: exe_dir.runtime_32,
            runtime_64: exe_dir.runtime_64,
        })
    } else {
        match search {
            None => Err(LocateError::SearchDirUnset),
            Some(sd) => {
                if !sd.dir_exists {
                    Err(LocateError::SearchDirMissing)
                } else if !sd.is_dir {
                    Err(LocateError::SearchDirNotADir)
                } else if sd.probe.has_pass && sd.probe.has_runtime {
                    Ok(ArtifactSet {
                        pass_lib: sd.probe.pass_lib,
                        runtime_default: sd.probe.runtime_default,
                        runtime_32: sd.probe.runtime_32,
                        runtime_64: sd.probe.runtime_64,
                    })
                } else {
                    Err(LocateError::ArtifactsNotFound)
                }
            },
        }
    }
}

} // verus!
