use vstd::prelude::*;

verus! {

/// A kernel group: one embedded device-program source bundle.
#[derive(Debug, Clone, Copy, PartialEq, Eq, Hash, Structural)]
pub enum Source {
    BnbDequant,
    Sdpa,
}

/// Element types the fused-attention kernels are specialized for.
#[derive(Copy, Clone, PartialEq, Eq, Hash, Debug, Structural)]
pub enum SdpaDType {
    BF16,
    F16,
    F32,
}

/// Which attention variation a resolver or dispatch was asked for.
#[derive(Debug, Clone, Copy, PartialEq, Eq, Structural)]
pub enum SdpaVariation {
    Full,
    Vector,
    Vector2Pass1,
    Vector2Pass2,
}

/// Errors of the kernel-dispatch side: cache and compilation failures,
/// and unsupported shape/type combinations.
#[derive(Debug, Clone, PartialEq, Eq)]
pub enum MetalKernelError {
    /// The shared cache's lock was poisoned by a panicking holder.
    LockError(String),
    /// The kernel group's source failed to compile into a library.
    LoadLibraryError(String),
    /// The requested function name is not exported by its library.
    LoadFunctionError(String),
    /// The compiled function could not be built into a pipeline.
    FailedToCreatePipeline(String),
    /// The element type is not in the kernel's supported set.
    DTypeMismatch { expected: Vec<crate::dtype::DType>, got: crate::dtype::DType },
    /// The head dimension is not in the supported set for this variation.
    SdpaHeadSizeMismatch { variation: SdpaVariation, got: usize, expected: Vec<usize> },
    /// The element type is not accepted for this variation.
    SdpaHeadDTypeMismatch { variation: SdpaVariation, got: SdpaDType },
}

/// A compiled device-program library handle. `compile_id` is the number
/// of libraries the owning cache had compiled before this one, so equal
/// ids mean the same compilation.
#[derive(Debug, Clone, Copy, PartialEq, Eq, Structural)]
pub struct Library {
    pub source: Source,
    pub compile_id: usize,
}

/// An executable compute-pipeline handle. `build_id` is the number of
/// pipelines the owning cache had built before this one, so equal ids
/// mean the same build (no recompilation in between).
#[derive(Debug, PartialEq, Eq)]
pub struct Pipeline {
    pub name: String,
    pub build_id: usize,
}

/// Mathematical value of a pipeline handle.
pub struct PipelineView {
    pub name: Seq<char>,
    pub build_id: usize,
}

impl View for Pipeline {
    type V = PipelineView;

    open spec fn view(&self) -> PipelineView {
        PipelineView { name: self.name@, build_id: self.build_id }
    }
}

impl Clone for Pipeline {
    fn clone(&self) -> (r: Pipeline)
        ensures
            r@ == self@,
    {
        Pipeline { name: self.name.clone(), build_id: self.build_id }
    }
}

/// What a device does with compile and build requests: which kernel
/// groups fail to compile, which exported names are missing from their
/// library, and which functions fail pipeline creation. A healthy
/// device has all three lists empty. The bindings that drive a real
/// device report its failures through the same error variants.
#[derive(Debug, Clone, PartialEq, Eq)]
pub struct DeviceModel {
    pub id: usize,
    pub broken_sources: Vec<Source>,
    pub missing_functions: Vec<String>,
    pub broken_pipelines: Vec<String>,
}

impl DeviceModel {
    /// A device on which every compile and build succeeds.
    pub fn healthy(id: usize) -> (r: DeviceModel)
        ensures
            r.id == id,
            !r.spec_source_broken(Source::BnbDequant),
            !r.spec_source_broken(Source::Sdpa),
            forall|n: Seq<char>| !r.spec_function_missing(n),
            forall|n: Seq<char>| !r.spec_pipeline_broken(n),
    {
        DeviceModel {
            id,
            broken_sources: Vec::new(),
            missing_functions: Vec::new(),
            broken_pipelines: Vec::new(),
        }
    }

    pub open spec fn spec_source_broken(self, s: Source) -> bool {
        self.broken_sources@.contains(s)
    }

    pub open spec fn spec_function_missing(self, n: Seq<char>) -> bool {
        exists|i: int| 0 <= i < self.missing_functions@.len() && self.missing_functions@[i]@ == n
    }

    pub open spec fn spec_pipeline_broken(self, n: Seq<char>) -> bool {
        exists|i: int| 0 <= i < self.broken_pipelines@.len() && self.broken_pipelines@[i]@ == n
    }

    fn source_broken(&self, s: Source) -> (r: bool)
        ensures
            r == self.spec_source_broken(s),
    {
        let n = self.broken_sources.len();
        let mut i: usize = 0;
        while i < n
            invariant
                0 <= i <= n,
                n == self.broken_sources@.len(),
                forall|j: int| 0 <= j < i ==> self.broken_sources@[j] != s,
            decreases n - i,
        {
            if self.broken_sources[i] == s {
                return true;
            }
            i += 1;
        }
        false
    }

    fn function_missing(&self, name: &String) -> (r: bool)
        ensures
            r == self.spec_function_missing(name@),
    {
        let n = self.missing_functions.len();
        let mut i: usize = 0;
        while i < n
            invariant
                0 <= i <= n,
                n == self.missing_functions@.len(),
                forall|j: int| 0 <= j < i ==> self.missing_functions@[j]@ != name@,
            decreases n - i,
        {
            if self.missing_functions[i] == *name {
                return true;
            }
            i += 1;
        }
        false
    }

    fn pipeline_broken(&self, name: &String) -> (r: bool)
        ensures
            r == self.spec_pipeline_broken(name@),
    {
        let n = self.broken_pipelines.len();
        let mut i: usize = 0;
        while i < n
            invariant
                0 <= i <= n,
                n == self.broken_pipelines@.len(),
                forall|j: int| 0 <= j < i ==> self.broken_pipelines@[j]@ != name@,
            decreases n - i,
        {
            if self.broken_pipelines[i] == *name {
                return true;
            }
            i += 1;
        }
        false
    }
}

/// The process-wide pipeline cache: compiled libraries keyed by kernel
/// group and built pipelines keyed by function name. Both maps are
/// lazily populated and never evicted, so `libraries.len()` counts
/// compilations and `pipelines.len()` counts pipeline builds.
#[derive(Debug)]
pub struct Kernels {
    pub libraries: Vec<Library>,
    pub pipelines: Vec<Pipeline>,
}

impl Kernels {
    /// Pipeline values, as mathematical sequences.
    pub open spec fn pipes(self) -> Seq<PipelineView> {
        self.pipelines@.map_values(|p: Pipeline| p@)
    }

    /// Each group compiled at most once, each name built at most once,
    /// and ids record the build order.
    pub open spec fn wf(self) -> bool {
        &&& forall|i: int, j: int|
            0 <= i < j < self.libraries@.len() ==> self.libraries@[i].source
                != self.libraries@[j].source
        &&& forall|i: int|
            0 <= i < self.libraries@.len() ==> #[trigger] self.libraries@[i].compile_id == i
        &&& forall|i: int, j: int|
            0 <= i < j < self.pipes().len() ==> self.pipes()[i].name != self.pipes()[j].name
        &&& forall|i: int| 0 <= i < self.pipes().len() ==> #[trigger] self.pipes()[i].build_id == i
    }

    pub open spec fn spec_has_library(self, s: Source) -> bool {
        exists|i: int| 0 <= i < self.libraries@.len() && self.libraries@[i].source == s
    }

    pub open spec fn spec_has_pipeline(self, n: Seq<char>) -> bool {
        exists|i: int| 0 <= i < self.pipes().len() && self.pipes()[i].name == n
    }

    pub fn new() -> (r: Kernels)
        ensures
            r.wf(),
            r.libraries@.len() == 0,
            r.pipes().len() == 0,
    {
        Kernels { libraries: Vec::new(), pipelines: Vec::new() }
    }

    /// The registry key of one kernel group: the stable identifier
    /// under which the device bindings embed that group's program
    /// text. The text itself is an opaque device program and ships
    /// with the bindings' kernel bundle (see the shell's source
    /// registry), not with this verified core; the compile step is
    /// likewise the device's.
    pub fn get_library_source(&self, source: Source) -> (r: &'static str)
        ensures
            r@ == spec_library_source_name(source),
    {
        match source {
            Source::BnbDequant => "bnb_dequantize",
            Source::Sdpa => "sdpa",
        }
    }

    /// Loads the library of `source`, compiling it on a cache miss and
    /// returning the cached handle on a hit.
    pub fn load_library(&mut self, device: &DeviceModel, source: Source) -> (r: Result<
        Library,
        MetalKernelError,
    >)
        requires
            old(self).wf(),
        ensures
            final(self).wf(),
            final(self).pipelines == old(self).pipelines,
            r is Err <==> (!old(self).spec_has_library(source) && device.spec_source_broken(
                source,
            )),
            match r {
                Ok(lib) => {
                    &&& lib.source == source
                    &&& if old(self).spec_has_library(source) {
                        &&& *final(self) == *old(self)
                        &&& old(self).libraries@.contains(lib)
                    } else {
                        &&& lib.compile_id == old(self).libraries@.len()
                        &&& final(self).libraries@ == old(self).libraries@.push(lib)
                    }
                },
                Err(e) => {
                    &&& e matches MetalKernelError::LoadLibraryError(_)
                    &&& *final(self) == *old(self)
                },
            },
    {
        let n = self.libraries.len();
        let mut i: usize = 0;
        while i < n
            invariant
                old(self).wf(),
                0 <= i <= n,
                *self == *old(self),
                n == self.libraries@.len(),
                forall|j: int| 0 <= j < i ==> self.libraries@[j].source != source,
            decreases n - i,
        {
            if self.libraries[i].source == source {
                proof {
                    assert(old(self).spec_has_library(source));
                }
                return Ok(self.libraries[i]);
            }
            i += 1;
        }
        proof {
            assert(!old(self).spec_has_library(source));
        }
        if device.source_broken(source) {
            return Err(
                MetalKernelError::LoadLibraryError(self.get_library_source(source).to_owned()),
            );
        }
        let lib = Library { source, compile_id: n };
        self.libraries.push(lib);
        proof {
            assert forall|ii: int, jj: int|
                0 <= ii < jj < self.libraries@.len() implies self.libraries@[ii].source
                != self.libraries@[jj].source by {
                if jj < n {
                } else {
                    assert(self.libraries@[jj] == lib);
                }
            }
            assert forall|ii: int|
                0 <= ii < self.libraries@.len() implies #[trigger] self.libraries@[ii].compile_id
                == ii by {
                if ii < n {
                    assert(self.libraries@[ii] == old(self).libraries@[ii]);
                } else {
                    assert(self.libraries@[ii] == lib);
                }
            }
            assert(self.pipes() =~= old(self).pipes());
        }
        Ok(lib)
    }

    /// Checks that `name` is exported by the library of `source`,
    /// compiling the library first when needed.
    fn load_function(&mut self, device: &DeviceModel, source: Source, name: &String) -> (r: Result<
        Library,
        MetalKernelError,
    >)
        requires
            old(self).wf(),
        ensures
            final(self).wf(),
            final(self).pipelines == old(self).pipelines,
            r is Err <==> (!old(self).spec_has_library(source) && device.spec_source_broken(source))
                || ((old(self).spec_has_library(source) || !device.spec_source_broken(source))
                && device.spec_function_missing(name@)),
            match r {
                Ok(lib) => {
                    &&& lib.source == source
                    &&& !device.spec_function_missing(name@)
                    &&& if old(self).spec_has_library(source) {
                        final(self).libraries == old(self).libraries
                    } else {
                        final(self).libraries@ == old(self).libraries@.push(lib)
                    }
                },
                Err(e) => {
                    &&& (e matches MetalKernelError::LoadLibraryError(_) || e
                        matches MetalKernelError::LoadFunctionError(_))
                    &&& (e matches MetalKernelError::LoadLibraryError(_) ==> !old(
                        self,
                    ).spec_has_library(source) && device.spec_source_broken(source))
                    &&& (e matches MetalKernelError::LoadFunctionError(_)
                        ==> device.spec_function_missing(name@))
                },
            },
    {
        let lib = match self.load_library(device, source) {
            Ok(l) => l,
            Err(e) => {
                return Err(e);
            },
        };
        if device.function_missing(name) {
            return Err(MetalKernelError::LoadFunctionError(name.clone()));
        }
        Ok(lib)
    }

    /// Loads the pipeline of function `name`: returns the cached handle
    /// when one exists, and otherwise compiles the library of `source`
    /// if needed, checks the function is exported, builds the pipeline,
    /// and caches it. Compilation and build failures are reported as
    /// named errors and cache nothing for `name`.
    pub fn load_pipeline(&mut self, device: &DeviceModel, source: Source, name: &String) -> (r:
        Result<Pipeline, MetalKernelError>)
        requires
            old(self).wf(),
        ensures
            final(self).wf(),
            match r {
                Ok(p) => {
                    &&& p@.name == name@
                    &&& if old(self).spec_has_pipeline(name@) {
                        &&& *final(self) == *old(self)
                        &&& old(self).pipes().contains(p@)
                    } else {
                        &&& p@.build_id == old(self).pipes().len()
                        &&& final(self).pipes() == old(self).pipes().push(p@)
                    }
                },
                Err(e) => {
                    &&& final(self).pipelines == old(self).pipelines
                    &&& !old(self).spec_has_pipeline(name@)
                    &&& match e {
                        MetalKernelError::LoadLibraryError(_) => !old(self).spec_has_library(source)
                            && device.spec_source_broken(source),
                        MetalKernelError::LoadFunctionError(_) => device.spec_function_missing(
                            name@,
                        ),
                        MetalKernelError::FailedToCreatePipeline(_) => device.spec_pipeline_broken(
                            name@,
                        ),
                        _ => false,
                    }
                },
            },
            r is Err <==> (!old(self).spec_has_pipeline(name@) && ((!old(self).spec_has_library(
                source,
            ) && device.spec_source_broken(source)) || ((old(self).spec_has_library(source)
                || !device.spec_source_broken(source)) && (device.spec_function_missing(name@)
                || device.spec_pipeline_broken(name@))))),
    {
        let n = self.pipelines.len();
        let mut i: usize = 0;
        while i < n
            invariant
                old(self).wf(),
                0 <= i <= n,
                *self == *old(self),
                n == self.pipelines@.len(),
                forall|j: int| 0 <= j < i ==> #[trigger] self.pipes()[j].name != name@,
            decreases n - i,
        {
            proof {
                assert(self.pipes()[i as int] == self.pipelines@[i as int]@);
            }
            if self.pipelines[i].name == *name {
                proof {
                    assert(self.pipes()[i as int].name == name@);
                    assert(old(self).spec_has_pipeline(name@));
                }
                let p = self.pipelines[i].clone();
                proof {
                    assert(old(self).pipes().contains(p@));
                }
                return Ok(p);
            }
            i += 1;
        }
        proof {
            assert(!old(self).spec_has_pipeline(name@));
        }
        match self.load_function(device, source, name) {
            Ok(_) => {},
            Err(e) => {
                return Err(e);
            },
        }
        if device.pipeline_broken(name) {
            return Err(MetalKernelError::FailedToCreatePipeline(name.clone()));
        }
        let p = Pipeline { name: name.clone(), build_id: n };
        let pv = Ghost(p@);
        self.pipelines.push(p);
        proof {
            assert(self.pipes() =~= old(self).pipes().push(pv@));
            assert forall|ii: int, jj: int|
                0 <= ii < jj < self.pipes().len() implies self.pipes()[ii].name
                != self.pipes()[jj].name by {
                if jj < n {
                } else {
                    assert(self.pipes()[jj] == pv@);
                }
            }
            assert forall|ii: int|
                0 <= ii < self.pipes().len() implies #[trigger] self.pipes()[ii].build_id
                == ii by {
                if ii < n {
                    assert(self.pipes()[ii] == old(self).pipes()[ii]);
                } else {
                    assert(self.pipes()[ii] == pv@);
                }
            }
        }
        let r = Pipeline { name: name.clone(), build_id: n };
        Ok(r)
    }
}

impl Default for Kernels {
    fn default() -> (r: Kernels)
        ensures
            r.wf(),
            r.libraries@.len() == 0,
            r.pipes().len() == 0,
    {
        Kernels::new()
    }
}

/// Identifier of the embedded source text of a kernel group.
pub open spec fn spec_library_source_name(source: Source) -> Seq<char> {
    match source {
        Source::BnbDequant => "bnb_dequantize"@,
        Source::Sdpa => "sdpa"@,
    }
}

} // verus!
