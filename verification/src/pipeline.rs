//! Graphics pipeline construction and ownership.
//!
//! A pipeline is built one-shot from a fixed configuration against a device
//! context, a render-pass-compatible target and one descriptor-set layout.
//! Two compiled shader stages are only needed while the driver builds the
//! pipeline: their modules are transient, and this module guarantees —
//! on the success path and on the failure path alike — that they are torn
//! down as soon as the build is over, so a failed build can never leak
//! them. The pipeline also owns a pipeline-layout handle with the same
//! lifetime as the pipeline itself.

use crate::resources::{RegistryError, ResourceKind, ResourceRegistry, VulkanObject};
use vstd::prelude::*;

verus! {

/// Why a pipeline build failed.
#[derive(Clone, Copy, Debug, PartialEq, Eq)]
pub enum PipelineBuildError {
    /// The driver's pipeline-creation call failed. A fatal bootstrap
    /// condition: the build is not retried.
    CreationFailed,
}

/// An executable GPU pipeline with its pipeline layout, both registered
/// against the device context they were built from.
#[derive(Debug)]
pub struct Pipeline {
    device: usize,
    pipeline: u64,
    pipeline_layout: u64,
    pipeline_id: usize,
    layout_id: usize,
}

impl Pipeline {
    /// Handle of the pipeline layout.
    pub closed spec fn layout_spec(self) -> u64 {
        self.pipeline_layout
    }

    /// Registry entry of the pipeline layout.
    pub closed spec fn layout_id_spec(self) -> usize {
        self.layout_id
    }

    /// Registry entry of the device context the pipeline was built from.
    pub closed spec fn device_spec(self) -> usize {
        self.device
    }

    /// Records the outcome of a one-shot pipeline build. The caller has
    /// created two transient shader modules, a pipeline layout over the
    /// descriptor-set layout, and then asked the driver for the pipeline;
    /// `pipeline_outcome` is the created handle, or `None` if the driver's
    /// call failed. Ownership is entered into the registry: the transient
    /// shader modules are registered for the duration of the build and torn
    /// down before this function returns, on the success path and on the
    /// failure path alike; their handles (and, on failure, the layout's)
    /// come back in the second result for the shell to destroy.
    pub fn new(
        reg: &mut ResourceRegistry,
        device: usize,
        render_pass: usize,
        descriptor_layout: usize,
        vert_module: u64,
        frag_module: u64,
        layout_handle: u64,
        pipeline_outcome: Option<u64>,
    ) -> (r: (Result<Pipeline, PipelineBuildError>, Vec<u64>))
        requires
            old(reg).wf(),
            device < old(reg).res().len(),
            old(reg).res()[device as int].alive,
            render_pass < old(reg).res().len(),
            old(reg).res()[render_pass as int].alive,
            descriptor_layout < old(reg).res().len(),
            old(reg).res()[descriptor_layout as int].alive,
        ensures
            final(reg).wf(),
            forall|i: int|
                0 <= i < old(reg).res().len() ==> final(reg).res()[i] == old(reg).res()[i],
            r.0 is Ok <==> pipeline_outcome is Some,
            r.0 is Err <==> (r.0 == Err::<Pipeline, PipelineBuildError>(
                PipelineBuildError::CreationFailed,
            ) && pipeline_outcome is None),
            // the transient shader modules never outlive the build
            forall|i: int|
                old(reg).res().len() <= i < final(reg).res().len()
                    ==> ((#[trigger] final(reg).res()[i]).kind == ResourceKind::ShaderModule
                        ==> !final(reg).res()[i].alive),
            pipeline_outcome is None ==> {
                &&& final(reg).res().len() == old(reg).res().len() + 3
                &&& r.1@ == seq![vert_module, frag_module, layout_handle]
                &&& forall|i: int|
                    old(reg).res().len() <= i < final(reg).res().len()
                        ==> !(#[trigger] final(reg).res()[i]).alive
            },
            pipeline_outcome matches Some(ph) ==> {
                &&& final(reg).res().len() == old(reg).res().len() + 4
                &&& r.1@ == seq![vert_module, frag_module]
                &&& r.0 matches Ok(p)
                    && p.handle_spec() == ph
                    && p.layout_spec() == layout_handle
                    && p.device_spec() == device
                    && p.id_spec() as int == old(reg).res().len() + 3
                    && p.layout_id_spec() as int == old(reg).res().len() + 2
                    && p.registered_in(*final(reg))
                    && final(reg).res()[p.id_spec() as int].kind == ResourceKind::Pipeline
                    && final(reg).res()[p.id_spec() as int].alive
                    && final(reg).res()[p.id_spec() as int].deps@
                        == seq![device, render_pass, p.layout_id_spec()]
                    && final(reg).res()[p.layout_id_spec() as int].kind
                        == ResourceKind::PipelineLayout
                    && final(reg).res()[p.layout_id_spec() as int].alive
                    && final(reg).res()[p.layout_id_spec() as int].handle == layout_handle
            },
    {
        let ghost n0 = reg.res().len();
        let mut vert_deps: Vec<usize> = Vec::new();
        vert_deps.push(device);
        let vert_id = reg.register(ResourceKind::ShaderModule, vert_module, vert_deps);
        let mut frag_deps: Vec<usize> = Vec::new();
        frag_deps.push(device);
        let frag_id = reg.register(ResourceKind::ShaderModule, frag_module, frag_deps);
        let mut layout_deps: Vec<usize> = Vec::new();
        layout_deps.push(device);
        layout_deps.push(descriptor_layout);
        let layout_id = reg.register(ResourceKind::PipelineLayout, layout_handle, layout_deps);
        match pipeline_outcome {
            Some(ph) => {
                let mut pipe_deps: Vec<usize> = Vec::new();
                pipe_deps.push(device);
                pipe_deps.push(render_pass);
                pipe_deps.push(layout_id);
                let pipeline_id = reg.register(ResourceKind::Pipeline, ph, pipe_deps);
                proof {
                    assert forall|i: int| n0 <= i < reg.res().len() implies !(#[trigger] reg.res()[
                        i
                    ]).deps@.contains(vert_id) by {
                        let s = reg.res()[i].deps@;
                        if s.contains(vert_id) {
                            let j = choose|j: int| 0 <= j < s.len() && s[j] == vert_id;
                            assert(s[j] == vert_id);
                        }
                    }
                    lemma_no_dependent_on(*reg, vert_id, n0 as int);
                }
                let h_vert = reg.teardown_live(vert_id);
                proof {
                    assert forall|i: int| n0 <= i < reg.res().len() implies !(#[trigger] reg.res()[
                        i
                    ]).deps@.contains(frag_id) by {
                        let s = reg.res()[i].deps@;
                        if s.contains(frag_id) {
                            let j = choose|j: int| 0 <= j < s.len() && s[j] == frag_id;
                            assert(s[j] == frag_id);
                        }
                    }
                    lemma_no_dependent_on(*reg, frag_id, n0 as int);
                }
                let h_frag = reg.teardown_live(frag_id);
                let mut transients: Vec<u64> = Vec::new();
                transients.push(h_vert);
                transients.push(h_frag);
                proof {
                    assert(transients@ =~= seq![vert_module, frag_module]);
                    assert(reg.res()[pipeline_id as int].deps@ =~= seq![
                        device,
                        render_pass,
                        layout_id,
                    ]);
                }
                let p = Pipeline {
                    device,
                    pipeline: ph,
                    pipeline_layout: layout_handle,
                    pipeline_id,
                    layout_id,
                };
                (Ok(p), transients)
            },
            None => {
                proof {
                    assert forall|i: int| n0 <= i < reg.res().len() implies !(#[trigger] reg.res()[
                        i
                    ]).deps@.contains(vert_id) by {
                        let s = reg.res()[i].deps@;
                        if s.contains(vert_id) {
                            let j = choose|j: int| 0 <= j < s.len() && s[j] == vert_id;
                            assert(s[j] == vert_id);
                        }
                    }
                    lemma_no_dependent_on(*reg, vert_id, n0 as int);
                }
                let h_vert = reg.teardown_live(vert_id);
                proof {
                    assert forall|i: int| n0 <= i < reg.res().len() implies !(#[trigger] reg.res()[
                        i
                    ]).deps@.contains(frag_id) by {
                        let s = reg.res()[i].deps@;
                        if s.contains(frag_id) {
                            let j = choose|j: int| 0 <= j < s.len() && s[j] == frag_id;
                            assert(s[j] == frag_id);
                        }
                    }
                    lemma_no_dependent_on(*reg, frag_id, n0 as int);
                }
                let h_frag = reg.teardown_live(frag_id);
                proof {
                    assert forall|i: int| n0 <= i < reg.res().len() implies !(#[trigger] reg.res()[
                        i
                    ]).deps@.contains(layout_id) by {
                        let s = reg.res()[i].deps@;
                        if s.contains(layout_id) {
                            let j = choose|j: int| 0 <= j < s.len() && s[j] == layout_id;
                            assert(s[j] == layout_id);
                        }
                    }
                    lemma_no_dependent_on(*reg, layout_id, n0 as int);
                }
                let h_layout = reg.teardown_live(layout_id);
                let mut transients: Vec<u64> = Vec::new();
                transients.push(h_vert);
                transients.push(h_frag);
                transients.push(h_layout);
                proof {
                    assert(transients@ =~= seq![vert_module, frag_module, layout_handle]);
                }
                (Err(PipelineBuildError::CreationFailed), transients)
            },
        }
    }

    /// Handle of the pipeline layout, read-only.
    pub fn get_layout(&self) -> (h: u64)
        ensures
            h == self.layout_spec(),
    {
        self.pipeline_layout
    }

    /// Registry entry of the pipeline layout.
    pub fn get_layout_id(&self) -> (id: usize)
        ensures
            id == self.layout_id_spec(),
    {
        self.layout_id
    }

    /// Tears down the pipeline and then its layout, which share a
    /// lifetime. The caller must have torn down every dependent of the
    /// pipeline, and nothing but the pipeline itself may still hold its
    /// layout. Returns the two native handles, in destruction order.
    pub fn destroy(&self, reg: &mut ResourceRegistry) -> (r: (u64, u64))
        requires
            old(reg).wf(),
            self.registered_in(*old(reg)),
            (self.layout_id_spec() as int) < old(reg).res().len(),
            old(reg).res()[self.layout_id_spec() as int].handle == self.layout_spec(),
            self.id_spec() != self.layout_id_spec(),
            old(reg).res()[self.id_spec() as int].alive,
            old(reg).res()[self.layout_id_spec() as int].alive,
            !old(reg).has_live_dependent(self.id_spec()),
            forall|i: int|
                0 <= i < old(reg).res().len() && (#[trigger] old(reg).res()[i]).alive && old(
                    reg,
                ).res()[i].deps@.contains(self.layout_id_spec()) ==> i == self.id_spec() as int,
        ensures
            final(reg).wf(),
            r == (self.handle_spec(), self.layout_spec()),
            final(reg).res().len() == old(reg).res().len(),
            !final(reg).res()[self.id_spec() as int].alive,
            !final(reg).res()[self.layout_id_spec() as int].alive,
            forall|i: int|
                0 <= i < old(reg).res().len() && i != self.id_spec() as int && i
                    != self.layout_id_spec() as int ==> final(reg).res()[i] == old(reg).res()[i],
    {
        let h_pipeline = reg.teardown_live(self.pipeline_id);
        proof {
            assert forall|i: int|
                !(0 <= i < reg.res().len() && (#[trigger] reg.res()[i]).alive && reg.res()[
                    i
                ].deps@.contains(self.layout_id_spec())) by {
                if 0 <= i < reg.res().len() && reg.res()[i].alive && reg.res()[i].deps@.contains(
                    self.layout_id_spec(),
                ) {
                    assert(i != self.id_spec() as int);
                    assert(reg.res()[i] == old(reg).res()[i]);
                }
            }
        }
        let h_layout = reg.teardown_live(self.layout_id);
        (h_pipeline, h_layout)
    }
}

impl VulkanObject for Pipeline {
    closed spec fn handle_spec(&self) -> u64 {
        self.pipeline
    }

    closed spec fn id_spec(&self) -> usize {
        self.pipeline_id
    }

    fn vulkan_object(&self) -> (h: u64) {
        self.pipeline
    }

    fn resource_id(&self) -> (id: usize) {
        self.pipeline_id
    }

    fn cleanup(&self, reg: &mut ResourceRegistry) -> (r: Result<u64, RegistryError>) {
        reg.teardown(self.pipeline_id)
    }
}

/// An entry registered at or after position `n0` cannot be depended on by
/// the older entries — their dependency lists stay below their own index,
/// hence below `n0` — so once the entries from `n0` on provably omit `id`
/// from their dependency lists, nothing blocks `id`'s teardown.
proof fn lemma_no_dependent_on(reg: ResourceRegistry, id: usize, n0: int)
    requires
        reg.wf(),
        n0 <= id as int,
        (id as int) < reg.res().len(),
        forall|i: int|
            n0 <= i < reg.res().len() ==> !(#[trigger] reg.res()[i]).deps@.contains(id),
    ensures
        !reg.has_live_dependent(id),
{
    assert forall|i: int|
        !(0 <= i < reg.res().len() && (#[trigger] reg.res()[i]).alive && reg.res()[
            i
        ].deps@.contains(id)) by {
        if 0 <= i < n0 && reg.res()[i].deps@.contains(id) {
            let j = choose|j: int|
                0 <= j < reg.res()[i].deps@.len() && reg.res()[i].deps@[j] == id;
            assert(reg.deps_below(i));
            assert((reg.res()[i].deps@[j] as int) < i);
        }
    }
}

} // verus!
