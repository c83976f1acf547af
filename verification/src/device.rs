//! The device-filter lifecycle.
//!
//! Filtering on the device is a fixed sequence of steps, each of which can
//! fail independently: make the context current, allocate a source and a
//! destination buffer on the device, upload the source pixels, launch the
//! kernel, download the result, and release both buffers. This module
//! drives that sequence as a verified state machine: the caller performs
//! each returned action against the device runtime and reports what
//! happened, the machine decides what comes next. The machine guarantees
//! that every allocated buffer has its release issued before the run ends,
//! whether the run succeeds or fails at any step, that each failure is
//! reported as the error of the step that failed, and that the run ends
//! with either a well-formed image of the source's shape or an error —
//! never both and never neither.

use vstd::prelude::*;

use crate::binding::{bilateral_kernel, ArgValue, Kernel, KernelPlaceholder, LaunchRequest, ModuleInfo};
use crate::grid::{launch_geometry, LaunchGeometry};
use crate::image::{Image, Pixel};

verus! {

/// A typed device failure, named for the step that failed.
#[derive(Clone, Copy, PartialEq, Eq, Structural, Debug)]
pub enum DeviceError {
    /// The driver, device, context or module is unavailable.
    Init,
    /// A device allocation (or a release) failed.
    Alloc,
    /// The kernel launch failed.
    Launch,
    /// A transfer between host and device failed, or returned the wrong
    /// amount of data.
    Transfer,
}

/// What the caller must perform next against the device runtime.
pub enum DeviceAction {
    /// Make the device context current for the calling thread.
    EnsureContext,
    /// Allocate `bytes` bytes of device memory for the source pixels.
    AllocateSource { bytes: usize },
    /// Allocate `bytes` bytes of device memory for the destination pixels.
    AllocateDestination { bytes: usize },
    /// Copy `pixel_count` source pixels from the host into the device
    /// buffer named by `src`.
    Upload { src: u64, pixel_count: usize },
    /// Launch the bilateral kernel as assembled, and wait for completion.
    Launch(LaunchRequest),
    /// Copy `pixel_count` pixels out of the device buffer named by `dst`.
    Download { dst: u64, pixel_count: usize },
    /// Release the device buffer named by `src`.
    ReleaseSource { src: u64 },
    /// Release the device buffer named by `dst`.
    ReleaseDestination { dst: u64 },
    /// Nothing is left to perform.
    Finished,
}

/// What the caller reports back about the action it performed.
pub enum DeviceEvent {
    /// The action succeeded with nothing to hand over.
    Done,
    /// An allocation succeeded; the value names the new buffer.
    Allocated(u64),
    /// The download succeeded with these pixels.
    Retrieved(Vec<Pixel>),
    /// The action failed.
    Failed,
}

/// Where the run stands: the step whose outcome it is waiting for.
#[derive(Clone, Copy, PartialEq, Eq, Structural, Debug)]
pub enum Phase {
    Context,
    AllocSrc,
    AllocDst,
    Upload,
    Launching,
    Download,
    FreeSrc,
    FreeDst,
    Done,
}

/// One run of the device filter over one source image.
pub struct DeviceFilterRun {
    pub width: usize,
    pub height: usize,
    /// `width * height`.
    pub count: usize,
    pub radius: u32,
    /// Bit pattern of the spatial falloff scalar, as the caller encodes it.
    pub sigma_d_bits: u64,
    /// Bit pattern of the range falloff scalar, as the caller encodes it.
    pub sigma_r_bits: u64,
    pub geometry: LaunchGeometry,
    pub phase: Phase,
    /// The source buffer, while allocated and not yet released.
    pub src_ptr: Option<u64>,
    /// The destination buffer, while allocated and not yet released.
    pub dst_ptr: Option<u64>,
    pub error: Option<DeviceError>,
    pub output: Option<Vec<Pixel>>,
}

impl DeviceFilterRun {
    /// A finished or failing run carries exactly one of: an error, or a
    /// full buffer of destination pixels.
    pub open spec fn terminal_payload(&self) -> bool {
        if self.error is Some {
            self.output is None
        } else {
            self.output matches Some(v) && v@.len() == self.count
        }
    }

    /// What holds of the run between any two steps: the shape bookkeeping,
    /// the launch geometry, and per phase which buffers are held and
    /// whether an outcome is already settled. In every terminal state both
    /// buffers have had their release issued.
    pub open spec fn inv(&self) -> bool {
        &&& self.count == self.width * self.height
        &&& 3 * self.count <= usize::MAX
        &&& self.geometry.block_x == 8
        &&& self.geometry.block_y == 8
        &&& self.geometry.grid_x == self.width as int / 8
        &&& self.geometry.grid_y == self.height as int / 8
        &&& match self.phase {
            Phase::Context | Phase::AllocSrc => {
                &&& self.src_ptr is None
                &&& self.dst_ptr is None
                &&& self.output is None
                &&& self.error is None
            },
            Phase::AllocDst => {
                &&& self.src_ptr is Some
                &&& self.dst_ptr is None
                &&& self.output is None
                &&& self.error is None
            },
            Phase::Upload | Phase::Launching | Phase::Download => {
                &&& self.src_ptr is Some
                &&& self.dst_ptr is Some
                &&& self.output is None
                &&& self.error is None
            },
            Phase::FreeSrc => self.src_ptr is Some && self.terminal_payload(),
            Phase::FreeDst => {
                &&& self.src_ptr is None
                &&& self.dst_ptr is Some
                &&& self.terminal_payload()
            },
            Phase::Done => {
                &&& self.src_ptr is None
                &&& self.dst_ptr is None
                &&& self.terminal_payload()
            },
        }
    }

    /// Which events can answer the pending action of each phase.
    pub open spec fn event_fits(&self, ev: DeviceEvent) -> bool {
        match self.phase {
            Phase::Context | Phase::Upload | Phase::Launching => ev is Done || ev is Failed,
            Phase::AllocSrc | Phase::AllocDst => ev is Allocated || ev is Failed,
            Phase::Download => ev is Retrieved || ev is Failed,
            Phase::FreeSrc | Phase::FreeDst => ev is Done || ev is Failed,
            Phase::Done => false,
        }
    }

    /// Starts a run: the first action is to make the context current.
    pub fn begin(source: &Image, radius: u32, sigma_d_bits: u64, sigma_r_bits: u64) -> (r: (
        DeviceFilterRun,
        DeviceAction,
    ))
        requires
            source.wf(),
            source.width <= u32::MAX,
            source.height <= u32::MAX,
            3 * (source.width * source.height) <= usize::MAX,
        ensures
            r.0.inv(),
            r.0.phase == Phase::Context,
            r.0.width == source.width,
            r.0.height == source.height,
            r.0.radius == radius,
            r.0.sigma_d_bits == sigma_d_bits,
            r.0.sigma_r_bits == sigma_r_bits,
            r.1 is EnsureContext,
    {
        proof {
            assert(source.width * source.height <= 3 * (source.width * source.height));
        }
        let run = DeviceFilterRun {
            width: source.width,
            height: source.height,
            count: source.width * source.height,
            radius,
            sigma_d_bits,
            sigma_r_bits,
            geometry: launch_geometry(source.width, source.height),
            phase: Phase::Context,
            src_ptr: None,
            dst_ptr: None,
            error: None,
            output: None,
        };
        (run, DeviceAction::EnsureContext)
    }

    /// Consumes the outcome of the pending action and decides the next
    /// one.
    ///
    /// On success the run advances along the sequence; the launch request
    /// it assembles is the bilateral kernel over the run's geometry with
    /// the two buffers, the radius and the two falloff scalars, in that
    /// order. On failure the run records the error of the step that failed
    /// — context `Init`, allocation `Alloc`, transfers `Transfer`, launch
    /// `Launch`, a short download `Transfer` — and turns to releasing
    /// whatever is still held; a failed release is recorded as `Alloc` if
    /// no earlier error stands. The first error is the one reported.
    pub fn step(&mut self, kernel: &Kernel<bilateral_kernel>, ev: DeviceEvent) -> (a: DeviceAction)
        requires
            old(self).inv(),
            old(self).phase != Phase::Done,
            old(self).event_fits(ev),
        ensures
            final(self).inv(),
            final(self).width == old(self).width,
            final(self).height == old(self).height,
            final(self).count == old(self).count,
            final(self).radius == old(self).radius,
            final(self).sigma_d_bits == old(self).sigma_d_bits,
            final(self).sigma_r_bits == old(self).sigma_r_bits,
            final(self).geometry == old(self).geometry,
            // frame: a buffer travels unchanged through every step except
            // the one that allocates it and the one that releases it, so
            // the buffers later uploaded to, launched with, downloaded
            // from and released are the very ones allocated by this run
            !(old(self).phase == Phase::AllocSrc && ev is Allocated) && old(self).phase
                != Phase::FreeSrc ==> final(self).src_ptr == old(self).src_ptr,
            !(old(self).phase == Phase::AllocDst && ev is Allocated) && old(self).phase
                != Phase::FreeDst ==> final(self).dst_ptr == old(self).dst_ptr,
            old(self).phase != Phase::Download && old(self).phase != Phase::FreeSrc && old(self).phase != Phase::FreeDst ==> final(self).output == old(self).output,
            (old(self).phase == Phase::FreeSrc || old(self).phase == Phase::FreeDst) && ev
                is Failed && old(self).error is None ==> final(self).output is None,
            // the successful path
            old(self).phase == Phase::Context && ev is Done ==> final(self).phase
                == Phase::AllocSrc && (a matches DeviceAction::AllocateSource { bytes } && bytes
                == 3 * old(self).count),
            ev is Allocated && old(self).phase == Phase::AllocSrc ==> final(self).phase == Phase::AllocDst && final(self).src_ptr == Some(ev->Allocated_0) && (
            a matches DeviceAction::AllocateDestination { bytes } && bytes == 3 * old(self).count),
            ev is Allocated && old(self).phase == Phase::AllocDst ==> final(self).phase == Phase::Upload && final(self).dst_ptr == Some(ev->Allocated_0) && (
            a matches DeviceAction::Upload { src, pixel_count } && src == old(self).src_ptr->Some_0 && pixel_count == old(self).count),
            old(self).phase == Phase::Upload && ev is Done ==> final(self).phase
                == Phase::Launching && (a matches DeviceAction::Launch(req) && req.geometry == old(self).geometry && req.args@ == seq![
                ArgValue::PtrConstPixel(old(self).src_ptr->Some_0),
                ArgValue::PtrMutPixel(old(self).dst_ptr->Some_0),
                ArgValue::Uint32(old(self).radius),
                ArgValue::Double(old(self).sigma_d_bits),
                ArgValue::Double(old(self).sigma_r_bits),
            ]),
            old(self).phase == Phase::Launching && ev is Done ==> final(self).phase
                == Phase::Download && (a matches DeviceAction::Download { dst, pixel_count } && dst
                == old(self).dst_ptr->Some_0 && pixel_count == old(self).count),
            ev is Retrieved && old(self).phase == Phase::Download && ev->Retrieved_0@.len()
                == old(self).count ==> final(self).phase == Phase::FreeSrc && final(self).output == Some(ev->Retrieved_0) && final(self).error is None,
            ev is Retrieved && old(self).phase == Phase::Download && ev->Retrieved_0@.len()
                != old(self).count ==> final(self).phase == Phase::FreeSrc && final(self).output is None && final(self).error == Some(DeviceError::Transfer),
            old(self).phase == Phase::Download && ev is Retrieved ==> (
            a matches DeviceAction::ReleaseSource { src } && src == old(self).src_ptr->Some_0),
            // failures record the error of the failing step
            old(self).phase == Phase::Context && ev is Failed ==> final(self).error == Some(
                DeviceError::Init,
            ),
            old(self).phase == Phase::AllocSrc && ev is Failed ==> final(self).error == Some(
                DeviceError::Alloc,
            ),
            old(self).phase == Phase::AllocDst && ev is Failed ==> final(self).error == Some(
                DeviceError::Alloc,
            ),
            old(self).phase == Phase::Upload && ev is Failed ==> final(self).error == Some(
                DeviceError::Transfer,
            ),
            old(self).phase == Phase::Launching && ev is Failed ==> final(self).error == Some(
                DeviceError::Launch,
            ),
            old(self).phase == Phase::Download && ev is Failed ==> final(self).error == Some(
                DeviceError::Transfer,
            ),
            // a failure releases whatever is held before finishing
            (old(self).phase == Phase::Context || old(self).phase == Phase::AllocSrc) && ev
                is Failed ==> final(self).phase == Phase::Done && a is Finished,
            old(self).phase == Phase::AllocDst && ev is Failed ==> final(self).phase
                == Phase::FreeSrc && (a matches DeviceAction::ReleaseSource { src } && src == old(self).src_ptr->Some_0),
            (old(self).phase == Phase::Upload || old(self).phase == Phase::Launching || old(self).phase == Phase::Download) && ev is Failed ==> final(self).phase == Phase::FreeSrc && (
            a matches DeviceAction::ReleaseSource { src } && src == old(self).src_ptr->Some_0),
            // the releases themselves
            old(self).phase == Phase::FreeSrc ==> final(self).src_ptr is None && (if old(self).dst_ptr is Some {
                final(self).phase == Phase::FreeDst && (
                a matches DeviceAction::ReleaseDestination { dst } && dst == old(self).dst_ptr->Some_0)
            } else {
                final(self).phase == Phase::Done && a is Finished
            }),
            old(self).phase == Phase::FreeDst ==> final(self).phase == Phase::Done && final(self).dst_ptr is None && a is Finished,
            (old(self).phase == Phase::FreeSrc || old(self).phase == Phase::FreeDst) ==> final(self).error == (if ev is Failed && old(self).error is None {
                Some(DeviceError::Alloc)
            } else {
                old(self).error
            }),
            (old(self).phase == Phase::FreeSrc || old(self).phase == Phase::FreeDst) && (ev is Done
                || old(self).error is Some) ==> final(self).output == old(self).output,
    {
        match self.phase {
            Phase::Context => {
                match ev {
                    DeviceEvent::Done => {
                        self.phase = Phase::AllocSrc;
                        DeviceAction::AllocateSource { bytes: 3 * self.count }
                    },
                    _ => {
                        self.error = Some(DeviceError::Init);
                        self.phase = Phase::Done;
                        DeviceAction::Finished
                    },
                }
            },
            Phase::AllocSrc => {
                match ev {
                    DeviceEvent::Allocated(p) => {
                        self.src_ptr = Some(p);
                        self.phase = Phase::AllocDst;
                        DeviceAction::AllocateDestination { bytes: 3 * self.count }
                    },
                    _ => {
                        self.error = Some(DeviceError::Alloc);
                        self.phase = Phase::Done;
                        DeviceAction::Finished
                    },
                }
            },
            Phase::AllocDst => {
                let src = self.src_ptr.unwrap();
                match ev {
                    DeviceEvent::Allocated(p) => {
                        self.dst_ptr = Some(p);
                        self.phase = Phase::Upload;
                        DeviceAction::Upload { src, pixel_count: self.count }
                    },
                    _ => {
                        self.error = Some(DeviceError::Alloc);
                        self.phase = Phase::FreeSrc;
                        DeviceAction::ReleaseSource { src }
                    },
                }
            },
            Phase::Upload => {
                let src = self.src_ptr.unwrap();
                match ev {
                    DeviceEvent::Done => {
                        self.phase = Phase::Launching;
                        self.assemble_launch(kernel)
                    },
                    _ => {
                        self.error = Some(DeviceError::Transfer);
                        self.phase = Phase::FreeSrc;
                        DeviceAction::ReleaseSource { src }
                    },
                }
            },
            Phase::Launching => {
                let src = self.src_ptr.unwrap();
                let dst = self.dst_ptr.unwrap();
                match ev {
                    DeviceEvent::Done => {
                        self.phase = Phase::Download;
                        DeviceAction::Download { dst, pixel_count: self.count }
                    },
                    _ => {
                        self.error = Some(DeviceError::Launch);
                        self.phase = Phase::FreeSrc;
                        DeviceAction::ReleaseSource { src }
                    },
                }
            },
            Phase::Download => {
                let src = self.src_ptr.unwrap();
                match ev {
                    DeviceEvent::Retrieved(v) => {
                        if v.len() == self.count {
                            self.output = Some(v);
                        } else {
                            self.error = Some(DeviceError::Transfer);
                        }
                        self.phase = Phase::FreeSrc;
                        DeviceAction::ReleaseSource { src }
                    },
                    _ => {
                        self.error = Some(DeviceError::Transfer);
                        self.phase = Phase::FreeSrc;
                        DeviceAction::ReleaseSource { src }
                    },
                }
            },
            Phase::FreeSrc => {
                self.src_ptr = None;
                if matches!(ev, DeviceEvent::Failed) && self.error.is_none() {
                    self.error = Some(DeviceError::Alloc);
                    self.output = None;
                }
                match self.dst_ptr {
                    Some(dst) => {
                        self.phase = Phase::FreeDst;
                        DeviceAction::ReleaseDestination { dst }
                    },
                    None => {
                        self.phase = Phase::Done;
                        DeviceAction::Finished
                    },
                }
            },
            Phase::FreeDst => {
                self.dst_ptr = None;
                if matches!(ev, DeviceEvent::Failed) && self.error.is_none() {
                    self.error = Some(DeviceError::Alloc);
                    self.output = None;
                }
                self.phase = Phase::Done;
                DeviceAction::Finished
            },
            Phase::Done => {
                proof {
                    assert(false);
                }
                DeviceAction::Finished
            },
        }
    }

    /// Builds the launch request through the typed binding; the argument
    /// types match the bilateral kernel's declared parameters, so the
    /// binding accepts them — proved, not discovered mid-run.
    fn assemble_launch(&self, kernel: &Kernel<bilateral_kernel>) -> (a: DeviceAction)
        requires
            self.src_ptr is Some,
            self.dst_ptr is Some,
        ensures
            a matches DeviceAction::Launch(req) && req.geometry == self.geometry && req.args@
                == seq![
                ArgValue::PtrConstPixel(self.src_ptr->Some_0),
                ArgValue::PtrMutPixel(self.dst_ptr->Some_0),
                ArgValue::Uint32(self.radius),
                ArgValue::Double(self.sigma_d_bits),
                ArgValue::Double(self.sigma_r_bits),
            ],
    {
        let i1 = ArgValue::PtrConstPixel(self.src_ptr.unwrap());
        let i2 = ArgValue::PtrMutPixel(self.dst_ptr.unwrap());
        let i3 = ArgValue::Uint32(self.radius);
        let i4 = ArgValue::Double(self.sigma_d_bits);
        let i5 = ArgValue::Double(self.sigma_r_bits);
        proof {
            assert(Seq::new(5, |n: int| seq![i1, i2, i3, i4, i5][n].spec_type())
                =~= bilateral_kernel::spec_params());
        }
        match kernel.execute(self.geometry, i1, i2, i3, i4, i5) {
            Ok(req) => DeviceAction::Launch(req),
            Err(_) => {
                proof {
                    assert(false);
                }
                DeviceAction::Finished
            },
        }
    }

    /// Ends a finished run: the image on success, the recorded error
    /// otherwise — one of the two, never both. A returned image is well
    /// formed and has the source's shape.
    pub fn finish(self) -> (r: Result<Image, DeviceError>)
        requires
            self.inv(),
            self.phase == Phase::Done,
        ensures
            r is Ok <==> self.error is None,
            r matches Err(e) ==> self.error == Some(e),
            r matches Ok(img) ==> {
                &&& img.wf()
                &&& img.width == self.width
                &&& img.height == self.height
                &&& Some(img.pixels) == self.output
            },
    {
        match self.error {
            Some(e) => Err(e),
            None => {
                match self.output {
                    Some(pixels) => Ok(Image { pixels, width: self.width, height: self.height }),
                    None => {
                        proof {
                            assert(false);
                        }
                        Err(DeviceError::Init)
                    },
                }
            },
        }
    }
}

/// How far the process-wide context has come.
pub enum ContextState {
    /// Nothing built yet: the next caller builds.
    Pending,
    /// Built once; the export table of the loaded module, shared as it is.
    Ready(ModuleInfo),
    /// The build failed; it is never retried.
    Failed,
}

/// What a caller of the context should do.
#[derive(Clone, Copy, PartialEq, Eq, Structural, Debug)]
pub enum ContextPoll {
    /// Build the driver, device, context and module now, and supply the
    /// outcome.
    Build,
    /// The context stands; use it.
    Ready,
    /// The build failed earlier: the device strategy is unavailable, and
    /// no retry or silent fallback happens here.
    Unavailable,
}

/// The process-wide device context and module, owned explicitly: built
/// lazily and at most once, never torn down, and never rebuilt after a
/// failure. Callers poll it, perform the build when — and only when — they
/// are told to, and hand the outcome back exactly once.
pub struct DeviceContext {
    pub state: ContextState,
}

impl DeviceContext {
    /// A context with nothing built yet.
    pub fn new() -> (c: DeviceContext)
        ensures
            c.state is Pending,
    {
        DeviceContext { state: ContextState::Pending }
    }

    /// What the caller should do now. Only a pending context asks for a
    /// build; a failed one stays failed.
    pub fn poll(&self) -> (p: ContextPoll)
        ensures
            p == ContextPoll::Build <==> self.state is Pending,
            p == ContextPoll::Ready <==> self.state is Ready,
            p == ContextPoll::Unavailable <==> self.state is Failed,
    {
        match self.state {
            ContextState::Pending => ContextPoll::Build,
            ContextState::Ready(_) => ContextPoll::Ready,
            ContextState::Failed => ContextPoll::Unavailable,
        }
    }

    /// Records the one build outcome. Only the first build is accepted —
    /// the context never changes again.
    pub fn supply(&mut self, outcome: Option<ModuleInfo>)
        requires
            old(self).state is Pending,
        ensures
            outcome matches Some(m) ==> final(self).state == ContextState::Ready(m),
            outcome is None ==> final(self).state is Failed,
    {
        match outcome {
            Some(m) => {
                self.state = ContextState::Ready(m);
            },
            None => {
                self.state = ContextState::Failed;
            },
        }
    }

    /// The export table of the loaded module, for a built context.
    pub fn module(&self) -> (m: &ModuleInfo)
        requires
            self.state is Ready,
        ensures
            self.state == ContextState::Ready(*m),
    {
        match &self.state {
            ContextState::Ready(m) => m,
            _ => {
                proof {
                    assert(false);
                }
                unreached()
            },
        }
    }
}

/// No buffer outlives its run: in every terminal state both device buffers
/// have had their release issued, on the success path and on every error
/// path alike.
pub proof fn lemma_run_releases_all(run: DeviceFilterRun)
    requires
        run.inv(),
        run.phase == Phase::Done,
    ensures
        run.src_ptr is None,
        run.dst_ptr is None,
        run.error is Some || (run.output matches Some(v) && v@.len() == run.width * run.height),
        !(run.error is Some && run.output is Some),
{
}

} // verus!
