use bilateral::binding::{
    bilateral_kernel, ArgType, ArgValue, Kernel, KernelSignature, ModuleInfo,
};
use bilateral::device::{ContextPoll, DeviceAction, DeviceContext, DeviceError, DeviceEvent, DeviceFilterRun};
use bilateral::{Image, Pixel};

fn bound_kernel() -> Kernel<bilateral_kernel> {
    let module = ModuleInfo {
        kernels: vec![KernelSignature {
            name: String::from("bilateral_kernel"),
            params: vec![
                ArgType::PtrConstPixel,
                ArgType::PtrMutPixel,
                ArgType::Uint32,
                ArgType::Double,
                ArgType::Double,
            ],
        }],
    };
    Kernel::new(&module).expect("the bilateral kernel binds")
}

#[test]
fn device_run_success_path() {
    let kernel = bound_kernel();
    let source = Image::new(8, 8);
    let sigma_d = 3.5f64.to_bits();
    let sigma_r = 3.0f64.to_bits();
    let (mut run, first) = DeviceFilterRun::begin(&source, 5, sigma_d, sigma_r);
    assert!(matches!(first, DeviceAction::EnsureContext));

    let a = run.step(&kernel, DeviceEvent::Done);
    match a {
        DeviceAction::AllocateSource { bytes } => assert_eq!(bytes, 3 * 64),
        _ => panic!("the source allocation comes first"),
    }
    let a = run.step(&kernel, DeviceEvent::Allocated(0x1000));
    match a {
        DeviceAction::AllocateDestination { bytes } => assert_eq!(bytes, 3 * 64),
        _ => panic!("the destination allocation comes second"),
    }
    let a = run.step(&kernel, DeviceEvent::Allocated(0x2000));
    match a {
        DeviceAction::Upload { src, pixel_count } => {
            assert_eq!(src, 0x1000);
            assert_eq!(pixel_count, 64);
        },
        _ => panic!("the upload follows the allocations"),
    }
    let a = run.step(&kernel, DeviceEvent::Done);
    match a {
        DeviceAction::Launch(req) => {
            assert_eq!(req.geometry.grid_x, 1);
            assert_eq!(req.geometry.grid_y, 1);
            assert_eq!(req.geometry.block_x, 8);
            assert_eq!(req.geometry.block_y, 8);
            assert_eq!(
                req.args,
                vec![
                    ArgValue::PtrConstPixel(0x1000),
                    ArgValue::PtrMutPixel(0x2000),
                    ArgValue::Uint32(5),
                    ArgValue::Double(sigma_d),
                    ArgValue::Double(sigma_r),
                ]
            );
        },
        _ => panic!("the launch follows the upload"),
    }
    let a = run.step(&kernel, DeviceEvent::Done);
    match a {
        DeviceAction::Download { dst, pixel_count } => {
            assert_eq!(dst, 0x2000);
            assert_eq!(pixel_count, 64);
        },
        _ => panic!("the download follows the launch"),
    }
    let result = vec![Pixel { r: 5, g: 6, b: 7 }; 64];
    let a = run.step(&kernel, DeviceEvent::Retrieved(result.clone()));
    assert!(matches!(a, DeviceAction::ReleaseSource { src: 0x1000 }));
    let a = run.step(&kernel, DeviceEvent::Done);
    assert!(matches!(a, DeviceAction::ReleaseDestination { dst: 0x2000 }));
    let a = run.step(&kernel, DeviceEvent::Done);
    assert!(matches!(a, DeviceAction::Finished));

    let img = run.finish().expect("the run succeeded");
    assert_eq!(img.width, 8);
    assert_eq!(img.height, 8);
    assert_eq!(img.pixels, result);
}

#[test]
fn device_run_context_failure_is_init_error() {
    let kernel = bound_kernel();
    let source = Image::new(8, 8);
    let (mut run, _) = DeviceFilterRun::begin(&source, 1, 0, 0);
    let a = run.step(&kernel, DeviceEvent::Failed);
    assert!(matches!(a, DeviceAction::Finished));
    match run.finish() {
        Err(e) => assert_eq!(e, DeviceError::Init),
        Ok(_) => panic!("a failed context cannot yield an image"),
    }
}

#[test]
fn device_run_allocation_failure_releases_the_other_buffer() {
    let kernel = bound_kernel();
    let source = Image::new(8, 8);
    let (mut run, _) = DeviceFilterRun::begin(&source, 1, 0, 0);
    run.step(&kernel, DeviceEvent::Done);
    run.step(&kernel, DeviceEvent::Allocated(0x1000));
    // the destination allocation fails: the source buffer must be released
    let a = run.step(&kernel, DeviceEvent::Failed);
    assert!(matches!(a, DeviceAction::ReleaseSource { src: 0x1000 }));
    let a = run.step(&kernel, DeviceEvent::Done);
    assert!(matches!(a, DeviceAction::Finished));
    match run.finish() {
        Err(e) => assert_eq!(e, DeviceError::Alloc),
        Ok(_) => panic!("a failed allocation cannot yield an image"),
    }
}

#[test]
fn device_run_launch_failure_releases_both_buffers() {
    let kernel = bound_kernel();
    let source = Image::new(16, 8);
    let (mut run, _) = DeviceFilterRun::begin(&source, 2, 0, 0);
    run.step(&kernel, DeviceEvent::Done);
    run.step(&kernel, DeviceEvent::Allocated(7));
    run.step(&kernel, DeviceEvent::Allocated(9));
    run.step(&kernel, DeviceEvent::Done);
    // the launch fails: both buffers must still be released, in order
    let a = run.step(&kernel, DeviceEvent::Failed);
    assert!(matches!(a, DeviceAction::ReleaseSource { src: 7 }));
    let a = run.step(&kernel, DeviceEvent::Done);
    assert!(matches!(a, DeviceAction::ReleaseDestination { dst: 9 }));
    let a = run.step(&kernel, DeviceEvent::Done);
    assert!(matches!(a, DeviceAction::Finished));
    match run.finish() {
        Err(e) => assert_eq!(e, DeviceError::Launch),
        Ok(_) => panic!("a failed launch cannot yield an image"),
    }
}

#[test]
fn device_run_short_download_is_a_transfer_error() {
    let kernel = bound_kernel();
    let source = Image::new(8, 8);
    let (mut run, _) = DeviceFilterRun::begin(&source, 1, 0, 0);
    run.step(&kernel, DeviceEvent::Done);
    run.step(&kernel, DeviceEvent::Allocated(1));
    run.step(&kernel, DeviceEvent::Allocated(2));
    run.step(&kernel, DeviceEvent::Done);
    run.step(&kernel, DeviceEvent::Done);
    // too few pixels come back
    let a = run.step(&kernel, DeviceEvent::Retrieved(vec![Pixel::default(); 63]));
    assert!(matches!(a, DeviceAction::ReleaseSource { src: 1 }));
    run.step(&kernel, DeviceEvent::Done);
    run.step(&kernel, DeviceEvent::Done);
    match run.finish() {
        Err(e) => assert_eq!(e, DeviceError::Transfer),
        Ok(_) => panic!("a short download cannot yield an image"),
    }
}

#[test]
fn context_is_built_once_and_shared() {
    let mut ctx = DeviceContext::new();
    assert_eq!(ctx.poll(), ContextPoll::Build);
    ctx.supply(Some(ModuleInfo { kernels: vec![] }));
    assert_eq!(ctx.poll(), ContextPoll::Ready);
    assert_eq!(ctx.module().kernels.len(), 0);
    // polling again keeps handing out the same built context
    assert_eq!(ctx.poll(), ContextPoll::Ready);
}

#[test]
fn failed_context_is_never_retried() {
    let mut ctx = DeviceContext::new();
    ctx.supply(None);
    assert_eq!(ctx.poll(), ContextPoll::Unavailable);
    assert_eq!(ctx.poll(), ContextPoll::Unavailable);
}
