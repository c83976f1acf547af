use bilateral::binding::{
    bilateral_kernel, ArgType, ArgValue, BindingError, Kernel, KernelPlaceholder, KernelSignature,
    ModuleInfo,
};
use bilateral::grid::{launch_geometry, thread_pixel};

fn bilateral_signature() -> KernelSignature {
    KernelSignature {
        name: String::from("bilateral_kernel"),
        params: vec![
            ArgType::PtrConstPixel,
            ArgType::PtrMutPixel,
            ArgType::Uint32,
            ArgType::Double,
            ArgType::Double,
        ],
    }
}

#[test]
fn geometry_covers_the_image_in_eight_by_eight_tiles() {
    let g = launch_geometry(512, 256);
    assert_eq!(g.grid_x, 64);
    assert_eq!(g.grid_y, 32);
    assert_eq!(g.block_x, 8);
    assert_eq!(g.block_y, 8);
}

#[test]
fn geometry_truncates_a_fringe() {
    let g = launch_geometry(20, 13);
    assert_eq!(g.grid_x, 2);
    assert_eq!(g.grid_y, 1);
}

#[test]
fn every_pixel_has_exactly_one_thread() {
    let width = 16usize;
    let height = 8usize;
    let g = launch_geometry(width, height);
    let mut hits = vec![0u32; width * height];
    for bx in 0..g.grid_x {
        for by in 0..g.grid_y {
            for tx in 0..g.block_x {
                for ty in 0..g.block_y {
                    let (row, col) = thread_pixel(&g, bx, by, tx, ty);
                    assert!((row as usize) < height);
                    assert!((col as usize) < width);
                    hits[row as usize * width + col as usize] += 1;
                }
            }
        }
    }
    for h in hits {
        assert_eq!(h, 1);
    }
}

#[test]
fn binding_resolves_the_bilateral_kernel() {
    let module = ModuleInfo { kernels: vec![bilateral_signature()] };
    let kernel: Kernel<bilateral_kernel> = Kernel::new(&module).expect("the name and types match");
    let request = kernel
        .execute(
            launch_geometry(16, 16),
            ArgValue::PtrConstPixel(0x1000),
            ArgValue::PtrMutPixel(0x2000),
            ArgValue::Uint32(5),
            ArgValue::Double(3.5f64.to_bits()),
            ArgValue::Double(3.0f64.to_bits()),
        )
        .expect("the argument types match the declaration");
    assert_eq!(request.geometry.grid_x, 2);
    assert_eq!(request.args.len(), 5);
    assert_eq!(request.args[2], ArgValue::Uint32(5));
}

#[test]
fn binding_fails_on_an_unknown_name() {
    let module = ModuleInfo {
        kernels: vec![KernelSignature { name: String::from("gaussian_kernel"), params: vec![] }],
    };
    let r: Result<Kernel<bilateral_kernel>, BindingError> = Kernel::new(&module);
    match r {
        Err(e) => assert_eq!(e, BindingError::NotFound),
        Ok(_) => panic!("an unknown name must not bind"),
    }
}

#[test]
fn binding_fails_on_a_signature_mismatch() {
    let mut sig = bilateral_signature();
    sig.params.pop();
    let module = ModuleInfo { kernels: vec![sig] };
    let r: Result<Kernel<bilateral_kernel>, BindingError> = Kernel::new(&module);
    match r {
        Err(e) => assert_eq!(e, BindingError::Mismatch),
        Ok(_) => panic!("an arity mismatch must not bind"),
    }
}

#[test]
fn launch_arguments_are_type_checked() {
    let module = ModuleInfo { kernels: vec![bilateral_signature()] };
    let kernel: Kernel<bilateral_kernel> = Kernel::new(&module).unwrap();
    let r = kernel.execute(
        launch_geometry(16, 16),
        ArgValue::PtrConstPixel(0x1000),
        ArgValue::PtrMutPixel(0x2000),
        ArgValue::Double(0),
        ArgValue::Double(0),
        ArgValue::Uint32(5),
    );
    match r {
        Err(e) => assert_eq!(e, BindingError::Mismatch),
        Ok(_) => panic!("misordered argument types must be refused"),
    }
}

#[test]
fn placeholder_names_the_compiled_entry_point() {
    assert_eq!(bilateral_kernel::get_name(), "bilateral_kernel");
    assert_eq!(bilateral_kernel::params(), bilateral_signature().params);
}
