use bilateral::filter::{assemble, chunk_ranges};
use bilateral::grid::{launch_geometry, thread_pixel};
use bilateral::window::{index_to_coords, l2_distance_sq, pixel_window};
use bilateral::{Image, Pixel};
use rayon::iter::{IntoParallelIterator, ParallelIterator};

fn filter_pixel(source: &Image, radius: usize, i: usize, j: usize, sigma_d: f64, sigma_r: f64) -> Pixel {
    let center = source.pixel(i, j);
    let window = pixel_window(i, j, radius, source.width, source.height);

    let mut r_value = 0f64;
    let mut r_accum = 0f64;
    let mut g_value = 0f64;
    let mut g_accum = 0f64;
    let mut b_value = 0f64;
    let mut b_accum = 0f64;

    for &(k, l) in &window {
        let p = source.pixel(k, l);
        let di = i as i32 - k as i32;
        let dj = j as i32 - l as i32;
        let w_d = (di * di + dj * dj) as f64;
        let w_r = l2_distance_sq(&center, &p) as f64;
        let w = f64::exp(-w_d / (2.0 * sigma_d * sigma_d) - w_r / (2.0 * sigma_r * sigma_r));

        r_value += w * p.r as f64;
        r_accum += w;
        g_value += w * p.g as f64;
        g_accum += w;
        b_value += w * p.b as f64;
        b_accum += w;
    }

    Pixel {
        r: (r_value / r_accum) as u8,
        g: (g_value / g_accum) as u8,
        b: (b_value / b_accum) as u8,
    }
}

fn filter(source: &Image, radius: usize, sigma_d: f64, sigma_r: f64) -> Image {
    let mut results: Vec<Pixel> = Vec::with_capacity(source.width * source.height);
    for index in 0..source.width * source.height {
        let (i, j) = index_to_coords(index, source.width);
        results.push(filter_pixel(source, radius, i, j, sigma_d, sigma_r));
    }
    assemble(source.width, source.height, results).expect("one result per destination index")
}

fn filter_chunked(source: &Image, radius: usize, sigma_d: f64, sigma_r: f64, chunk: usize) -> Image {
    let n = source.width * source.height;
    let mut results: Vec<Pixel> = Vec::with_capacity(n);
    for (start, end) in chunk_ranges(n, chunk) {
        for index in start..end {
            let (i, j) = index_to_coords(index, source.width);
            results.push(filter_pixel(source, radius, i, j, sigma_d, sigma_r));
        }
    }
    assemble(source.width, source.height, results).expect("the chunks cover every index once")
}

fn patterned_image(width: usize, height: usize) -> Image {
    let mut img = Image::new(width, height);
    for k in 0..img.pixels.len() {
        img.pixels[k] = Pixel {
            r: (k * 31 % 256) as u8,
            g: (k * 17 % 256) as u8,
            b: (k * 5 % 256) as u8,
        };
    }
    img
}

#[test]
fn radius_zero_is_the_identity() {
    let img = patterned_image(7, 5);
    for &(sigma_d, sigma_r) in &[(3.5, 3.0), (0.5, 100.0)] {
        let out = filter(&img, 0, sigma_d, sigma_r);
        assert_eq!(out.width, img.width);
        assert_eq!(out.height, img.height);
        assert_eq!(out.pixels, img.pixels);
    }
}

#[test]
fn uniform_gray_is_unchanged_at_radius_one() {
    let mut img = Image::new(4, 4);
    for p in img.pixels.iter_mut() {
        *p = Pixel { r: 128, g: 128, b: 128 };
    }
    let out = filter(&img, 1, 3.5, 3.0);
    assert_eq!(out.width, 4);
    assert_eq!(out.height, 4);
    assert_eq!(out.pixels, img.pixels);
}

#[test]
fn output_shape_equals_input_shape() {
    let img = patterned_image(9, 6);
    let out = filter(&img, 3, 3.5, 3.0);
    assert_eq!(out.width, img.width);
    assert_eq!(out.height, img.height);
    assert_eq!(out.pixels.len(), img.pixels.len());
}

#[test]
fn repeated_runs_are_deterministic() {
    let img = patterned_image(12, 9);
    let first = filter(&img, 2, 3.5, 3.0);
    let second = filter(&img, 2, 3.5, 3.0);
    assert_eq!(first.pixels, second.pixels);
}

#[test]
fn chunked_scheduling_matches_the_reference() {
    let img = patterned_image(10, 8);
    let reference = filter(&img, 2, 3.5, 3.0);
    for chunk in [1usize, 3, 16, 80, 1000] {
        let chunked = filter_chunked(&img, 2, 3.5, 3.0, chunk);
        assert_eq!(chunked.pixels, reference.pixels);
    }
}

#[test]
fn tiled_scheduling_matches_the_reference() {
    // the device order: one pixel per thread, tile by tile
    let img = patterned_image(16, 8);
    let reference = filter(&img, 2, 3.5, 3.0);
    let g = launch_geometry(img.width, img.height);
    let mut results = vec![Pixel::default(); img.width * img.height];
    for bx in 0..g.grid_x {
        for by in 0..g.grid_y {
            for tx in 0..g.block_x {
                for ty in 0..g.block_y {
                    let (row, col) = thread_pixel(&g, bx, by, tx, ty);
                    let (row, col) = (row as usize, col as usize);
                    results[row * img.width + col] =
                        filter_pixel(&img, 2, row, col, 3.5, 3.0);
                }
            }
        }
    }
    assert_eq!(results, reference.pixels);
}

#[test]
fn small_sigma_r_preserves_a_bright_outlier() {
    let mut img = Image::new(512, 512);
    for p in img.pixels.iter_mut() {
        *p = Pixel { r: 10, g: 10, b: 10 };
    }
    let center = 256usize * 512 + 256;
    img.pixels[center] = Pixel { r: 250, g: 250, b: 250 };
    // the per-pixel function is independent across pixels, so the value at
    // the bright spot is the value the full filter would put there
    let kept = filter_pixel(&img, 5, 256, 256, 3.5, 3.0);
    assert!(kept.r >= 240, "a dissimilar neighbourhood must barely blend in: {}", kept.r);

    let blended = filter_pixel(&img, 5, 256, 256, 3.5, 1000.0);
    assert!(blended.r <= 100, "a permissive range falloff must blend strongly: {}", blended.r);
}

#[test]
fn thread_pool_scheduling_matches_the_reference() {
    let img = patterned_image(24, 16);
    let reference = filter(&img, 2, 3.5, 3.0);
    for _ in 0..4 {
        let results: Vec<Pixel> = (0..img.width * img.height)
            .into_par_iter()
            .map(|index| {
                let (i, j) = index_to_coords(index, img.width);
                filter_pixel(&img, 2, i, j, 3.5, 3.0)
            })
            .collect();
        let parallel =
            assemble(img.width, img.height, results).expect("one result per destination index");
        assert_eq!(parallel.pixels, reference.pixels);
    }
}
