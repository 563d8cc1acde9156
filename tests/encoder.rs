use wled_control::{encode, CoreError, PixelGrid, Rgb, Run};

fn grid_of(width: u32, height: u32, colors: &[(u8, u8, u8)]) -> PixelGrid {
    let mut data = Vec::new();
    for &(r, g, b) in colors {
        data.extend_from_slice(&[r, g, b, 255]);
    }
    PixelGrid::new(width, height, data).unwrap()
}

fn run(start: u32, end: u32, c: (u8, u8, u8)) -> Run {
    Run { start, end, color: Rgb { r: c.0, g: c.1, b: c.2 } }
}

fn paint(runs: &[Run], width: u32, height: u32) -> PixelGrid {
    let mut data = Vec::new();
    for r in runs {
        for _ in r.start..r.end {
            data.extend_from_slice(&[r.color.r, r.color.g, r.color.b, 7]);
        }
    }
    PixelGrid::new(width, height, data).unwrap()
}

#[test]
fn uniform_grid_is_one_run() {
    let grid = grid_of(4, 4, &[(10, 20, 30); 16]);
    let runs = encode(&grid).unwrap();
    assert_eq!(runs, vec![run(0, 16, (10, 20, 30))]);
}

#[test]
fn runs_of_a_row() {
    let a = (1, 2, 3);
    let b = (4, 5, 6);
    let grid = grid_of(6, 1, &[a, a, b, b, b, a]);
    let runs = encode(&grid).unwrap();
    assert_eq!(runs, vec![run(0, 2, a), run(2, 5, b), run(5, 6, a)]);
}

#[test]
fn checkerboard_gives_one_run_per_pixel() {
    let w = (255, 255, 255);
    let k = (0, 0, 0);
    let mut colors = Vec::new();
    for y in 0..4 {
        for x in 0..3 {
            colors.push(if (x + y) % 2 == 0 { w } else { k });
        }
    }
    let runs = encode(&grid_of(3, 4, &colors)).unwrap();
    assert_eq!(runs.len(), 12);
    for (i, r) in runs.iter().enumerate() {
        assert_eq!(r.start, i as u32);
        assert_eq!(r.end, i as u32 + 1);
    }
}

#[test]
fn single_pixel_grid() {
    let runs = encode(&grid_of(1, 1, &[(9, 8, 7)])).unwrap();
    assert_eq!(runs, vec![run(0, 1, (9, 8, 7))]);
}

#[test]
fn empty_grid_is_rejected() {
    let grid = PixelGrid::new(0, 5, Vec::new()).unwrap();
    assert_eq!(encode(&grid), Err(CoreError::InvalidInput));
}

#[test]
fn alpha_is_ignored() {
    let data = vec![1, 2, 3, 0, 1, 2, 3, 255, 1, 2, 3, 128];
    let grid = PixelGrid::new(3, 1, data).unwrap();
    assert_eq!(encode(&grid).unwrap(), vec![run(0, 3, (1, 2, 3))]);
}

#[test]
fn runs_tile_the_grid() {
    let colors: Vec<(u8, u8, u8)> =
        [0u8, 0, 1, 2, 2, 2, 3, 0, 0, 1, 1, 1].iter().map(|&v| (v, v, v)).collect();
    let runs = encode(&grid_of(4, 3, &colors)).unwrap();
    assert_eq!(runs[0].start, 0);
    assert_eq!(runs.last().unwrap().end, 12);
    for pair in runs.windows(2) {
        assert_eq!(pair[0].end, pair[1].start);
        assert_ne!(pair[0].color, pair[1].color);
    }
    for r in &runs {
        assert!(r.start < r.end);
    }
}

#[test]
fn painting_runs_back_round_trips() {
    let colors: Vec<(u8, u8, u8)> = vec![
        (5, 5, 5),
        (5, 5, 5),
        (9, 0, 0),
        (0, 9, 0),
        (0, 9, 0),
        (0, 9, 0),
    ];
    let grid = grid_of(3, 2, &colors);
    let runs = encode(&grid).unwrap();
    let painted = paint(&runs, 3, 2);
    for i in 0..6u32 {
        assert_eq!(painted.rgb(i), grid.rgb(i));
    }
    assert_eq!(encode(&painted).unwrap(), runs);
}

#[test]
fn grid_with_wrong_length_is_rejected() {
    assert!(matches!(PixelGrid::new(2, 2, vec![0; 15]), Err(CoreError::InvalidInput)));
    assert!(matches!(PixelGrid::new(2, 2, vec![0; 17]), Err(CoreError::InvalidInput)));
    assert_eq!(PixelGrid::new(2, 2, vec![0; 16]).unwrap().len(), 4);
}
