use wled_control::{fit_policy, normalize, CoreError, Fit, PanelConfig, PixelGrid, Rgb};

fn filled(width: u32, height: u32, rgba: [u8; 4]) -> Vec<u8> {
    let mut data = Vec::new();
    for _ in 0..width * height {
        data.extend_from_slice(&rgba);
    }
    data
}

fn set(data: &mut [u8], width: u32, x: u32, y: u32, rgba: [u8; 4]) {
    let p = 4 * (y * width + x) as usize;
    data[p..p + 4].copy_from_slice(&rgba);
}

#[test]
fn same_size_is_unchanged() {
    let mut data = Vec::new();
    for i in 0..256u32 {
        data.extend_from_slice(&[i as u8, (i * 7) as u8, (i * 13) as u8, (i * 3) as u8]);
    }
    let image = PixelGrid::new(16, 16, data.clone()).unwrap();
    let panel = PanelConfig::new(16, 16, true).unwrap();
    let out = normalize(image, &panel);
    assert_eq!((out.width, out.height), (16, 16));
    assert_eq!(out.data, data);
}

#[test]
fn stretch_to_panel_size() {
    let image = PixelGrid::new(32, 16, filled(32, 16, [200, 10, 10, 255])).unwrap();
    let panel = PanelConfig::new(16, 16, false).unwrap();
    let out = normalize(image, &panel);
    assert_eq!((out.width, out.height), (16, 16));
    assert_eq!(out.data.len(), 16 * 16 * 4);
}

#[test]
fn fill_and_crop_keeps_the_centre() {
    let mut data = filled(32, 16, [0, 0, 0, 255]);
    set(&mut data, 32, 16, 8, [250, 40, 90, 255]);
    set(&mut data, 32, 0, 8, [1, 222, 3, 255]);
    let image = PixelGrid::new(32, 16, data).unwrap();
    let panel = PanelConfig::new(16, 16, true).unwrap();
    let out = normalize(image, &panel);
    assert_eq!((out.width, out.height), (16, 16));
    assert_eq!(out.rgb(8 * 16 + 8), Rgb { r: 250, g: 40, b: 90 });
    for i in 0..256u32 {
        assert_ne!(out.rgb(i), Rgb { r: 1, g: 222, b: 3 });
    }
}

#[test]
fn matching_aspect_is_scaled() {
    let image = PixelGrid::new(8, 8, filled(8, 8, [30, 60, 90, 255])).unwrap();
    let panel = PanelConfig::new(4, 4, true).unwrap();
    let out = normalize(image, &panel);
    assert_eq!((out.width, out.height), (4, 4));
    assert_eq!(out.data.len(), 64);
    assert_eq!(out.rgb(5), Rgb { r: 30, g: 60, b: 90 });
}

#[test]
fn zero_panel_is_rejected() {
    assert_eq!(PanelConfig::new(0, 16, false), Err(CoreError::InvalidInput));
    assert_eq!(PanelConfig::new(16, 0, true), Err(CoreError::InvalidInput));
    assert_eq!(PanelConfig::new(65536, 65536, true), Err(CoreError::InvalidInput));
}

#[test]
fn policy_is_chosen_by_size_aspect_and_crop() {
    let crop = PanelConfig::new(16, 16, true).unwrap();
    let squish = PanelConfig::new(16, 16, false).unwrap();
    assert_eq!(fit_policy(16, 16, &crop), Fit::Keep);
    assert_eq!(fit_policy(16, 16, &squish), Fit::Keep);
    assert_eq!(fit_policy(32, 16, &crop), Fit::Fill);
    assert_eq!(fit_policy(32, 16, &squish), Fit::Stretch);
    assert_eq!(fit_policy(32, 32, &crop), Fit::Stretch);
    assert_eq!(fit_policy(0, 16, &crop), Fit::Stretch);
    let wide = PanelConfig::new(32, 8, true).unwrap();
    assert_eq!(fit_policy(64, 16, &wide), Fit::Stretch);
    assert_eq!(fit_policy(64, 17, &wide), Fit::Fill);
}
