use space_view::rotation::{jitter_seeds, RotationRaw};

#[test]
fn rotation_uniform_without_jitter_has_64_bytes() {
    let raw = RotationRaw::new(None);
    let bytes = raw.to_bytes();
    assert_eq!(bytes.len(), 64);
    assert_eq!(&bytes[0..4], &1.0f32.to_le_bytes());
    assert_eq!(&bytes[4..8], &0.0f32.to_le_bytes());
    assert_eq!(&bytes[20..24], &1.0f32.to_le_bytes());
    assert_eq!(&bytes[40..44], &1.0f32.to_le_bytes());
    assert_eq!(&bytes[60..64], &1.0f32.to_le_bytes());
}

#[test]
fn rotation_uniform_with_jitter_has_80_bytes() {
    let jitter = [0.25f32, 0.5, 0.75, 1.0].map(f32::to_bits);
    let raw = RotationRaw::new(Some(jitter));
    assert_eq!(raw.jitter, Some(jitter));
    let bytes = raw.to_bytes();
    assert_eq!(bytes.len(), 80);
    assert_eq!(&bytes[64..68], &[0x00, 0x00, 0x80, 0x3e]);
    assert_eq!(&bytes[68..72], &[0x00, 0x00, 0x00, 0x3f]);
    assert_eq!(&bytes[72..76], &[0x00, 0x00, 0x40, 0x3f]);
    assert_eq!(&bytes[76..80], &[0x00, 0x00, 0x80, 0x3f]);
}

#[test]
fn rotation_about_the_vertical_axis_is_laid_out_by_columns() {
    let (sin, cos) = (0.5f32, 0.8660254f32);
    let transform: [[f32; 4]; 4] = [
        [cos, 0.0, -sin, 0.0],
        [0.0, 1.0, 0.0, 0.0],
        [sin, 0.0, cos, 0.0],
        [0.0, 0.0, 0.0, 1.0],
    ];
    let raw = RotationRaw {
        transform: transform.map(|column| column.map(f32::to_bits)),
        jitter: None,
    };
    let bytes = raw.to_bytes();
    assert_eq!(&bytes[0..4], &cos.to_le_bytes());
    assert_eq!(&bytes[8..12], &(-sin).to_le_bytes());
    assert_eq!(&bytes[32..36], &sin.to_le_bytes());
    assert_eq!(&bytes[40..44], &cos.to_le_bytes());
}

#[test]
fn channels_are_seeded_differently() {
    let seeds = jitter_seeds();
    assert_eq!(seeds, [47, 48, 49, 50]);
    for i in 0..seeds.len() {
        for j in i + 1..seeds.len() {
            assert_ne!(seeds[i], seeds[j]);
        }
    }
}
