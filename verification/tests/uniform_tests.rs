use shader_sandbox::uniforms::{
    advance_frame_index, f32_bits_exec, frame_uniform_bytes, resolution_uniform_bytes,
    u32_le_bytes_exec,
};

#[test]
fn f32_bits_of_zero_is_zero() {
    assert_eq!(f32_bits_exec(0), 0);
}

#[test]
fn f32_bits_of_small_integers() {
    assert_eq!(f32_bits_exec(1), 0x3F80_0000);
    assert_eq!(f32_bits_exec(2), 0x4000_0000);
    assert_eq!(f32_bits_exec(3), 0x4040_0000);
    assert_eq!(f32_bits_exec(4), 0x4080_0000);
}

#[test]
fn f32_bits_of_common_window_sizes() {
    assert_eq!(f32_bits_exec(800), 0x4448_0000);
    assert_eq!(f32_bits_exec(600), 0x4416_0000);
    assert_eq!(f32_bits_exec(1280), 0x44A0_0000);
    assert_eq!(f32_bits_exec(720), 0x4434_0000);
    assert_eq!(f32_bits_exec(1920), 0x44F0_0000);
    assert_eq!(f32_bits_exec(1080), 0x4487_0000);
}

#[test]
fn f32_bits_agrees_with_hardware_floats() {
    let samples: Vec<u32> = vec![
        0, 1, 2, 3, 5, 7, 16, 100, 255, 256, 599, 600, 1023, 1024, 4095, 65535, 1048576, 16777215,
    ];
    for n in samples {
        assert_eq!(f32_bits_exec(n), (n as f32).to_bits(), "mismatch at {n}");
    }
}

#[test]
fn u32_little_endian_bytes() {
    assert_eq!(u32_le_bytes_exec(0), vec![0, 0, 0, 0]);
    assert_eq!(u32_le_bytes_exec(0x4448_0000), vec![0x00, 0x00, 0x48, 0x44]);
    assert_eq!(u32_le_bytes_exec(0x0102_0304), vec![0x04, 0x03, 0x02, 0x01]);
    assert_eq!(u32_le_bytes_exec(u32::MAX), vec![0xFF, 0xFF, 0xFF, 0xFF]);
}

#[test]
fn resolution_uniform_is_two_le_floats() {
    let bytes = resolution_uniform_bytes(800, 600);
    let mut expected = 800f32.to_le_bytes().to_vec();
    expected.extend_from_slice(&600f32.to_le_bytes());
    assert_eq!(bytes, expected);
}

#[test]
fn frame_uniform_is_one_le_u32() {
    assert_eq!(frame_uniform_bytes(0), vec![0, 0, 0, 0]);
    assert_eq!(frame_uniform_bytes(7), vec![7, 0, 0, 0]);
    assert_eq!(frame_uniform_bytes(0x1234_5678), vec![0x78, 0x56, 0x34, 0x12]);
}

#[test]
fn frame_counter_steps_by_one() {
    assert_eq!(advance_frame_index(0), 1);
    assert_eq!(advance_frame_index(1), 2);
    assert_eq!(advance_frame_index(41), 42);
}

#[test]
fn frame_counter_wraps_at_its_width() {
    assert_eq!(advance_frame_index(u32::MAX), 0);
    assert_eq!(advance_frame_index(u32::MAX - 1), u32::MAX);
}
