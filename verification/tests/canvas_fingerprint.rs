use bimp_persona::canvas_fingerprint::{
    apply_blink_low_entropy_canvas_probe, apply_canvas_export_noise, canvas_noise_amplitude,
    looks_like_low_entropy_probe, low_entropy_probe_applies, mix_hash, stable_hash,
};

const PROBE: [u8; 16] = [
    255, 255, 255, 255, 178, 178, 178, 255, 246, 246, 246, 255, 55, 55, 55, 255,
];

#[test]
fn stable_hash_is_fnv1a() {
    assert_eq!(stable_hash(""), 0xcbf2_9ce4_8422_2325);
    assert_eq!(stable_hash("a"), 0xaf63_dc4c_8601_ec8c);
}

#[test]
fn mix_hash_is_the_murmur_finaliser() {
    assert_eq!(mix_hash(0), 0);
    assert_eq!(mix_hash(1), 0xb456_bcfc_34c2_cb2c);
}

#[test]
fn noise_amplitude_follows_preferences() {
    assert_eq!(canvas_noise_amplitude(false, 5), 0);
    assert_eq!(canvas_noise_amplitude(true, -3), 0);
    assert_eq!(canvas_noise_amplitude(true, 3), 3);
    assert_eq!(canvas_noise_amplitude(true, 40), 8);
}

#[test]
fn noise_has_exact_expected_values() {
    let mut pixels = vec![10, 20, 30, 255, 0, 0, 0, 0, 250, 5, 128, 7, 9];
    apply_canvas_export_noise(&mut pixels, 2, 1, "toDataURL", "persona-seed", 3);
    assert_eq!(pixels, vec![9, 22, 33, 255, 0, 0, 0, 0, 248, 6, 127, 7, 9]);
}

#[test]
fn noise_is_bounded_and_spares_alpha_and_transparent_pixels() {
    let original: Vec<u8> = (0..64u32).map(|i| if i % 8 == 7 { 0 } else { (i * 37 % 256) as u8 }).collect();
    let mut pixels = original.clone();
    apply_canvas_export_noise(&mut pixels, 4, 4, "toBlob", "seed", 8);
    for (i, (new, old)) in pixels.iter().zip(original.iter()).enumerate() {
        assert!((*new as i16 - *old as i16).abs() <= 8);
        if i % 4 == 3 || original[i / 4 * 4 + 3] == 0 {
            assert_eq!(new, old);
        }
    }
}

#[test]
fn zero_amplitude_noise_is_identity() {
    let original = vec![1, 2, 3, 4, 200, 201, 202, 203];
    let mut pixels = original.clone();
    apply_canvas_export_noise(&mut pixels, 2, 1, "toDataURL", "seed", 0);
    assert_eq!(pixels, original);
}

#[test]
fn noise_is_deterministic_per_seed_and_surface() {
    let original = vec![100u8; 32];
    let mut a = original.clone();
    let mut b = original.clone();
    let mut c = original.clone();
    apply_canvas_export_noise(&mut a, 4, 2, "toDataURL", "seed", 5);
    apply_canvas_export_noise(&mut b, 4, 2, "toDataURL", "seed", 5);
    apply_canvas_export_noise(&mut c, 4, 2, "toDataURL", "other-seed", 5);
    assert_eq!(a, b);
    assert_ne!(a, c);
}

#[test]
fn low_entropy_probe_is_recognised_and_answered() {
    let mut data = vec![255, 255, 255, 255, 180, 180, 180, 255, 240, 240, 240, 255, 50, 50, 50, 255];
    assert!(looks_like_low_entropy_probe(&data));
    apply_blink_low_entropy_canvas_probe(&mut data);
    assert_eq!(data, PROBE.to_vec());
    apply_blink_low_entropy_canvas_probe(&mut data);
    assert_eq!(data, PROBE.to_vec());
}

#[test]
fn other_exports_are_not_probes() {
    let coloured = [255, 255, 255, 255, 180, 0, 180, 255, 240, 240, 240, 255, 50, 50, 50, 255];
    assert!(!looks_like_low_entropy_probe(&coloured));
    let translucent = [255, 255, 255, 255, 180, 180, 180, 254, 240, 240, 240, 255, 50, 50, 50, 255];
    assert!(!looks_like_low_entropy_probe(&translucent));
    let black_white = [255, 255, 255, 255, 0, 0, 0, 255, 255, 255, 255, 255, 0, 0, 0, 255];
    assert!(!looks_like_low_entropy_probe(&black_white));
    let flat = [255, 255, 255, 255, 255, 255, 255, 255, 255, 255, 255, 255, 255, 255, 255, 255];
    assert!(!looks_like_low_entropy_probe(&flat));
    let mut short = vec![255, 255, 255, 255, 180, 180, 180, 255];
    apply_blink_low_entropy_canvas_probe(&mut short);
    assert_eq!(short, vec![255, 255, 255, 255, 180, 180, 180, 255]);
}

#[test]
fn probe_applies_to_enabled_four_pixel_canvases() {
    assert!(low_entropy_probe_applies(true, 2, 2));
    assert!(low_entropy_probe_applies(true, 4, 1));
    assert!(!low_entropy_probe_applies(true, 3, 2));
    assert!(!low_entropy_probe_applies(false, 2, 2));
}

#[test]
fn mix_hash_keeps_distinct_values_apart() {
    let inputs: [u64; 6] = [0, 1, 2, 0x8000_0000_0000_0000, u64::MAX, 0x1234_5678_9abc_def0];
    for (i, a) in inputs.iter().enumerate() {
        for b in &inputs[i + 1..] {
            assert_ne!(mix_hash(*a), mix_hash(*b));
        }
    }
}
