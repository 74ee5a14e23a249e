//! Canvas export persona: a seeded, bounded per-channel noise on exported
//! pixels, and Blink's answer to its low-entropy 2x2 canvas probe.
//!
//! Pixels are RGBA bytes, not premultiplied; the caller converts the snapshot
//! to that layout before handing its bytes over.

use vstd::prelude::*;
use vstd::string::StringSliceAdditionalSpecFns;

verus! {

/// FNV-1a offset basis.
pub open spec fn fnv_offset() -> u64 {
    0xcbf2_9ce4_8422_2325u64
}

/// FNV-1a prime.
pub open spec fn fnv_prime() -> u64 {
    0x0000_0100_0000_01b3u64
}

/// 64-bit FNV-1a of a byte string.
pub open spec fn fnv1a(bytes: Seq<u8>) -> u64
    decreases bytes.len(),
{
    if bytes.len() == 0 {
        fnv_offset()
    } else {
        (fnv1a(bytes.drop_last()) ^ (bytes.last() as u64)).wrapping_mul(fnv_prime())
    }
}

/// The 64-bit finaliser of MurmurHash3.
pub open spec fn murmur_mix(value: u64) -> u64 {
    let a = value ^ (value >> 33u64);
    let b = a.wrapping_mul(0xff51_afd7_ed55_8ccdu64);
    let c = b ^ (b >> 33u64);
    let d = c.wrapping_mul(0xc4ce_b9fe_1a85_ec53u64);
    d ^ (d >> 33u64)
}

/// The inverse of `murmur_mix`: each xor-shift by 33 of 64 bits undoes
/// itself, and each multiplication is undone by the inverse of its odd
/// constant modulo 2^64.
pub open spec fn murmur_unmix(hash: u64) -> u64 {
    let d = hash ^ (hash >> 33u64);
    let c = d.wrapping_mul(0x9cb4_b2f8_1293_37dbu64);
    let b = c ^ (c >> 33u64);
    let a = b.wrapping_mul(0x4f74_430c_22a5_4005u64);
    a ^ (a >> 33u64)
}

proof fn lemma_xorshift33_undoes_itself(x: u64)
    ensures
        (x ^ (x >> 33u64)) ^ ((x ^ (x >> 33u64)) >> 33u64) == x,
{
    assert((x ^ (x >> 33u64)) ^ ((x ^ (x >> 33u64)) >> 33u64) == x) by (bit_vector);
}

proof fn lemma_wrapping_mul_undone(x: u64, k: u64, k_inv: u64)
    requires
        (k as int * k_inv as int) % 0x1_0000_0000_0000_0000int == 1,
    ensures
        x.wrapping_mul(k).wrapping_mul(k_inv) == x,
{
    let m: int = 0x1_0000_0000_0000_0000int;
    let a: int = (x as int * k as int) % m;
    assert(x.wrapping_mul(k) as int == a);
    vstd::arithmetic::div_mod::lemma_mul_mod_noop_left(x as int * k as int, k_inv as int, m);
    vstd::arithmetic::mul::lemma_mul_is_associative(x as int, k as int, k_inv as int);
    vstd::arithmetic::div_mod::lemma_mul_mod_noop_right(x as int, k as int * k_inv as int, m);
    vstd::arithmetic::div_mod::lemma_small_mod(x as nat, m as nat);
    assert((a * k_inv as int) % m == x as int);
}

proof fn lemma_murmur_constants_are_inverse()
    ensures
        (0xff51_afd7_ed55_8ccdu64 as int * 0x4f74_430c_22a5_4005u64 as int) % 0x1_0000_0000_0000_0000int == 1,
        (0x4f74_430c_22a5_4005u64 as int * 0xff51_afd7_ed55_8ccdu64 as int) % 0x1_0000_0000_0000_0000int == 1,
        (0xc4ce_b9fe_1a85_ec53u64 as int * 0x9cb4_b2f8_1293_37dbu64 as int) % 0x1_0000_0000_0000_0000int == 1,
        (0x9cb4_b2f8_1293_37dbu64 as int * 0xc4ce_b9fe_1a85_ec53u64 as int) % 0x1_0000_0000_0000_0000int == 1,
{
    assert((0xff51_afd7_ed55_8ccdu64 as int * 0x4f74_430c_22a5_4005u64 as int) % 0x1_0000_0000_0000_0000int == 1);
    assert((0x4f74_430c_22a5_4005u64 as int * 0xff51_afd7_ed55_8ccdu64 as int) % 0x1_0000_0000_0000_0000int == 1);
    assert((0xc4ce_b9fe_1a85_ec53u64 as int * 0x9cb4_b2f8_1293_37dbu64 as int) % 0x1_0000_0000_0000_0000int == 1);
    assert((0x9cb4_b2f8_1293_37dbu64 as int * 0xc4ce_b9fe_1a85_ec53u64 as int) % 0x1_0000_0000_0000_0000int == 1);
}

/// Law: the MurmurHash3 finaliser is a bijection of `u64`: `murmur_unmix`
/// undoes it and it undoes `murmur_unmix`, so distinct values hash apart and
/// every `u64` is the hash of one value; and 0 hashes to 0.
pub proof fn law_mix_hash_is_a_bijection(x: u64, y: u64)
    ensures
        murmur_unmix(murmur_mix(x)) == x,
        murmur_mix(murmur_unmix(x)) == x,
        murmur_mix(x) == murmur_mix(y) ==> x == y,
        murmur_mix(0) == 0,
{
    lemma_murmur_constants_are_inverse();
    let k1: u64 = 0xff51_afd7_ed55_8ccdu64;
    let k2: u64 = 0xc4ce_b9fe_1a85_ec53u64;
    let i1: u64 = 0x4f74_430c_22a5_4005u64;
    let i2: u64 = 0x9cb4_b2f8_1293_37dbu64;
    // murmur_unmix after murmur_mix, step by step.
    let a = x ^ (x >> 33u64);
    let b = a.wrapping_mul(k1);
    let c = b ^ (b >> 33u64);
    let d = c.wrapping_mul(k2);
    lemma_xorshift33_undoes_itself(d);
    lemma_wrapping_mul_undone(c, k2, i2);
    lemma_xorshift33_undoes_itself(b);
    lemma_wrapping_mul_undone(a, k1, i1);
    lemma_xorshift33_undoes_itself(x);
    // murmur_mix after murmur_unmix, step by step.
    let d2 = x ^ (x >> 33u64);
    let c2 = d2.wrapping_mul(i2);
    let b2 = c2 ^ (c2 >> 33u64);
    let a2 = b2.wrapping_mul(i1);
    lemma_xorshift33_undoes_itself(a2);
    lemma_wrapping_mul_undone(b2, i1, k1);
    lemma_xorshift33_undoes_itself(c2);
    lemma_wrapping_mul_undone(d2, i2, k2);
    // Hashes that agree come from values that agree.
    assert(murmur_unmix(murmur_mix(y)) == y) by {
        let ay = y ^ (y >> 33u64);
        let by_ = ay.wrapping_mul(k1);
        let cy = by_ ^ (by_ >> 33u64);
        let dy = cy.wrapping_mul(k2);
        lemma_xorshift33_undoes_itself(dy);
        lemma_wrapping_mul_undone(cy, k2, i2);
        lemma_xorshift33_undoes_itself(by_);
        lemma_wrapping_mul_undone(ay, k1, i1);
        lemma_xorshift33_undoes_itself(y);
    }
    assert(0u64 ^ (0u64 >> 33u64) == 0u64) by (bit_vector);
    assert(murmur_mix(0) == 0);
}

/// The FNV-1a hash of the UTF-8 bytes of `input`.
pub fn stable_hash(input: &str) -> (r: u64)
    ensures
        r == fnv1a(input.spec_bytes()),
{
    let bytes = input.as_bytes();
    let mut hash: u64 = 0xcbf2_9ce4_8422_2325u64;
    let mut i: usize = 0;
    while i < bytes.len()
        invariant
            i <= bytes@.len(),
            bytes@ == input.spec_bytes(),
            hash == fnv1a(bytes@.subrange(0, i as int)),
        decreases bytes.len() - i,
    {
        proof {
            assert(bytes@.subrange(0, i + 1).drop_last() =~= bytes@.subrange(0, i as int));
        }
        hash = hash ^ (bytes[i] as u64);
        hash = hash.wrapping_mul(0x0000_0100_0000_01b3u64);
        i = i + 1;
    }
    assert(bytes@.subrange(0, i as int) =~= bytes@);
    hash
}

/// The MurmurHash3 finaliser of `value`.
pub fn mix_hash(value: u64) -> (r: u64)
    ensures
        r == murmur_mix(value),
{
    let mut v: u64 = value;
    v = v ^ (v >> 33u64);
    v = v.wrapping_mul(0xff51_afd7_ed55_8ccdu64);
    v = v ^ (v >> 33u64);
    v = v.wrapping_mul(0xc4ce_b9fe_1a85_ec53u64);
    v ^ (v >> 33u64)
}

/// The noise amplitude an export gets: the configured amplitude, kept within
/// `0..=8`, or none when canvas noise is off.
pub open spec fn noise_amplitude(enabled: bool, amplitude_pref: i64) -> int {
    if !enabled {
        0
    } else if amplitude_pref < 0 {
        0
    } else if amplitude_pref > 8 {
        8
    } else {
        amplitude_pref as int
    }
}

/// The hash every channel's noise derives from: seed, surface and canvas size.
pub open spec fn noise_base_hash(seed: Seq<u8>, surface: Seq<u8>, width: u32, height: u32) -> u64 {
    fnv1a(seed) ^ fnv1a(surface) ^ ((width as u64) << 32u64) ^ (height as u64)
}

/// The value `v` kept within `0..=255`.
pub open spec fn clamp_byte(v: int) -> u8 {
    if v < 0 {
        0
    } else if v > 255 {
        255
    } else {
        v as u8
    }
}

/// The noise added to channel `channel` of pixel `pixel`: a value in
/// `-amplitude..=amplitude`.
pub open spec fn channel_delta(base: u64, pixel: int, channel: int, amplitude: int) -> int {
    let hash = murmur_mix(base ^ ((pixel as u64) << 8u64) ^ (channel as u64));
    (hash % ((amplitude * 2 + 1) as u64)) as int - amplitude
}

/// Byte `i` of an RGBA buffer after the noise: the red, green and blue bytes
/// of complete pixels that are not fully transparent move by their channel's
/// delta (kept within a byte); alpha, transparent pixels and a trailing partial
/// pixel keep their bytes.
#[verifier::opaque]
pub open spec fn noised_byte(old: Seq<u8>, base: u64, amplitude: int, i: int) -> u8 {
    let pixel = i / 4;
    let channel = i % 4;
    if pixel * 4 + 4 <= old.len() && channel < 3 && old[pixel * 4 + 3] != 0 {
        clamp_byte(old[i] as int + channel_delta(base, pixel, channel, amplitude))
    } else {
        old[i]
    }
}

/// The RGBA buffer `old` after the noise.
pub open spec fn noised_pixels(old: Seq<u8>, base: u64, amplitude: int) -> Seq<u8> {
    Seq::new(old.len(), |i: int| noised_byte(old, base, amplitude, i))
}

/// Byte `p * 4 + c` after the noise, for a complete pixel `p`.
pub proof fn lemma_noised_byte_in_pixel(old: Seq<u8>, base: u64, amplitude: int, p: int, c: int)
    requires
        0 <= p,
        0 <= c < 4,
        p * 4 + 4 <= old.len(),
    ensures
        noised_byte(old, base, amplitude, p * 4 + c) == (if c < 3 && old[p * 4 + 3] != 0 {
            clamp_byte(old[p * 4 + c] as int + channel_delta(base, p, c, amplitude))
        } else {
            old[p * 4 + c]
        }),
{
    reveal(noised_byte);
    assert((p * 4 + c) / 4 == p && (p * 4 + c) % 4 == c) by (nonlinear_arith)
        requires
            0 <= p,
            0 <= c < 4,
    ;
}

/// Bytes after the last complete pixel keep their value.
pub proof fn lemma_noised_byte_in_tail(old: Seq<u8>, base: u64, amplitude: int, i: int)
    requires
        (old.len() / 4) * 4 <= i < old.len(),
    ensures
        noised_byte(old, base, amplitude, i) == old[i],
{
    reveal(noised_byte);
    let n = old.len() as int;
    assert(i / 4 * 4 + 4 > n) by (nonlinear_arith)
        requires
            (n / 4) * 4 <= i < n,
            0 <= i,
    ;
}

proof fn lemma_pixel_in_bounds(n: int, p: int)
    requires
        0 <= n,
        0 <= p < n / 4,
    ensures
        p * 4 + 4 <= n,
        4 * p + 4 <= n,
{
    assert(p * 4 + 4 <= n) by (nonlinear_arith)
        requires
            0 <= p < n / 4,
            0 <= n,
    ;
}

fn noise_channel(value: u8, base: u64, pixel: usize, channel: usize, amplitude: i16) -> (r: u8)
    requires
        0 <= amplitude <= 8,
        channel < 3,
    ensures
        r == clamp_byte(value as int + channel_delta(base, pixel as int, channel as int, amplitude as int)),
{
    let modulus: i16 = amplitude * 2 + 1;
    let hash: u64 = mix_hash(base ^ ((pixel as u64) << 8u64) ^ (channel as u64));
    let residue: u64 = hash % (modulus as u64);
    assert(residue < 17);
    let delta: i16 = residue as i16 - amplitude;
    let shifted: i16 = value as i16 + delta;
    if shifted < 0 {
        0
    } else if shifted > 255 {
        255
    } else {
        shifted as u8
    }
}

/// The amplitude of the export noise for the given preferences.
pub fn canvas_noise_amplitude(enabled: bool, amplitude_pref: i64) -> (r: i16)
    ensures
        r == noise_amplitude(enabled, amplitude_pref),
        0 <= r <= 8,
{
    if !enabled {
        0
    } else if amplitude_pref < 0 {
        0
    } else if amplitude_pref > 8 {
        8
    } else {
        amplitude_pref as i16
    }
}

/// Perturbs every colour channel of every visible pixel of an exported canvas
/// by a deterministic offset in `-amplitude..=amplitude`, derived from the
/// persona seed, the export surface and the canvas size.
pub fn apply_canvas_export_noise(
    pixels: &mut Vec<u8>,
    width: u32,
    height: u32,
    surface: &str,
    seed: &str,
    amplitude: i16,
)
    requires
        0 <= amplitude <= 8,
    ensures
        final(pixels)@ == noised_pixels(
            old(pixels)@,
            noise_base_hash(seed.spec_bytes(), surface.spec_bytes(), width, height),
            amplitude as int,
        ),
{
    let ghost original = pixels@;
    let base: u64 = stable_hash(seed) ^ stable_hash(surface) ^ ((width as u64) << 32u64)
        ^ (height as u64);
    let n_pixels: usize = pixels.len() / 4;
    let mut p: usize = 0;
    while p < n_pixels
        invariant
            0 <= amplitude <= 8,
            n_pixels == original.len() / 4,
            p <= n_pixels,
            pixels@.len() == original.len(),
            base == noise_base_hash(seed.spec_bytes(), surface.spec_bytes(), width, height),
            forall|i: int| 0 <= i < p * 4 ==> pixels@[i] == noised_byte(original, base, amplitude as int, i),
            forall|i: int| p * 4 <= i < original.len() ==> pixels@[i] == original[i],
        decreases n_pixels - p,
    {
        proof {
            lemma_pixel_in_bounds(original.len() as int, p as int);
        }
        let total: usize = pixels.len();
        assert(p * 4 + 4 <= total);
        let start: usize = p * 4;
        if pixels[start + 3] != 0 {
            let red = noise_channel(pixels[start], base, p, 0, amplitude);
            pixels.set(start, red);
            let green = noise_channel(pixels[start + 1], base, p, 1, amplitude);
            pixels.set(start + 1, green);
            let blue = noise_channel(pixels[start + 2], base, p, 2, amplitude);
            pixels.set(start + 2, blue);
        }
        proof {
            lemma_noised_byte_in_pixel(original, base, amplitude as int, p as int, 0);
            lemma_noised_byte_in_pixel(original, base, amplitude as int, p as int, 1);
            lemma_noised_byte_in_pixel(original, base, amplitude as int, p as int, 2);
            lemma_noised_byte_in_pixel(original, base, amplitude as int, p as int, 3);
            assert forall|i: int| start <= i < start + 4 implies pixels@[i] == noised_byte(original, base, amplitude as int, i) by {
                let c = i - start;
                assert(i == p * 4 + c);
            }
        }
        p = p + 1;
    }
    proof {
        assert forall|i: int| n_pixels * 4 <= i < original.len() implies pixels@[i] == noised_byte(original, base, amplitude as int, i) by {
            lemma_noised_byte_in_tail(original, base, amplitude as int, i);
        }
        assert(pixels@ =~= noised_pixels(original, base, amplitude as int));
    }
}

/// The pixels Blink reads back from its low-entropy 2x2 canvas probe.
pub open spec fn low_entropy_probe_pattern() -> Seq<u8> {
    seq![255u8, 255u8, 255u8, 255u8, 178u8, 178u8, 178u8, 255u8, 246u8, 246u8, 246u8, 255u8,
        55u8, 55u8, 55u8, 255u8]
}

/// Pixel `p` of `data` is opaque and grey.
pub open spec fn is_opaque_gray_pixel(data: Seq<u8>, p: int) -> bool {
    data[4 * p + 3] == 255 && data[4 * p] == data[4 * p + 1] && data[4 * p + 1] == data[4 * p + 2]
}

/// `data` looks like a rendering of Blink's low-entropy probe: every complete
/// pixel is opaque grey, the first is white, one of the first four greys is
/// neither black nor white, and two neighbouring greys differ.
pub open spec fn is_low_entropy_probe(data: Seq<u8>) -> bool {
    &&& forall|p: int| 0 <= p < data.len() / 4 ==> #[trigger] is_opaque_gray_pixel(data, p)
    &&& data[0] == 255
    &&& exists|k: int| 0 <= k < 4 && #[trigger] data[4 * k] != 0 && data[4 * k] != 255
    &&& exists|k: int| 0 <= k < 3 && #[trigger] data[4 * k] != data[4 * k + 4]
}

/// The bytes of a 2x2 canvas after the probe answer: Blink's pattern when the
/// export looks like the probe, the export unchanged otherwise.
pub open spec fn low_entropy_probe_answer(data: Seq<u8>) -> Seq<u8> {
    if data.len() == 16 && is_low_entropy_probe(data) {
        low_entropy_probe_pattern()
    } else {
        data
    }
}

/// Whether the probe answer is considered for a canvas of `width` by `height`:
/// the preference is on and the canvas has four pixels.
pub fn low_entropy_probe_applies(enabled: bool, width: u32, height: u32) -> (r: bool)
    requires
        width * height <= u32::MAX,
    ensures
        r == (enabled && width * height == 4),
{
    if !enabled {
        return false;
    }
    let area: u32 = width * height;
    area == 4
}

/// Whether `data` looks like a rendering of Blink's low-entropy probe.
pub fn looks_like_low_entropy_probe(data: &[u8]) -> (r: bool)
    requires
        data@.len() >= 13,
    ensures
        r == is_low_entropy_probe(data@),
{
    let n_pixels: usize = data.len() / 4;
    let mut p: usize = 0;
    while p < n_pixels
        invariant
            n_pixels == data@.len() / 4,
            p <= n_pixels,
            forall|q: int| 0 <= q < p ==> #[trigger] is_opaque_gray_pixel(data@, q),
        decreases n_pixels - p,
    {
        proof {
            lemma_pixel_in_bounds(data@.len() as int, p as int);
        }
        let total: usize = data.len();
        assert(4 * p + 4 <= total);
        let start: usize = 4 * p;
        if data[start + 3] != 255 || data[start] != data[start + 1] || data[start + 1] != data[start + 2] {
            assert(!is_opaque_gray_pixel(data@, p as int));
            return false;
        }
        p = p + 1;
    }
    let g0 = data[0];
    let g1 = data[4];
    let g2 = data[8];
    let g3 = data[12];
    let mid_gray = (g0 != 0 && g0 != 255) || (g1 != 0 && g1 != 255) || (g2 != 0 && g2 != 255)
        || (g3 != 0 && g3 != 255);
    let varies = g0 != g1 || g1 != g2 || g2 != g3;
    proof {
        assert(data@[4 * 0int] == g0 && data@[4 * 1int] == g1 && data@[4 * 2int] == g2
            && data@[4 * 3int] == g3);
        assert(data@[4 * 0int + 4] == g1 && data@[4 * 1int + 4] == g2 && data@[4 * 2int + 4] == g3);
    }
    g0 == 255 && mid_gray && varies
}

/// Replaces an export that looks like Blink's low-entropy probe by the
/// pixels Blink answers with.
pub fn apply_blink_low_entropy_canvas_probe(data: &mut Vec<u8>)
    ensures
        final(data)@ == low_entropy_probe_answer(old(data)@),
{
    if data.len() != 16 || !looks_like_low_entropy_probe(data.as_slice()) {
        return;
    }
    let pattern: [u8; 16] = [255u8, 255u8, 255u8, 255u8, 178u8, 178u8, 178u8, 255u8, 246u8, 246u8,
        246u8, 255u8, 55u8, 55u8, 55u8, 255u8];
    let mut i: usize = 0;
    while i < 16
        invariant
            data@.len() == 16,
            i <= 16,
            pattern@ == low_entropy_probe_pattern(),
            forall|j: int| 0 <= j < i ==> data@[j] == pattern@[j],
        decreases 16 - i,
    {
        data.set(i, pattern[i]);
        i = i + 1;
    }
    assert(data@ =~= low_entropy_probe_pattern());
}

proof fn lemma_channel_delta_bounded(base: u64, pixel: int, channel: int, amplitude: int)
    requires
        0 <= amplitude <= 8,
    ensures
        -amplitude <= channel_delta(base, pixel, channel, amplitude) <= amplitude,
{
    let hash = murmur_mix(base ^ ((pixel as u64) << 8u64) ^ (channel as u64));
    let m = ((amplitude * 2 + 1) as u64);
    assert(m > 0);
    assert(hash % m < m);
}

/// Law: the export noise moves no byte by more than the amplitude.
pub proof fn law_noise_is_bounded_by_amplitude(old: Seq<u8>, base: u64, amplitude: int, i: int)
    requires
        0 <= amplitude <= 8,
        0 <= i < old.len(),
    ensures
        old[i] - amplitude <= noised_pixels(old, base, amplitude)[i] <= old[i] + amplitude,
{
    reveal(noised_byte);
    let pixel = i / 4;
    let channel = i % 4;
    lemma_channel_delta_bounded(base, pixel, channel, amplitude);
}

/// Law: the noise never touches an alpha byte, nor any byte of a fully
/// transparent pixel.
pub proof fn law_noise_keeps_alpha_and_transparent_pixels(old: Seq<u8>, base: u64, amplitude: int, p: int, c: int)
    requires
        0 <= p,
        0 <= c < 4,
        p * 4 + 4 <= old.len(),
        c == 3 || old[p * 4 + 3] == 0,
    ensures
        noised_pixels(old, base, amplitude)[p * 4 + c] == old[p * 4 + c],
{
    lemma_noised_byte_in_pixel(old, base, amplitude, p, c);
}

/// Law: with a zero amplitude the export is unchanged.
pub proof fn law_zero_amplitude_is_identity(old: Seq<u8>, base: u64)
    ensures
        noised_pixels(old, base, 0) == old,
{
    reveal(noised_byte);
    assert forall|i: int| 0 <= i < old.len() implies noised_pixels(old, base, 0)[i] == old[i] by {
        let pixel = i / 4;
        let channel = i % 4;
        lemma_channel_delta_bounded(base, pixel, channel, 0);
    }
    assert(noised_pixels(old, base, 0) =~= old);
}

/// Law: every colour channel of every visible pixel, whatever its index, moves
/// by the hash of the seed's base, the pixel index shifted left by 8 and the
/// channel index, taken modulo `2 * amplitude + 1` and lowered by the
/// amplitude; the result is kept within a byte.
pub proof fn law_visible_channels_move_by_their_hash(old: Seq<u8>, base: u64, amplitude: int, p: int, c: int)
    requires
        0 <= amplitude <= 8,
        0 <= p,
        0 <= c < 3,
        p * 4 + 4 <= old.len(),
        old[p * 4 + 3] != 0,
    ensures
        ({
            let v = old[p * 4 + c] as int + (murmur_mix(base ^ ((p as u64) << 8u64) ^ (c as u64)) % ((2
                * amplitude + 1) as u64)) as int - amplitude;
            noised_pixels(old, base, amplitude)[p * 4 + c] as int == if v < 0 {
                0
            } else if v > 255 {
                255
            } else {
                v
            }
        }),
{
    lemma_noised_byte_in_pixel(old, base, amplitude, p, c);
}

/// Law: an export with a complete pixel that is not opaque grey (alpha below
/// 255, or two of its colour channels apart) is no probe, and the probe answer
/// leaves it unchanged.
pub proof fn law_non_grey_exports_are_not_probes(data: Seq<u8>, p: int)
    requires
        0 <= p,
        4 * p + 4 <= data.len(),
        data[4 * p + 3] != 255 || data[4 * p] != data[4 * p + 1] || data[4 * p + 1] != data[4 * p + 2]
            || data[4 * p] != data[4 * p + 2],
    ensures
        !is_low_entropy_probe(data),
        low_entropy_probe_answer(data) == data,
{
    assert(!is_opaque_gray_pixel(data, p));
    assert(p < data.len() / 4);
}

/// Law: the probe answer is either the export unchanged or Blink's pixels
/// white, grey 178, grey 246 and grey 55, all opaque; and a 16-byte export of
/// four opaque grey pixels, the first white, one of them neither black nor
/// white and two neighbours apart, gets Blink's pixels.
pub proof fn law_probe_answer_is_the_export_or_blinks_pixels(data: Seq<u8>)
    ensures
        low_entropy_probe_answer(data) == data || low_entropy_probe_answer(data) == seq![255u8, 255u8,
            255u8, 255u8, 178u8, 178u8, 178u8, 255u8, 246u8, 246u8, 246u8, 255u8, 55u8, 55u8, 55u8,
            255u8],
        ({
            &&& data.len() == 16
            &&& data[3] == 255 && data[0] == data[1] && data[1] == data[2]
            &&& data[7] == 255 && data[4] == data[5] && data[5] == data[6]
            &&& data[11] == 255 && data[8] == data[9] && data[9] == data[10]
            &&& data[15] == 255 && data[12] == data[13] && data[13] == data[14]
            &&& data[0] == 255
            &&& (data[4] != 0 && data[4] != 255) || (data[8] != 0 && data[8] != 255) || (data[12] != 0
                && data[12] != 255)
            &&& data[0] != data[4] || data[4] != data[8] || data[8] != data[12]
        }) ==> low_entropy_probe_answer(data) == seq![255u8, 255u8, 255u8, 255u8, 178u8, 178u8,
            178u8, 255u8, 246u8, 246u8, 246u8, 255u8, 55u8, 55u8, 55u8, 255u8],
{
    if data.len() == 16 && data[3] == 255 && data[0] == data[1] && data[1] == data[2] && data[7] == 255
        && data[4] == data[5] && data[5] == data[6] && data[11] == 255 && data[8] == data[9] && data[9]
        == data[10] && data[15] == 255 && data[12] == data[13] && data[13] == data[14] && data[0] == 255 && ((data[4] != 0 && data[4] != 255) || (data[8]
        != 0 && data[8] != 255) || (data[12] != 0 && data[12] != 255)) && (data[0] != data[4] || data[4]
        != data[8] || data[8] != data[12]) {
        assert forall|q: int| 0 <= q < data.len() / 4 implies #[trigger] is_opaque_gray_pixel(data, q) by {
            assert(q == 0 || q == 1 || q == 2 || q == 3);
        }
        if data[4] != 0 && data[4] != 255 {
            assert(data[4 * 1int] != 0 && data[4 * 1int] != 255);
        } else if data[8] != 0 && data[8] != 255 {
            assert(data[4 * 2int] != 0 && data[4 * 2int] != 255);
        } else {
            assert(data[4 * 3int] != 0 && data[4 * 3int] != 255);
        }
        if data[0] != data[4] {
            assert(data[4 * 0int] != data[4 * 0int + 4]);
        } else if data[4] != data[8] {
            assert(data[4 * 1int] != data[4 * 1int + 4]);
        } else {
            assert(data[4 * 2int] != data[4 * 2int + 4]);
        }
        assert(is_low_entropy_probe(data));
    }
    assert(low_entropy_probe_pattern() =~= seq![255u8, 255u8, 255u8, 255u8, 178u8, 178u8, 178u8, 255u8,
        246u8, 246u8, 246u8, 255u8, 55u8, 55u8, 55u8, 255u8]);
}

/// Law: Blink's answer itself looks like the probe, so answering the probe a
/// second time changes nothing.
pub proof fn law_probe_answer_is_idempotent(data: Seq<u8>)
    ensures
        low_entropy_probe_answer(low_entropy_probe_answer(data)) == low_entropy_probe_answer(data),
{
    let pattern = low_entropy_probe_pattern();
    assert forall|p: int| 0 <= p < pattern.len() / 4 implies #[trigger] is_opaque_gray_pixel(pattern, p) by {
        assert(p == 0 || p == 1 || p == 2 || p == 3);
    }
    assert(pattern[4 * 1int] != 0 && pattern[4 * 1int] != 255);
    assert(pattern[4 * 0int] != pattern[4 * 0int + 4]);
    assert(is_low_entropy_probe(pattern));
}

} // verus!
