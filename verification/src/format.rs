//! Video and audio format descriptors and the pure format queries.
//!
//! A video format is identified by its color family, sample type, bit depth
//! and chroma subsampling. Those five parameters pack into a single 32-bit
//! format id; `lemma_format_id_round_trip` proves that unpacking the id of a
//! valid parameter set gives back exactly the format the parameters describe.

use vstd::prelude::*;
use vstd::arithmetic::div_mod::lemma_fundamental_div_mod_converse;
use vstd::arithmetic::power2::{lemma2_to64, lemma2_to64_rest, lemma_pow2_adds, pow2};

verus! {

#[derive(Clone, Copy, PartialEq, Eq, Structural, Debug, Hash)]
pub enum ColorFamily {
    Undefined,
    Gray,
    RGB,
    YUV,
}

#[derive(Clone, Copy, PartialEq, Eq, Structural, Debug, Hash)]
pub enum SampleType {
    Integer,
    Float,
}

/// Description of one video pixel format. Immutable plain data.
#[derive(Clone, Copy, PartialEq, Eq, Structural, Debug, Hash)]
pub struct VideoFormat {
    pub color_family: ColorFamily,
    pub sample_type: SampleType,
    pub bits_per_sample: i32,
    pub bytes_per_sample: i32,
    pub sub_sampling_w: i32,
    pub sub_sampling_h: i32,
    pub num_planes: i32,
}

/// Description of one audio sample format. Immutable plain data.
#[derive(Clone, Copy, PartialEq, Eq, Structural, Debug, Hash)]
pub struct AudioFormat {
    pub sample_type: SampleType,
    pub bits_per_sample: i32,
    pub bytes_per_sample: i32,
    pub num_channels: i32,
    pub channel_layout: u64,
}

pub open spec fn color_family_code(cf: ColorFamily) -> int {
    match cf {
        ColorFamily::Undefined => 0,
        ColorFamily::Gray => 1,
        ColorFamily::RGB => 2,
        ColorFamily::YUV => 3,
    }
}

pub open spec fn sample_type_code(st: SampleType) -> int {
    match st {
        SampleType::Integer => 0,
        SampleType::Float => 1,
    }
}

/// The parameter sets the engine accepts as a video format: a real color
/// family, 8 to 32 bits per sample (floating formats only at 16 or 32),
/// subsampling of at most four halvings, and subsampling only for YUV.
pub open spec fn video_params_valid(
    cf: ColorFamily,
    st: SampleType,
    bits: i32,
    ssw: i32,
    ssh: i32,
) -> bool {
    &&& cf != ColorFamily::Undefined
    &&& 8 <= bits <= 32
    &&& (st is Float ==> bits == 16 || bits == 32)
    &&& 0 <= ssw <= 4
    &&& 0 <= ssh <= 4
    &&& ((ssw != 0 || ssh != 0) ==> cf is YUV)
}

/// Bytes per sample: the smallest power of two that holds the bit depth.
pub open spec fn bytes_for_bits(bits: i32) -> i32 {
    if bits <= 8 {
        1
    } else if bits <= 16 {
        2
    } else {
        4
    }
}

pub open spec fn planes_for_family(cf: ColorFamily) -> int {
    if cf is Gray {
        1
    } else {
        3
    }
}

/// The all-zero descriptor returned for invalid parameters.
pub open spec fn zero_video_format() -> VideoFormat {
    VideoFormat {
        color_family: ColorFamily::Undefined,
        sample_type: SampleType::Integer,
        bits_per_sample: 0,
        bytes_per_sample: 0,
        sub_sampling_w: 0,
        sub_sampling_h: 0,
        num_planes: 0,
    }
}

/// What a video format query returns: the filled descriptor for valid
/// parameters, the all-zero descriptor otherwise.
pub open spec fn spec_query_video_format(
    cf: ColorFamily,
    st: SampleType,
    bits: i32,
    ssw: i32,
    ssh: i32,
) -> VideoFormat {
    if video_params_valid(cf, st, bits, ssw, ssh) {
        VideoFormat {
            color_family: cf,
            sample_type: st,
            bits_per_sample: bits,
            bytes_per_sample: bytes_for_bits(bits),
            sub_sampling_w: ssw,
            sub_sampling_h: ssh,
            num_planes: planes_for_family(cf) as i32,
        }
    } else {
        zero_video_format()
    }
}

/// The packed 32-bit id of a valid video parameter set, 0 otherwise.
/// Fields occupy disjoint digit groups: family, sample type, bit depth,
/// horizontal then vertical subsampling, from the highest digits down.
pub open spec fn spec_video_format_id(
    cf: ColorFamily,
    st: SampleType,
    bits: i32,
    ssw: i32,
    ssh: i32,
) -> u32 {
    if video_params_valid(cf, st, bits, ssw, ssh) {
        (color_family_code(cf) * 0x10000000 + sample_type_code(st) * 0x1000000 + bits * 0x10000
            + ssw * 0x100 + ssh) as u32
    } else {
        0
    }
}

pub open spec fn color_family_of_code(code: int) -> ColorFamily {
    if code == 1 {
        ColorFamily::Gray
    } else if code == 2 {
        ColorFamily::RGB
    } else if code == 3 {
        ColorFamily::YUV
    } else {
        ColorFamily::Undefined
    }
}

/// The format a 32-bit id decodes to: its digit groups are unpacked and then
/// validated exactly as a direct query would validate them.
pub open spec fn spec_format_of_id(id: u32) -> VideoFormat {
    let cf_raw = id / 0x10000000;
    let st_raw = (id / 0x1000000) % 0x10;
    let bits = (id / 0x10000) % 0x100;
    let ssw = (id / 0x100) % 0x100;
    let ssh = id % 0x100;
    if cf_raw <= 3 && st_raw <= 1 {
        spec_query_video_format(
            color_family_of_code(cf_raw as int),
            if st_raw == 1 {
                SampleType::Float
            } else {
                SampleType::Integer
            },
            bits as i32,
            ssw as i32,
            ssh as i32,
        )
    } else {
        zero_video_format()
    }
}

/// Law: packing a valid parameter set into an id and unpacking it again
/// yields exactly the descriptor that a direct query of those parameters
/// yields.
pub proof fn lemma_format_id_round_trip(
    cf: ColorFamily,
    st: SampleType,
    bits: i32,
    ssw: i32,
    ssh: i32,
)
    requires
        video_params_valid(cf, st, bits, ssw, ssh),
    ensures
        spec_format_of_id(spec_video_format_id(cf, st, bits, ssw, ssh))
            == spec_query_video_format(cf, st, bits, ssw, ssh),
{
    let c = color_family_code(cf);
    let s = sample_type_code(st);
    let b = bits as int;
    let w = ssw as int;
    let h = ssh as int;
    let e = c * 0x10000000 + s * 0x1000000 + b * 0x10000 + w * 0x100 + h;
    let id = spec_video_format_id(cf, st, bits, ssw, ssh);
    assert(id == e as u32);
    assert(0 <= e < 0x100000000);
    assert(id as int == e);
    lemma_fundamental_div_mod_converse(
        e,
        0x10000000,
        c,
        s * 0x1000000 + b * 0x10000 + w * 0x100 + h,
    );
    assert(id / 0x10000000 == c);
    lemma_fundamental_div_mod_converse(e, 0x1000000, c * 0x10 + s, b * 0x10000 + w * 0x100 + h);
    lemma_fundamental_div_mod_converse(c * 0x10 + s, 0x10, c, s);
    assert((id / 0x1000000) % 0x10 == s);
    lemma_fundamental_div_mod_converse(e, 0x10000, c * 0x1000 + s * 0x100 + b, w * 0x100 + h);
    lemma_fundamental_div_mod_converse(c * 0x1000 + s * 0x100 + b, 0x100, c * 0x10 + s, b);
    assert((id / 0x10000) % 0x100 == b);
    lemma_fundamental_div_mod_converse(e, 0x100, c * 0x100000 + s * 0x10000 + b * 0x100 + w, h);
    lemma_fundamental_div_mod_converse(
        c * 0x100000 + s * 0x10000 + b * 0x100 + w,
        0x100,
        c * 0x1000 + s * 0x100 + b,
        w,
    );
    assert((id / 0x100) % 0x100 == w);
    assert(id % 0x100 == h);
}

/// Law: the id query is a pure function of its parameters, so any two query
/// results obtained from identical parameters are the same id.
pub proof fn lemma_format_id_idempotent(
    r1: u32,
    r2: u32,
    cf: ColorFamily,
    st: SampleType,
    bits: i32,
    ssw: i32,
    ssh: i32,
)
    requires
        r1 == spec_video_format_id(cf, st, bits, ssw, ssh),
        r2 == spec_video_format_id(cf, st, bits, ssw, ssh),
    ensures
        r1 == r2,
{
}

/// The parameter sets the engine accepts as an audio format: 16 to 32 bits
/// per sample, floating formats only at 32, and a non-empty channel layout.
pub open spec fn audio_params_valid(st: SampleType, bits: i32, layout: u64) -> bool {
    &&& 16 <= bits <= 32
    &&& (st is Float ==> bits == 32)
    &&& layout != 0
}

/// The number of set bits of a channel layout: one channel per set bit.
pub open spec fn count_channels(layout: u64) -> nat
    decreases layout,
{
    if layout == 0 {
        0
    } else {
        (layout % 2) as nat + count_channels(layout / 2)
    }
}

pub open spec fn zero_audio_format() -> AudioFormat {
    AudioFormat {
        sample_type: SampleType::Integer,
        bits_per_sample: 0,
        bytes_per_sample: 0,
        num_channels: 0,
        channel_layout: 0,
    }
}

/// What an audio format query returns: the filled descriptor for valid
/// parameters, the all-zero descriptor otherwise.
pub open spec fn spec_query_audio_format(st: SampleType, bits: i32, layout: u64) -> AudioFormat {
    if audio_params_valid(st, bits, layout) {
        AudioFormat {
            sample_type: st,
            bits_per_sample: bits,
            bytes_per_sample: bytes_for_bits(bits),
            num_channels: count_channels(layout) as i32,
            channel_layout: layout,
        }
    } else {
        zero_audio_format()
    }
}

/// A value below two to the `b` has at most `b` set bits.
proof fn lemma_count_channels_le(x: u64, b: nat)
    requires
        (x as nat) < pow2(b),
    ensures
        count_channels(x) <= b,
    decreases b,
{
    if x != 0 {
        lemma2_to64();
        if b == 0 {
            assert(pow2(0) == 1);
        } else {
            lemma_pow2_adds(1, (b - 1) as nat);
            assert(pow2(1) == 2);
            assert(((x / 2) as nat) < pow2((b - 1) as nat));
            lemma_count_channels_le(x / 2, (b - 1) as nat);
        }
    }
}

/// A 64-bit layout has at most 64 set bits, so the channel count fits `i32`.
pub proof fn lemma_count_channels_bound(layout: u64)
    ensures
        count_channels(layout) <= 64,
{
    lemma2_to64();
    lemma2_to64_rest();
    lemma_count_channels_le(layout, 64);
}

/// Counts the set bits of `layout`.
pub fn popcount64(layout: u64) -> (r: u32)
    ensures
        r == count_channels(layout),
{
    proof {
        lemma_count_channels_bound(layout);
    }
    let mut x: u64 = layout;
    let mut count: u32 = 0;
    while x != 0
        invariant
            count + count_channels(x) == count_channels(layout),
            count_channels(layout) <= 64,
        decreases x,
    {
        proof {
            lemma_count_channels_bound(x / 2);
        }
        count = count + (x % 2) as u32;
        x = x / 2;
    }
    count
}

} // verus!
