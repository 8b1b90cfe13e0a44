//! The audio artifact's file format: 16-bit PCM samples behind the
//! canonical 44-byte RIFF/WAVE header. The encoder's output is pinned down
//! byte for byte, and every encoded artifact is proved structurally valid.

use vstd::prelude::*;

verus! {

/// The two little-endian bytes of a 16-bit value.
pub open spec fn u16_le(x: u16) -> Seq<u8> {
    seq![(x % 256) as u8, (x / 256) as u8]
}

/// The four little-endian bytes of a 32-bit value.
pub open spec fn u32_le(x: u32) -> Seq<u8> {
    seq![
        (x % 256) as u8,
        ((x / 256) % 256) as u8,
        ((x / 65536) % 256) as u8,
        (x / 16777216) as u8,
    ]
}

/// The value read back from two little-endian bytes.
pub open spec fn u16_of_le(b: Seq<u8>) -> int {
    b[0] + 256 * b[1]
}

/// The value read back from four little-endian bytes.
pub open spec fn u32_of_le(b: Seq<u8>) -> int {
    b[0] + 256 * b[1] + 65536 * b[2] + 16777216 * b[3]
}

/// A signed sample stored as its two's-complement bytes, little-endian.
pub open spec fn sample_le(s: i16) -> Seq<u8> {
    u16_le(s as u16)
}

/// The data chunk: every sample in order, two bytes each.
pub open spec fn sample_data(samples: Seq<i16>) -> Seq<u8>
    decreases samples.len(),
{
    if samples.len() == 0 {
        Seq::<u8>::empty()
    } else {
        sample_le(samples[0]) + sample_data(samples.drop_first())
    }
}

pub open spec fn tag_riff() -> Seq<u8> {
    seq![0x52u8, 0x49u8, 0x46u8, 0x46u8]
}

pub open spec fn tag_wave() -> Seq<u8> {
    seq![0x57u8, 0x41u8, 0x56u8, 0x45u8]
}

pub open spec fn tag_fmt() -> Seq<u8> {
    seq![0x66u8, 0x6du8, 0x74u8, 0x20u8]
}

pub open spec fn tag_data() -> Seq<u8> {
    seq![0x64u8, 0x61u8, 0x74u8, 0x61u8]
}

/// The whole artifact: RIFF header, PCM format chunk for the given rate
/// and channel count, then the data chunk.
pub open spec fn wav_bytes(sample_rate: u32, channels: u16, samples: Seq<i16>) -> Seq<u8> {
    tag_riff() + u32_le(((36 + 2 * samples.len()) as u32)) + tag_wave() + tag_fmt() + u32_le(16)
        + u16_le(1) + u16_le(channels) + u32_le(sample_rate) + u32_le(
        ((sample_rate as int * channels as int * 2) as u32),
    ) + u16_le(((channels as int * 2) as u16)) + u16_le(16) + tag_data() + u32_le(
        ((2 * samples.len()) as u32),
    ) + sample_data(samples)
}

/// Structural validity of an artifact: the RIFF and WAVE tags stand where
/// they belong, the format chunk declares 16-bit PCM, and the two size
/// fields agree with the actual length.
pub open spec fn wav_valid(b: Seq<u8>) -> bool {
    &&& b.len() >= 44
    &&& b.subrange(0, 4) == tag_riff()
    &&& u32_of_le(b.subrange(4, 8)) == b.len() - 8
    &&& b.subrange(8, 12) == tag_wave()
    &&& b.subrange(12, 16) == tag_fmt()
    &&& u32_of_le(b.subrange(16, 20)) == 16
    &&& u16_of_le(b.subrange(20, 22)) == 1
    &&& b.subrange(36, 40) == tag_data()
    &&& u32_of_le(b.subrange(40, 44)) == b.len() - 44
}

pub proof fn lemma_sample_data_len(samples: Seq<i16>)
    ensures
        sample_data(samples).len() == 2 * samples.len(),
    decreases samples.len(),
{
    if samples.len() != 0 {
        lemma_sample_data_len(samples.drop_first());
    }
}

pub proof fn lemma_sample_data_push(samples: Seq<i16>, x: i16)
    ensures
        sample_data(samples.push(x)) == sample_data(samples) + sample_le(x),
    decreases samples.len(),
{
    if samples.len() == 0 {
        assert(samples.push(x).drop_first() =~= Seq::<i16>::empty());
        assert(samples.push(x)[0] == x);
        assert(sample_data(Seq::<i16>::empty()) == Seq::<u8>::empty());
        assert(sample_data(samples) == Seq::<u8>::empty());
        assert(sample_data(samples.push(x)) == sample_le(x) + Seq::<u8>::empty());
        assert(sample_le(x) + Seq::<u8>::empty() =~= Seq::<u8>::empty() + sample_le(x));
    } else {
        lemma_sample_data_push(samples.drop_first(), x);
        assert(samples.push(x).drop_first() =~= samples.drop_first().push(x));
        assert(samples.push(x)[0] == samples[0]);
        assert(sample_data(samples.push(x)) == sample_le(samples[0]) + (sample_data(
            samples.drop_first(),
        ) + sample_le(x)));
        assert(sample_le(samples[0]) + (sample_data(samples.drop_first()) + sample_le(x)) =~= (
        sample_le(samples[0]) + sample_data(samples.drop_first())) + sample_le(x));
    }
}

proof fn lemma_u16_round(x: u16)
    ensures
        u16_of_le(u16_le(x)) == x,
{
}

proof fn lemma_u32_round(x: u32)
    ensures
        u32_of_le(u32_le(x)) == x,
{
}

/// Every encoded artifact is structurally valid, whatever was captured:
/// even a recording of no samples carries a complete, coherent header.
pub proof fn lemma_wav_bytes_valid(sample_rate: u32, channels: u16, samples: Seq<i16>)
    requires
        36 + 2 * samples.len() <= u32::MAX,
    ensures
        wav_valid(wav_bytes(sample_rate, channels, samples)),
        wav_bytes(sample_rate, channels, samples).len() == 44 + 2 * samples.len(),
{
    let b = wav_bytes(sample_rate, channels, samples);
    lemma_sample_data_len(samples);
    assert(b.subrange(0, 4) =~= tag_riff());
    assert(b.subrange(4, 8) =~= u32_le(((36 + 2 * samples.len()) as u32)));
    lemma_u32_round(((36 + 2 * samples.len()) as u32));
    assert(b.subrange(8, 12) =~= tag_wave());
    assert(b.subrange(12, 16) =~= tag_fmt());
    assert(b.subrange(16, 20) =~= u32_le(16));
    lemma_u32_round(16);
    assert(b.subrange(20, 22) =~= u16_le(1));
    lemma_u16_round(1);
    assert(b.subrange(36, 40) =~= tag_data());
    assert(b.subrange(40, 44) =~= u32_le(((2 * samples.len()) as u32)));
    lemma_u32_round(((2 * samples.len()) as u32));
}

fn push_u16_le(out: &mut Vec<u8>, x: u16)
    ensures
        final(out)@ == old(out)@ + u16_le(x),
{
    let ghost pre = out@;
    out.push((x % 256) as u8);
    out.push((x / 256) as u8);
    proof {
        assert(out@ =~= pre + u16_le(x));
    }
}

fn push_u32_le(out: &mut Vec<u8>, x: u32)
    ensures
        final(out)@ == old(out)@ + u32_le(x),
{
    let ghost pre = out@;
    out.push((x % 256) as u8);
    out.push(((x / 256) % 256) as u8);
    out.push(((x / 65536) % 256) as u8);
    out.push((x / 16777216) as u8);
    proof {
        assert(out@ =~= pre + u32_le(x));
    }
}

/// Encodes captured samples as a complete WAVE file, byte for byte as
/// `wav_bytes` states, and therefore structurally valid.
#[verifier::rlimit(50)]
pub fn encode_wav(sample_rate: u32, channels: u16, samples: &Vec<i16>) -> (out: Vec<u8>)
    requires
        1 <= channels,
        1 <= sample_rate,
        channels as int * 2 <= u16::MAX,
        sample_rate as int * channels as int * 2 <= u32::MAX,
        36 + 2 * samples@.len() <= u32::MAX,
    ensures
        out@ == wav_bytes(sample_rate, channels, samples@),
        wav_valid(out@),
        out@.len() == 44 + 2 * samples@.len(),
{
    proof {
        assert(sample_rate as int * channels as int <= u32::MAX) by (nonlinear_arith)
            requires
                1 <= sample_rate,
                1 <= channels,
                sample_rate as int * channels as int * 2 <= u32::MAX,
        ;
    }
    let data_size: u32 = 2 * (samples.len() as u32);
    let byte_rate: u32 = sample_rate * (channels as u32) * 2;
    let block_align: u16 = channels * 2;
    let mut out: Vec<u8> = Vec::new();
    out.push(0x52u8);
    out.push(0x49u8);
    out.push(0x46u8);
    out.push(0x46u8);
    let ghost g1 = tag_riff();
    let ghost g2 = g1 + u32_le(((36 + 2 * samples@.len()) as u32));
    let ghost g3 = g2 + tag_wave();
    let ghost g4 = g3 + tag_fmt();
    let ghost g5 = g4 + u32_le(16);
    let ghost g6 = g5 + u16_le(1);
    let ghost g7 = g6 + u16_le(channels);
    let ghost g8 = g7 + u32_le(sample_rate);
    let ghost g9 = g8 + u32_le(((sample_rate as int * channels as int * 2) as u32));
    let ghost g10 = g9 + u16_le(((channels as int * 2) as u16));
    let ghost g11 = g10 + u16_le(16);
    let ghost g12 = g11 + tag_data();
    let ghost header = g12 + u32_le(((2 * samples@.len()) as u32));
    proof {
        assert(out@ =~= g1);
    }
    push_u32_le(&mut out, 36 + data_size);
    proof {
        assert(36 + data_size == ((36 + 2 * samples@.len()) as u32));
        assert(out@ == g2);
    }
    out.push(0x57u8);
    out.push(0x41u8);
    out.push(0x56u8);
    out.push(0x45u8);
    proof {
        assert(out@ =~= g3);
    }
    out.push(0x66u8);
    out.push(0x6du8);
    out.push(0x74u8);
    out.push(0x20u8);
    proof {
        assert(out@ =~= g4);
    }
    push_u32_le(&mut out, 16);
    push_u16_le(&mut out, 1);
    push_u16_le(&mut out, channels);
    push_u32_le(&mut out, sample_rate);
    proof {
        assert(out@ == g8);
    }
    push_u32_le(&mut out, byte_rate);
    proof {
        assert(byte_rate == ((sample_rate as int * channels as int * 2) as u32));
        assert(out@ == g9);
    }
    push_u16_le(&mut out, block_align);
    proof {
        assert(block_align == ((channels as int * 2) as u16));
        assert(out@ == g10);
    }
    push_u16_le(&mut out, 16);
    out.push(0x64u8);
    out.push(0x61u8);
    out.push(0x74u8);
    out.push(0x61u8);
    proof {
        assert(out@ =~= g12);
    }
    push_u32_le(&mut out, data_size);
    proof {
        assert(data_size == ((2 * samples@.len()) as u32));
        assert(out@ == header);
        assert(samples@.take(0) =~= Seq::<i16>::empty());
    }
    let mut i: usize = 0;
    while i < samples.len()
        invariant
            i <= samples.len(),
            out@ == header + sample_data(samples@.take(i as int)),
        decreases samples.len() - i,
    {
        let s = samples[i];
        let ghost pre = out@;
        push_u16_le(&mut out, s as u16);
        proof {
            lemma_sample_data_push(samples@.take(i as int), samples@[i as int]);
            assert(samples@.take(i as int).push(samples@[i as int]) =~= samples@.take(i as int + 1));
            assert(out@ =~= header + sample_data(samples@.take(i as int + 1)));
        }
        i += 1;
    }
    proof {
        assert(samples@.take(samples@.len() as int) =~= samples@);
        lemma_wav_bytes_valid(sample_rate, channels, samples@);
    }
    out
}

} // verus!
