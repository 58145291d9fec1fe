//! The WAV container: a fixed 44-byte header (mono, 8-bit PCM, 44100 Hz)
//! followed by the raw sample bytes.

use vstd::prelude::*;

verus! {

/// The 44 header bytes for a payload of `len` sample bytes. Only the RIFF
/// chunk-size field and the data-size field depend on `len`; every other
/// byte is fixed by the format (PCM, one channel, 44100 Hz, 8 bits/sample).
/// The chunk-size field carries the bitwise complement of the low 24 bits of
/// `len + 36`.
pub open spec fn spec_wav_header(len: int) -> Seq<u8> {
    let fs = (len + 36) as usize;
    let a = !(fs & 0xFFFFFF) & 0xFFFFFF;
    let i = len as usize;
    seq![
        // Master RIFF chunk: "RIFF", chunk size, "WAVE"
        0x52u8,
        0x49u8,
        0x46u8,
        0x46u8,
        (a & 0xFF) as u8,
        ((a >> 8) & 0xFF) as u8,
        ((a >> 16) & 0xFF) as u8,
        ((a >> 24) & 0xFF) as u8,
        0x57u8,
        0x41u8,
        0x56u8,
        0x45u8,
        // Format chunk: "fmt ", block size 16, PCM, 1 channel,
        // 44100 Hz, 44100 bytes/s, 1 byte/block, 8 bits/sample
        0x66u8,
        0x6Du8,
        0x74u8,
        0x20u8,
        16u8,
        0u8,
        0u8,
        0u8,
        1u8,
        0u8,
        1u8,
        0u8,
        0x44u8,
        0xACu8,
        0u8,
        0u8,
        0x44u8,
        0xACu8,
        0u8,
        0u8,
        1u8,
        0u8,
        8u8,
        0u8,
        // Data chunk: "data", sampled data size
        0x64u8,
        0x61u8,
        0x74u8,
        0x61u8,
        (i & 0xFF) as u8,
        ((i >> 8) & 0xFF) as u8,
        ((i >> 16) & 0xFF) as u8,
        ((i >> 24) & 0xFF) as u8,
    ]
}

/// Builds the 44-byte WAV header describing `data` as the payload.
pub fn get_wav_file_header(data: &[u8]) -> (h: Vec<u8>)
    requires
        data@.len() + 44 <= usize::MAX,
    ensures
        h@ == spec_wav_header(data@.len() as int),
{
    proof {
        assert(forall|x: usize| #[trigger] (x & 0xFF) < 256) by (bit_vector);
        assert(forall|x: usize| #[trigger] ((x >> 8) & 0xFF) < 256) by (bit_vector);
        assert(forall|x: usize| #[trigger] ((x >> 16) & 0xFF) < 256) by (bit_vector);
        assert(forall|x: usize| #[trigger] ((x >> 24) & 0xFF) < 256) by (bit_vector);
    }
    let file_size: usize = data.len() + 44 - 8;
    let a: usize = !(file_size & 0xFFFFFF) & 0xFFFFFF;
    let i: usize = data.len();

    let mut h: Vec<u8> = Vec::new();
    h.push(0x52);
    h.push(0x49);
    h.push(0x46);
    h.push(0x46);
    h.push((a & 0xFF) as u8);
    h.push(((a >> 8) & 0xFF) as u8);
    h.push(((a >> 16) & 0xFF) as u8);
    h.push(((a >> 24) & 0xFF) as u8);
    h.push(0x57);
    h.push(0x41);
    h.push(0x56);
    h.push(0x45);
    h.push(0x66);
    h.push(0x6D);
    h.push(0x74);
    h.push(0x20);
    h.push(16);
    h.push(0);
    h.push(0);
    h.push(0);
    h.push(1);
    h.push(0);
    h.push(1);
    h.push(0);
    h.push(0x44);
    h.push(0xAC);
    h.push(0);
    h.push(0);
    h.push(0x44);
    h.push(0xAC);
    h.push(0);
    h.push(0);
    h.push(1);
    h.push(0);
    h.push(8);
    h.push(0);
    h.push(0x64);
    h.push(0x61);
    h.push(0x74);
    h.push(0x61);
    h.push((i & 0xFF) as u8);
    h.push(((i >> 8) & 0xFF) as u8);
    h.push(((i >> 16) & 0xFF) as u8);
    h.push(((i >> 24) & 0xFF) as u8);
    proof {
        assert(h@ =~= spec_wav_header(data@.len() as int));
    }
    h
}

/// Wraps raw 8-bit PCM samples into a playable WAV file: the 44-byte header
/// followed by the samples, unchanged.
pub fn create_wav_file(data: &[u8]) -> (out: Vec<u8>)
    requires
        data@.len() + 44 <= usize::MAX,
    ensures
        out@ == spec_wav_header(data@.len() as int) + data@,
{
    let mut out = get_wav_file_header(data);
    let n = data.len();
    for k in 0..n
        invariant
            n == data@.len(),
            n + 44 <= usize::MAX,
            out@ == spec_wav_header(data@.len() as int) + data@.take(k as int),
    {
        out.push(data[k]);
        proof {
            assert(data@.take(k + 1) =~= data@.take(k as int).push(data@[k as int]));
        }
    }
    proof {
        assert(data@.take(n as int) =~= data@);
    }
    out
}

} // verus!
