//! A Slow-Scan Television (SSTV) waveform synthesis engine: encodes a fixed
//! catalog of SSTV modes (Martin, Scottie, monochrome, Wraase) as the exact
//! tone sequence the protocol prescribes, resolves each tone to a whole
//! number of 44100 Hz samples with drift compensation, and frames finished
//! sample buffers as WAV files.
//!
//! Frequencies travel scaled by 255 (units of 1/255 Hz) and durations in
//! picoseconds, so every published timing and the pixel-to-frequency map are
//! exact integers, and every step of the pipeline carries a proof.

pub mod encoder;
pub mod modes;
pub mod raster;
pub mod sampler;
pub mod wav;

pub use encoder::Tone;
pub use encoder::decode_vis_code;
pub use encoder::encode_tones;
pub use encoder::pixel_freq_255;
pub use encoder::vis_code_tones;
pub use modes::SSTVMode;
pub use modes::get_mode_from_resolution;
pub use raster::Raster;
pub use sampler::SamplePlan;
pub use sampler::encode_samples;
pub use sampler::plan_samples;
pub use wav::create_wav_file;
pub use wav::get_wav_file_header;
