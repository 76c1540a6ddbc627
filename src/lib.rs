//! Procedural audio sample streams (noise, sawtooth oscillators with frequency
//! modulation and scale quantization, raw PCM playback) and the pieces that deliver
//! them in real time: a chunking pacer, a fan-out to storage and playback, and a
//! bounded chunk queue between a producer and a consumer.

pub mod fanout;
pub mod file_audio_stream;
pub mod format;
pub mod generator;
pub mod pacer;
pub mod oscillator;
pub mod random_audio_stream;
pub mod saw_wave_stream;
pub mod scaled_saw_wave_stream;
