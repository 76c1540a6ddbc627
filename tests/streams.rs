use audio_stream::fanout::{copy_chunk, ChunkQueue, FanOut, Received};
use audio_stream::file_audio_stream::{decode_pcm, FileAudioStream};
use audio_stream::format::{duration_of, samples_per_second, total_samples, AudioFormat, StreamDuration};
use audio_stream::generator::Generator;
use audio_stream::oscillator::{advance_phase, cycle_units, frequency_offset, saw_sample};
use audio_stream::pacer::Pacer;
use audio_stream::random_audio_stream::RandomAudioStream;
use audio_stream::saw_wave_stream::SawWaveStream;
use audio_stream::scaled_saw_wave_stream::ScaledSawWaveStream;

fn secs(s: u64) -> StreamDuration {
    StreamDuration::new(s, 0)
}

#[test]
fn budget_truncates_fractional_seconds() {
    let format = AudioFormat { sample_rate: 44100, channels: 2 };
    assert_eq!(total_samples(&format, &StreamDuration::new(5, 999_999_999)), 441_000);
    assert_eq!(total_samples(&format, &StreamDuration::new(0, 500_000_000)), 0);
    assert_eq!(samples_per_second(&format), 88_200);
}

#[test]
fn noise_emits_exactly_its_budget() {
    let mut s = RandomAudioStream::new(10, 2, StreamDuration::new(3, 500_000_000));
    for _ in 0..60 {
        assert!(s.next().is_some());
    }
    assert_eq!(s.next(), None);
    assert_eq!(s.next(), None);
    assert_eq!(s.channels(), 2);
    assert_eq!(s.sample_rate(), 10);
    assert_eq!(s.current_frame_len(), None);
    assert_eq!(s.total_duration(), Some(StreamDuration::new(3, 500_000_000)));
}

#[test]
fn noise_samples_are_not_all_equal() {
    let mut s = RandomAudioStream::new(1000, 1, secs(1));
    let mut seen = Vec::new();
    while let Some(x) = s.next() {
        seen.push(x);
    }
    assert_eq!(seen.len(), 1000);
    assert!(seen.iter().any(|&x| x != seen[0]));
}

#[test]
fn zero_duration_stream_is_empty() {
    let mut s = SawWaveStream::new(8, 1, StreamDuration::new(0, 900_000_000), 2000, 0, 0, 800);
    assert_eq!(s.next(0), None);
}

#[test]
fn saw_ramps_and_wraps() {
    // 8 Hz sample rate, 2 Hz saw: a period of 4 samples.
    let mut s = SawWaveStream::new(8, 1, secs(2), 2000, 0, 0, 800);
    let mut out = Vec::new();
    while let Some(x) = s.next(0) {
        out.push(x);
    }
    assert_eq!(out, vec![0, 200, 400, 600, 0, 200, 400, 600, 0, 200, 400, 600, 0, 200, 400, 600]);
}

#[test]
fn saw_is_periodic_when_frequency_divides_rate() {
    // 44100 / 100 = 441 Hz: period of 100 samples.
    let mut s = SawWaveStream::new(44100, 1, secs(1), 441_000, 0, 0, 10000);
    let mut out = Vec::new();
    while let Some(x) = s.next(0) {
        out.push(x);
    }
    assert_eq!(out.len(), 44100);
    for k in 0..(out.len() - 100) {
        assert_eq!(out[k], out[k + 100]);
    }
    assert_eq!(out[1], 100);
}

#[test]
fn fm_with_zero_depth_matches_plain_saw() {
    let mut plain = SawWaveStream::new(8, 1, secs(2), 3000, 0, 0, 700);
    let mut fm = SawWaveStream::new(8, 1, secs(2), 3000, 5000, 0, 700);
    let mods: [i16; 4] = [32767, -32768, 12345, -1];
    let mut k = 0;
    loop {
        let a = plain.next(0);
        let b = fm.next(mods[k % 4]);
        assert_eq!(a, b);
        if a.is_none() {
            break;
        }
        k += 1;
    }
    assert_eq!(k, 16);
}

#[test]
fn fm_modulation_shifts_frequency() {
    // Offset of half the depth: 2000 + 500 millihertz per step at 8 Hz.
    let mut s = SawWaveStream::new(8, 1, secs(1), 2000, 0, 1000, 800);
    let out: Vec<i16> = (0..5).map(|_| s.next(16384).unwrap()).collect();
    assert_eq!(out, vec![0, 250, 500, 750, 200]);
    // Full negative modulation: 2000 - 1000.
    let mut s = SawWaveStream::new(8, 1, secs(1), 2000, 0, 1000, 800);
    let out: Vec<i16> = (0..3).map(|_| s.next(-32768).unwrap()).collect();
    assert_eq!(out, vec![0, 100, 200]);
}

#[test]
fn fm_negative_frequency_wraps_backwards() {
    let mut s = SawWaveStream::new(8, 1, secs(1), 0, 0, 1000, 800);
    let out: Vec<i16> = (0..3).map(|_| s.next(-32768).unwrap()).collect();
    assert_eq!(out, vec![0, 700, 600]);
}

#[test]
fn modulation_argument_counts_samples_from_one() {
    let mut s = SawWaveStream::new(8, 1, secs(1), 2000, 3000, 1000, 800);
    assert_eq!(s.modulation_argument(), (3000, 8000));
    s.next(0);
    assert_eq!(s.modulation_argument(), (6000, 8000));
    assert_eq!(s.total_duration(), Some(secs(1)));
}

#[test]
fn saw_sample_saturates_and_rounds() {
    let cycle = cycle_units(8);
    assert_eq!(cycle, 8000);
    assert_eq!(saw_sample(4000, 100_000, cycle), 32767);
    assert_eq!(saw_sample(4000, -100_000, cycle), -32768);
    assert_eq!(saw_sample(2500, -800, cycle), -250);
    assert_eq!(saw_sample(1, 7999, cycle), 1);
    assert_eq!(saw_sample(1, -7999, cycle), -1);
    assert_eq!(saw_sample(4, 1000, cycle), 1);
    assert_eq!(saw_sample(4, -1000, cycle), -1);
    assert_eq!(saw_sample(3, 1000, cycle), 0);
    assert_eq!(saw_sample(0, -1000, cycle), 0);
}

#[test]
fn saw_rounds_half_away_from_zero() {
    // 2 Hz rate, 1 Hz saw, amplitude 3: phases 0 and 0.5 give 0 and round(1.5) = 2.
    let mut s = SawWaveStream::new(2, 1, secs(2), 1000, 0, 0, 3);
    assert_eq!(s.next(0), Some(0));
    assert_eq!(s.next(0), Some(2));
    assert_eq!(s.next(0), Some(0));
    let mut s = SawWaveStream::new(2, 1, secs(1), 1000, 0, 0, -3);
    assert_eq!(s.next(0), Some(0));
    assert_eq!(s.next(0), Some(-2));
}

#[test]
fn scaled_saw_rounds_its_samples() {
    // 8 Hz rate, 1 Hz root, amplitude 4: the first step uses 1.125 Hz, and
    // round(0.140625 * 4) = round(0.5625) = 1.
    let mut s = ScaledSawWaveStream::new(8, 1, secs(1), 1000, 0, 0, 4);
    assert_eq!(s.next(0), Some(0));
    assert_eq!(s.next(0), Some(1));
}

#[test]
fn phase_advance_wraps_both_ways() {
    assert_eq!(advance_phase(7000, 2000, 8000), 1000);
    assert_eq!(advance_phase(1000, -3000, 8000), 6000);
    assert_eq!(advance_phase(0, -16000, 8000), 0);
    assert_eq!(advance_phase(0, 20000, 8000), 4000);
}

#[test]
fn frequency_offset_rounds_down() {
    assert_eq!(frequency_offset(16384, 1000), 500);
    assert_eq!(frequency_offset(-32768, 1000), -1000);
    assert_eq!(frequency_offset(-1, 1000), -1);
    assert_eq!(frequency_offset(32767, 200_000), 199_993);
    assert_eq!(frequency_offset(12345, 0), 0);
}

#[test]
fn snap_picks_nearest_and_first_on_ties() {
    let s = ScaledSawWaveStream::new(44100, 1, secs(1), 440_000, 0, 0, 1000);
    assert_eq!(s.snap_to_nearest_note(600_000), 550_000);
    assert_eq!(s.snap_to_nearest_note(522_500), 495_000);
    assert_eq!(s.snap_to_nearest_note(-5), 440_000);
    assert_eq!(s.snap_to_nearest_note(9_000_000), 1_100_000);
}

#[test]
fn note_cursor_wraps_around_the_scale() {
    let mut s = ScaledSawWaveStream::new(44100, 1, secs(1), 440_000, 0, 0, 1000);
    let notes: Vec<u64> = (0..9).map(|_| s.next_note_frequency()).collect();
    assert_eq!(
        notes,
        vec![495_000, 550_000, 660_000, 770_000, 880_000, 990_000, 1_100_000, 440_000, 495_000]
    );
}

#[test]
fn scaled_saw_uses_only_scale_notes() {
    // rate 44100 Hz, cycle 44_100_000; amplitude 4410 makes a sample equal to phase / 10000.
    let mut s = ScaledSawWaveStream::new(44100, 1, secs(1), 440_000, 0, 200_000, 4410);
    assert_eq!(s.next(32767), Some(0));
    // note 495000 + 199993 snaps to 660000
    assert_eq!(s.next(0), Some(66));
    // note 550000 + 0 stays 550000
    assert_eq!(s.next(-32768), Some(121));
    // note 660000 - 200000 = 460000 snaps to 440000
    assert_eq!(s.next(0), Some(165));
    assert_eq!(s.channels(), 1);
    assert_eq!(s.sample_rate(), 44100);
    assert_eq!(s.current_frame_len(), None);
}

#[test]
fn scaled_saw_stops_at_budget() {
    let mut s = ScaledSawWaveStream::new(4, 2, secs(1), 440_000, 1000, 10, 100);
    assert_eq!(s.modulation_argument(), (1000, 4000));
    for _ in 0..8 {
        assert!(s.next(0).is_some());
    }
    assert_eq!(s.next(0), None);
    assert_eq!(s.next(0), None);
    assert_eq!(s.total_duration(), Some(secs(1)));
}

#[test]
fn pcm_decoding_is_little_endian() {
    assert_eq!(decode_pcm(&vec![0x01, 0x00]), vec![1]);
    assert_eq!(decode_pcm(&vec![0xFF, 0xFF]), vec![-1]);
    assert_eq!(decode_pcm(&vec![0x00, 0x80, 0xFF, 0x7F]), vec![-32768, 32767]);
    assert_eq!(decode_pcm(&vec![0x34, 0x12, 0x99]), vec![0x1234]);
    assert_eq!(decode_pcm(&vec![0x99]), Vec::<i16>::new());
    assert_eq!(decode_pcm(&vec![]), Vec::<i16>::new());
}

#[test]
fn file_stream_drops_trailing_odd_byte() {
    let mut s = FileAudioStream::new(&vec![0x01, 0x00, 0xFF, 0xFF, 0x7F], 2, 1);
    assert_eq!(s.next(), Some(1));
    assert_eq!(s.next(), Some(-1));
    assert_eq!(s.next(), None);
    assert_eq!(s.next(), None);
    assert_eq!(s.total_duration(), Some(StreamDuration::new(1, 0)));
    assert_eq!(s.channels(), 1);
    assert_eq!(s.sample_rate(), 2);
    assert_eq!(s.current_frame_len(), None);
}

#[test]
fn file_stream_duration_keeps_fraction() {
    let s = FileAudioStream::new(&vec![0; 6], 2, 1);
    assert_eq!(s.total_duration(), Some(StreamDuration::new(1, 500_000_000)));
    let format = AudioFormat { sample_rate: 3, channels: 1 };
    assert_eq!(duration_of(&format, 1), StreamDuration::new(0, 333_333_333));
}

#[test]
fn pacer_chunks_in_order_and_flushes() {
    // 20 Hz mono: a tenth of a second is two samples.
    let mut p = Pacer::new(AudioFormat { sample_rate: 20, channels: 1 });
    assert_eq!(p.push(1), None);
    assert_eq!(p.push(2), Some(vec![1, 2]));
    assert_eq!(p.push(3), None);
    assert_eq!(p.finish(), Some(vec![3]));
    assert_eq!(p.finish(), None);
}

#[test]
fn pacer_chunk_covers_all_channels() {
    let mut p = Pacer::new(AudioFormat { sample_rate: 5, channels: 2 });
    assert_eq!(p.push(7), None);
    assert_eq!(p.push(8), Some(vec![7, 8]));
    let mut p = Pacer::new(AudioFormat { sample_rate: 40, channels: 2 });
    for i in 0..7 {
        assert_eq!(p.push(i), None);
    }
    assert_eq!(p.push(7), Some((0..8).collect::<Vec<i16>>()));
}

#[test]
fn pacer_delays_only_when_ahead() {
    let mut p = Pacer::new(AudioFormat { sample_rate: 10, channels: 1 });
    assert_eq!(p.delay_nanos(0), 0);
    for i in 0..10 {
        assert_eq!(p.push(i), Some(vec![i]));
    }
    assert_eq!(p.delay_nanos(400_000_000), 600_000_000);
    assert_eq!(p.delay_nanos(1_000_000_000), 0);
    assert_eq!(p.delay_nanos(2_000_000_000), 0);
}

#[test]
fn fan_out_gives_both_sinks_the_same_samples() {
    let mut src = SawWaveStream::new(8, 1, secs(3), 3000, 0, 0, 800);
    let mut pacer = Pacer::new(AudioFormat { sample_rate: 8, channels: 1 });
    let mut fan = FanOut::new();
    let mut stored: Vec<i16> = Vec::new();
    let mut played: Vec<i16> = Vec::new();
    let mut generated: Vec<i16> = Vec::new();
    while let Some(x) = src.next(0) {
        generated.push(x);
        if let Some(chunk) = pacer.push(x) {
            let (a, b) = fan.route(chunk);
            stored.extend(a);
            played.extend(b);
        }
    }
    if let Some(chunk) = pacer.finish() {
        let (a, b) = fan.route(chunk);
        stored.extend(a);
        played.extend(b);
    }
    assert_eq!(generated.len(), 24);
    assert_eq!(stored, played);
    assert_eq!(stored, generated);
}

#[test]
fn copy_chunk_copies() {
    assert_eq!(copy_chunk(&vec![3, -4, 5]), vec![3, -4, 5]);
}

#[test]
fn queue_drains_before_closing() {
    let mut q = ChunkQueue::new(2);
    assert!(q.send(vec![1, 2]).is_ok());
    assert!(q.send(vec![3]).is_ok());
    assert_eq!(q.send(vec![4]), Err(vec![4]));
    q.close();
    assert_eq!(q.send(vec![5]), Err(vec![5]));
    let mut received: Vec<i16> = Vec::new();
    loop {
        match q.recv() {
            Received::Chunk(c) => received.extend(c),
            Received::Pending => panic!("closed queue reported pending"),
            Received::Closed => break,
        }
    }
    assert_eq!(received, vec![1, 2, 3]);
    assert!(matches!(q.recv(), Received::Closed));
}

#[test]
fn open_queue_reports_pending() {
    let mut q = ChunkQueue::new(1);
    assert!(matches!(q.recv(), Received::Pending));
    assert!(q.send(vec![9]).is_ok());
    match q.recv() {
        Received::Chunk(c) => assert_eq!(c, vec![9]),
        _ => panic!("expected a chunk"),
    }
}

#[test]
fn generator_counts_every_source() {
    let gens = vec![
        Generator::Noise(RandomAudioStream::new(3, 2, secs(2))),
        Generator::Saw(SawWaveStream::new(3, 2, secs(2), 1000, 100, 100, 100)),
        Generator::ScaledSaw(ScaledSawWaveStream::new(3, 2, secs(2), 1000, 100, 100, 100)),
        Generator::File(FileAudioStream::new(&vec![0; 24], 3, 2)),
    ];
    for mut g in gens {
        assert_eq!(g.format(), AudioFormat { sample_rate: 3, channels: 2 });
        assert!(g.total_duration().is_some());
        let mut n = 0;
        while g.next_sample(0).is_some() {
            n += 1;
        }
        assert_eq!(n, 12);
        assert_eq!(g.next_sample(0), None);
    }
}

#[test]
fn only_oscillators_are_modulated() {
    let noise = Generator::Noise(RandomAudioStream::new(3, 1, secs(1)));
    let saw = Generator::Saw(SawWaveStream::new(3, 1, secs(1), 1000, 500, 100, 100));
    assert_eq!(noise.modulation_argument(), None);
    assert_eq!(saw.modulation_argument(), Some((500, 3000)));
}
