use hearye::pipeline::{start, step, PipelineAction, PipelineEvent, PipelineState};
use hearye::session::Session;
use hearye::audio::{find_device, fits_wav_16k_ok, downmix_i16, resample_linear, u16_to_i16, wav_16k_mono, TARGET_SR};
use hearye::stt::{whisper_input, SttError, MIN_SAMPLES};

#[test]
fn mono_passes_through() {
    assert_eq!(downmix_i16(&[1, -2, 3], 1), vec![1, -2, 3]);
}

#[test]
fn stereo_frames_are_averaged_toward_zero() {
    // (1+3)/2 = 2, (-1-2)/2 = -1.5 -> -1, incomplete last frame 5/2 -> 2
    assert_eq!(downmix_i16(&[1, 3, -1, -2, 5], 2), vec![2, -1, 2]);
}

#[test]
fn extreme_samples_stay_in_range() {
    assert_eq!(downmix_i16(&[i16::MIN, i16::MIN, i16::MAX, i16::MAX], 2), vec![i16::MIN, i16::MAX]);
    assert_eq!(downmix_i16(&[], 4), Vec::<i16>::new());
}

#[test]
fn same_rate_is_unchanged() {
    assert_eq!(resample_linear(&[5, 6, 7], 16_000, 16_000), vec![5, 6, 7]);
    assert_eq!(resample_linear(&[], 48_000, 16_000), Vec::<i16>::new());
}

#[test]
fn downsampling_by_three_picks_every_third() {
    assert_eq!(resample_linear(&[0, 3, 6, 9, 12, 15], 48_000, 16_000), vec![0, 9]);
}

#[test]
fn upsampling_interpolates() {
    assert_eq!(resample_linear(&[0, 10], 8_000, 16_000), vec![0, 5, 10, 10]);
}

#[test]
fn interpolation_rounds_toward_zero() {
    // -5 + (1 * 0.5) = -4.5 -> -4
    assert_eq!(resample_linear(&[-5, -4], 8_000, 16_000), vec![-5, -4, -4, -4]);
}

#[test]
fn cd_rate_to_16k_length() {
    let input: Vec<i16> = (0..441).map(|i| i as i16).collect();
    assert_eq!(resample_linear(&input, 44_100, 16_000).len(), 160);
}

#[test]
fn unsigned_samples_are_recentred() {
    assert_eq!(u16_to_i16(&[0, 32768, 65535]), vec![-32768, 0, 32767]);
}

#[test]
fn wav_has_44_byte_header() {
    let wav = wav_16k_mono(&[1, -1, 256], TARGET_SR);
    assert_eq!(wav.len(), 44 + 6);
    assert_eq!(&wav[0..4], b"RIFF");
    assert_eq!(&wav[4..8], &(36u32 + 6).to_le_bytes());
    assert_eq!(&wav[8..16], b"WAVEfmt ");
    assert_eq!(&wav[24..28], &16_000u32.to_le_bytes());
    assert_eq!(&wav[36..40], b"data");
    assert_eq!(&wav[44..], &[1, 0, 0xff, 0xff, 0, 1]);
}

#[test]
fn wav_is_resampled_to_16k() {
    let wav = wav_16k_mono(&[0, 3, 6, 9, 12, 15], 48_000);
    assert_eq!(wav.len(), 44 + 4);
    assert_eq!(&wav[44..], &[0, 0, 9, 0]);
}

#[test]
fn whisper_gets_back_what_was_encoded_padded() {
    let pcm: Vec<i16> = (0..100).map(|i| (i * 7 - 300) as i16).collect();
    let wav = wav_16k_mono(&pcm, TARGET_SR);
    let input = match whisper_input(&wav) {
        Ok(v) => v,
        Err(e) => panic!("{}", e.message()),
    };
    assert_eq!(input.len(), MIN_SAMPLES);
    assert_eq!(&input[..100], &pcm[..]);
    assert!(input[100..].iter().all(|&s| s == 0));
}

#[test]
fn long_clips_are_not_padded() {
    let pcm = vec![3i16; MIN_SAMPLES + 5];
    let wav = wav_16k_mono(&pcm, TARGET_SR);
    match whisper_input(&wav) {
        Ok(v) => assert_eq!(v, pcm),
        Err(e) => panic!("{}", e.message()),
    }
}

fn hound_wav(channels: u16, rate: u32) -> Vec<u8> {
    let spec = hound::WavSpec { channels, sample_rate: rate, bits_per_sample: 16, sample_format: hound::SampleFormat::Int };
    let mut buf = std::io::Cursor::new(Vec::new());
    let mut w = hound::WavWriter::new(&mut buf, spec).unwrap();
    for _ in 0..channels * 4 {
        w.write_sample(1i16).unwrap();
    }
    w.finalize().unwrap();
    buf.into_inner()
}

#[test]
fn stereo_wav_is_refused() {
    match whisper_input(&hound_wav(2, 16_000)) {
        Err(e @ SttError::NotMono(2)) => assert_eq!(e.message(), "expected mono WAV, got 2 channels"),
        _ => panic!("stereo accepted"),
    }
}

#[test]
fn other_rates_are_refused() {
    match whisper_input(&hound_wav(1, 44_100)) {
        Err(e @ SttError::NotSixteenKHz(44_100)) => assert_eq!(e.message(), "expected 16kHz WAV, got 44100 Hz"),
        _ => panic!("44.1 kHz accepted"),
    }
}

#[test]
fn garbage_is_refused() {
    assert!(matches!(whisper_input(b"not a wav file at all"), Err(SttError::Decode(_))));
}

#[test]
fn truncated_samples_are_refused() {
    let mut wav = wav_16k_mono(&[1, 2, 3], TARGET_SR);
    wav.truncate(wav.len() - 1);
    match whisper_input(&wav) {
        Err(SttError::Samples(m)) | Err(SttError::Decode(m)) => assert!(!m.is_empty()),
        _ => panic!("truncated wav accepted"),
    }
}

#[test]
fn device_is_found_by_name() {
    let names = vec![None, Some("Built-in".to_string()), Some("USB".to_string()), Some("USB".to_string())];
    assert_eq!(find_device(&names, "USB"), Some(2));
    assert_eq!(find_device(&names, "Built-in"), Some(1));
    assert_eq!(find_device(&names, "Missing"), None);
    assert_eq!(find_device(&Vec::new(), "USB"), None);
}

#[test]
fn wav_size_limits() {
    assert!(fits_wav_16k_ok(48_000, 48_000));
    assert!(!fits_wav_16k_ok(0, 0));
    assert!(fits_wav_16k_ok(0, 16_000));
    assert!(!fits_wav_16k_ok(10, 0));
    assert!(fits_wav_16k_ok(2_147_483_629, 16_000));
    assert!(!fits_wav_16k_ok(2_147_483_630, 16_000));
    assert!(fits_wav_16k_ok(6_442_450_887, 48_000));
}

#[test]
fn resampled_samples_lie_between_neighbours() {
    let input: Vec<i16> = (0..200).map(|i| ((i * 7919) % 65536 - 32768) as i16).collect();
    for (src, dst) in [(44_100u32, 16_000u32), (8_000, 16_000), (48_000, 16_000), (22_050, 16_000)] {
        let out = resample_linear(&input, src, dst);
        assert_eq!(out.len() as u64, input.len() as u64 * dst as u64 / src as u64);
        for (i, &v) in out.iter().enumerate() {
            let q = (i as u64 * src as u64 / dst as u64) as usize;
            let last = input.len() - 1;
            let a = input[q.min(last)];
            let b = input[(q + 1).min(last)];
            assert!(a.min(b) <= v && v <= a.max(b));
        }
    }
}

#[test]
fn shortest_transcribed_recording_is_978_samples() {
    let short = wav_16k_mono(&vec![0i16; 977], TARGET_SR);
    let long = wav_16k_mono(&vec![0i16; 978], TARGET_SR);
    assert_eq!((short.len(), long.len()), (1_998, 2_000));
    let (s, _) = step(start(Session { focus: None }), PipelineEvent::Audio(Ok(short.len())));
    assert!(matches!(s, PipelineState::Done));
    let (_, acts) = step(start(Session { focus: None }), PipelineEvent::Audio(Ok(long.len())));
    assert!(matches!(&acts[..], [PipelineAction::LoadSettings]));
}
