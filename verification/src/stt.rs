//! Decisions of the on-device Whisper engine: model location and checks,
//! the samples it is fed, thread count and log time stamps.

use vstd::prelude::*;
use vstd::string::StringExecFns;
use crate::text::{digit, decimal, digit_char, decimal_string, push_char};
use crate::wav::{wav_decode, decode_wav, read_ok};

verus! {

/// Where the model is downloaded from when neither the override nor the
/// bundled copy is usable.
pub const MODEL_URL: &'static str = "https://huggingface.co/ggerganov/whisper.cpp/resolve/main/ggml-base.en.bin";

/// File name of the model inside the model directory.
pub const MODEL_FILENAME: &'static str = "ggml-base.en.bin";

/// Path of the model among the app's bundled resources.
pub const BUNDLED_RESOURCE_PATH: &'static str = "models/ggml-base.en.bin";

/// The smallest model file that is taken as complete (the model is ~140 MB).
pub const MIN_MODEL_BYTES: u64 = 104857600;

/// whisper.cpp refuses clips under one second; shorter input is padded with
/// silence up to this many samples (~1.1 s at 16 kHz).
pub const MIN_SAMPLES: usize = 17600;

/// Why the local engine refused its input or its model.
pub enum SttError {
    /// The bytes are not a WAV file that hound reads.
    Decode(String),
    /// The WAV file has this many channels instead of one.
    NotMono(u16),
    /// The WAV file is sampled at this rate instead of 16 kHz.
    NotSixteenKHz(u32),
    /// A sample could not be read.
    Samples(String),
    /// The downloaded model has only this many bytes.
    ModelTooSmall(u64),
}

impl SttError {
    /// The text of the error, as shown to the user.
    pub open spec fn message_spec(&self) -> Seq<char> {
        match self {
            SttError::Decode(e) => e@,
            SttError::NotMono(c) => "expected mono WAV, got "@ + decimal(*c as nat) + " channels"@,
            SttError::NotSixteenKHz(sr) => "expected 16kHz WAV, got "@ + decimal(*sr as nat) + " Hz"@,
            SttError::Samples(e) => "wav read error: "@ + e@,
            SttError::ModelTooSmall(n) => "downloaded model is suspiciously small ("@ + decimal(
                *n as nat,
            ) + " bytes)"@,
        }
    }

    /// The text of the error, as shown to the user.
    pub fn message(&self) -> (r: String)
        ensures
            r@ == self.message_spec(),
    {
        match self {
            SttError::Decode(e) => e.clone(),
            SttError::NotMono(c) => {
                let mut s = String::from_str("expected mono WAV, got ");
                s.append(decimal_string(*c as u64).as_str());
                s.append(" channels");
                s
            },
            SttError::NotSixteenKHz(sr) => {
                let mut s = String::from_str("expected 16kHz WAV, got ");
                s.append(decimal_string(*sr as u64).as_str());
                s.append(" Hz");
                s
            },
            SttError::Samples(e) => {
                let mut s = String::from_str("wav read error: ");
                s.append(e.as_str());
                s
            },
            SttError::ModelTooSmall(n) => {
                let mut s = String::from_str("downloaded model is suspiciously small (");
                s.append(decimal_string(*n).as_str());
                s.append(" bytes)");
                s
            },
        }
    }
}

/// `s` followed by silence up to `n` samples; `s` itself when it is at
/// least that long.
pub open spec fn padded(s: Seq<i16>, n: nat) -> Seq<i16> {
    if s.len() < n {
        s + Seq::new((n - s.len()) as nat, |i: int| 0i16)
    } else {
        s
    }
}

/// What the engine is fed for the WAV bytes `wav`.
pub open spec fn whisper_input_spec(wav: Seq<u8>) -> Option<Seq<i16>> {
    match wav_decode(wav) {
        Ok((1, 16000, Ok(s))) => Some(padded(s, MIN_SAMPLES as nat)),
        _ => None,
    }
}

/// The 16-bit samples handed to Whisper for the WAV file `wav`: it must be
/// mono and sampled at 16 kHz; short clips are padded with silence to
/// `MIN_SAMPLES`.
pub fn whisper_input(wav: &[u8]) -> (r: Result<Vec<i16>, SttError>)
    ensures
        match wav_decode(wav@) {
            Err(e) => r matches Err(SttError::Decode(m)) && m@ == e,
            Ok((c, sr, s)) => if c != 1 {
                r == Err::<Vec<i16>, SttError>(SttError::NotMono(c))
            } else if sr != 16000 {
                r == Err::<Vec<i16>, SttError>(SttError::NotSixteenKHz(sr))
            } else {
                match s {
                    Err(e) => r matches Err(SttError::Samples(m)) && m@ == e,
                    Ok(v) => r matches Ok(out) && out@ == padded(v, MIN_SAMPLES as nat),
                }
            },
        },
        r is Ok <==> whisper_input_spec(wav@) is Some,
        r matches Ok(out) ==> whisper_input_spec(wav@) == Some(out@),
{
    match decode_wav(wav) {
        Err(e) => Err(SttError::Decode(e)),
        Ok((c, sr, samples)) => {
            if c != 1 {
                return Err(SttError::NotMono(c));
            }
            if sr != 16000 {
                return Err(SttError::NotSixteenKHz(sr));
            }
            match samples {
                Err(e) => Err(SttError::Samples(e)),
                Ok(v) => {
                    let mut out = v;
                    let ghost orig = out@;
                    while out.len() < MIN_SAMPLES
                        invariant
                            orig.len() <= out@.len(),
                            out@.len() <= MIN_SAMPLES || out@ == orig,
                            out@.subrange(0, orig.len() as int) == orig,
                            forall|t: int| orig.len() <= t < out@.len() ==> out@[t] == 0i16,
                        decreases MIN_SAMPLES - out.len(),
                    {
                        out.push(0i16);
                    }
                    proof {
                        if orig.len() < MIN_SAMPLES {
                            assert(out@ =~= padded(orig, MIN_SAMPLES as nat));
                        } else {
                            assert(out@ =~= orig);
                        }
                    }
                    Ok(out)
                },
            }
        },
    }
}

/// The local engine is fed the recording that was framed, padded with
/// silence to `MIN_SAMPLES` when shorter: what `hound` reads back of a mono
/// 16 kHz file holding `s`.
pub proof fn law_engine_input_is_the_recording(wav: Seq<u8>, s: Seq<i16>)
    requires
        wav_decode(wav) == read_ok(1, 16000, s),
    ensures
        whisper_input_spec(wav) == Some(padded(s, MIN_SAMPLES as nat)),
        padded(s, MIN_SAMPLES as nat).subrange(0, s.len() as int) == s,
        padded(s, MIN_SAMPLES as nat).len() >= MIN_SAMPLES,
{
    let p = padded(s, MIN_SAMPLES as nat);
    assert(p.subrange(0, s.len() as int) =~= s);
}

/// Two decimal digits for `v` (`v < 100`), with a leading zero.
pub open spec fn two_digits(v: int) -> Seq<char> {
    seq![digit(v / 10), digit(v % 10)]
}

/// `HH:MM:SS` of the time of day (UTC) `secs` seconds after the epoch.
pub open spec fn clock_text(secs: nat) -> Seq<char> {
    two_digits(((secs / 3600) % 24) as int) + seq![':'] + two_digits(((secs / 60) % 60) as int)
        + seq![':'] + two_digits((secs % 60) as int)
}

fn push_two_digits(out: &mut Vec<char>, v: u64)
    requires
        v < 100,
    ensures
        final(out)@ == old(out)@ + two_digits(v as int),
{
    out.push(digit_char(v / 10));
    out.push(digit_char(v % 10));
    assert(out@ =~= old(out)@ + two_digits(v as int));
}

/// The log time stamp for `secs` seconds since the epoch: `HH:MM:SS`.
pub fn clock(secs: u64) -> (r: String)
    ensures
        r@ == clock_text(secs as nat),
{
    let mut v: Vec<char> = Vec::new();
    push_two_digits(&mut v, (secs / 3600) % 24);
    v.push(':');
    push_two_digits(&mut v, (secs / 60) % 60);
    v.push(':');
    push_two_digits(&mut v, secs % 60);
    assert(v@ =~= clock_text(secs as nat));
    crate::text::string_of(&v)
}

/// `Path::join` of a relative path: `rel` after `base`, with one `/` between
/// them unless `base` is empty or already ends with `/`.
pub open spec fn path_join_spec(base: Seq<char>, rel: Seq<char>) -> Seq<char> {
    if base.len() > 0 && base.last() != '/' {
        base + seq!['/'] + rel
    } else {
        base + rel
    }
}

/// Joins the relative path `rel` onto `base`.
pub fn path_join(base: &str, rel: &str) -> (r: String)
    requires
        !(rel@.len() > 0 && rel@[0] == '/'),
    ensures
        r@ == path_join_spec(base@, rel@),
{
    let mut s = String::from_str(base);
    let b = crate::text::chars_of(base);
    if b.len() > 0 && b[b.len() - 1] != '/' {
        push_char(&mut s, '/');
    }
    s.append(rel);
    s
}

/// The home directory, or `/tmp` when `HOME` is unset or unreadable.
pub fn home_or_tmp(home: Option<String>) -> (r: String)
    ensures
        r@ == match home {
            Some(h) => h@,
            None => "/tmp"@,
        },
{
    match home {
        Some(h) => h,
        None => String::from_str("/tmp"),
    }
}

/// The directory of the user's model override under `home`.
pub fn model_dir(home: &str) -> (r: String)
    ensures
        r@ == path_join_spec(home@, "Library/Application Support/com.charlie.hearye/models"@),
{
    proof {
        reveal_strlit("Library/Application Support/com.charlie.hearye/models");
    }
    path_join(home, "Library/Application Support/com.charlie.hearye/models")
}

/// The path of the user's model override under `home`.
pub fn model_path(home: &str) -> (r: String)
    ensures
        r@ == path_join_spec(
            path_join_spec(home@, "Library/Application Support/com.charlie.hearye/models"@),
            "ggml-base.en.bin"@,
        ),
{
    let dir = model_dir(home);
    proof {
        reveal_strlit("ggml-base.en.bin");
    }
    path_join(dir.as_str(), MODEL_FILENAME)
}

/// The directory of the log file under `home`.
pub fn log_dir(home: &str) -> (r: String)
    ensures
        r@ == path_join_spec(home@, "Library/Logs"@),
{
    proof {
        reveal_strlit("Library/Logs");
    }
    path_join(home, "Library/Logs")
}

/// The log file under `home`.
pub fn log_path(home: &str) -> (r: String)
    ensures
        r@ == path_join_spec(path_join_spec(home@, "Library/Logs"@), "hearye.log"@),
{
    let dir = log_dir(home);
    proof {
        reveal_strlit("hearye.log");
    }
    path_join(dir.as_str(), "hearye.log")
}

/// The Whisper thread count: the available parallelism (taken as an `i32`)
/// clamped to `1..=8`, or 4 when it is unknown.
pub fn num_threads(available: Option<usize>) -> (r: i32)
    ensures
        r == match available {
            Some(n) => if (n as i32) < 1 {
                1i32
            } else if (n as i32) > 8 {
                8i32
            } else {
                n as i32
            },
            None => 4i32,
        },
        1 <= r <= 8,
{
    match available {
        Some(n) => {
            let v = n as i32;
            if v < 1 {
                1
            } else if v > 8 {
                8
            } else {
                v
            }
        },
        None => 4,
    }
}

/// Whether a model file of this size (`None`: no readable file) is usable.
pub fn model_is_valid(len: Option<u64>) -> (r: bool)
    ensures
        r == (len matches Some(n) && n >= MIN_MODEL_BYTES),
{
    match len {
        Some(n) => n >= MIN_MODEL_BYTES,
        None => false,
    }
}

/// Which model file the engine uses.
#[derive(PartialEq, Eq, Structural, Clone, Copy, Debug)]
pub enum ModelSource {
    /// The user's override in the model directory.
    Override,
    /// The copy bundled with the app.
    Bundled,
    /// Neither is usable: download to the override path.
    Download,
}

/// The model tier for the files found at the override path and among the
/// bundled resources (their lengths, if any).
pub open spec fn model_choice(override_len: Option<u64>, bundled_len: Option<u64>) -> ModelSource {
    if override_len matches Some(n) && n >= MIN_MODEL_BYTES {
        ModelSource::Override
    } else if bundled_len matches Some(n) && n >= MIN_MODEL_BYTES {
        ModelSource::Bundled
    } else {
        ModelSource::Download
    }
}

/// The model tier: the user's override first, then the bundled copy, then
/// a download. Each length is that of the file found there, if any.
pub fn choose_model(override_len: Option<u64>, bundled_len: Option<u64>) -> (r: ModelSource)
    ensures
        r == model_choice(override_len, bundled_len),
{
    if model_is_valid(override_len) {
        ModelSource::Override
    } else if model_is_valid(bundled_len) {
        ModelSource::Bundled
    } else {
        ModelSource::Download
    }
}

/// Accepts a downloaded model of `len` bytes, or refuses one too small to
/// be complete.
pub fn check_downloaded_model(len: u64) -> (r: Result<(), SttError>)
    ensures
        len >= MIN_MODEL_BYTES ==> r is Ok,
        len < MIN_MODEL_BYTES ==> r == Err::<(), SttError>(SttError::ModelTooSmall(len)),
{
    if len < MIN_MODEL_BYTES {
        Err(SttError::ModelTooSmall(len))
    } else {
        Ok(())
    }
}

/// The model is downloaded once: a download that passed the size check is
/// written to the override path, and from then on that file is used,
/// whatever is bundled.
pub proof fn law_downloaded_model_is_used_next_time(len: u64, bundled_len: Option<u64>)
    requires
        len >= MIN_MODEL_BYTES,
    ensures
        model_choice(Some(len), bundled_len) == ModelSource::Override,
{
}

/// Only when neither the override nor the bundled copy is usable is the
/// model downloaded.
pub proof fn law_download_only_as_last_resort(override_len: Option<u64>, bundled_len: Option<u64>)
    ensures
        model_choice(override_len, bundled_len) == ModelSource::Download <==> !(override_len matches Some(
            n,
        ) && n >= MIN_MODEL_BYTES) && !(bundled_len matches Some(n) && n >= MIN_MODEL_BYTES),
{
}

/// The model tiers: the override is used only when its file holds at
/// least 100 MiB; failing that, a bundled file of at least 100 MiB is used;
/// only when neither holds is the model downloaded.
pub proof fn law_model_tiers(override_len: Option<u64>, bundled_len: Option<u64>)
    ensures
        model_choice(override_len, bundled_len) == ModelSource::Override <==> (override_len matches Some(
            n,
        ) && n >= 100 * 1024 * 1024),
        !(override_len matches Some(n) && n >= 100 * 1024 * 1024) && (bundled_len matches Some(n) && n
            >= 100 * 1024 * 1024) ==> model_choice(override_len, bundled_len) == ModelSource::Bundled,
        model_choice(override_len, bundled_len) == ModelSource::Bundled ==> (bundled_len matches Some(n)
            && n >= 100 * 1024 * 1024),
{
}

} // verus!
