//! The speech-to-text pipeline's own logic: the decoder's settings and their
//! defaults, the Opus sample rates, and the text a Whisper step yields.
use vstd::prelude::*;

use crate::text::{join_with, joined, opt_view, string_views};

verus! {

#[verifier::external_type_specification]
#[verifier::external_body]
pub struct ExPathBuf(std::path::PathBuf);

/// The Whisper sample rate used when none is set.
pub const DEFAULT_WHISPER_SAMPLE_RATE: usize = 16000;

/// The size of the Opus frame buffer used when none is set.
pub const DEFAULT_MAX_OPUS_FRAME_SAMPLES: usize = 1920;

/// Collects the settings of a speech-to-text decoder.
#[derive(Debug)]
pub struct STTDecoderBuilder {
    language: Option<String>,
    whisper_model_path: Option<std::path::PathBuf>,
    vad_model_path: Option<std::path::PathBuf>,
    whisper_sample_rate: Option<usize>,
    max_opus_frame_samples: Option<usize>,
}

/// The settings a decoder is built with, every default filled in.
#[derive(Debug)]
pub struct DecoderSettings {
    pub language: String,
    pub whisper_model_path: std::path::PathBuf,
    pub vad_model_path: std::path::PathBuf,
    pub whisper_sample_rate: usize,
    pub max_opus_frame_samples: usize,
}

/// Why a decoder cannot be built from its settings.
#[derive(Debug, Clone, Copy, PartialEq, Eq)]
pub enum SttError {
    /// No language was set.
    MissingLanguage,
    /// No Whisper model path was set.
    MissingWhisperModelPath,
    /// No VAD model path was set.
    MissingVadModelPath,
    /// Opus cannot decode at this Whisper sample rate.
    UnsupportedSampleRate(usize),
}

impl STTDecoderBuilder {
    pub closed spec fn language_setting(&self) -> Option<Seq<char>> {
        opt_view(self.language)
    }

    pub closed spec fn whisper_model_path_setting(&self) -> Option<std::path::PathBuf> {
        self.whisper_model_path
    }

    pub closed spec fn vad_model_path_setting(&self) -> Option<std::path::PathBuf> {
        self.vad_model_path
    }

    pub closed spec fn whisper_sample_rate_setting(&self) -> Option<usize> {
        self.whisper_sample_rate
    }

    pub closed spec fn max_opus_frame_samples_setting(&self) -> Option<usize> {
        self.max_opus_frame_samples
    }

    /// Whether `other` holds the same settings as `self` but for the language.
    pub open spec fn same_but_language(&self, other: &Self) -> bool {
        &&& other.whisper_model_path_setting() == self.whisper_model_path_setting()
        &&& other.vad_model_path_setting() == self.vad_model_path_setting()
        &&& other.whisper_sample_rate_setting() == self.whisper_sample_rate_setting()
        &&& other.max_opus_frame_samples_setting() == self.max_opus_frame_samples_setting()
    }

    /// A builder with nothing set.
    pub fn new() -> (r: Self)
        ensures
            r.language_setting() is None,
            r.whisper_model_path_setting() is None,
            r.vad_model_path_setting() is None,
            r.whisper_sample_rate_setting() is None,
            r.max_opus_frame_samples_setting() is None,
    {
        STTDecoderBuilder {
            language: None,
            whisper_model_path: None,
            vad_model_path: None,
            whisper_sample_rate: None,
            max_opus_frame_samples: None,
        }
    }

    /// Sets the language Whisper transcribes.
    pub fn language(self, language: &str) -> (r: Self)
        ensures
            r.language_setting() == Some(language@),
            self.same_but_language(&r),
    {
        STTDecoderBuilder { language: Some(language.to_owned()), ..self }
    }

    /// Sets the path of the Whisper model.
    pub fn whisper_model_path(self, path: std::path::PathBuf) -> (r: Self)
        ensures
            r.whisper_model_path_setting() == Some(path),
            r.language_setting() == self.language_setting(),
            r.vad_model_path_setting() == self.vad_model_path_setting(),
            r.whisper_sample_rate_setting() == self.whisper_sample_rate_setting(),
            r.max_opus_frame_samples_setting() == self.max_opus_frame_samples_setting(),
    {
        STTDecoderBuilder { whisper_model_path: Some(path), ..self }
    }

    /// Sets the path of the Silero VAD model.
    pub fn vad_model_path(self, path: std::path::PathBuf) -> (r: Self)
        ensures
            r.vad_model_path_setting() == Some(path),
            r.language_setting() == self.language_setting(),
            r.whisper_model_path_setting() == self.whisper_model_path_setting(),
            r.whisper_sample_rate_setting() == self.whisper_sample_rate_setting(),
            r.max_opus_frame_samples_setting() == self.max_opus_frame_samples_setting(),
    {
        STTDecoderBuilder { vad_model_path: Some(path), ..self }
    }

    /// Sets the sample rate that audio is decoded to and fed to Whisper at.
    pub fn whisper_sample_rate(self, sample_rate: usize) -> (r: Self)
        ensures
            r.whisper_sample_rate_setting() == Some(sample_rate),
            r.language_setting() == self.language_setting(),
            r.whisper_model_path_setting() == self.whisper_model_path_setting(),
            r.vad_model_path_setting() == self.vad_model_path_setting(),
            r.max_opus_frame_samples_setting() == self.max_opus_frame_samples_setting(),
    {
        STTDecoderBuilder { whisper_sample_rate: Some(sample_rate), ..self }
    }

    /// Sets the size of the buffer one Opus frame is decoded into.
    pub fn max_opus_frame_samples(self, samples: usize) -> (r: Self)
        ensures
            r.max_opus_frame_samples_setting() == Some(samples),
            r.language_setting() == self.language_setting(),
            r.whisper_model_path_setting() == self.whisper_model_path_setting(),
            r.vad_model_path_setting() == self.vad_model_path_setting(),
            r.whisper_sample_rate_setting() == self.whisper_sample_rate_setting(),
    {
        STTDecoderBuilder { max_opus_frame_samples: Some(samples), ..self }
    }

    /// The settings to build a decoder with: the language and both model
    /// paths are required, in that order; the sample rate defaults to
    /// 16 kHz and the Opus frame buffer to 1920 samples.
    pub fn settings(self) -> (r: Result<DecoderSettings, SttError>)
        ensures
            self.language_setting() is None ==> r == Err::<DecoderSettings, SttError>(
                SttError::MissingLanguage,
            ),
            self.language_setting() is Some && self.whisper_model_path_setting() is None ==> r
                == Err::<DecoderSettings, SttError>(SttError::MissingWhisperModelPath),
            self.language_setting() is Some && self.whisper_model_path_setting() is Some
                && self.vad_model_path_setting() is None ==> r == Err::<DecoderSettings, SttError>(
                SttError::MissingVadModelPath,
            ),
            self.language_setting() is Some && self.whisper_model_path_setting() is Some
                && self.vad_model_path_setting() is Some ==> (r matches Ok(s) && {
                &&& Some(s.language@) == self.language_setting()
                &&& Some(s.whisper_model_path) == self.whisper_model_path_setting()
                &&& Some(s.vad_model_path) == self.vad_model_path_setting()
                &&& s.whisper_sample_rate == match self.whisper_sample_rate_setting() {
                    Some(rate) => rate,
                    None => DEFAULT_WHISPER_SAMPLE_RATE,
                }
                &&& s.max_opus_frame_samples == match self.max_opus_frame_samples_setting() {
                    Some(n) => n,
                    None => DEFAULT_MAX_OPUS_FRAME_SAMPLES,
                }
            }),
    {
        let language = match self.language {
            Some(l) => l,
            None => return Err(SttError::MissingLanguage),
        };
        let whisper_model_path = match self.whisper_model_path {
            Some(p) => p,
            None => return Err(SttError::MissingWhisperModelPath),
        };
        let vad_model_path = match self.vad_model_path {
            Some(p) => p,
            None => return Err(SttError::MissingVadModelPath),
        };
        let whisper_sample_rate = match self.whisper_sample_rate {
            Some(rate) => rate,
            None => DEFAULT_WHISPER_SAMPLE_RATE,
        };
        let max_opus_frame_samples = match self.max_opus_frame_samples {
            Some(n) => n,
            None => DEFAULT_MAX_OPUS_FRAME_SAMPLES,
        };
        Ok(
            DecoderSettings {
                language,
                whisper_model_path,
                vad_model_path,
                whisper_sample_rate,
                max_opus_frame_samples,
            },
        )
    }
}

impl Default for STTDecoderBuilder {
    fn default() -> (r: Self)
        ensures
            r.language_setting() is None,
            r.whisper_model_path_setting() is None,
            r.vad_model_path_setting() is None,
            r.whisper_sample_rate_setting() is None,
            r.max_opus_frame_samples_setting() is None,
    {
        STTDecoderBuilder::new()
    }
}

/// The sample rates at which Opus decodes.
#[derive(Debug, Clone, Copy, PartialEq, Eq)]
pub enum OpusSampleRate {
    Hz8000,
    Hz12000,
    Hz16000,
    Hz24000,
    Hz48000,
}

/// The Opus sample rate of `hz`, which Opus decodes at if it is one of 8, 12,
/// 16, 24 or 48 kHz.
pub open spec fn opus_rate_of(hz: usize) -> Option<OpusSampleRate> {
    if hz == 8000 {
        Some(OpusSampleRate::Hz8000)
    } else if hz == 12000 {
        Some(OpusSampleRate::Hz12000)
    } else if hz == 16000 {
        Some(OpusSampleRate::Hz16000)
    } else if hz == 24000 {
        Some(OpusSampleRate::Hz24000)
    } else if hz == 48000 {
        Some(OpusSampleRate::Hz48000)
    } else {
        None
    }
}

/// The Opus sample rate for a Whisper sample rate.
pub fn opus_sample_rate(sample_rate: usize) -> (r: Result<OpusSampleRate, SttError>)
    ensures
        match opus_rate_of(sample_rate) {
            Some(rate) => r == Ok::<OpusSampleRate, SttError>(rate),
            None => r == Err::<OpusSampleRate, SttError>(SttError::UnsupportedSampleRate(sample_rate)),
        },
{
    if sample_rate == 8000 {
        Ok(OpusSampleRate::Hz8000)
    } else if sample_rate == 12000 {
        Ok(OpusSampleRate::Hz12000)
    } else if sample_rate == 16000 {
        Ok(OpusSampleRate::Hz16000)
    } else if sample_rate == 24000 {
        Ok(OpusSampleRate::Hz24000)
    } else if sample_rate == 48000 {
        Ok(OpusSampleRate::Hz48000)
    } else {
        Err(SttError::UnsupportedSampleRate(sample_rate))
    }
}

/// The text of one Whisper step: what it still may revise, and what it
/// committed for good.
#[derive(Debug, Clone, PartialEq, Eq)]
pub struct StreamOutput {
    pub tentative_text: Option<String>,
    pub committed_text: Option<String>,
}

impl StreamOutput {
    /// Whether the step produced any text.
    pub fn has_text(&self) -> (r: bool)
        ensures
            r == (self.tentative_text is Some || self.committed_text is Some),
    {
        self.tentative_text.is_some() || self.committed_text.is_some()
    }

    /// The output of a Whisper step from the texts of its tentative and
    /// committed words, each joined with the model's separator.
    pub fn from_words(tentative: &[String], committed: &[String], separator: &str) -> (r: Self)
        ensures
            opt_view(r.tentative_text) == words_text(string_views(tentative@), separator@),
            opt_view(r.committed_text) == words_text(string_views(committed@), separator@),
    {
        StreamOutput {
            tentative_text: join_words(tentative, separator),
            committed_text: join_words(committed, separator),
        }
    }
}

impl Default for StreamOutput {
    fn default() -> (r: Self)
        ensures
            r.tentative_text is None,
            r.committed_text is None,
    {
        StreamOutput { tentative_text: None, committed_text: None }
    }
}

/// The text of a list of words: none for no words, else the words joined
/// with the separator.
pub open spec fn words_text(words: Seq<Seq<char>>, separator: Seq<char>) -> Option<Seq<char>> {
    if words.len() == 0 {
        None
    } else {
        Some(joined(words, separator))
    }
}

/// A Whisper step has text exactly when it recognized some word.
pub proof fn law_step_has_text_iff_words(
    tentative: Seq<Seq<char>>,
    committed: Seq<Seq<char>>,
    separator: Seq<char>,
)
    ensures
        (words_text(tentative, separator) is Some || words_text(committed, separator) is Some) <==> (
        tentative.len() > 0 || committed.len() > 0),
{
}

/// The text of any non-empty word list is all of its words joined with the
/// separator, none left out.
pub proof fn law_words_text_joins_every_word(words: Seq<Seq<char>>, separator: Seq<char>)
    requires
        words.len() > 0,
    ensures
        words_text(words, separator) == Some(joined(words, separator)),
{
}

/// The words' texts joined with `separator`, or nothing if there are none.
pub fn join_words(words: &[String], separator: &str) -> (r: Option<String>)
    ensures
        opt_view(r) == words_text(string_views(words@), separator@),
{
    if words.len() == 0 {
        None
    } else {
        Some(join_with(words, separator))
    }
}

} // verus!
