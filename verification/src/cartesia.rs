//! Text to speech: what is asked of the synthesis service.

use crate::setup::{api_key_configured, key_configured, CARTESIA_KEY_PLACEHOLDER};
use vstd::prelude::*;
use vstd::string::*;

verus! {

/// The voice used where none is chosen.
pub const DEFAULT_VOICE_ID: &'static str = "a0e99841-438c-4a64-b679-ae501e7d6091";

/// The synthesis model used where none is chosen.
pub const DEFAULT_MODEL_ID: &'static str = "sonic-2";

/// Samples per second of the audio asked for.
pub const SAMPLE_RATE: u32 = 24000;

/// Access to the synthesis service.
#[derive(Debug, Clone)]
pub struct CartesiaConfig {
    pub api_key: String,
    pub voice_id: String,
    pub model_id: String,
}

/// What a `CartesiaConfig` says.
pub struct CartesiaConfigView {
    pub api_key: Seq<char>,
    pub voice_id: Seq<char>,
    pub model_id: Seq<char>,
}

impl View for CartesiaConfig {
    type V = CartesiaConfigView;

    open spec fn view(&self) -> CartesiaConfigView {
        CartesiaConfigView {
            api_key: self.api_key@,
            voice_id: self.voice_id@,
            model_id: self.model_id@,
        }
    }
}

impl Default for CartesiaConfig {
    fn default() -> (config: CartesiaConfig)
        ensures
            config@ == (CartesiaConfigView {
                api_key: Seq::empty(),
                voice_id: DEFAULT_VOICE_ID@,
                model_id: DEFAULT_MODEL_ID@,
            }),
    {
        CartesiaConfig {
            api_key: String::new(),
            voice_id: String::from_str(DEFAULT_VOICE_ID),
            model_id: String::from_str(DEFAULT_MODEL_ID),
        }
    }
}

/// What is sent to the synthesis service: the text, the voice by its
/// identifier, and the audio format.
#[derive(Debug, Clone)]
pub struct SynthesisRequest {
    pub model_id: String,
    pub transcript: String,
    pub voice_mode: String,
    pub voice_id: String,
    pub container: String,
    pub sample_rate: u32,
    pub encoding: String,
}

/// What a `SynthesisRequest` says.
pub struct SynthesisRequestView {
    pub model_id: Seq<char>,
    pub transcript: Seq<char>,
    pub voice_mode: Seq<char>,
    pub voice_id: Seq<char>,
    pub container: Seq<char>,
    pub sample_rate: int,
    pub encoding: Seq<char>,
}

impl View for SynthesisRequest {
    type V = SynthesisRequestView;

    open spec fn view(&self) -> SynthesisRequestView {
        SynthesisRequestView {
            model_id: self.model_id@,
            transcript: self.transcript@,
            voice_mode: self.voice_mode@,
            voice_id: self.voice_id@,
            container: self.container@,
            sample_rate: self.sample_rate as int,
            encoding: self.encoding@,
        }
    }
}

/// The request for a text, or the refusal where no key is set. The audio is
/// asked for as WAV, 16-bit PCM at 24 kHz.
pub open spec fn synthesis_request_of(
    text: Seq<char>,
    config: CartesiaConfigView,
) -> Result<SynthesisRequestView, Seq<char>> {
    if config.api_key.len() == 0 {
        Err("CARTESIA_API_KEY not configured."@)
    } else {
        Ok(
            SynthesisRequestView {
                model_id: config.model_id,
                transcript: text,
                voice_mode: "id"@,
                voice_id: config.voice_id,
                container: "wav"@,
                sample_rate: 24000,
                encoding: "pcm_s16le"@,
            },
        )
    }
}

/// Prepares the synthesis of a text.
pub fn synthesize(text: &str, config: &CartesiaConfig) -> (request: Result<SynthesisRequest, String>)
    ensures
        synthesis_request_of(text@, config@) == match request {
            Ok(request) => Ok::<SynthesisRequestView, Seq<char>>(request@),
            Err(refusal) => Err(refusal@),
        },
{
    if config.api_key.as_str().is_empty() {
        Err(String::from_str("CARTESIA_API_KEY not configured."))
    } else {
        Ok(
            SynthesisRequest {
                model_id: config.model_id.clone(),
                transcript: String::from_str(text),
                voice_mode: String::from_str("id"),
                voice_id: config.voice_id.clone(),
                container: String::from_str("wav"),
                sample_rate: SAMPLE_RATE,
                encoding: String::from_str("pcm_s16le"),
            },
        )
    }
}

/// Which engine speaks.
#[derive(Clone, Copy, Debug, PartialEq, Eq, Structural)]
pub enum SpeechEngine {
    /// The synthesis service.
    Cartesia,
    /// The voice of the operating system.
    Native,
}

/// The service speaks where its key is configured; the operating system
/// speaks otherwise.
pub fn first_engine(cartesia_key: Option<&str>) -> (engine: SpeechEngine)
    ensures
        engine == if key_configured(cartesia_key, CARTESIA_KEY_PLACEHOLDER@) {
            SpeechEngine::Cartesia
        } else {
            SpeechEngine::Native
        },
{
    if api_key_configured(cartesia_key, CARTESIA_KEY_PLACEHOLDER) {
        SpeechEngine::Cartesia
    } else {
        SpeechEngine::Native
    }
}

} // verus!
