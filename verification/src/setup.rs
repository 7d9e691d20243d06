//! What is configured and what is missing: the answers shown during setup
//! and at startup.

use crate::text::{join, joined, same_text, text_views};
use vstd::prelude::*;
use vstd::string::*;

verus! {

/// What the sample configuration holds in place of a text-generation key.
pub const GEMINI_KEY_PLACEHOLDER: &'static str = "your_gemini_api_key_here";

/// What the sample configuration holds in place of a speech-synthesis key.
pub const CARTESIA_KEY_PLACEHOLDER: &'static str = "your_cartesia_key_here";

/// Which components are configured.
#[derive(Clone, Copy, Debug, PartialEq, Eq, Structural)]
pub struct SetupStatus {
    pub gemini_key: bool,
    pub cartesia_key: bool,
    pub whisper_binary: bool,
    pub whisper_model: bool,
    pub camera_permission: bool,
    pub mic_permission: bool,
}

/// Which components work, and what to tell the user about the rest.
#[derive(Debug, Clone)]
pub struct DependencyHealth {
    pub whisper_binary: bool,
    pub whisper_model: bool,
    pub ffmpeg: bool,
    pub gemini_key: bool,
    pub needs_repair: bool,
    pub message: String,
}

/// What a `DependencyHealth` says.
pub struct DependencyHealthView {
    pub whisper_binary: bool,
    pub whisper_model: bool,
    pub ffmpeg: bool,
    pub gemini_key: bool,
    pub needs_repair: bool,
    pub message: Seq<char>,
}

impl View for DependencyHealth {
    type V = DependencyHealthView;

    open spec fn view(&self) -> DependencyHealthView {
        DependencyHealthView {
            whisper_binary: self.whisper_binary,
            whisper_model: self.whisper_model,
            ffmpeg: self.ffmpeg,
            gemini_key: self.gemini_key,
            needs_repair: self.needs_repair,
            message: self.message@,
        }
    }
}

/// A key counts as configured when it is set, not empty, and not the
/// placeholder of the sample configuration.
pub open spec fn key_configured(key: Option<&str>, placeholder: Seq<char>) -> bool {
    match key {
        Some(key) => key@.len() > 0 && key@ != placeholder,
        None => false,
    }
}

/// Whether a key is configured.
pub fn api_key_configured(key: Option<&str>, placeholder: &str) -> (configured: bool)
    ensures
        configured == key_configured(key, placeholder@),
{
    match key {
        Some(key) => !key.is_empty() && !same_text(key, placeholder),
        None => false,
    }
}

/// Which components are configured. Camera and microphone can only be
/// asked for by the front end and are reported as granted.
pub fn check_setup_status(
    gemini_key: Option<&str>,
    cartesia_key: Option<&str>,
    whisper_binary: bool,
    whisper_model: bool,
) -> (status: SetupStatus)
    ensures
        status == (SetupStatus {
            gemini_key: key_configured(gemini_key, GEMINI_KEY_PLACEHOLDER@),
            cartesia_key: key_configured(cartesia_key, CARTESIA_KEY_PLACEHOLDER@),
            whisper_binary,
            whisper_model,
            camera_permission: true,
            mic_permission: true,
        }),
{
    SetupStatus {
        gemini_key: api_key_configured(gemini_key, GEMINI_KEY_PLACEHOLDER),
        cartesia_key: api_key_configured(cartesia_key, CARTESIA_KEY_PLACEHOLDER),
        whisper_binary,
        whisper_model,
        camera_permission: true,
        mic_permission: true,
    }
}

/// One name if the component is missing, none otherwise.
pub open spec fn missing_if(present: bool, name: Seq<char>) -> Seq<Seq<char>> {
    if present {
        Seq::empty()
    } else {
        seq![name]
    }
}

/// The missing components by name: transcription engine, voice model, audio
/// converter, in this order.
pub open spec fn missing_components(
    whisper_binary: bool,
    whisper_model: bool,
    ffmpeg: bool,
) -> Seq<Seq<char>> {
    missing_if(whisper_binary, "motor de transcrição"@) + missing_if(
        whisper_model,
        "modelo de voz"@,
    ) + missing_if(ffmpeg, "conversor de áudio"@)
}

/// The health report. A repair is needed when the transcription engine, the
/// voice model or the audio converter is missing; the key does not count.
pub open spec fn dependency_health_of(
    whisper_binary: bool,
    whisper_model: bool,
    ffmpeg: bool,
    gemini_key: bool,
) -> DependencyHealthView {
    let needs_repair = !whisper_binary || !whisper_model || !ffmpeg;
    DependencyHealthView {
        whisper_binary,
        whisper_model,
        ffmpeg,
        gemini_key,
        needs_repair,
        message: if needs_repair {
            "Componentes em falta: "@ + joined(
                missing_components(whisper_binary, whisper_model, ffmpeg),
                ", "@,
            ) + ". Clique em reparar para instalar automaticamente."@
        } else {
            "Todos os componentes operacionais."@
        },
    }
}

/// Reports which components work and what is missing.
pub fn check_dependencies(
    whisper_binary: bool,
    whisper_model: bool,
    ffmpeg: bool,
    gemini_key: Option<&str>,
) -> (health: DependencyHealth)
    ensures
        health@ == dependency_health_of(
            whisper_binary,
            whisper_model,
            ffmpeg,
            key_configured(gemini_key, GEMINI_KEY_PLACEHOLDER@),
        ),
{
    let needs_repair = !whisper_binary || !whisper_model || !ffmpeg;
    let message = if needs_repair {
        let mut missing: Vec<String> = Vec::new();
        if !whisper_binary {
            missing.push(String::from_str("motor de transcrição"));
        }
        let ghost first = text_views(missing@);
        proof {
            assert(first =~= missing_if(whisper_binary, "motor de transcrição"@));
        }
        if !whisper_model {
            missing.push(String::from_str("modelo de voz"));
        }
        let ghost second = text_views(missing@);
        proof {
            assert(second =~= first + missing_if(whisper_model, "modelo de voz"@));
        }
        if !ffmpeg {
            missing.push(String::from_str("conversor de áudio"));
        }
        proof {
            assert(text_views(missing@) =~= second + missing_if(ffmpeg, "conversor de áudio"@));
        }
        let mut message = String::from_str("Componentes em falta: ");
        message.append(join(&missing, ", ").as_str());
        message.append(". Clique em reparar para instalar automaticamente.");
        message
    } else {
        String::from_str("Todos os componentes operacionais.")
    };
    DependencyHealth {
        whisper_binary,
        whisper_model,
        ffmpeg,
        gemini_key: api_key_configured(gemini_key, GEMINI_KEY_PLACEHOLDER),
        needs_repair,
        message,
    }
}

} // verus!
