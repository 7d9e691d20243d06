//! Speech to text: whether the transcription engine and its model are at
//! hand.

use crate::text::{first_true, first_true_from, trim, trimmed};
use vstd::prelude::*;
use vstd::string::*;

verus! {

/// The language that is transcribed where none is asked for.
pub const DEFAULT_LANGUAGE: &'static str = "pt";

/// The language to transcribe: the one asked for, or Portuguese.
pub fn language_or_default<'a>(language: Option<&'a str>) -> (chosen: &'a str)
    ensures
        chosen@ == match language {
            Some(language) => language@,
            None => DEFAULT_LANGUAGE@,
        },
{
    match language {
        Some(language) => language,
        None => DEFAULT_LANGUAGE,
    }
}

/// Whether a transcript holds nothing but whitespace. Such a transcript is
/// not kept as voice input.
pub fn transcript_is_blank(transcript: &str) -> (blank: bool)
    ensures
        blank == (trimmed(transcript@).len() == 0),
{
    trim(transcript).as_str().is_empty()
}

/// Where the transcription engine and its model were found, if they were.
#[derive(Debug, Clone)]
pub struct WhisperStatus {
    pub binary_found: bool,
    pub binary_path: Option<String>,
    pub model_found: bool,
    pub model_path: Option<String>,
}

/// What a `WhisperStatus` says.
pub struct WhisperStatusView {
    pub binary_found: bool,
    pub binary_path: Option<Seq<char>>,
    pub model_found: bool,
    pub model_path: Option<Seq<char>>,
}

/// The view of an optional path.
pub open spec fn path_view(path: Option<String>) -> Option<Seq<char>> {
    match path {
        Some(path) => Some(path@),
        None => None,
    }
}

impl View for WhisperStatus {
    type V = WhisperStatusView;

    open spec fn view(&self) -> WhisperStatusView {
        WhisperStatusView {
            binary_found: self.binary_found,
            binary_path: path_view(self.binary_path),
            model_found: self.model_found,
            model_path: path_view(self.model_path),
        }
    }
}

/// The status for the outcome of the two searches.
pub fn status(binary: Option<String>, model: Option<String>) -> (status: WhisperStatus)
    ensures
        status@ == (WhisperStatusView {
            binary_found: binary is Some,
            binary_path: path_view(binary),
            model_found: model is Some,
            model_path: path_view(model),
        }),
{
    WhisperStatus {
        binary_found: binary.is_some(),
        binary_path: binary,
        model_found: model.is_some(),
        model_path: model,
    }
}

/// Speech can be transcribed when both the engine and a model were found.
pub fn is_available(binary: &Option<String>, model: &Option<String>) -> (available: bool)
    ensures
        available == (binary is Some && model is Some),
{
    binary.is_some() && model.is_some()
}

/// Where the transcription engine may lie below an installation directory,
/// in the order in which the places are tried.
pub open spec fn binary_places_of() -> Seq<Seq<char>> {
    seq![
        "bin/whisper-cli"@,
        "bin/main"@,
        "build/bin/whisper-cli"@,
        "build/bin/main"@,
        "whisper-cli"@,
        "main"@,
    ]
}

/// The places to try below an installation directory, in order.
pub fn binary_places() -> (places: Vec<&'static str>)
    ensures
        places@.map_values(|place: &'static str| place@) == binary_places_of(),
{
    let mut places: Vec<&'static str> = Vec::new();
    places.push("bin/whisper-cli");
    places.push("bin/main");
    places.push("build/bin/whisper-cli");
    places.push("build/bin/main");
    places.push("whisper-cli");
    places.push("main");
    proof {
        assert(places@.map_values(|place: &'static str| place@) =~= binary_places_of());
    }
    places
}

/// The place at which the engine is taken from: the first of the places
/// tried at which a file exists. `present` says for each place, by index,
/// whether a file exists there.
pub fn find_whisper_binary_in(present: &[bool]) -> (found: Option<usize>)
    ensures
        first_true(present@) == match found {
            Some(place) => Some(place as int),
            None => None,
        },
{
    let mut i: usize = 0;
    while i < present.len()
        invariant
            i <= present.len(),
            first_true(present@) == first_true_from(present@, i as int),
        decreases present.len() - i,
    {
        if present[i] {
            return Some(i);
        }
        i = i + 1;
    }
    None
}

} // verus!
