//! Reading lab reports: which files are accepted, and how the answer of the
//! model is freed from its wrapping.

use crate::text::{same_text, strip_prefix, strip_suffix, trim, trimmed};
use vstd::prelude::*;
use vstd::string::*;

verus! {

/// The largest report that is read, in bytes.
pub const MAX_PDF_BYTES: usize = 50_000_000;

/// Why a file is not read.
#[derive(Clone, Copy, Debug, PartialEq, Eq, Structural)]
pub enum PdfRefusal {
    NotPdf,
    TooLarge,
}

impl PdfRefusal {
    /// The refusal in words.
    pub open spec fn text(self) -> Seq<char> {
        match self {
            PdfRefusal::NotPdf => "Only PDF files are accepted."@,
            PdfRefusal::TooLarge => "PDF too large (max 50MB)."@,
        }
    }

    /// The refusal in words.
    pub fn message(self) -> (message: String)
        ensures
            message@ == self.text(),
    {
        match self {
            PdfRefusal::NotPdf => String::from_str("Only PDF files are accepted."),
            PdfRefusal::TooLarge => String::from_str("PDF too large (max 50MB)."),
        }
    }
}

/// Only files whose extension is exactly `pdf` are read.
pub fn check_pdf_extension(extension: Option<&str>) -> (checked: Result<(), PdfRefusal>)
    ensures
        checked is Ok <==> (extension matches Some(ext) && ext@ == "pdf"@),
        checked matches Err(refusal) ==> refusal == PdfRefusal::NotPdf,
{
    match extension {
        Some(ext) => if same_text(ext, "pdf") {
            Ok(())
        } else {
            Err(PdfRefusal::NotPdf)
        },
        None => Err(PdfRefusal::NotPdf),
    }
}

/// Only files of at most `MAX_PDF_BYTES` bytes are read.
pub fn check_pdf_size(bytes: usize) -> (checked: Result<(), PdfRefusal>)
    ensures
        checked is Ok <==> bytes <= MAX_PDF_BYTES,
        checked matches Err(refusal) ==> refusal == PdfRefusal::TooLarge,
{
    if bytes > MAX_PDF_BYTES {
        Err(PdfRefusal::TooLarge)
    } else {
        Ok(())
    }
}

/// The text without the fence that opens a block of code, with or without
/// the word `json` behind it.
pub open spec fn without_opening_fence(text: Seq<char>) -> Seq<char> {
    if "```json"@.is_prefix_of(text) {
        text.skip("```json"@.len() as int)
    } else if "```"@.is_prefix_of(text) {
        text.skip("```"@.len() as int)
    } else {
        text
    }
}

/// The text without the fence that closes a block of code.
pub open spec fn without_closing_fence(text: Seq<char>) -> Seq<char> {
    if "```"@.is_suffix_of(text) {
        text.take(text.len() - "```"@.len())
    } else {
        text
    }
}

/// Removes the fences of a block of code around a text that is already
/// trimmed.
pub fn strip_code_fence(text: &str) -> (inner: String)
    ensures
        inner@ == without_closing_fence(without_opening_fence(text@)),
{
    let opened = match strip_prefix(text, "```json") {
        Some(rest) => {
            proof {
                assert(rest@ =~= text@.skip("```json"@.len() as int));
                assert("```json"@ =~= text@.subrange(0, "```json"@.len() as int));
            }
            rest
        },
        None => match strip_prefix(text, "```") {
            Some(rest) => {
                proof {
                    assert(rest@ =~= text@.skip("```"@.len() as int));
                    assert("```"@ =~= text@.subrange(0, "```"@.len() as int));
                }
                rest
            },
            None => String::from_str(text),
        },
    };
    match strip_suffix(opened.as_str(), "```") {
        Some(rest) => {
            proof {
                assert(rest@ =~= opened@.take(opened@.len() - "```"@.len()));
                assert("```"@ =~= opened@.subrange(
                    opened@.len() - "```"@.len(),
                    opened@.len() as int,
                ));
            }
            rest
        },
        None => opened,
    }
}

/// The answer of the model as it is handed to the JSON reader: trimmed,
/// without fences, trimmed again.
pub open spec fn cleaned_json(text: Seq<char>) -> Seq<char> {
    trimmed(without_closing_fence(without_opening_fence(trimmed(text))))
}

/// Frees the answer of the model from whitespace and fences around it.
pub fn clean_model_json(text: &str) -> (cleaned: String)
    ensures
        cleaned@ == cleaned_json(text@),
{
    let inner = strip_code_fence(trim(text).as_str());
    trim(inner.as_str())
}

} // verus!
