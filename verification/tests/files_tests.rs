use holoself::envfile::{parse_env, parse_env_line, update_env_var};
use holoself::ocr::{
    check_pdf_extension, check_pdf_size, clean_model_json, strip_code_fence, PdfRefusal,
    MAX_PDF_BYTES,
};
use holoself::vitamin_d::{
    base_med_minutes, best_window, clamp_minutes, d3_supplement, skin_type_or_default, uv_note,
    LatitudeBand, UvBand, UvNote,
};
use holoself::whisper::{
    binary_places, find_whisper_binary_in, language_or_default, transcript_is_blank,
};

fn updated(content: &str, key: &str, value: &str) -> String {
    let mut content = content.to_string();
    update_env_var(&mut content, key, value);
    content
}

fn pair(key: &str, value: &str) -> (String, String) {
    (key.to_string(), value.to_string())
}

#[test]
fn a_new_key_is_appended() {
    assert_eq!(updated("", "GEMINI_API_KEY", "abc"), "GEMINI_API_KEY=abc\n");
    assert_eq!(updated("A=1\n", "B", "2"), "A=1\nB=2\n");
    assert_eq!(updated("A=1", "B", "2"), "A=1\nB=2\n");
    assert_eq!(updated("A=1\n\n", "B", "2"), "A=1\n\nB=2\n");
    assert_eq!(updated("\n", "B", ""), "\nB=\n");
}

#[test]
fn a_known_key_is_replaced_in_its_line() {
    assert_eq!(updated("A=1\nB=2\nC=3\n", "B", "two"), "A=1\nB=two\nC=3\n");
    assert_eq!(updated("A=1\nB=2", "B", "two"), "A=1\nB=two");
    assert_eq!(updated("B=2\n", "B", ""), "B=\n");
    assert_eq!(updated("B=2", "B", "a longer value"), "B=a longer value");
    assert_eq!(updated("A=1\nB=2\nB=3\n", "B", "x"), "A=1\nB=x\nB=3\n");
}

#[test]
fn the_first_occurrence_counts_even_inside_another_key() {
    assert_eq!(updated("MY_KEY=1\nKEY=2\n", "KEY", "x"), "MY_KEY=x\nKEY=2\n");
    assert_eq!(updated("# KEY=old\n", "KEY", "x"), "# KEY=x\n");
}

#[test]
fn settings_are_read_line_by_line() {
    let content = "# comment\nGEMINI_API_KEY=abc\n\n  CARTESIA_API_KEY = def  \nno equals here\nA=b=c\n=x\nEMPTY=\n";
    assert_eq!(
        parse_env(content),
        vec![
            pair("GEMINI_API_KEY", "abc"),
            pair("CARTESIA_API_KEY", "def"),
            pair("A", "b=c"),
            pair("", "x"),
            pair("EMPTY", ""),
        ]
    );
    assert!(parse_env("").is_empty());
    assert!(parse_env("\n\n# only comments\n").is_empty());
    assert_eq!(parse_env("A=1\r\nB=2"), vec![pair("A", "1"), pair("B", "2")]);
}

#[test]
fn one_line_of_settings() {
    assert_eq!(parse_env_line("KEY=value"), Some(pair("KEY", "value")));
    assert_eq!(parse_env_line("  KEY =  value with spaces  "), Some(pair("KEY", "value with spaces")));
    assert_eq!(parse_env_line("   # KEY=value"), None);
    assert_eq!(parse_env_line("#KEY=value"), None);
    assert_eq!(parse_env_line(""), None);
    assert_eq!(parse_env_line("   \t "), None);
    assert_eq!(parse_env_line("KEY"), None);
    assert_eq!(parse_env_line("KEY=#not a comment"), Some(pair("KEY", "#not a comment")));
}

#[test]
fn what_is_written_can_be_read_back() {
    let mut content = String::new();
    update_env_var(&mut content, "GEMINI_API_KEY", "abc");
    update_env_var(&mut content, "CARTESIA_API_KEY", "def");
    update_env_var(&mut content, "GEMINI_API_KEY", "xyz");
    assert_eq!(content, "GEMINI_API_KEY=xyz\nCARTESIA_API_KEY=def\n");
    assert_eq!(
        parse_env(&content),
        vec![pair("GEMINI_API_KEY", "xyz"), pair("CARTESIA_API_KEY", "def")]
    );
}

#[test]
fn only_pdf_files_of_moderate_size_are_read() {
    assert_eq!(check_pdf_extension(Some("pdf")), Ok(()));
    assert_eq!(check_pdf_extension(Some("PDF")), Err(PdfRefusal::NotPdf));
    assert_eq!(check_pdf_extension(Some("txt")), Err(PdfRefusal::NotPdf));
    assert_eq!(check_pdf_extension(Some("")), Err(PdfRefusal::NotPdf));
    assert_eq!(check_pdf_extension(None), Err(PdfRefusal::NotPdf));
    assert_eq!(MAX_PDF_BYTES, 50_000_000);
    assert_eq!(check_pdf_size(0), Ok(()));
    assert_eq!(check_pdf_size(50_000_000), Ok(()));
    assert_eq!(check_pdf_size(50_000_001), Err(PdfRefusal::TooLarge));
    assert_eq!(PdfRefusal::NotPdf.message(), "Only PDF files are accepted.");
    assert_eq!(PdfRefusal::TooLarge.message(), "PDF too large (max 50MB).");
}

#[test]
fn fences_are_removed_from_the_answer() {
    assert_eq!(clean_model_json("{\"a\": 1}"), "{\"a\": 1}");
    assert_eq!(clean_model_json("  {\"a\": 1}\n"), "{\"a\": 1}");
    assert_eq!(clean_model_json("```json\n{\"a\": 1}\n```"), "{\"a\": 1}");
    assert_eq!(clean_model_json("\n```json\n{\"a\": 1}\n```\n\n"), "{\"a\": 1}");
    assert_eq!(clean_model_json("```\n{\"a\": 1}\n```"), "{\"a\": 1}");
    assert_eq!(clean_model_json("```json{\"a\": 1}"), "{\"a\": 1}");
    assert_eq!(clean_model_json("{\"a\": 1}```"), "{\"a\": 1}");
    assert_eq!(clean_model_json("``` json ```"), "json");
    assert_eq!(clean_model_json("```"), "");
    assert_eq!(clean_model_json("``````"), "");
    assert_eq!(clean_model_json(""), "");
}

#[test]
fn fences_are_removed_without_trimming() {
    assert_eq!(strip_code_fence("```json\n{}\n```"), "\n{}\n");
    assert_eq!(strip_code_fence("```{}```"), "{}");
    assert_eq!(strip_code_fence(" ```{}``` "), " ```{}``` ");
    assert_eq!(strip_code_fence("```jsonx"), "x");
    assert_eq!(strip_code_fence("```js"), "js");
    assert_eq!(strip_code_fence("````"), "`");
    assert_eq!(strip_code_fence("``````"), "");
}

#[test]
fn the_tables_of_vitamin_d() {
    assert_eq!(skin_type_or_default(None), 4);
    assert_eq!(skin_type_or_default(Some(2)), 2);
    let minutes: Vec<u32> = (0..=7).map(base_med_minutes).collect();
    assert_eq!(minutes, vec![30, 10, 15, 20, 30, 45, 60, 30]);
    assert_eq!(clamp_minutes(0), 10);
    assert_eq!(clamp_minutes(9), 10);
    assert_eq!(clamp_minutes(10), 10);
    assert_eq!(clamp_minutes(45), 45);
    assert_eq!(clamp_minutes(120), 120);
    assert_eq!(clamp_minutes(121), 120);
    assert_eq!(clamp_minutes(u32::MAX), 120);
}

#[test]
fn the_best_window_follows_latitude_and_season() {
    for month in 0..14 {
        assert_eq!(best_window(LatitudeBand::Above45, month), "11:30 - 13:30");
        assert_eq!(best_window(LatitudeBand::Lower, month), "10:00 - 16:00");
    }
    let windows: Vec<&str> = (1..=12).map(|m| best_window(LatitudeBand::Above35, m)).collect();
    assert_eq!(
        windows,
        vec![
            "11:00 - 14:00",
            "11:00 - 14:00",
            "11:00 - 15:00",
            "11:00 - 15:00",
            "10:00 - 16:00",
            "10:00 - 16:00",
            "10:00 - 16:00",
            "10:00 - 16:00",
            "11:00 - 15:00",
            "11:00 - 15:00",
            "11:00 - 14:00",
            "11:00 - 14:00",
        ]
    );
    assert_eq!(best_window(LatitudeBand::Above35, 0), "10:00 - 16:00");
    assert_eq!(best_window(LatitudeBand::Above35, 13), "10:00 - 16:00");
}

#[test]
fn the_supplement_follows_index_and_skin() {
    let row = |uv: UvBand| -> Vec<u32> { (0..=7).map(|skin| d3_supplement(uv, skin)).collect() };
    assert_eq!(row(UvBand::Below2), vec![4000, 2000, 2000, 3000, 3000, 4000, 4000, 4000]);
    assert_eq!(row(UvBand::Below3), vec![4000, 2000, 2000, 3000, 3000, 4000, 4000, 4000]);
    assert_eq!(row(UvBand::Below4), vec![3000, 1000, 1000, 2000, 2000, 3000, 3000, 3000]);
    assert_eq!(row(UvBand::Below5), vec![3000, 1000, 1000, 2000, 2000, 3000, 3000, 3000]);
    assert_eq!(row(UvBand::From5), vec![1000, 0, 0, 0, 1000, 1000, 1000, 1000]);
    assert_eq!(uv_note(UvBand::Below2), UvNote::VeryLow);
    assert_eq!(uv_note(UvBand::Below3), UvNote::Moderate);
    assert_eq!(uv_note(UvBand::Below4), UvNote::Moderate);
    assert_eq!(uv_note(UvBand::Below5), UvNote::Good);
    assert_eq!(uv_note(UvBand::From5), UvNote::Good);
}

#[test]
fn blank_transcripts_and_the_default_language() {
    assert!(transcript_is_blank(""));
    assert!(transcript_is_blank("  \n\t "));
    assert!(!transcript_is_blank(" tomei winfit "));
    assert_eq!(language_or_default(None), "pt");
    assert_eq!(language_or_default(Some("en")), "en");
}

#[test]
fn the_engine_is_taken_from_the_first_place_that_has_it() {
    assert_eq!(
        binary_places(),
        vec![
            "bin/whisper-cli",
            "bin/main",
            "build/bin/whisper-cli",
            "build/bin/main",
            "whisper-cli",
            "main",
        ]
    );
    assert_eq!(find_whisper_binary_in(&[false, false, true, false, true, true]), Some(2));
    assert_eq!(find_whisper_binary_in(&[true; 6]), Some(0));
    assert_eq!(find_whisper_binary_in(&[false, false, false, false, false, true]), Some(5));
    assert_eq!(find_whisper_binary_in(&[false; 6]), None);
    assert_eq!(find_whisper_binary_in(&[]), None);
}
