use holoself::actions::{execute_agent_action, get_daily_stats, ActionFields, ActionPlan};
use holoself::cartesia::{first_engine, synthesize, CartesiaConfig, SpeechEngine};
use holoself::setup::{
    api_key_configured, check_dependencies, check_setup_status, CARTESIA_KEY_PLACEHOLDER,
    GEMINI_KEY_PLACEHOLDER,
};
use holoself::system::get_system_status;
use holoself::whisper::{is_available, status};

fn no_fields() -> ActionFields {
    ActionFields { name: None, dosage: None, category: None, vital_type: None, unit: None }
}

#[test]
fn logging_a_supplement_takes_the_payload() {
    let fields = ActionFields {
        name: Some("Winfit".to_string()),
        dosage: Some("1 saqueta".to_string()),
        category: Some("morning".to_string()),
        ..no_fields()
    };
    let plan = execute_agent_action("log_supplement", fields, "2024-04-10T09:00:00+01:00".to_string());
    match plan {
        Ok(ActionPlan::LogSupplement { entry, confirmation }) => {
            assert_eq!(entry.id, None);
            assert_eq!(entry.name, "Winfit");
            assert_eq!(entry.dosage, "1 saqueta");
            assert_eq!(entry.taken_at, "2024-04-10T09:00:00+01:00");
            assert_eq!(entry.category, "morning");
            assert_eq!(entry.notes, None);
            assert_eq!(confirmation, "Winfit registado com sucesso.");
        }
        other => panic!("unexpected plan: {:?}", other),
    }
}

#[test]
fn logging_a_supplement_fills_what_is_missing() {
    let plan = execute_agent_action("log_supplement", no_fields(), "now".to_string());
    match plan {
        Ok(ActionPlan::LogSupplement { entry, confirmation }) => {
            assert_eq!(entry.name, "Unknown");
            assert_eq!(entry.dosage, "");
            assert_eq!(entry.category, "as_needed");
            assert_eq!(entry.taken_at, "now");
            assert_eq!(confirmation, "Unknown registado com sucesso.");
        }
        other => panic!("unexpected plan: {:?}", other),
    }
}

#[test]
fn logging_a_vital_sign_comes_from_the_agent() {
    let fields = ActionFields {
        vital_type: Some("heart_rate".to_string()),
        unit: Some("bpm".to_string()),
        ..no_fields()
    };
    match execute_agent_action("log_vital", fields, "now".to_string()) {
        Ok(ActionPlan::LogVital { vital_type, unit, recorded_at, source }) => {
            assert_eq!(vital_type, "heart_rate");
            assert_eq!(unit, "bpm");
            assert_eq!(recorded_at, "now");
            assert_eq!(source, "agent");
        }
        other => panic!("unexpected plan: {:?}", other),
    }
    match execute_agent_action("log_vital", no_fields(), "now".to_string()) {
        Ok(ActionPlan::LogVital { vital_type, unit, .. }) => {
            assert_eq!(vital_type, "unknown");
            assert_eq!(unit, "");
        }
        other => panic!("unexpected plan: {:?}", other),
    }
}

#[test]
fn an_unknown_action_is_refused() {
    for action in ["delete_everything", "", "LOG_SUPPLEMENT", "log_supplement "] {
        match execute_agent_action(action, no_fields(), "now".to_string()) {
            Err(refusal) => assert_eq!(refusal, format!("Ação desconhecida: {}", action)),
            other => panic!("unexpected plan: {:?}", other),
        }
    }
}

#[test]
fn the_figures_of_the_day() {
    let stats = get_daily_stats(10, 3, 4);
    assert_eq!(stats.adherence_percent, 30);
    assert_eq!(stats.breaks_taken, 0);
    assert_eq!(stats.avg_posture_score, 0);
    assert_eq!(stats.focus_minutes, 0);
    assert_eq!(stats.voice_commands, 4);
    assert_eq!(get_daily_stats(0, 0, 0).adherence_percent, 0);
    assert_eq!(get_daily_stats(3, 1, 0).adherence_percent, 33);
    assert_eq!(get_daily_stats(100, 29, 0).adherence_percent, 29);
    assert_eq!(get_daily_stats(7, 7, 0).adherence_percent, 100);
    assert_eq!(get_daily_stats(1, u32::MAX, 0).adherence_percent, u32::MAX);
    assert_eq!(get_daily_stats(1, 42_949_672, 0).adherence_percent, 4_294_967_200);
    assert_eq!(get_daily_stats(1, 42_949_673, 0).adherence_percent, u32::MAX);
}

#[test]
fn a_key_is_configured_when_it_is_set_and_no_placeholder() {
    assert!(api_key_configured(Some("abc123"), GEMINI_KEY_PLACEHOLDER));
    assert!(!api_key_configured(Some(""), GEMINI_KEY_PLACEHOLDER));
    assert!(!api_key_configured(Some("your_gemini_api_key_here"), GEMINI_KEY_PLACEHOLDER));
    assert!(!api_key_configured(None, GEMINI_KEY_PLACEHOLDER));
    assert!(api_key_configured(Some("your_gemini_api_key_here"), CARTESIA_KEY_PLACEHOLDER));
    assert!(!api_key_configured(Some("your_cartesia_key_here"), CARTESIA_KEY_PLACEHOLDER));
}

#[test]
fn the_setup_status() {
    let status = check_setup_status(Some("key"), Some("your_cartesia_key_here"), true, false);
    assert!(status.gemini_key);
    assert!(!status.cartesia_key);
    assert!(status.whisper_binary);
    assert!(!status.whisper_model);
    assert!(status.camera_permission);
    assert!(status.mic_permission);
    let status = check_setup_status(None, Some("k"), false, true);
    assert!(!status.gemini_key);
    assert!(status.cartesia_key);
    assert!(!status.whisper_binary);
    assert!(status.whisper_model);
}

#[test]
fn the_health_of_the_dependencies() {
    let health = check_dependencies(true, true, true, None);
    assert!(!health.needs_repair);
    assert!(!health.gemini_key);
    assert_eq!(health.message, "Todos os componentes operacionais.");

    let health = check_dependencies(false, false, false, Some("key"));
    assert!(health.needs_repair);
    assert!(health.gemini_key);
    assert!(!health.whisper_binary && !health.whisper_model && !health.ffmpeg);
    assert_eq!(
        health.message,
        "Componentes em falta: motor de transcrição, modelo de voz, conversor de áudio. Clique em reparar para instalar automaticamente."
    );

    let health = check_dependencies(true, false, true, Some(""));
    assert!(health.needs_repair);
    assert_eq!(
        health.message,
        "Componentes em falta: modelo de voz. Clique em reparar para instalar automaticamente."
    );

    let health = check_dependencies(false, true, false, None);
    assert_eq!(
        health.message,
        "Componentes em falta: motor de transcrição, conversor de áudio. Clique em reparar para instalar automaticamente."
    );
}

#[test]
fn the_system_status() {
    let status = get_system_status("0.1.0".to_string(), true);
    assert_eq!(status.version, "0.1.0");
    assert!(status.db_connected);
    assert!(status.gemini_configured);
    assert!(!status.voice_available);
    assert_eq!(status.timezone, "WET");
    assert_eq!(status.uptime_seconds, 0);
    assert!(!get_system_status(String::new(), false).gemini_configured);
}

#[test]
fn the_whisper_status() {
    let found = status(Some("/usr/local/bin/whisper-cli".to_string()), None);
    assert!(found.binary_found);
    assert_eq!(found.binary_path.as_deref(), Some("/usr/local/bin/whisper-cli"));
    assert!(!found.model_found);
    assert_eq!(found.model_path, None);
    let found = status(None, Some("/models/ggml-base.bin".to_string()));
    assert!(!found.binary_found);
    assert!(found.model_found);
    assert_eq!(found.model_path.as_deref(), Some("/models/ggml-base.bin"));
    assert!(is_available(&Some("a".to_string()), &Some("b".to_string())));
    assert!(!is_available(&Some("a".to_string()), &None));
    assert!(!is_available(&None, &Some("b".to_string())));
    assert!(!is_available(&None, &None));
}

#[test]
fn the_synthesis_request() {
    let config = CartesiaConfig::default();
    assert_eq!(config.api_key, "");
    assert_eq!(config.voice_id, "a0e99841-438c-4a64-b679-ae501e7d6091");
    assert_eq!(config.model_id, "sonic-2");
    match synthesize("Olá", &config) {
        Err(refusal) => assert_eq!(refusal, "CARTESIA_API_KEY not configured."),
        Ok(request) => panic!("unexpected request: {:?}", request),
    }
    let config = CartesiaConfig { api_key: "key".to_string(), ..CartesiaConfig::default() };
    let request = synthesize("Olá", &config).unwrap();
    assert_eq!(request.model_id, "sonic-2");
    assert_eq!(request.transcript, "Olá");
    assert_eq!(request.voice_mode, "id");
    assert_eq!(request.voice_id, "a0e99841-438c-4a64-b679-ae501e7d6091");
    assert_eq!(request.container, "wav");
    assert_eq!(request.sample_rate, 24000);
    assert_eq!(request.encoding, "pcm_s16le");
}

#[test]
fn who_speaks_first() {
    assert_eq!(first_engine(Some("key")), SpeechEngine::Cartesia);
    assert_eq!(first_engine(Some("")), SpeechEngine::Native);
    assert_eq!(first_engine(Some("your_cartesia_key_here")), SpeechEngine::Native);
    assert_eq!(first_engine(None), SpeechEngine::Native);
}
