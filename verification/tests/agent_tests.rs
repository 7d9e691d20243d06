use holoself::adherence::{
    adherence_percent, collect_all_names, collect_names, count_taken, find_first_pending,
};
use holoself::agent::{
    choose_branch, classify_voice, compose_message, exam_context, finish_message,
    get_agent_message, interpret_voice, select, time_window, wants_generated_text, AgentMessage,
    MessageBranch, TimeWindow, UpcomingExam, VoiceIntent,
};
use holoself::catalog::{protocol_catalog, SupplementProtocol};
use holoself::prompt::{agent_prompt, message_context, time_period};
use holoself::text::{decimal_string, find_first_contained, find_first_containing, join, same_text};

fn protocol(name: &str, first_hour: u32, last_hour: u32) -> SupplementProtocol {
    SupplementProtocol {
        name: name.to_string(),
        dosage: "1 cápsula".to_string(),
        category: "morning".to_string(),
        first_hour,
        last_hour,
        benefit: "Faz bem".to_string(),
    }
}

fn small_catalog() -> Vec<SupplementProtocol> {
    vec![protocol("Winfit", 8, 11), protocol("Magnésio", 22, 23)]
}

fn exam(exam_type: &str, date: &str) -> UpcomingExam {
    UpcomingExam {
        id: 1,
        exam_type: exam_type.to_string(),
        reason: "porque sim".to_string(),
        scheduled_date: date.to_string(),
        completed: false,
    }
}

fn payload_name(message: &AgentMessage) -> Option<&str> {
    message.action.as_ref().map(|action| action.payload.name.as_str())
}

#[test]
fn the_catalog_as_shipped() {
    let catalog = protocol_catalog();
    let rows: Vec<(&str, &str, &str, u32, u32, &str)> = catalog
        .iter()
        .map(|p| {
            (
                p.name.as_str(),
                p.dosage.as_str(),
                p.category.as_str(),
                p.first_hour,
                p.last_hour,
                p.benefit.as_str(),
            )
        })
        .collect();
    assert_eq!(
        rows,
        vec![
            (
                "Winfit",
                "1 saqueta",
                "morning",
                8,
                11,
                "Vitamina C + Zinco — sistema imunitário e recuperação capilar",
            ),
            ("Vitamina D3", "2000 IU", "morning", 8, 12, "Absorção de cálcio e regulação imunitária"),
            ("Ómega 3", "1 cápsula", "afternoon", 12, 15, "Anti-inflamatório e função cognitiva"),
            (
                "Magnésio Bisglicinato",
                "1 cápsula",
                "night",
                22,
                23,
                "Proteção folicular e sistema nervoso",
            ),
            (
                "Noxarem (Melatonina 3mg)",
                "1 comprimido",
                "night",
                23,
                23,
                "Sincronização do ciclo circadiano",
            ),
        ]
    );
}

#[test]
fn hours_are_counted_at_both_ends() {
    let winfit = protocol("Winfit", 8, 11);
    assert!(!winfit.covers(7));
    assert!(winfit.covers(8));
    assert!(winfit.covers(11));
    assert!(!winfit.covers(12));
    let melatonin = protocol("Noxarem", 23, 23);
    assert!(melatonin.covers(23));
    assert!(!melatonin.covers(22));
    assert!(!melatonin.covers(0));
}

#[test]
fn pending_winfit_at_nine_is_reminded() {
    let catalog = small_catalog();
    let message = get_agent_message(&catalog, 9, &[false, false], &[], None);
    assert_eq!(message.category, "supplement_reminder");
    assert_eq!(message.priority, "medium");
    assert_eq!(message.text, "Winfit — 1 cápsula. Faz bem");
    let action = message.action.expect("a reminder suggests an action");
    assert_eq!(action.action_type, "log_supplement");
    assert_eq!(action.payload.name, "Winfit");
    assert_eq!(action.payload.dosage, "1 cápsula");
    assert_eq!(action.payload.category, "morning");
}

#[test]
fn winfit_taken_at_nine_falls_through_to_the_morning_message() {
    let catalog = small_catalog();
    let selection = select(&catalog, 9, &[true, false], &[], None);
    assert_eq!(selection.branch, MessageBranch::Morning);
    assert_eq!(selection.message.category, "calm_nudge");
    assert_eq!(selection.message.priority, "low");
    assert_eq!(selection.message.text, "Bom dia. Aderência: 50%. Pendentes: Magnésio.");
    assert!(selection.message.action.is_none());
}

#[test]
fn tomei_winfit_is_answered_with_a_logging_suggestion() {
    let catalog = small_catalog();
    let message = get_agent_message(&catalog, 9, &[false, false], &[], Some("tomei Winfit"));
    assert_eq!(message.category, "voice_response");
    assert_eq!(message.priority, "high");
    assert_eq!(message.text, "Registando Winfit — 1 cápsula.");
    assert_eq!(payload_name(&message), Some("Winfit"));
    assert_eq!(message.action.unwrap().action_type, "log_supplement");
}

#[test]
fn all_taken_congratulates_at_any_hour_and_with_any_exams() {
    let catalog = protocol_catalog();
    let taken = [true; 5];
    let exams = [exam("thyroid_panel", "2024-05-01")];
    for hour in 0..24 {
        for open in [&exams[..], &[][..]] {
            let selection = select(&catalog, hour, &taken, open, None);
            assert_eq!(selection.branch, MessageBranch::FullAdherence);
            assert_eq!(selection.message.category, "health_insight");
            assert_eq!(selection.message.priority, "low");
            assert_eq!(
                selection.message.text,
                "Protocolo 100% hoje. 5 de 5 suplementos registados. Sistema em carga total."
            );
            assert!(selection.message.action.is_none());
        }
    }
}

#[test]
fn an_empty_catalog_is_fully_adhered_to() {
    let selection = select(&[], 9, &[], &[], None);
    assert_eq!(selection.branch, MessageBranch::FullAdherence);
    assert_eq!(
        selection.message.text,
        "Protocolo 100% hoje. 0 de 0 suplementos registados. Sistema em carga total."
    );
}

#[test]
fn only_the_first_pending_supplement_is_reminded() {
    let catalog = protocol_catalog();
    let message = get_agent_message(&catalog, 9, &[false; 5], &[], None);
    assert_eq!(payload_name(&message), Some("Winfit"));
    assert_eq!(
        message.text,
        "Winfit — 1 saqueta. Vitamina C + Zinco — sistema imunitário e recuperação capilar"
    );
    let message = get_agent_message(&catalog, 9, &[true, false, false, false, false], &[], None);
    assert_eq!(payload_name(&message), Some("Vitamina D3"));
    assert_eq!(message.action.unwrap().payload.dosage, "2000 IU");
    let message = get_agent_message(&catalog, 12, &[false; 5], &[], None);
    assert_eq!(payload_name(&message), Some("Vitamina D3"));
    let message = get_agent_message(&catalog, 12, &[false, true, false, false, false], &[], None);
    assert_eq!(payload_name(&message), Some("Ómega 3"));
    assert_eq!(message.action.unwrap().payload.category, "afternoon");
    let message = get_agent_message(&catalog, 23, &[false, false, false, true, false], &[], None);
    assert_eq!(payload_name(&message), Some("Noxarem (Melatonina 3mg)"));
    assert_eq!(find_first_pending(&catalog, &[false; 5], 9), Some(0));
    assert_eq!(find_first_pending(&catalog, &[true, true, false, false, false], 9), None);
    assert_eq!(find_first_pending(&catalog, &[false; 5], 16), None);
}

#[test]
fn an_answer_that_is_missing_counts_as_not_taken() {
    let catalog = small_catalog();
    assert_eq!(count_taken(2, &[true]), 1);
    assert_eq!(count_taken(2, &[]), 0);
    assert_eq!(count_taken(2, &[true, true, true]), 2);
    let message = get_agent_message(&catalog, 22, &[true], &[], None);
    assert_eq!(payload_name(&message), Some("Magnésio"));
}

#[test]
fn an_open_exam_is_reported_before_the_time_of_day() {
    let catalog = small_catalog();
    let exams = [exam("vitamin_d_panel", "2024-04-17"), exam("thyroid_panel", "2024-04-24")];
    let selection = select(&catalog, 9, &[true, false], &exams, None);
    assert_eq!(selection.branch, MessageBranch::UpcomingExam);
    assert_eq!(selection.message.category, "schedule");
    assert_eq!(selection.message.priority, "low");
    assert_eq!(
        selection.message.text,
        "Próximo exame: vitamin_d_panel em 2024-04-17. Aderência: 50%."
    );
    assert!(selection.message.action.is_none());
}

#[test]
fn a_pending_supplement_is_reminded_before_an_open_exam() {
    let catalog = small_catalog();
    let exams = [exam("vitamin_d_panel", "2024-04-17")];
    let selection = select(&catalog, 22, &[true, false], &exams, None);
    assert_eq!(selection.branch, MessageBranch::Reminder);
    assert_eq!(payload_name(&selection.message), Some("Magnésio"));
}

#[test]
fn the_time_of_day_decides_last() {
    let catalog = small_catalog();
    let taken = [true, false];
    let cases = [
        (5, MessageBranch::Stable),
        (6, MessageBranch::Morning),
        (9, MessageBranch::Morning),
        (10, MessageBranch::Stable),
        (13, MessageBranch::Stable),
        (14, MessageBranch::Afternoon),
        (17, MessageBranch::Afternoon),
        (18, MessageBranch::Stable),
        (20, MessageBranch::Evening),
        (21, MessageBranch::Evening),
        (0, MessageBranch::Stable),
    ];
    for (hour, branch) in cases {
        assert_eq!(select(&catalog, hour, &taken, &[], None).branch, branch, "hour {}", hour);
    }
    assert_eq!(time_window(22), TimeWindow::Evening);
    assert_eq!(time_window(23), TimeWindow::Other);
    assert_eq!(time_window(6), TimeWindow::Morning);
    assert_eq!(time_window(14), TimeWindow::Afternoon);
    assert_eq!(time_window(99), TimeWindow::Other);
}

#[test]
fn the_texts_of_the_time_of_day() {
    let catalog = protocol_catalog();
    let taken = [true, false, true, false, false];
    let text = |hour: u32| get_agent_message(&catalog, hour, &taken, &[], None);
    let morning = text(7);
    assert_eq!(
        morning.text,
        "Bom dia. Aderência: 40%. Pendentes: Vitamina D3, Magnésio Bisglicinato, Noxarem (Melatonina 3mg)."
    );
    assert_eq!(morning.category, "calm_nudge");
    let afternoon = text(16);
    assert_eq!(
        afternoon.text,
        "Boa tarde. Aderência: 40%. Pendentes: Vitamina D3, Magnésio Bisglicinato, Noxarem (Melatonina 3mg)."
    );
    assert_eq!(afternoon.category, "calm_nudge");
    let evening = text(20);
    assert_eq!(evening.text, "Fase noturna. Aderência: 40%. Sem exames próximos.");
    assert_eq!(evening.category, "calm_nudge");
    let stable = text(18);
    assert_eq!(
        stable.text,
        "Sistema estável. Aderência: 40%. Pendentes: Vitamina D3, Magnésio Bisglicinato, Noxarem (Melatonina 3mg)."
    );
    assert_eq!(stable.category, "health_insight");
    for message in [morning, afternoon, evening, stable] {
        assert_eq!(message.priority, "low");
        assert!(message.action.is_none());
    }
}

#[test]
fn every_step_has_its_text() {
    let catalog = small_catalog();
    let taken = [true, true];
    let exams = [exam("iron_panel", "2024-06-01")];
    let write = |branch: MessageBranch| compose_message(branch, &catalog, &taken, &exams, "olá", 1);
    assert_eq!(
        write(MessageBranch::VoiceStatus).text,
        "Relatório rápido: 2 de 2 suplementos hoje (100%). Próximo exame: iron_panel em 2024-06-01."
    );
    assert_eq!(write(MessageBranch::VoiceLog).text, "Registando Magnésio — 1 cápsula.");
    assert_eq!(write(MessageBranch::VoiceEcho).text, "Entendido: \"olá\". A processar.");
    assert_eq!(write(MessageBranch::Reminder).text, "Magnésio — 1 cápsula. Faz bem");
    assert_eq!(
        write(MessageBranch::Evening).text,
        "Fase noturna. Aderência: 100%. Próximo exame: iron_panel em 2024-06-01."
    );
    assert_eq!(write(MessageBranch::Stable).text, "Sistema estável. Aderência: 100%. Tudo em dia.");
    assert_eq!(write(MessageBranch::Morning).text, "Bom dia. Aderência: 100%. Pendentes: .");
    assert_eq!(write(MessageBranch::VoiceEcho).priority, "medium");
    assert_eq!(write(MessageBranch::VoiceStatus).priority, "high");
    assert_eq!(write(MessageBranch::VoiceStatus).category, "voice_response");
}

#[test]
fn a_status_request_is_answered_with_a_report() {
    let catalog = protocol_catalog();
    let taken = [true, true, false, false, false];
    let exams = [exam("thyroid_panel", "2024-04-24")];
    for transcript in ["status", "Como estou hoje?", "quero um RELATÓRIO", "tomei e quero status"] {
        let selection = select(&catalog, 9, &taken, &exams, Some(transcript));
        assert_eq!(selection.branch, MessageBranch::VoiceStatus, "{}", transcript);
        assert_eq!(
            selection.message.text,
            "Relatório rápido: 2 de 5 suplementos hoje (40%). Próximo exame: thyroid_panel em 2024-04-24."
        );
        assert_eq!(selection.message.category, "voice_response");
        assert_eq!(selection.message.priority, "high");
        assert!(selection.message.action.is_none());
    }
    let message = get_agent_message(&catalog, 9, &taken, &[], Some("status"));
    assert_eq!(
        message.text,
        "Relatório rápido: 2 de 5 suplementos hoje (40%). Sem exames próximos."
    );
}

#[test]
fn a_log_request_names_the_first_supplement_of_the_catalog_that_occurs() {
    let catalog = protocol_catalog();
    let taken = [false; 5];
    let message = get_agent_message(&catalog, 3, &taken, &[], Some("Registar ómega 3 por favor"));
    assert_eq!(payload_name(&message), Some("Ómega 3"));
    assert_eq!(message.text, "Registando Ómega 3 — 1 cápsula.");
    let message =
        get_agent_message(&catalog, 3, &taken, &[], Some("tomei vitamina d3 e também WINFIT"));
    assert_eq!(payload_name(&message), Some("Winfit"));
    assert_eq!(
        interpret_voice("suplemento magnésio bisglicinato", &catalog),
        VoiceIntent::Log(3)
    );
}

#[test]
fn anything_else_is_echoed() {
    let catalog = protocol_catalog();
    let taken = [false; 5];
    for transcript in ["bom dia", "tomei um café", "Winfit", ""] {
        let selection = select(&catalog, 9, &taken, &[], Some(transcript));
        assert_eq!(selection.branch, MessageBranch::VoiceEcho, "{}", transcript);
        assert_eq!(
            selection.message.text,
            format!("Entendido: \"{}\". A processar.", transcript)
        );
        assert_eq!(selection.message.category, "voice_response");
        assert_eq!(selection.message.priority, "medium");
        assert!(selection.message.action.is_none());
    }
}

#[test]
fn voice_reads_lowercase_only_once_lowered() {
    let names = vec!["winfit".to_string(), "ómega 3".to_string()];
    assert_eq!(classify_voice("tomei winfit", &names), VoiceIntent::Log(0));
    assert_eq!(classify_voice("tomei ómega 3 e winfit", &names), VoiceIntent::Log(0));
    assert_eq!(classify_voice("registar ómega 3", &names), VoiceIntent::Log(1));
    assert_eq!(classify_voice("TOMEI WINFIT", &names), VoiceIntent::Echo);
    assert_eq!(classify_voice("winfit", &names), VoiceIntent::Echo);
    assert_eq!(classify_voice("tomei", &names), VoiceIntent::Echo);
    assert_eq!(classify_voice("status de winfit", &names), VoiceIntent::Status);
    assert_eq!(classify_voice("como estou", &names), VoiceIntent::Status);
}

#[test]
fn the_branch_for_each_intent() {
    let catalog = small_catalog();
    let taken = [false, false];
    let pick = |voice| choose_branch(&catalog, 9, &taken, true, voice);
    assert_eq!(pick(Some(VoiceIntent::Status)), MessageBranch::VoiceStatus);
    assert_eq!(pick(Some(VoiceIntent::Log(1))), MessageBranch::VoiceLog);
    assert_eq!(pick(Some(VoiceIntent::Echo)), MessageBranch::VoiceEcho);
    assert_eq!(pick(None), MessageBranch::Reminder);
}

#[test]
fn generated_text_replaces_canned_text_where_it_may() {
    let catalog = small_catalog();
    let selection = select(&catalog, 9, &[true, false], &[], None);
    let shown = finish_message(selection.clone(), Some("Tudo calmo.".to_string()));
    assert_eq!(shown.text, "Tudo calmo.");
    assert_eq!(shown.category, "calm_nudge");
    assert_eq!(shown.priority, "low");
    assert!(shown.action.is_none());
    let shown = finish_message(selection, None);
    assert_eq!(shown.text, "Bom dia. Aderência: 50%. Pendentes: Magnésio.");

    let exams = [exam("iron_panel", "2024-06-01")];
    let selection = select(&catalog, 9, &[true, false], &exams, None);
    let shown = finish_message(selection, Some("Exame em breve.".to_string()));
    assert_eq!(shown.text, "Exame em breve.");
    assert_eq!(shown.category, "schedule");

    let selection = select(&catalog, 9, &[true, true], &[], None);
    let shown = finish_message(selection, Some("Excelente.".to_string()));
    assert_eq!(shown.text, "Excelente.");
    assert_eq!(shown.category, "health_insight");
}

#[test]
fn generated_text_never_replaces_reminders_or_voice_answers() {
    let catalog = small_catalog();
    let reminder = select(&catalog, 9, &[false, false], &[], None);
    let shown = finish_message(reminder, Some("Outra coisa.".to_string()));
    assert_eq!(shown.text, "Winfit — 1 cápsula. Faz bem");
    assert_eq!(payload_name(&shown), Some("Winfit"));
    for transcript in ["status", "tomei winfit", "olá"] {
        let canned = select(&catalog, 9, &[false, false], &[], Some(transcript));
        let text = canned.message.text.clone();
        let shown = finish_message(canned, Some("Outra coisa.".to_string()));
        assert_eq!(shown.text, text);
    }
    let wanted: Vec<bool> = [
        MessageBranch::VoiceStatus,
        MessageBranch::VoiceLog,
        MessageBranch::VoiceEcho,
        MessageBranch::Reminder,
        MessageBranch::FullAdherence,
        MessageBranch::UpcomingExam,
        MessageBranch::Morning,
        MessageBranch::Afternoon,
        MessageBranch::Evening,
        MessageBranch::Stable,
    ]
    .into_iter()
    .map(wants_generated_text)
    .collect();
    assert_eq!(wanted, vec![false, false, false, false, true, true, true, true, true, true]);
}

#[test]
fn adherence_is_rounded_down() {
    assert_eq!(adherence_percent(0, 5), 0);
    assert_eq!(adherence_percent(1, 5), 20);
    assert_eq!(adherence_percent(3, 5), 60);
    assert_eq!(adherence_percent(5, 5), 100);
    assert_eq!(adherence_percent(1, 3), 33);
    assert_eq!(adherence_percent(2, 3), 66);
    assert_eq!(adherence_percent(29, 100), 29);
    assert_eq!(adherence_percent(57, 100), 57);
    assert_eq!(adherence_percent(0, 0), 0);
    assert_eq!(adherence_percent(7, 0), 0);
    assert_eq!(adherence_percent(3, 2), 150);
    assert_eq!(adherence_percent(u64::MAX, 1), u64::MAX);
    assert_eq!(adherence_percent(u64::MAX, u64::MAX), 100);
}

#[test]
fn names_are_collected_in_catalog_order() {
    let catalog = protocol_catalog();
    let taken = [false, true, false, true];
    assert_eq!(collect_names(&catalog, &taken, true), vec!["Vitamina D3", "Magnésio Bisglicinato"]);
    assert_eq!(
        collect_names(&catalog, &taken, false),
        vec!["Winfit", "Ómega 3", "Noxarem (Melatonina 3mg)"]
    );
    assert_eq!(collect_all_names(&catalog).len(), 5);
    assert_eq!(collect_all_names(&catalog)[2], "Ómega 3");
}

#[test]
fn numbers_are_written_in_decimal() {
    assert_eq!(decimal_string(0), "0");
    assert_eq!(decimal_string(7), "7");
    assert_eq!(decimal_string(10), "10");
    assert_eq!(decimal_string(100), "100");
    assert_eq!(decimal_string(1234567890), "1234567890");
    assert_eq!(decimal_string(u64::MAX), "18446744073709551615");
}

#[test]
fn texts_are_joined_and_searched() {
    let names = vec!["um".to_string(), "dois".to_string(), "três".to_string()];
    assert_eq!(join(&names, ", "), "um, dois, três");
    assert_eq!(join(&names[..1].to_vec(), ", "), "um");
    assert_eq!(join(&Vec::new(), ", "), "");
    assert_eq!(find_first_containing(&names, "oi"), Some(1));
    assert_eq!(find_first_containing(&names, "s"), Some(1));
    assert_eq!(find_first_containing(&names, ""), Some(0));
    assert_eq!(find_first_containing(&names, "quatro"), None);
    assert_eq!(find_first_contained(&names, "dois e um"), Some(0));
    assert_eq!(find_first_contained(&names, "três mais dois"), Some(1));
    assert_eq!(find_first_contained(&names, "nada"), None);
    assert!(same_text("log_supplement", "log_supplement"));
    assert!(!same_text("log_supplement", "log_vital"));
    assert!(!same_text("a", ""));
}

#[test]
fn the_line_on_the_next_exam() {
    assert_eq!(exam_context(&[]), "Sem exames próximos.");
    let exams = [exam("vitamin_d_panel", "2024-04-17"), exam("thyroid_panel", "2024-04-24")];
    assert_eq!(exam_context(&exams), "Próximo exame: vitamin_d_panel em 2024-04-17.");
}

#[test]
fn the_prompt_for_a_state() {
    let catalog = small_catalog();
    let exams = [exam("vitamin_d_panel", "2024-04-17")];
    let context = message_context(&catalog, &[true, false], &exams);
    assert_eq!(context.adherence_pct, 50);
    assert_eq!(context.taken_names, vec!["Winfit"]);
    assert_eq!(context.pending_names, vec!["Magnésio"]);
    assert_eq!(context.all_names, vec!["Winfit", "Magnésio"]);
    assert_eq!(context.exam_context, "Próximo exame: vitamin_d_panel em 2024-04-17.");
    let expected = "Tu és o HoloSelf, um agente de saúde pessoal calmo e direto (estilo Jarvis). \
Responde em Português (PT-BR). Máximo 2 frases curtas. Sem emojis. Tom: calmo, preciso, encorajador.\n\n\
Contexto actual:\n\
- Hora: 9h (manhã (despertar))\n\
- Aderência hoje: 50%\n\
- Suplementos tomados: Winfit\n\
- Pendentes: Magnésio\n\
- Protocolo completo: Winfit, Magnésio\n\
- Próximo exame: vitamin_d_panel em 2024-04-17.\n\n\
Dá uma mensagem contextual breve baseada neste estado. \
Se tudo está em dia, encoraja. Se há pendentes, lembra com calma. \
Se é noite, sugere desacelerar. Nunca alarmar.";
    assert_eq!(agent_prompt(9, &context), expected);
}

#[test]
fn the_prompt_says_none_for_empty_lists() {
    let catalog = small_catalog();
    let context = message_context(&catalog, &[true, true], &[]);
    let prompt = agent_prompt(23, &context);
    assert!(prompt.contains("- Hora: 23h (noite tardia (preparar sono))\n"));
    assert!(prompt.contains("- Aderência hoje: 100%\n"));
    assert!(prompt.contains("- Suplementos tomados: Winfit, Magnésio\n"));
    assert!(prompt.contains("- Pendentes: nenhum\n"));
    assert!(prompt.contains("- Sem exames próximos.\n\n"));
    let context = message_context(&catalog, &[], &[]);
    assert!(agent_prompt(3, &context).contains("- Suplementos tomados: nenhum\n"));
}

#[test]
fn the_parts_of_the_day_in_the_prompt() {
    let cases = [
        (0, "madrugada"),
        (5, "madrugada"),
        (6, "manhã (despertar)"),
        (9, "manhã (despertar)"),
        (10, "meio do dia (foco)"),
        (13, "meio do dia (foco)"),
        (14, "tarde (manutenção)"),
        (17, "tarde (manutenção)"),
        (18, "noite (desaceleração)"),
        (21, "noite (desaceleração)"),
        (22, "noite tardia (preparar sono)"),
        (23, "noite tardia (preparar sono)"),
        (24, "madrugada"),
    ];
    for (hour, period) in cases {
        assert_eq!(time_period(hour), period, "hour {}", hour);
    }
}
