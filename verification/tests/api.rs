use poker_pro_track::api::{
    analysis_request, analyze_stats, clean_report, create_analysis_prompt, get_player_stats,
    stat_value, stats_request, AnalysisReply, AnalysisStep, PlayerStats, StatsReply,
};

fn stats() -> PlayerStats {
    PlayerStats {
        player_name: "Villain1".to_string(),
        vpip: "24".to_string(),
        pfr: "18".to_string(),
        three_bet: "7".to_string(),
        fold_to_3bet_pct: "55".to_string(),
        wtsd: "28".to_string(),
        wsd: "51".to_string(),
        cbet_flop: "60".to_string(),
        cbet_turn: "45".to_string(),
        fold_to_flop_cbet_pct: "40".to_string(),
        fold_to_turn_cbet_pct: "35".to_string(),
        limp_pct: Some("3".to_string()),
        limp_raise_pct: None,
        four_bet_preflop_pct: Some("2".to_string()),
        fold_to_4bet_pct: None,
        probe_bet_turn_pct: None,
        bet_river_pct: None,
        fold_to_river_bet_pct: None,
        overbet_turn_pct: None,
        overbet_river_pct: None,
        wsdwbr_pct: None,
        wwsf: "47".to_string(),
        total_manos: "1500".to_string(),
        bb_100: "4.2".to_string(),
        win_usd: "310".to_string(),
    }
}

fn answered(success: bool, status: &str, body: &str, decoded: Result<PlayerStats, String>) -> StatsReply {
    StatsReply::Answered {
        success,
        status: status.to_string(),
        body: body.to_string(),
        decoded,
    }
}

fn finished(step: AnalysisStep) -> Result<String, String> {
    match step {
        AnalysisStep::Finished(outcome) => outcome,
        AnalysisStep::Retry { .. } => panic!("another attempt"),
    }
}

#[test]
fn statistic_by_key() {
    let held = stats();
    assert_eq!(stat_value(&held, "vpip"), Some("24".to_string()));
    assert_eq!(stat_value(&held, "pfr"), Some("18".to_string()));
    assert_eq!(stat_value(&held, "three_bet"), Some("7".to_string()));
    assert_eq!(stat_value(&held, "fold_to_3bet_pct"), Some("55".to_string()));
    assert_eq!(stat_value(&held, "wtsd"), Some("28".to_string()));
    assert_eq!(stat_value(&held, "wsd"), Some("51".to_string()));
    assert_eq!(stat_value(&held, "cbet_flop"), Some("60".to_string()));
    assert_eq!(stat_value(&held, "cbet_turn"), Some("45".to_string()));
    assert_eq!(stat_value(&held, "fold_to_flop_cbet_pct"), Some("40".to_string()));
    assert_eq!(stat_value(&held, "fold_to_turn_cbet_pct"), Some("35".to_string()));
    assert_eq!(stat_value(&held, "wwsf"), Some("47".to_string()));
    assert_eq!(stat_value(&held, "total_manos"), Some("1500".to_string()));
    assert_eq!(stat_value(&held, "bb_100"), Some("4.2".to_string()));
    assert_eq!(stat_value(&held, "win_usd"), Some("310".to_string()));
    assert_eq!(stat_value(&held, "limp_pct"), Some("3".to_string()));
    assert_eq!(stat_value(&held, "four_bet_preflop_pct"), Some("2".to_string()));
    for missing in [
        "limp_raise_pct",
        "fold_to_4bet_pct",
        "probe_bet_turn_pct",
        "bet_river_pct",
        "fold_to_river_bet_pct",
        "overbet_turn_pct",
        "overbet_river_pct",
        "wsdwbr_pct",
    ] {
        assert_eq!(stat_value(&held, missing), Some("0".to_string()));
    }
    assert_eq!(stat_value(&held, "player_name"), None);
    assert_eq!(stat_value(&held, "VPIP"), None);
    assert_eq!(stat_value(&held, ""), None);
}

#[test]
fn request_for_statistics() {
    let request = stats_request("Villain 1/ñ~", "XPK", "tok", "http://localhost:3000");
    assert_eq!(request.url, "http://localhost:3000/api/jugador/XPK/Villain%201%2F%C3%B1~");
    assert_eq!(request.content_type, "application/json");
    assert_eq!(request.authorization, Some("Bearer tok".to_string()));
    let request = stats_request("a-b_c.d", "PS", "", "https://x");
    assert_eq!(request.url, "https://x/api/jugador/PS/a-b_c.d");
    assert_eq!(request.authorization, None);
}

#[test]
fn reply_with_statistics() {
    let outcome = get_player_stats(answered(true, "200 OK", "{}", Ok(stats())));
    assert_eq!(outcome.ok().unwrap().player_name, "Villain1");
}

#[test]
fn replies_without_statistics() {
    let outcome = get_player_stats(StatsReply::Unreachable("refused".to_string()));
    assert_eq!(outcome.err().unwrap(), "Error de conexión: refused");
    let outcome = get_player_stats(StatsReply::Unreadable("reset".to_string()));
    assert_eq!(outcome.err().unwrap(), "Error leyendo cuerpo: reset");
    let outcome =
        get_player_stats(answered(true, "200 OK", "{}", Err("missing field `vpip`".to_string())));
    assert_eq!(outcome.err().unwrap(), "Error al decodificar respuesta: missing field `vpip`");
    let outcome = get_player_stats(answered(
        false,
        "404 Not Found",
        "{\"error\": \"Jugador no encontrado\"}",
        Err("x".to_string()),
    ));
    assert_eq!(outcome.err().unwrap(), "Jugador no encontrado");
    let outcome =
        get_player_stats(answered(false, "502 Bad Gateway", "<html>", Err("x".to_string())));
    assert_eq!(outcome.err().unwrap(), "Error en la API: 502 Bad Gateway");
    let outcome =
        get_player_stats(answered(false, "500 Internal Server Error", "{\"error\": 5}", Ok(stats())));
    assert_eq!(outcome.err().unwrap(), "Error en la API: 500 Internal Server Error");
}

#[test]
fn prompt_holds_name_gap_and_statistics() {
    let prompt = create_analysis_prompt("Villain1", "moderado", &stats());
    assert!(prompt.starts_with("Eres un jugador profesional de cash online (NL50–NL100)."));
    assert!(prompt.contains("📌 Gap VPIP–PFR detectado: moderado\n"));
    assert!(prompt.contains("🎯 Informe sobre Villain1:\n"));
    assert!(prompt.contains("- Manos: 1500\n- BB/100: 4.2\n- Ganancias USD: 310\n- VPIP: 24%\n- PFR: 18%\n- 3-Bet: 7%\n- Fold to 3-Bet: 55%\n- 4-Bet: 2%\n- Fold to 4-Bet: 0%\n- C-Bet Flop: 60%\n- C-Bet Turn: 45%\n- WWSF: 47%\n- WTSD: 28%\n- WSD: 51%\n- Limp Preflop: 3%\n- Limp-Raise: 0%\n- Fold to Flop C-Bet: 40%\n- Fold to Turn C-Bet: 35%\n- Probe Bet Turn: 0%\n- Fold to River Bet: 0%\n- Bet River: 0%\n- Overbet Turn: 0%\n- Overbet River: 0%\n- WSDwBR: 0%"));
    assert!(prompt.ends_with("- WSDwBR: 0%"));
    assert_eq!(prompt.lines().count(), 60);
}

#[test]
fn request_for_a_commentary() {
    let request = analysis_request(&stats(), "moderado", "sk-test").ok().unwrap();
    assert_eq!(request.url, "https://api.openai.com/v1/chat/completions");
    assert_eq!(request.authorization, "Bearer sk-test");
    assert_eq!(request.model, "gpt-3.5-turbo");
    assert_eq!(request.prompt, create_analysis_prompt("Villain1", "moderado", &stats()));
    assert_eq!(request.max_tokens, 300);
    assert_eq!(request.temperature_tenths, 7);
}

#[test]
fn no_commentary_without_a_key() {
    for key in ["", "   ", "\t\n"] {
        assert_eq!(
            analysis_request(&stats(), "moderado", key).err().unwrap(),
            "Se requiere una API key de OpenAI para realizar el análisis"
        );
    }
}

#[test]
fn transient_failures_are_retried_twice() {
    for attempt in [0, 1] {
        let step = analyze_stats(attempt, AnalysisReply::Unreachable("timeout".to_string()));
        assert!(matches!(step, AnalysisStep::Retry { wait_seconds: 2 }));
        let step = analyze_stats(attempt, AnalysisReply::Rejected("429 Too Many Requests".to_string()));
        assert!(matches!(step, AnalysisStep::Retry { wait_seconds: 2 }));
    }
    for attempt in [2, 3, u32::MAX] {
        let step = analyze_stats(attempt, AnalysisReply::Unreachable("timeout".to_string()));
        assert_eq!(finished(step), Err("Error de conexión con GPT: timeout".to_string()));
        let step = analyze_stats(attempt, AnalysisReply::Rejected("429 Too Many Requests".to_string()));
        assert_eq!(finished(step), Err("Error en la API de GPT: 429 Too Many Requests".to_string()));
    }
}

#[test]
fn answer_ends_the_exchange() {
    let body = "{\"choices\": [{\"message\": {\"role\": \"assistant\", \"content\": \"  Juega tight.\\n\\n📊 Stats clave: VPIP 24 \"}}]}";
    let step = analyze_stats(0, AnalysisReply::Answered(body.to_string()));
    assert_eq!(finished(step), Ok("Juega tight.".to_string()));
    let step = analyze_stats(0, AnalysisReply::Answered("{\"choices\": []}".to_string()));
    assert_eq!(finished(step), Err("No se pudo extraer la respuesta generada por GPT".to_string()));
    let step = analyze_stats(0, AnalysisReply::Answered("{\"choices\": [{\"message\": {}}]}".to_string()));
    assert_eq!(finished(step), Err("No se pudo extraer la respuesta generada por GPT".to_string()));
    let step = analyze_stats(1, AnalysisReply::Answered("oops".to_string()));
    assert_eq!(
        finished(step),
        Err("Error al decodificar respuesta: expected value at line 1 column 1".to_string())
    );
    let step = analyze_stats(0, AnalysisReply::Undecodable("body cut short".to_string()));
    assert_eq!(finished(step), Err("Error al decodificar respuesta: body cut short".to_string()));
}

#[test]
fn report_is_trimmed_and_cut() {
    assert_eq!(clean_report("  Juega tight. \n"), "Juega tight.");
    assert_eq!(clean_report("A 📊 Stats B 📊 Stats C"), "A");
    assert_eq!(clean_report("📊 Stats only"), "");
    assert_eq!(clean_report("no mark 📊 stats"), "no mark 📊 stats");
    assert_eq!(clean_report(""), "");
}
