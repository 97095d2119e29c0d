use poker_pro_track::analysis::{
    analyze_table, format_stats, is_sentinel_nick, Action, Analysis, Event, Phase, Resolver,
};
use poker_pro_track::api::PlayerStats;
use poker_pro_track::error::AppError;
use poker_pro_track::nick_cache::NickCacheEntry;
use poker_pro_track::ocr_bridge::OcrResult;
use poker_pro_track::settings::{AppConfig, OcrCoords};
use poker_pro_track::text_map::TextMap;

fn stats() -> PlayerStats {
    PlayerStats {
        player_name: "Villain1".to_string(),
        vpip: "24".to_string(),
        pfr: "18".to_string(),
        three_bet: "7".to_string(),
        fold_to_3bet_pct: "55".to_string(),
        wtsd: "28".to_string(),
        wsd: "51".to_string(),
        cbet_flop: "60".to_string(),
        cbet_turn: "45".to_string(),
        fold_to_flop_cbet_pct: "40".to_string(),
        fold_to_turn_cbet_pct: "35".to_string(),
        limp_pct: Some("3".to_string()),
        limp_raise_pct: None,
        four_bet_preflop_pct: None,
        fold_to_4bet_pct: None,
        probe_bet_turn_pct: None,
        bet_river_pct: None,
        fold_to_river_bet_pct: None,
        overbet_turn_pct: None,
        overbet_river_pct: None,
        wsdwbr_pct: None,
        wwsf: "47".to_string(),
        total_manos: "1500".to_string(),
        bb_100: "4.2".to_string(),
        win_usd: "310".to_string(),
    }
}

fn config_with_key() -> AppConfig {
    let mut config = AppConfig::default();
    config.openai_api_key = "sk-test".to_string();
    config.token = "tok".to_string();
    config
}

fn reading(nick: &str) -> OcrResult {
    OcrResult {
        nick: nick.to_string(),
        confidence_bits: 0.75f64.to_bits(),
        image_hash: "cafe".to_string(),
    }
}

fn finished(action: Action) -> Result<String, String> {
    match action {
        Action::Finish(outcome) => outcome,
        _ => panic!("the analysis goes on"),
    }
}

fn fetched_nick(action: &Action) -> String {
    match action {
        Action::FetchStats { nick, .. } => nick.clone(),
        _ => panic!("no statistics are fetched"),
    }
}

const DEFAULT_LINE: &str = "VPIP:24 PFR:18 3B:7 F3B:55 WTSD:28 WSD:51 CF:60 CT:45";

#[test]
fn default_settings_show_eight_statistics() {
    assert_eq!(format_stats(&stats(), &AppConfig::default()), DEFAULT_LINE);
}

#[test]
fn nothing_selected_shows_the_basic_line() {
    let mut config = AppConfig::default();
    config.stats_seleccionadas = TextMap::new();
    assert_eq!(
        format_stats(&stats(), &config),
        "VPIP:24 PFR:18 3B:7 F3B:55 WTSD:28 WSD:51 CB:60/45"
    );
    let mut config = AppConfig::default();
    config.stats_order = Vec::new();
    assert_eq!(
        format_stats(&stats(), &config),
        "VPIP:24 PFR:18 3B:7 F3B:55 WTSD:28 WSD:51 CB:60/45"
    );
}

#[test]
fn order_selection_and_templates_shape_the_line() {
    let mut config = AppConfig::default();
    config.stats_order = vec![
        "wsd".to_string(),
        "limp_raise_pct".to_string(),
        "nonsense".to_string(),
        "limp_pct".to_string(),
        "vpip".to_string(),
        "pfr".to_string(),
    ];
    let mut selection = TextMap::new();
    selection.insert("wsd".to_string(), true);
    selection.insert("limp_raise_pct".to_string(), true);
    selection.insert("nonsense".to_string(), true);
    selection.insert("limp_pct".to_string(), true);
    selection.insert("vpip".to_string(), false);
    config.stats_seleccionadas = selection;
    let mut formats = TextMap::new();
    formats.insert("wsd".to_string(), "[{value}|{value}]".to_string());
    formats.insert("limp_raise_pct".to_string(), "LR={value}%".to_string());
    formats.insert("nonsense".to_string(), "N:{value}".to_string());
    formats.insert("vpip".to_string(), "V:{value}".to_string());
    formats.insert("pfr".to_string(), "P:{value}".to_string());
    config.stats_format = formats;
    assert_eq!(format_stats(&stats(), &config), "[51|51] LR=0%");
}

#[test]
fn selection_without_a_part_shows_an_empty_line() {
    let mut config = AppConfig::default();
    config.stats_order = vec!["nonsense".to_string()];
    let mut selection = TextMap::new();
    selection.insert("nonsense".to_string(), true);
    config.stats_seleccionadas = selection;
    assert_eq!(format_stats(&stats(), &config), "");
}

#[test]
fn sentinels() {
    for nick in ["", "Error", "ErrorOCR", "NoText"] {
        assert!(is_sentinel_nick(nick));
    }
    for nick in ["error", "Villain1", " ", "NoText "] {
        assert!(!is_sentinel_nick(nick));
    }
}

#[test]
fn manual_nick_bypasses_cache_and_ocr() {
    let config = config_with_key();
    let mut resolver = Resolver::new();
    resolver.cache.put(
        9,
        NickCacheEntry {
            nick: "Stale".to_string(),
            timestamp: 0,
            img_hash: String::new(),
            confidence_bits: 0,
        },
    );
    for force in [false, true] {
        let (analysis, action) =
            analyze_table(&resolver, 9, &config, Some("Villain1".to_string()), force, 10_000);
        assert_eq!(analysis.phase, Phase::AwaitingStats);
        assert_eq!(analysis.hwnd, 9);
        match action {
            Action::FetchStats { nick, sala, token, server_url } => {
                assert_eq!(nick, "Villain1");
                assert_eq!(sala, "XPK");
                assert_eq!(token, "tok");
                assert_eq!(server_url, "http://localhost:3000");
            }
            _ => panic!("no statistics are fetched"),
        }
    }
    assert_eq!(resolver.cache.get(9).unwrap().nick, "Stale");
    assert!(!resolver.ocr_initialized);
}

#[test]
fn manual_nick_runs_to_the_end_without_ocr() {
    let config = config_with_key();
    let mut resolver = Resolver::new();
    let (mut analysis, first) =
        analyze_table(&resolver, 9, &config, Some("Villain1".to_string()), false, 10_000);
    assert_eq!(fetched_nick(&first), "Villain1");
    let second = analysis.advance(&mut resolver, &config, Event::StatsFetched(Ok(stats())));
    match &second {
        Action::WriteReport { stats, api_key } => {
            assert_eq!(stats.player_name, "Villain1");
            assert_eq!(api_key, "sk-test");
        }
        _ => panic!("no commentary is asked for"),
    }
    assert_eq!(analysis.phase, Phase::AwaitingReport);
    let third = analysis.advance(
        &mut resolver,
        &config,
        Event::ReportWritten(Ok("Plays tight.".to_string())),
    );
    assert_eq!(finished(third), Ok(format!("{}\n\nPlays tight.", DEFAULT_LINE)));
    assert_eq!(analysis.phase, Phase::Done);
    assert!(resolver.cache.get(9).is_none());
    assert!(!resolver.ocr_initialized);
}

#[test]
fn fresh_entry_is_used() {
    let config = config_with_key();
    let mut resolver = Resolver::new();
    resolver.cache.put(
        9,
        NickCacheEntry {
            nick: "Cached".to_string(),
            timestamp: 1_000,
            img_hash: String::new(),
            confidence_bits: 0,
        },
    );
    let (analysis, action) = analyze_table(&resolver, 9, &config, None, false, 1_299);
    assert_eq!(analysis.phase, Phase::AwaitingStats);
    assert_eq!(fetched_nick(&action), "Cached");
}

#[test]
fn stale_or_forced_lookup_runs_ocr() {
    let config = config_with_key();
    let mut resolver = Resolver::new();
    resolver.ocr_initialized = true;
    resolver.cache.put(
        9,
        NickCacheEntry {
            nick: "Cached".to_string(),
            timestamp: 1_000,
            img_hash: String::new(),
            confidence_bits: 0,
        },
    );
    for (now, force) in [(1_301, false), (1_001, true), (1_300, false)] {
        let (analysis, action) = analyze_table(&resolver, 9, &config, None, force, now);
        assert_eq!(analysis.phase, Phase::AwaitingCapture);
        match action {
            Action::CaptureNick { hwnd, coords } => {
                assert_eq!(hwnd, 9);
                assert_eq!(coords, OcrCoords { x: 95, y: 110, w: 95, h: 22 });
            }
            _ => panic!("the engine is not run"),
        }
    }
    let (analysis, _) = analyze_table(&resolver, 8, &config, None, false, 1_001);
    assert_eq!(analysis.phase, Phase::AwaitingCapture);
}

#[test]
fn engine_is_initialized_once() {
    let config = config_with_key();
    let mut resolver = Resolver::new();
    let (mut analysis, action) = analyze_table(&resolver, 9, &config, None, false, 50);
    match action {
        Action::InitializeOcr { language } => assert_eq!(language, "ch"),
        _ => panic!("the engine is not initialized"),
    }
    assert_eq!(analysis.phase, Phase::AwaitingOcr);
    let action = analysis.advance(&mut resolver, &config, Event::OcrReady(Ok(true)));
    assert!(matches!(action, Action::CaptureNick { hwnd: 9, .. }));
    assert!(resolver.ocr_initialized);
    let (analysis, action) = analyze_table(&resolver, 10, &config, None, false, 60);
    assert_eq!(analysis.phase, Phase::AwaitingCapture);
    assert!(matches!(action, Action::CaptureNick { hwnd: 10, .. }));
}

#[test]
fn engine_that_does_not_initialize_fails_the_analysis() {
    let config = config_with_key();
    let mut resolver = Resolver::new();
    let (mut analysis, _) = analyze_table(&resolver, 9, &config, None, false, 50);
    let action =
        analysis.advance(&mut resolver, &config, Event::OcrReady(Err("no python".to_string())));
    assert_eq!(
        finished(action),
        Err("Error en la API: Error al inicializar OCR: no python".to_string())
    );
    assert!(!resolver.ocr_initialized);
    assert_eq!(analysis.phase, Phase::Done);
}

#[test]
fn reading_is_cached_and_statistics_are_fetched() {
    let config = config_with_key();
    let mut resolver = Resolver::new();
    resolver.ocr_initialized = true;
    let (mut analysis, _) = analyze_table(&resolver, 9, &config, None, false, 50);
    let action = analysis.advance(
        &mut resolver,
        &config,
        Event::NickRead { reading: Ok(reading("Player42")), now: 77 },
    );
    assert_eq!(fetched_nick(&action), "Player42");
    let held = resolver.cache.get(9).unwrap();
    assert_eq!(held.nick, "Player42");
    assert_eq!(held.timestamp, 77);
    assert_eq!(held.img_hash, "cafe");
    assert_eq!(f64::from_bits(held.confidence_bits), 0.75);
    let (_, again) = analyze_table(&resolver, 9, &config, None, false, 78);
    assert_eq!(fetched_nick(&again), "Player42");
}

#[test]
fn sentinel_nick_fails_the_analysis() {
    let config = config_with_key();
    for nick in ["", "Error", "ErrorOCR", "NoText"] {
        let mut resolver = Resolver::new();
        resolver.ocr_initialized = true;
        let (mut analysis, _) = analyze_table(&resolver, 9, &config, None, false, 50);
        let action = analysis.advance(
            &mut resolver,
            &config,
            Event::NickRead { reading: Ok(reading(nick)), now: 77 },
        );
        assert_eq!(
            finished(action),
            Err("Error en la API: No se pudo detectar nick en la imagen".to_string())
        );
        assert_eq!(analysis.phase, Phase::Done);
        assert!(resolver.cache.get(9).is_none());
        let (again, action) = analyze_table(&resolver, 9, &config, None, false, 78);
        assert_eq!(again.phase, Phase::AwaitingCapture);
        assert!(matches!(action, Action::CaptureNick { hwnd: 9, .. }));
    }
}

#[test]
fn sentinel_nick_leaves_an_older_entry_alone() {
    let config = config_with_key();
    let mut resolver = Resolver::new();
    resolver.ocr_initialized = true;
    resolver.cache.put(
        9,
        NickCacheEntry {
            nick: "Cached".to_string(),
            timestamp: 10,
            img_hash: "beef".to_string(),
            confidence_bits: 0,
        },
    );
    let (mut analysis, _) = analyze_table(&resolver, 9, &config, None, true, 50);
    let action = analysis.advance(
        &mut resolver,
        &config,
        Event::NickRead { reading: Ok(reading("NoText")), now: 77 },
    );
    assert!(finished(action).is_err());
    let held = resolver.cache.get(9).unwrap();
    assert_eq!(held.nick, "Cached");
    assert_eq!(held.timestamp, 10);
    assert_eq!(held.img_hash, "beef");
}

#[test]
fn bridge_failure_fails_the_analysis() {
    let config = config_with_key();
    let mut resolver = Resolver::new();
    resolver.ocr_initialized = true;
    let (mut analysis, _) = analyze_table(&resolver, 9, &config, None, false, 50);
    let action = analysis.advance(
        &mut resolver,
        &config,
        Event::NickRead { reading: Err(AppError::Api("Error en OCR: x".to_string())), now: 77 },
    );
    assert_eq!(finished(action), Err("Error en la API: Error en OCR: x".to_string()));
    assert!(resolver.cache.get(9).is_none());
}

#[test]
fn statistics_that_fail_fail_the_analysis() {
    let config = config_with_key();
    let mut resolver = Resolver::new();
    let (mut analysis, _) =
        analyze_table(&resolver, 9, &config, Some("Villain1".to_string()), false, 0);
    let action = analysis.advance(
        &mut resolver,
        &config,
        Event::StatsFetched(Err("Jugador no encontrado".to_string())),
    );
    assert_eq!(
        finished(action),
        Err("Error al obtener estadísticas: Jugador no encontrado".to_string())
    );
}

#[test]
fn failed_commentary_keeps_the_statistics() {
    let config = config_with_key();
    let mut resolver = Resolver::new();
    let (mut analysis, _) =
        analyze_table(&resolver, 9, &config, Some("Villain1".to_string()), false, 0);
    analysis.advance(&mut resolver, &config, Event::StatsFetched(Ok(stats())));
    let action = analysis.advance(
        &mut resolver,
        &config,
        Event::ReportWritten(Err("Error en la API de GPT: 401 Unauthorized".to_string())),
    );
    let text = finished(action).unwrap();
    assert!(!text.is_empty());
    assert!(text.starts_with(DEFAULT_LINE));
    assert_eq!(
        text,
        format!("{}\n\nError en análisis: Error en la API de GPT: 401 Unauthorized", DEFAULT_LINE)
    );
}

#[test]
fn no_commentary_without_key_or_wish() {
    let mut resolver = Resolver::new();
    let without_key = AppConfig::default();
    let (mut analysis, _) =
        analyze_table(&resolver, 9, &without_key, Some("Villain1".to_string()), false, 0);
    let action = analysis.advance(&mut resolver, &without_key, Event::StatsFetched(Ok(stats())));
    assert_eq!(finished(action), Ok(format!("{}\n\n", DEFAULT_LINE)));

    let mut unwanted = config_with_key();
    unwanted.mostrar_analisis = false;
    let (mut analysis, _) =
        analyze_table(&resolver, 9, &unwanted, Some("Villain1".to_string()), false, 0);
    let action = analysis.advance(&mut resolver, &unwanted, Event::StatsFetched(Ok(stats())));
    assert_eq!(finished(action), Ok(format!("{}\n\n", DEFAULT_LINE)));
}

#[test]
fn statistics_open_the_result_whatever_the_settings() {
    let mut config = config_with_key();
    config.mostrar_stats = false;
    let mut resolver = Resolver::new();
    let (mut analysis, _) =
        analyze_table(&resolver, 9, &config, Some("Villain1".to_string()), false, 0);
    analysis.advance(&mut resolver, &config, Event::StatsFetched(Ok(stats())));
    let action =
        analysis.advance(&mut resolver, &config, Event::ReportWritten(Ok("Loose.".to_string())));
    assert_eq!(finished(action), Ok(format!("{}\n\nLoose.", DEFAULT_LINE)));

    let (mut analysis, _) =
        analyze_table(&resolver, 9, &config, Some("Villain1".to_string()), false, 0);
    analysis.advance(&mut resolver, &config, Event::StatsFetched(Ok(stats())));
    let action =
        analysis.advance(&mut resolver, &config, Event::ReportWritten(Err("boom".to_string())));
    let text = finished(action).unwrap();
    assert!(text.contains(&format_stats(&stats(), &config)));
    assert_eq!(text, format!("{}\n\nError en análisis: boom", DEFAULT_LINE));

    let mut silent = AppConfig::default();
    silent.mostrar_stats = false;
    let (mut analysis, _) =
        analyze_table(&resolver, 9, &silent, Some("Villain1".to_string()), false, 0);
    let action = analysis.advance(&mut resolver, &silent, Event::StatsFetched(Ok(stats())));
    let text = finished(action).unwrap();
    assert!(!text.is_empty());
    assert_eq!(text, format!("{}\n\n", DEFAULT_LINE));
}

#[test]
fn event_out_of_turn_fails_the_analysis() {
    let config = config_with_key();
    let mut resolver = Resolver::new();
    let (mut analysis, _) =
        analyze_table(&resolver, 9, &config, Some("Villain1".to_string()), false, 0);
    let action = analysis.advance(
        &mut resolver,
        &config,
        Event::NickRead { reading: Ok(reading("Player42")), now: 5 },
    );
    assert_eq!(finished(action), Err("Error desconocido: evento fuera de turno".to_string()));
    assert!(resolver.cache.get(9).is_none());
    let mut done = Analysis { phase: Phase::Done, hwnd: 9, response: String::new() };
    let action = done.advance(&mut resolver, &config, Event::StatsFetched(Ok(stats())));
    assert_eq!(finished(action), Err("Error desconocido: evento fuera de turno".to_string()));
}
