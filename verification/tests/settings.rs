use poker_pro_track::settings::{
    backup_file_name, get_stat_display_name, load_config, reset_config, AppConfig, OcrCoords,
    StoredConfig,
};

const KEYS: [&str; 24] = [
    "vpip",
    "pfr",
    "three_bet",
    "fold_to_3bet_pct",
    "wtsd",
    "wsd",
    "cbet_flop",
    "cbet_turn",
    "fold_to_flop_cbet_pct",
    "fold_to_turn_cbet_pct",
    "limp_pct",
    "limp_raise_pct",
    "four_bet_preflop_pct",
    "fold_to_4bet_pct",
    "probe_bet_turn_pct",
    "bet_river_pct",
    "fold_to_river_bet_pct",
    "overbet_turn_pct",
    "overbet_river_pct",
    "wsdwbr_pct",
    "wwsf",
    "total_manos",
    "bb_100",
    "win_usd",
];

fn assert_defaults(config: &AppConfig) {
    assert_eq!(config.token, "");
    assert_eq!(config.openai_api_key, "");
    assert_eq!(config.ocr_coords, OcrCoords { x: 95, y: 110, w: 95, h: 22 });
    assert_eq!(config.server_url, "http://localhost:3000");
    assert_eq!(config.sala_default, "XPK");
    assert_eq!(config.hotkey, "alt+q");
    assert!(!config.modo_automatico);
    assert_eq!(config.auto_check_interval, 30);
    assert!(config.mostrar_stats);
    assert!(config.mostrar_analisis);
    assert_eq!(config.tema, "dark");
    assert_eq!(config.idioma_ocr, "ch");
    assert!(!config.mostrar_dialogo_copia);
    assert_eq!(config.stats_order, KEYS.map(|key| key.to_string()).to_vec());
    assert_eq!(config.stats_seleccionadas.len(), 24);
    for (index, key) in KEYS.iter().enumerate() {
        assert_eq!(config.stats_seleccionadas.get(key), Some(&(index < 8)));
    }
    assert_eq!(config.stats_seleccionadas.get("other"), None);
    assert_eq!(config.stats_format.len(), 8);
    let templates = [
        "VPIP:{value}",
        "PFR:{value}",
        "3B:{value}",
        "F3B:{value}",
        "WTSD:{value}",
        "WSD:{value}",
        "CF:{value}",
        "CT:{value}",
    ];
    for (key, template) in KEYS.iter().zip(templates) {
        assert_eq!(config.stats_format.get(key), Some(&template.to_string()));
    }
    assert_eq!(config.stats_format.get("wwsf"), None);
}

#[test]
fn defaults() {
    assert_defaults(&AppConfig::default());
}

#[test]
fn reset_gives_the_defaults() {
    assert_defaults(&reset_config());
}

#[test]
fn stored_settings_are_used() {
    let mut stored = AppConfig::default();
    stored.tema = "light".to_string();
    let plan = load_config(StoredConfig::Parsed(stored));
    assert_eq!(plan.config.tema, "light");
    assert!(!plan.store);
    assert!(!plan.keep_copy);
}

#[test]
fn missing_or_unreadable_settings_become_the_defaults() {
    for stored in [StoredConfig::Missing, StoredConfig::Unreadable] {
        let plan = load_config(stored);
        assert_defaults(&plan.config);
        assert!(plan.store);
        assert!(!plan.keep_copy);
    }
}

#[test]
fn malformed_settings_are_copied_aside() {
    let plan = load_config(StoredConfig::Malformed);
    assert_defaults(&plan.config);
    assert!(plan.store);
    assert!(plan.keep_copy);
}

#[test]
fn name_of_the_copy() {
    assert_eq!(backup_file_name("20240131_235959"), "config_backup_20240131_235959.json");
}

#[test]
fn display_names() {
    let names = [
        "VPIP",
        "PFR",
        "3-Bet",
        "Fold to 3-Bet",
        "WTSD",
        "WSD",
        "C-Bet Flop",
        "C-Bet Turn",
        "Fold to Flop C-Bet",
        "Fold to Turn C-Bet",
        "Limp %",
        "Limp-Raise %",
        "4-Bet Preflop",
        "Fold to 4-Bet",
        "Probe Bet Turn",
        "Bet River",
        "Fold to River Bet",
        "Overbet Turn",
        "Overbet River",
        "WSD with Bet River",
        "WWSF",
        "Total Manos",
        "BB/100",
        "Ganancias USD",
    ];
    for (key, name) in KEYS.iter().zip(names) {
        assert_eq!(get_stat_display_name(key), name);
    }
}

#[test]
fn unknown_statistic_is_shown_in_upper_case() {
    assert_eq!(get_stat_display_name("af_flop"), "AF_FLOP");
    assert_eq!(get_stat_display_name("Vpip"), "VPIP");
    assert_eq!(get_stat_display_name("straße"), "STRASSE");
    assert_eq!(get_stat_display_name(""), "");
}
