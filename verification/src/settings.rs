//! The settings that the rest of the library reads: one immutable snapshot
//! per call. Loading and saving them is the caller's business; what the
//! defaults are, and what to do with a stored file, is decided here.

use vstd::prelude::*;
use crate::text::{join, text_eq, to_uppercase, uppercase_of};
use crate::text_map::TextMap;

verus! {

/// The rectangle, relative to a window, in which the nickname is looked for.
#[derive(Clone, Copy, Debug, PartialEq, Eq, Structural)]
pub struct OcrCoords {
    pub x: i32,
    pub y: i32,
    pub w: i32,
    pub h: i32,
}

/// The settings.
pub struct AppConfig {
    pub token: String,
    pub openai_api_key: String,
    pub ocr_coords: OcrCoords,
    pub server_url: String,
    pub sala_default: String,
    pub hotkey: String,
    pub modo_automatico: bool,
    pub auto_check_interval: i32,
    /// Whether the front end shows the statistics. The analysis returns
    /// them in any case.
    pub mostrar_stats: bool,
    pub mostrar_analisis: bool,
    pub tema: String,
    pub idioma_ocr: String,
    pub mostrar_dialogo_copia: bool,
    /// Which statistics the user wants to see.
    pub stats_seleccionadas: TextMap<bool>,
    /// The order in which they are shown.
    pub stats_order: Vec<String>,
    /// How each is shown: a template in which `{value}` stands for the number.
    pub stats_format: TextMap<String>,
}

/// The statistics that the service reports, in their default order.
pub open spec fn default_stat_keys() -> Seq<Seq<char>> {
    seq![
        "vpip"@,
        "pfr"@,
        "three_bet"@,
        "fold_to_3bet_pct"@,
        "wtsd"@,
        "wsd"@,
        "cbet_flop"@,
        "cbet_turn"@,
        "fold_to_flop_cbet_pct"@,
        "fold_to_turn_cbet_pct"@,
        "limp_pct"@,
        "limp_raise_pct"@,
        "four_bet_preflop_pct"@,
        "fold_to_4bet_pct"@,
        "probe_bet_turn_pct"@,
        "bet_river_pct"@,
        "fold_to_river_bet_pct"@,
        "overbet_turn_pct"@,
        "overbet_river_pct"@,
        "wsdwbr_pct"@,
        "wwsf"@,
        "total_manos"@,
        "bb_100"@,
        "win_usd"@,
    ]
}

/// How many of the default statistics are selected from the start: the first eight.
pub open spec fn default_selected_count() -> int {
    8
}

/// The default selection over the first `count` default statistics: each is
/// entered, and selected if it is one of the first eight.
pub open spec fn default_selection_upto(count: nat) -> Map<Seq<char>, bool>
    decreases count,
{
    if count == 0 {
        Map::empty()
    } else {
        default_selection_upto((count - 1) as nat).insert(
            default_stat_keys()[count - 1],
            count - 1 < default_selected_count(),
        )
    }
}

/// The default selection.
pub open spec fn default_selection() -> Map<Seq<char>, bool> {
    default_selection_upto(default_stat_keys().len())
}

/// The default templates.
pub open spec fn default_formats() -> Map<Seq<char>, Seq<char>> {
    Map::<Seq<char>, Seq<char>>::empty()
        .insert("vpip"@, "VPIP:{value}"@)
        .insert("pfr"@, "PFR:{value}"@)
        .insert("three_bet"@, "3B:{value}"@)
        .insert("fold_to_3bet_pct"@, "F3B:{value}"@)
        .insert("wtsd"@, "WTSD:{value}"@)
        .insert("wsd"@, "WSD:{value}"@)
        .insert("cbet_flop"@, "CF:{value}"@)
        .insert("cbet_turn"@, "CT:{value}"@)
}

/// The views of a list of texts.
pub open spec fn texts_of(list: Seq<String>) -> Seq<Seq<char>> {
    Seq::new(list.len(), |i: int| list[i]@)
}

/// The views of the templates.
pub open spec fn formats_of(map: Map<Seq<char>, String>) -> Map<Seq<char>, Seq<char>> {
    map.map_values(|template: String| template@)
}

impl AppConfig {
    /// The settings are the defaults.
    pub open spec fn is_default(self) -> bool {
        &&& self.token@ == Seq::<char>::empty()
        &&& self.openai_api_key@ == Seq::<char>::empty()
        &&& self.ocr_coords == (OcrCoords { x: 95, y: 110, w: 95, h: 22 })
        &&& self.server_url@ == "http://localhost:3000"@
        &&& self.sala_default@ == "XPK"@
        &&& self.hotkey@ == "alt+q"@
        &&& !self.modo_automatico
        &&& self.auto_check_interval == 30
        &&& self.mostrar_stats
        &&& self.mostrar_analisis
        &&& self.tema@ == "dark"@
        &&& self.idioma_ocr@ == "ch"@
        &&& !self.mostrar_dialogo_copia
        &&& self.stats_seleccionadas@ == default_selection()
        &&& texts_of(self.stats_order@) == default_stat_keys()
        &&& formats_of(self.stats_format@) == default_formats()
    }
}

fn default_keys() -> (list: Vec<String>)
    ensures
        list@.len() == 24,
        texts_of(list@) == default_stat_keys(),
{
    let mut list: Vec<String> = Vec::new();
    list.push("vpip".to_owned());
    list.push("pfr".to_owned());
    list.push("three_bet".to_owned());
    list.push("fold_to_3bet_pct".to_owned());
    list.push("wtsd".to_owned());
    list.push("wsd".to_owned());
    list.push("cbet_flop".to_owned());
    list.push("cbet_turn".to_owned());
    list.push("fold_to_flop_cbet_pct".to_owned());
    list.push("fold_to_turn_cbet_pct".to_owned());
    list.push("limp_pct".to_owned());
    list.push("limp_raise_pct".to_owned());
    list.push("four_bet_preflop_pct".to_owned());
    list.push("fold_to_4bet_pct".to_owned());
    list.push("probe_bet_turn_pct".to_owned());
    list.push("bet_river_pct".to_owned());
    list.push("fold_to_river_bet_pct".to_owned());
    list.push("overbet_turn_pct".to_owned());
    list.push("overbet_river_pct".to_owned());
    list.push("wsdwbr_pct".to_owned());
    list.push("wwsf".to_owned());
    list.push("total_manos".to_owned());
    list.push("bb_100".to_owned());
    list.push("win_usd".to_owned());
    assert(texts_of(list@) =~= default_stat_keys());
    list
}

impl Default for AppConfig {
    /// The defaults: no token and no key, the capture rectangle of a table
    /// seat, the local server, all twenty-four statistics entered in their
    /// order with the first eight selected, and a template for each of those.
    fn default() -> (config: Self)
        ensures
            config.is_default(),
    {
        let stats_order = default_keys();
        let mut stats_seleccionadas: TextMap<bool> = TextMap::new();
        let mut index: usize = 0;
        while index < stats_order.len()
            invariant
                index <= stats_order@.len(),
                stats_order@.len() == 24,
                texts_of(stats_order@) == default_stat_keys(),
                stats_seleccionadas@ == default_selection_upto(index as nat),
            decreases stats_order@.len() - index,
        {
            assert(texts_of(stats_order@)[index as int] == stats_order@[index as int]@);
            stats_seleccionadas.insert(stats_order[index].clone(), index < 8);
            index += 1;
        }
        let mut stats_format: TextMap<String> = TextMap::new();
        stats_format.insert("vpip".to_owned(), "VPIP:{value}".to_owned());
        stats_format.insert("pfr".to_owned(), "PFR:{value}".to_owned());
        stats_format.insert("three_bet".to_owned(), "3B:{value}".to_owned());
        stats_format.insert("fold_to_3bet_pct".to_owned(), "F3B:{value}".to_owned());
        stats_format.insert("wtsd".to_owned(), "WTSD:{value}".to_owned());
        stats_format.insert("wsd".to_owned(), "WSD:{value}".to_owned());
        stats_format.insert("cbet_flop".to_owned(), "CF:{value}".to_owned());
        stats_format.insert("cbet_turn".to_owned(), "CT:{value}".to_owned());
        assert(formats_of(stats_format@) =~= default_formats());
        AppConfig {
            token: String::new(),
            openai_api_key: String::new(),
            ocr_coords: OcrCoords { x: 95, y: 110, w: 95, h: 22 },
            server_url: "http://localhost:3000".to_owned(),
            sala_default: "XPK".to_owned(),
            hotkey: "alt+q".to_owned(),
            modo_automatico: false,
            auto_check_interval: 30,
            mostrar_stats: true,
            mostrar_analisis: true,
            tema: "dark".to_owned(),
            idioma_ocr: "ch".to_owned(),
            mostrar_dialogo_copia: false,
            stats_seleccionadas,
            stats_order,
            stats_format,
        }
    }
}

/// The settings to store when the user asks for a reset: the defaults.
pub fn reset_config() -> (config: AppConfig)
    ensures
        config.is_default(),
{
    AppConfig::default()
}

/// What was found where the settings are stored.
pub enum StoredConfig {
    /// No file.
    Missing,
    /// A file that could not be read.
    Unreadable,
    /// A file that does not hold settings.
    Malformed,
    /// The settings that the file holds.
    Parsed(AppConfig),
}

/// What to do after looking for the stored settings.
pub struct LoadPlan {
    /// The settings to work with.
    pub config: AppConfig,
    /// Whether `config` is to be written to the store.
    pub store: bool,
    /// Whether the file found is to be copied aside first.
    pub keep_copy: bool,
}

/// The settings to work with, given what was found in the store.
///
/// Stored settings are used as they are. In every other case the defaults
/// are used and written back; a file that was there but held no settings is
/// copied aside before it is overwritten.
pub fn load_config(stored: StoredConfig) -> (plan: LoadPlan)
    ensures
        match stored {
            StoredConfig::Parsed(found) => plan.config == found && !plan.store && !plan.keep_copy,
            StoredConfig::Malformed => plan.config.is_default() && plan.store && plan.keep_copy,
            _ => plan.config.is_default() && plan.store && !plan.keep_copy,
        },
{
    match stored {
        StoredConfig::Parsed(found) => LoadPlan { config: found, store: false, keep_copy: false },
        StoredConfig::Malformed => LoadPlan {
            config: AppConfig::default(),
            store: true,
            keep_copy: true,
        },
        _ => LoadPlan { config: AppConfig::default(), store: true, keep_copy: false },
    }
}

/// The name of the copy of a malformed settings file: `stamp` is the local
/// time at which the copy is made, as year, month, day, an underscore, hour,
/// minute and second.
pub fn backup_file_name(stamp: &str) -> (name: String)
    ensures
        name@ == "config_backup_"@ + stamp@ + ".json"@,
{
    let head = join("config_backup_", stamp);
    join(head.as_str(), ".json")
}

/// The name under which a statistic is shown.
pub open spec fn display_name(key: Seq<char>) -> Seq<char> {
    if key == "vpip"@ {
        "VPIP"@
    } else if key == "pfr"@ {
        "PFR"@
    } else if key == "three_bet"@ {
        "3-Bet"@
    } else if key == "fold_to_3bet_pct"@ {
        "Fold to 3-Bet"@
    } else if key == "wtsd"@ {
        "WTSD"@
    } else if key == "wsd"@ {
        "WSD"@
    } else if key == "cbet_flop"@ {
        "C-Bet Flop"@
    } else if key == "cbet_turn"@ {
        "C-Bet Turn"@
    } else if key == "fold_to_flop_cbet_pct"@ {
        "Fold to Flop C-Bet"@
    } else if key == "fold_to_turn_cbet_pct"@ {
        "Fold to Turn C-Bet"@
    } else if key == "limp_pct"@ {
        "Limp %"@
    } else if key == "limp_raise_pct"@ {
        "Limp-Raise %"@
    } else if key == "four_bet_preflop_pct"@ {
        "4-Bet Preflop"@
    } else if key == "fold_to_4bet_pct"@ {
        "Fold to 4-Bet"@
    } else if key == "probe_bet_turn_pct"@ {
        "Probe Bet Turn"@
    } else if key == "bet_river_pct"@ {
        "Bet River"@
    } else if key == "fold_to_river_bet_pct"@ {
        "Fold to River Bet"@
    } else if key == "overbet_turn_pct"@ {
        "Overbet Turn"@
    } else if key == "overbet_river_pct"@ {
        "Overbet River"@
    } else if key == "wsdwbr_pct"@ {
        "WSD with Bet River"@
    } else if key == "wwsf"@ {
        "WWSF"@
    } else if key == "total_manos"@ {
        "Total Manos"@
    } else if key == "bb_100"@ {
        "BB/100"@
    } else if key == "win_usd"@ {
        "Ganancias USD"@
    } else {
        uppercase_of(key)
    }
}

/// The name under which the statistic `stat_key` is shown. A key that is not
/// one of the twenty-four known ones is shown in upper case.
pub fn get_stat_display_name(stat_key: &str) -> (name: String)
    ensures
        name@ == display_name(stat_key@),
{
    if text_eq(stat_key, "vpip") {
        "VPIP".to_owned()
    } else if text_eq(stat_key, "pfr") {
        "PFR".to_owned()
    } else if text_eq(stat_key, "three_bet") {
        "3-Bet".to_owned()
    } else if text_eq(stat_key, "fold_to_3bet_pct") {
        "Fold to 3-Bet".to_owned()
    } else if text_eq(stat_key, "wtsd") {
        "WTSD".to_owned()
    } else if text_eq(stat_key, "wsd") {
        "WSD".to_owned()
    } else if text_eq(stat_key, "cbet_flop") {
        "C-Bet Flop".to_owned()
    } else if text_eq(stat_key, "cbet_turn") {
        "C-Bet Turn".to_owned()
    } else if text_eq(stat_key, "fold_to_flop_cbet_pct") {
        "Fold to Flop C-Bet".to_owned()
    } else if text_eq(stat_key, "fold_to_turn_cbet_pct") {
        "Fold to Turn C-Bet".to_owned()
    } else if text_eq(stat_key, "limp_pct") {
        "Limp %".to_owned()
    } else if text_eq(stat_key, "limp_raise_pct") {
        "Limp-Raise %".to_owned()
    } else if text_eq(stat_key, "four_bet_preflop_pct") {
        "4-Bet Preflop".to_owned()
    } else if text_eq(stat_key, "fold_to_4bet_pct") {
        "Fold to 4-Bet".to_owned()
    } else if text_eq(stat_key, "probe_bet_turn_pct") {
        "Probe Bet Turn".to_owned()
    } else if text_eq(stat_key, "bet_river_pct") {
        "Bet River".to_owned()
    } else if text_eq(stat_key, "fold_to_river_bet_pct") {
        "Fold to River Bet".to_owned()
    } else if text_eq(stat_key, "overbet_turn_pct") {
        "Overbet Turn".to_owned()
    } else if text_eq(stat_key, "overbet_river_pct") {
        "Overbet River".to_owned()
    } else if text_eq(stat_key, "wsdwbr_pct") {
        "WSD with Bet River".to_owned()
    } else if text_eq(stat_key, "wwsf") {
        "WWSF".to_owned()
    } else if text_eq(stat_key, "total_manos") {
        "Total Manos".to_owned()
    } else if text_eq(stat_key, "bb_100") {
        "BB/100".to_owned()
    } else if text_eq(stat_key, "win_usd") {
        "Ganancias USD".to_owned()
    } else {
        to_uppercase(stat_key)
    }
}

} // verus!
