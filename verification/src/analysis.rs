//! The analysis of one table, from the window to the report.
//!
//! An analysis alternates between decisions and work that only the host can
//! do: running the OCR engine, calling the statistics service, asking for a
//! commentary. The decisions are here. `analyze_table` takes the first and
//! names the work that follows from it; the host does the work and reports
//! what came of it to `Analysis::advance`, which takes the next. The exchange
//! ends with `Action::Finish`.

use vstd::prelude::*;
use vstd::string::StringExecFns;
use crate::api::{PlayerStats, stat_text, stat_value};
use crate::error::AppError;
use crate::nick_cache::{cached_nick, NickCache, NickCacheEntry, NICK_TTL_SECONDS};
use crate::ocr_bridge::OcrResult;
use crate::settings::{AppConfig, OcrCoords, texts_of};
use crate::text::{join, replace, replaced, text_eq};

verus! {

/// The statistic is selected.
pub open spec fn is_selected(selection: Map<Seq<char>, bool>, key: Seq<char>) -> bool {
    selection.contains_key(key) && selection[key]
}

/// The selected statistics among `order`, in that order.
pub open spec fn selected_keys(order: Seq<Seq<char>>, selection: Map<Seq<char>, bool>) -> Seq<
    Seq<char>,
>
    decreases order.len(),
{
    if order.len() == 0 {
        Seq::empty()
    } else if is_selected(selection, order.last()) {
        selected_keys(order.drop_last(), selection).push(order.last())
    } else {
        selected_keys(order.drop_last(), selection)
    }
}

/// How one statistic is shown: its template with the value in the place of
/// every `{value}`. A statistic without a template, or one that the service
/// does not report, is not shown.
pub open spec fn stat_part(stats: PlayerStats, formats: Map<Seq<char>, String>, key: Seq<char>)
    -> Option<Seq<char>> {
    if formats.contains_key(key) && stat_text(stats, key) is Some {
        Some(replaced(formats[key]@, "{value}"@, stat_text(stats, key)->0))
    } else {
        None
    }
}

/// How the statistics `keys` are shown, one part for each that is shown.
pub open spec fn stat_parts(
    stats: PlayerStats,
    formats: Map<Seq<char>, String>,
    keys: Seq<Seq<char>>,
) -> Seq<Seq<char>>
    decreases keys.len(),
{
    if keys.len() == 0 {
        Seq::empty()
    } else {
        match stat_part(stats, formats, keys.last()) {
            Some(part) => stat_parts(stats, formats, keys.drop_last()).push(part),
            None => stat_parts(stats, formats, keys.drop_last()),
        }
    }
}

/// The parts with one space between each two.
pub open spec fn joined(parts: Seq<Seq<char>>) -> Seq<char>
    decreases parts.len(),
{
    if parts.len() == 0 {
        Seq::empty()
    } else if parts.len() == 1 {
        parts[0]
    } else {
        joined(parts.drop_last()) + " "@ + parts.last()
    }
}

/// The line that is shown where the user has selected nothing.
pub open spec fn basic_line(stats: PlayerStats) -> Seq<char> {
    "VPIP:"@ + stats.vpip@ + " PFR:"@ + stats.pfr@ + " 3B:"@ + stats.three_bet@ + " F3B:"@
        + stats.fold_to_3bet_pct@ + " WTSD:"@ + stats.wtsd@ + " WSD:"@ + stats.wsd@ + " CB:"@
        + stats.cbet_flop@ + "/"@ + stats.cbet_turn@
}

/// The line of statistics: the selected ones in the user's order, each in
/// its template; the basic line where none is selected.
pub open spec fn formatted_stats(stats: PlayerStats, config: AppConfig) -> Seq<char> {
    let keys = selected_keys(texts_of(config.stats_order@), config.stats_seleccionadas@);
    if keys.len() == 0 {
        basic_line(stats)
    } else {
        joined(stat_parts(stats, config.stats_format@, keys))
    }
}

fn basic_stats(stats: &PlayerStats) -> (line: String)
    ensures
        line@ == basic_line(*stats),
{
    let mut line = String::from_str("VPIP:");
    line.append(stats.vpip.as_str());
    line.append(" PFR:");
    line.append(stats.pfr.as_str());
    line.append(" 3B:");
    line.append(stats.three_bet.as_str());
    line.append(" F3B:");
    line.append(stats.fold_to_3bet_pct.as_str());
    line.append(" WTSD:");
    line.append(stats.wtsd.as_str());
    line.append(" WSD:");
    line.append(stats.wsd.as_str());
    line.append(" CB:");
    line.append(stats.cbet_flop.as_str());
    line.append("/");
    line.append(stats.cbet_turn.as_str());
    line
}

/// The line of statistics for `stats`, as the settings ask for it.
pub fn format_stats(stats: &PlayerStats, config: &AppConfig) -> (line: String)
    ensures
        line@ == formatted_stats(*stats, *config),
{
    let ghost order = texts_of(config.stats_order@);
    let ghost selection = config.stats_seleccionadas@;
    let ghost formats = config.stats_format@;
    let mut line = String::new();
    let mut any_selected = false;
    let mut any_part = false;
    let mut index: usize = 0;
    assert(order.take(0) =~= Seq::empty());
    while index < config.stats_order.len()
        invariant
            index <= config.stats_order@.len(),
            order == texts_of(config.stats_order@),
            selection == config.stats_seleccionadas@,
            formats == config.stats_format@,
            any_selected == (selected_keys(order.take(index as int), selection).len() > 0),
            any_part == (stat_parts(
                *stats,
                formats,
                selected_keys(order.take(index as int), selection),
            ).len() > 0),
            line@ == joined(
                stat_parts(*stats, formats, selected_keys(order.take(index as int), selection)),
            ),
        decreases config.stats_order@.len() - index,
    {
        let key = config.stats_order[index].as_str();
        let ghost before = order.take(index as int);
        let ghost upto = order.take(index as int + 1);
        let ghost keys = selected_keys(before, selection);
        assert(upto.drop_last() =~= before);
        assert(upto.last() == key@);
        let chosen = match config.stats_seleccionadas.get(key) {
            Some(flag) => *flag,
            None => false,
        };
        if chosen {
            any_selected = true;
            assert(selected_keys(upto, selection) == keys.push(key@));
            assert(keys.push(key@).drop_last() =~= keys);
            let template = config.stats_format.get(key);
            let value = stat_value(stats, key);
            match (template, value) {
                (Some(template), Some(value)) => {
                    let part = replace(template.as_str(), "{value}", value.as_str());
                    let ghost parts = stat_parts(*stats, formats, keys);
                    assert(stat_parts(*stats, formats, keys.push(key@)) == parts.push(part@));
                    assert(parts.push(part@).drop_last() =~= parts);
                    if any_part {
                        line.append(" ");
                    }
                    line.append(part.as_str());
                    any_part = true;
                },
                _ => {
                    assert(stat_part(*stats, formats, key@) is None);
                },
            }
        } else {
            assert(selected_keys(upto, selection) == keys);
        }
        index += 1;
    }
    assert(order.take(index as int) =~= order);
    if any_selected {
        line
    } else {
        basic_stats(stats)
    }
}

/// A nickname that is none: the engine read nothing, or said that it failed.
pub open spec fn is_sentinel(nick: Seq<char>) -> bool {
    nick.len() == 0 || nick == "Error"@ || nick == "ErrorOCR"@ || nick == "NoText"@
}

/// Whether `nick` is none.
pub fn is_sentinel_nick(nick: &str) -> (sentinel: bool)
    ensures
        sentinel == is_sentinel(nick@),
{
    nick.is_empty() || text_eq(nick, "Error") || text_eq(nick, "ErrorOCR") || text_eq(
        nick,
        "NoText",
    )
}

/// Where an analysis stands.
#[derive(Clone, Copy, Debug, PartialEq, Eq, Structural)]
pub enum Phase {
    /// The engine is being initialized.
    AwaitingOcr,
    /// The nickname is being read.
    AwaitingCapture,
    /// The statistics are being fetched.
    AwaitingStats,
    /// The commentary is being written.
    AwaitingReport,
    /// The analysis has ended.
    Done,
}

/// The work that the host is asked to do next.
pub enum Action {
    /// Initialize the OCR engine for this language, then report `Event::OcrReady`.
    InitializeOcr { language: String },
    /// Bring the window to the foreground, whether or not that succeeds read
    /// the nickname in the rectangle, then report `Event::NickRead`.
    CaptureNick { hwnd: u32, coords: OcrCoords },
    /// Fetch the player's statistics, then report `Event::StatsFetched`.
    FetchStats { nick: String, sala: String, token: String, server_url: String },
    /// Ask for a commentary on the statistics, then report `Event::ReportWritten`.
    WriteReport { stats: PlayerStats, api_key: String },
    /// Hand this to the caller: the text of the analysis, or the sentence
    /// that says why there is none.
    Finish(Result<String, String>),
}

/// An action as plain values.
pub enum Step {
    InitializeOcr { language: Seq<char> },
    CaptureNick { hwnd: u32, coords: OcrCoords },
    FetchStats { nick: Seq<char>, sala: Seq<char>, token: Seq<char>, server_url: Seq<char> },
    WriteReport { stats: PlayerStats, api_key: Seq<char> },
    Finish(Result<Seq<char>, Seq<char>>),
}

impl Action {
    /// The action as plain values.
    pub open spec fn view(self) -> Step {
        match self {
            Action::InitializeOcr { language } => Step::InitializeOcr { language: language@ },
            Action::CaptureNick { hwnd, coords } => Step::CaptureNick { hwnd, coords },
            Action::FetchStats { nick, sala, token, server_url } => Step::FetchStats {
                nick: nick@,
                sala: sala@,
                token: token@,
                server_url: server_url@,
            },
            Action::WriteReport { stats, api_key } => Step::WriteReport {
                stats,
                api_key: api_key@,
            },
            Action::Finish(Ok(text)) => Step::Finish(Ok(text@)),
            Action::Finish(Err(message)) => Step::Finish(Err(message@)),
        }
    }
}

impl Step {
    /// The step runs the OCR engine.
    pub open spec fn uses_ocr(self) -> bool {
        self is InitializeOcr || self is CaptureNick
    }
}

/// What the host reports.
pub enum Event {
    /// How the initialization of the engine ended.
    OcrReady(Result<bool, String>),
    /// What the engine read, and when, in seconds since the epoch.
    NickRead { reading: Result<OcrResult, AppError>, now: u64 },
    /// What the statistics service answered.
    StatsFetched(Result<PlayerStats, String>),
    /// What the commentary service answered.
    ReportWritten(Result<String, String>),
}

/// What is shared by all analyses: the cache of nicknames, and whether the
/// OCR engine has been initialized.
pub struct Resolver {
    pub cache: NickCache,
    pub ocr_initialized: bool,
}

impl Resolver {
    /// A resolver with an empty cache and an engine that is not initialized.
    pub fn new() -> (resolver: Self)
        ensures
            resolver.cache@ == Map::<u32, NickCacheEntry>::empty(),
            !resolver.ocr_initialized,
    {
        Resolver { cache: NickCache::new(), ocr_initialized: false }
    }
}

/// One analysis under way.
pub struct Analysis {
    /// Where it stands.
    pub phase: Phase,
    /// The window that it is about.
    pub hwnd: u32,
    /// The text gathered so far.
    pub response: String,
}

/// The step that fetches the statistics of `nick` with the settings' room,
/// token and server.
pub open spec fn fetch_step(config: AppConfig, nick: Seq<char>) -> Step {
    Step::FetchStats {
        nick,
        sala: config.sala_default@,
        token: config.token@,
        server_url: config.server_url@,
    }
}

/// The step that reads the nickname, with the engine initialized first if it
/// has not been, and the phase that waits for it.
pub open spec fn ocr_step(hwnd: u32, config: AppConfig, ocr_initialized: bool) -> (Phase, Step) {
    if ocr_initialized {
        (Phase::AwaitingCapture, Step::CaptureNick { hwnd, coords: config.ocr_coords })
    } else {
        (Phase::AwaitingOcr, Step::InitializeOcr { language: config.idioma_ocr@ })
    }
}

/// The first step of an analysis, and the phase that waits for it.
///
/// The nickname is, in this order of preference: the one that the caller
/// supplies; the one in a fresh cache entry for the window, unless a new
/// capture is forced; the one that the OCR engine is now asked to read.
pub open spec fn first_step(
    hwnd: u32,
    config: AppConfig,
    manual_nick: Option<String>,
    force_new_capture: bool,
    entries: Map<u32, NickCacheEntry>,
    ocr_initialized: bool,
    now: u64,
) -> (Phase, Step) {
    match manual_nick {
        Some(nick) => (Phase::AwaitingStats, fetch_step(config, nick@)),
        None => match cached_nick(entries, hwnd, now, force_new_capture) {
            Some(nick) => (Phase::AwaitingStats, fetch_step(config, nick)),
            None => ocr_step(hwnd, config, ocr_initialized),
        },
    }
}

/// The sentence for an engine that could not be initialized, up to the reason.
pub const OCR_INIT_FAILED: &'static str = "Error en la API: Error al inicializar OCR: ";

/// The sentence for a reading that holds no nickname.
pub const NO_NICK: &'static str = "Error en la API: No se pudo detectar nick en la imagen";

/// The sentence for statistics that could not be fetched, up to the reason.
pub const STATS_FAILED: &'static str = "Error al obtener estadísticas: ";

/// The words that stand in the place of a commentary that could not be
/// written, up to the reason.
pub const REPORT_FAILED: &'static str = "Error en análisis: ";

/// The sentence for a report that does not answer the step that was asked for.
pub const OUT_OF_TURN: &'static str = "Error desconocido: evento fuera de turno";

/// The text that opens the result once the statistics are there: the line
/// of statistics and an empty line. It opens every result, whatever the
/// settings say of what the front end shows.
pub open spec fn stats_block(stats: PlayerStats, config: AppConfig) -> Seq<char> {
    formatted_stats(stats, config) + "\n\n"@
}

/// A commentary is asked for: the settings want one and hold an API key.
pub open spec fn wants_report(config: AppConfig) -> bool {
    config.mostrar_analisis && config.openai_api_key@.len() > 0
}

/// The entry that the cache gets for a reading made at `now`.
pub open spec fn entry_for(result: OcrResult, now: u64) -> NickCacheEntry {
    NickCacheEntry {
        nick: result.nick,
        timestamp: now,
        img_hash: result.image_hash,
        confidence_bits: result.confidence_bits,
    }
}

/// An analysis after an event, as plain values.
pub struct Advance {
    /// The phase after the event.
    pub phase: Phase,
    /// The text gathered after the event.
    pub response: Seq<char>,
    /// What the host is asked to do.
    pub step: Step,
    /// Whether the cache gets an entry for the window, and which.
    pub written: Option<NickCacheEntry>,
    /// Whether the engine counts as initialized after the event.
    pub ocr_initialized: bool,
}

/// A step that ends the analysis with a failure.
pub open spec fn failed(message: Seq<char>, ocr_initialized: bool) -> Advance {
    Advance {
        phase: Phase::Done,
        response: Seq::empty(),
        step: Step::Finish(Err(message)),
        written: None,
        ocr_initialized,
    }
}

/// What follows from `event` for an analysis in `phase`.
///
/// * The engine is initialized: the nickname is read. It is not: the
///   analysis fails.
/// * The engine has read: a reading that holds no nickname fails the
///   analysis and leaves the cache as it is; any other is written to the
///   cache and has the statistics fetched. The engine failed: so does the
///   analysis, and the cache stays as it is.
/// * The statistics are there: the result opens with them. If a commentary
///   is asked for, it is requested; if not, the analysis ends. They are not:
///   the analysis fails.
/// * The commentary is there: it is added and the analysis ends. It is not:
///   the reason is added in its place and the analysis ends all the same,
///   with the statistics.
/// * An event that does not answer what was asked for fails the analysis.
pub open spec fn next_step(
    phase: Phase,
    response: Seq<char>,
    hwnd: u32,
    config: AppConfig,
    event: Event,
    ocr_initialized: bool,
) -> Advance {
    match (phase, event) {
        (Phase::AwaitingOcr, Event::OcrReady(Ok(_))) => Advance {
            phase: Phase::AwaitingCapture,
            response,
            step: Step::CaptureNick { hwnd, coords: config.ocr_coords },
            written: None,
            ocr_initialized: true,
        },
        (Phase::AwaitingOcr, Event::OcrReady(Err(reason))) => failed(
            OCR_INIT_FAILED@ + reason@,
            ocr_initialized,
        ),
        (Phase::AwaitingCapture, Event::NickRead { reading: Ok(result), now }) => if is_sentinel(
            result.nick@,
        ) {
            failed(NO_NICK@, ocr_initialized)
        } else {
            Advance {
                phase: Phase::AwaitingStats,
                response,
                step: fetch_step(config, result.nick@),
                written: Some(entry_for(result, now)),
                ocr_initialized,
            }
        },
        (Phase::AwaitingCapture, Event::NickRead { reading: Err(failure), now }) => failed(
            failure.text(),
            ocr_initialized,
        ),
        (Phase::AwaitingStats, Event::StatsFetched(Ok(stats))) => if wants_report(config) {
            Advance {
                phase: Phase::AwaitingReport,
                response: stats_block(stats, config),
                step: Step::WriteReport { stats, api_key: config.openai_api_key@ },
                written: None,
                ocr_initialized,
            }
        } else {
            Advance {
                phase: Phase::Done,
                response: stats_block(stats, config),
                step: Step::Finish(Ok(stats_block(stats, config))),
                written: None,
                ocr_initialized,
            }
        },
        (Phase::AwaitingStats, Event::StatsFetched(Err(reason))) => failed(
            STATS_FAILED@ + reason@,
            ocr_initialized,
        ),
        (Phase::AwaitingReport, Event::ReportWritten(Ok(report))) => Advance {
            phase: Phase::Done,
            response: response + report@,
            step: Step::Finish(Ok(response + report@)),
            written: None,
            ocr_initialized,
        },
        (Phase::AwaitingReport, Event::ReportWritten(Err(reason))) => Advance {
            phase: Phase::Done,
            response: response + REPORT_FAILED@ + reason@,
            step: Step::Finish(Ok(response + REPORT_FAILED@ + reason@)),
            written: None,
            ocr_initialized,
        },
        _ => failed(OUT_OF_TURN@, ocr_initialized),
    }
}

fn fetch_action(config: &AppConfig, nick: String) -> (action: Action)
    ensures
        action@ == fetch_step(*config, nick@),
{
    Action::FetchStats {
        nick,
        sala: config.sala_default.clone(),
        token: config.token.clone(),
        server_url: config.server_url.clone(),
    }
}

/// Begins the analysis of the table in the window `hwnd` and names the first
/// thing to do. Neither the cache nor the engine's state is changed.
pub fn analyze_table(
    resolver: &Resolver,
    hwnd: u32,
    config: &AppConfig,
    manual_nick: Option<String>,
    force_new_capture: bool,
    now: u64,
) -> (begun: (Analysis, Action))
    ensures
        (begun.0.phase, begun.1@) == first_step(
            hwnd,
            *config,
            manual_nick,
            force_new_capture,
            resolver.cache@,
            resolver.ocr_initialized,
            now,
        ),
        begun.0.hwnd == hwnd,
        begun.0.response@ == Seq::<char>::empty(),
{
    let nick = match manual_nick {
        Some(nick) => Some(nick),
        None => resolver.cache.lookup(hwnd, now, force_new_capture),
    };
    match nick {
        Some(nick) => (
            Analysis { phase: Phase::AwaitingStats, hwnd, response: String::new() },
            fetch_action(config, nick),
        ),
        None => {
            if resolver.ocr_initialized {
                (
                    Analysis { phase: Phase::AwaitingCapture, hwnd, response: String::new() },
                    Action::CaptureNick { hwnd, coords: config.ocr_coords },
                )
            } else {
                (
                    Analysis { phase: Phase::AwaitingOcr, hwnd, response: String::new() },
                    Action::InitializeOcr { language: config.idioma_ocr.clone() },
                )
            }
        },
    }
}

impl Analysis {
    fn fail(&mut self, message: String) -> (action: Action)
        ensures
            final(self).phase == Phase::Done,
            final(self).hwnd == old(self).hwnd,
            final(self).response@ == Seq::<char>::empty(),
            action@ == Step::Finish(Err(message@)),
    {
        self.phase = Phase::Done;
        self.response = String::new();
        Action::Finish(Err(message))
    }

    /// Takes the host's report and names the next thing to do.
    pub fn advance(&mut self, resolver: &mut Resolver, config: &AppConfig, event: Event) -> (action:
        Action)
        ensures
            final(self).hwnd == old(self).hwnd,
            ({
                let after = next_step(
                    old(self).phase,
                    old(self).response@,
                    old(self).hwnd,
                    *config,
                    event,
                    old(resolver).ocr_initialized,
                );
                &&& final(self).phase == after.phase
                &&& final(self).response@ == after.response
                &&& action@ == after.step
                &&& final(resolver).ocr_initialized == after.ocr_initialized
                &&& final(resolver).cache@ == (match after.written {
                    Some(entry) => old(resolver).cache@.insert(old(self).hwnd, entry),
                    None => old(resolver).cache@,
                })
            }),
    {
        let phase = self.phase;
        match event {
            Event::OcrReady(outcome) => {
                if phase != Phase::AwaitingOcr {
                    return self.fail(OUT_OF_TURN.to_owned());
                }
                match outcome {
                    Ok(_) => {
                        resolver.ocr_initialized = true;
                        self.phase = Phase::AwaitingCapture;
                        Action::CaptureNick { hwnd: self.hwnd, coords: config.ocr_coords }
                    },
                    Err(reason) => self.fail(join(OCR_INIT_FAILED, reason.as_str())),
                }
            },
            Event::NickRead { reading, now } => {
                if phase != Phase::AwaitingCapture {
                    return self.fail(OUT_OF_TURN.to_owned());
                }
                match reading {
                    Ok(result) => {
                        if is_sentinel_nick(result.nick.as_str()) {
                            self.fail(NO_NICK.to_owned())
                        } else {
                            let nick = result.nick.clone();
                            resolver.cache.put(
                                self.hwnd,
                                NickCacheEntry {
                                    nick: result.nick,
                                    timestamp: now,
                                    img_hash: result.image_hash,
                                    confidence_bits: result.confidence_bits,
                                },
                            );
                            self.phase = Phase::AwaitingStats;
                            fetch_action(config, nick)
                        }
                    },
                    Err(failure) => self.fail(failure.to_text()),
                }
            },
            Event::StatsFetched(outcome) => {
                if phase != Phase::AwaitingStats {
                    return self.fail(OUT_OF_TURN.to_owned());
                }
                match outcome {
                    Ok(stats) => {
                        let block = join(format_stats(&stats, config).as_str(), "\n\n");
                        if config.mostrar_analisis && !config.openai_api_key.as_str().is_empty() {
                            self.phase = Phase::AwaitingReport;
                            self.response = block;
                            Action::WriteReport { stats, api_key: config.openai_api_key.clone() }
                        } else {
                            self.phase = Phase::Done;
                            self.response = block.clone();
                            Action::Finish(Ok(block))
                        }
                    },
                    Err(reason) => self.fail(join(STATS_FAILED, reason.as_str())),
                }
            },
            Event::ReportWritten(outcome) => {
                if phase != Phase::AwaitingReport {
                    return self.fail(OUT_OF_TURN.to_owned());
                }
                let mut text = self.response.clone();
                match outcome {
                    Ok(report) => {
                        text.append(report.as_str());
                    },
                    Err(reason) => {
                        text.append(REPORT_FAILED);
                        text.append(reason.as_str());
                    },
                }
                self.phase = Phase::Done;
                self.response = text.clone();
                Action::Finish(Ok(text))
            },
        }
    }
}

/// The steps that an analysis names in answer to `events`, one for each,
/// from the phase and the text at which it stands.
pub open spec fn steps_after(
    phase: Phase,
    response: Seq<char>,
    hwnd: u32,
    config: AppConfig,
    events: Seq<Event>,
    ocr_initialized: bool,
) -> Seq<Step>
    decreases events.len(),
{
    if events.len() == 0 {
        Seq::empty()
    } else {
        let after = next_step(phase, response, hwnd, config, events[0], ocr_initialized);
        seq![after.step] + steps_after(
            after.phase,
            after.response,
            hwnd,
            config,
            events.drop_first(),
            after.ocr_initialized,
        )
    }
}

/// The nickname is settled: the analysis is past the point at which it asks for one.
pub open spec fn nick_is_settled(phase: Phase) -> bool {
    phase == Phase::AwaitingStats || phase == Phase::AwaitingReport || phase == Phase::Done
}

/// A reading that holds no nickname (an empty one, `Error`, `ErrorOCR`,
/// `NoText`) fails the analysis with the sentence for it: the statistics are
/// not fetched. So does any failure of the bridge, with its own sentence.
/// Either way the cache is left as it is, so that no later lookup can yield
/// such a reading as a nickname.
pub proof fn lemma_unreadable_nick_fails(
    response: Seq<char>,
    hwnd: u32,
    config: AppConfig,
    reading: Result<OcrResult, AppError>,
    now: u64,
    ocr_initialized: bool,
)
    requires
        reading matches Ok(result) ==> is_sentinel(result.nick@),
    ensures
        ({
            let after = next_step(
                Phase::AwaitingCapture,
                response,
                hwnd,
                config,
                Event::NickRead { reading, now },
                ocr_initialized,
            );
            &&& after.phase == Phase::Done
            &&& after.written is None
            &&& after.step is Finish
            &&& after.step->Finish_0 is Err
            &&& reading is Ok ==> after.step == Step::Finish(Err(NO_NICK@))
            &&& reading matches Err(failure) ==> after.step == Step::Finish(Err(failure.text()))
        }),
{
}

/// A nickname that the caller supplies is used as it is, whatever the cache
/// holds, whether or not a new capture is forced and whatever the state of
/// the engine: the first step fetches the statistics for that nickname.
pub proof fn lemma_manual_nick_goes_first(
    hwnd: u32,
    config: AppConfig,
    nick: String,
    force_new_capture: bool,
    entries: Map<u32, NickCacheEntry>,
    ocr_initialized: bool,
    now: u64,
)
    ensures
        first_step(hwnd, config, Some(nick), force_new_capture, entries, ocr_initialized, now) == (
            Phase::AwaitingStats,
            fetch_step(config, nick@),
        ),
{
}

/// Once the nickname is settled, whatever the host reports, no step runs the
/// OCR engine, none fetches statistics again, and the cache is not written.
/// With `lemma_manual_nick_goes_first`: an analysis with a supplied nickname
/// fetches the statistics once, for that nickname, and never runs the engine.
pub proof fn lemma_settled_nick_stays(
    phase: Phase,
    response: Seq<char>,
    hwnd: u32,
    config: AppConfig,
    events: Seq<Event>,
    ocr_initialized: bool,
)
    requires
        nick_is_settled(phase),
    ensures
        steps_after(phase, response, hwnd, config, events, ocr_initialized).len() == events.len(),
        forall|i: int|
            0 <= i < events.len() ==> {
                let step = #[trigger] steps_after(
                    phase,
                    response,
                    hwnd,
                    config,
                    events,
                    ocr_initialized,
                )[i];
                !step.uses_ocr() && !(step is FetchStats)
            },
        events.len() > 0 ==> next_step(
            phase,
            response,
            hwnd,
            config,
            events[0],
            ocr_initialized,
        ).written is None,
    decreases events.len(),
{
    if events.len() > 0 {
        let after = next_step(phase, response, hwnd, config, events[0], ocr_initialized);
        assert(nick_is_settled(after.phase));
        lemma_settled_nick_stays(
            after.phase,
            after.response,
            hwnd,
            config,
            events.drop_first(),
            after.ocr_initialized,
        );
    }
}

/// What the cache is given is a nickname: no step writes an entry that
/// holds an empty nickname or one of the words for a failed reading.
pub proof fn lemma_cache_gets_no_sentinel(
    phase: Phase,
    response: Seq<char>,
    hwnd: u32,
    config: AppConfig,
    event: Event,
    ocr_initialized: bool,
)
    ensures
        next_step(phase, response, hwnd, config, event, ocr_initialized).written matches Some(
            entry,
        ) ==> !is_sentinel(entry.nick@),
{
}

/// Once the statistics are fetched, the result opens with the line of
/// statistics, whatever the settings: the text gathered is that line and an
/// empty line, it is not empty, and where no commentary is asked for it is
/// the result.
pub proof fn lemma_fetched_stats_open_the_result(
    hwnd: u32,
    config: AppConfig,
    stats: PlayerStats,
    ocr_initialized: bool,
)
    ensures
        ({
            let fetched = next_step(
                Phase::AwaitingStats,
                Seq::empty(),
                hwnd,
                config,
                Event::StatsFetched(Ok(stats)),
                ocr_initialized,
            );
            &&& fetched.response == formatted_stats(stats, config) + "\n\n"@
            &&& fetched.response.len() > 0
            &&& formatted_stats(stats, config).is_prefix_of(fetched.response)
            &&& !wants_report(config) ==> fetched.step == Step::Finish(Ok(fetched.response))
            &&& wants_report(config) ==> fetched.step == (Step::WriteReport {
                stats,
                api_key: config.openai_api_key@,
            })
        }),
{
    reveal_strlit("\n\n");
}

/// Where the statistics were fetched and the commentary could not be
/// written, the analysis still succeeds: its text is not empty, it opens
/// with the line of statistics, and the reason why there is no commentary
/// follows. A commentary that was written follows the statistics likewise.
pub proof fn lemma_report_failure_keeps_stats(
    hwnd: u32,
    config: AppConfig,
    stats: PlayerStats,
    outcome: Result<String, String>,
    ocr_initialized: bool,
)
    requires
        wants_report(config),
    ensures
        ({
            let fetched = next_step(
                Phase::AwaitingStats,
                Seq::empty(),
                hwnd,
                config,
                Event::StatsFetched(Ok(stats)),
                ocr_initialized,
            );
            let ended = next_step(
                fetched.phase,
                fetched.response,
                hwnd,
                config,
                Event::ReportWritten(outcome),
                fetched.ocr_initialized,
            );
            let line = formatted_stats(stats, config) + "\n\n"@;
            let text = match outcome {
                Ok(report) => line + report@,
                Err(reason) => line + REPORT_FAILED@ + reason@,
            };
            &&& ended.step == Step::Finish(Ok(text))
            &&& text.len() > 0
            &&& formatted_stats(stats, config).is_prefix_of(text)
            &&& line.is_prefix_of(text)
        }),
{
    reveal_strlit("\n\n");
    let line = formatted_stats(stats, config) + "\n\n"@;
    match outcome {
        Ok(report) => {
            assert(line =~= (line + report@).subrange(0, line.len() as int));
            assert(formatted_stats(stats, config) =~= (line + report@).subrange(
                0,
                formatted_stats(stats, config).len() as int,
            ));
        },
        Err(reason) => {
            let text = line + REPORT_FAILED@ + reason@;
            assert(line =~= text.subrange(0, line.len() as int));
            assert(formatted_stats(stats, config) =~= text.subrange(
                0,
                formatted_stats(stats, config).len() as int,
            ));
        },
    }
}

/// Without a supplied nickname, an entry written for the window at its own
/// `timestamp` decides the first step: while less than the time to live has
/// passed and no new capture is forced, the statistics are fetched for the
/// cached nickname; from then on, or whenever a new capture is forced, the
/// OCR engine is run.
pub proof fn lemma_cache_decides_first_step(
    hwnd: u32,
    config: AppConfig,
    force_new_capture: bool,
    entries: Map<u32, NickCacheEntry>,
    entry: NickCacheEntry,
    ocr_initialized: bool,
    now: u64,
)
    ensures
        ({
            let first = first_step(
                hwnd,
                config,
                None,
                force_new_capture,
                entries.insert(hwnd, entry),
                ocr_initialized,
                now,
            );
            if !force_new_capture && now - entry.timestamp < NICK_TTL_SECONDS {
                first == (Phase::AwaitingStats, fetch_step(config, entry.nick@))
            } else {
                first.1.uses_ocr()
            }
        }),
{
}

/// Without a supplied nickname and with an empty cache, as after `clear`,
/// the OCR engine is run, whatever the window and the time.
pub proof fn lemma_empty_cache_runs_ocr(
    hwnd: u32,
    config: AppConfig,
    force_new_capture: bool,
    ocr_initialized: bool,
    now: u64,
)
    ensures
        first_step(
            hwnd,
            config,
            None,
            force_new_capture,
            Map::<u32, NickCacheEntry>::empty(),
            ocr_initialized,
            now,
        ).1.uses_ocr(),
{
}

} // verus!
