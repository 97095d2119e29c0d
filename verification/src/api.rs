//! The statistics of a player, the requests that fetch them and ask for a
//! report on them, and what the replies mean.
//!
//! Nothing here touches the network. A caller sends what `stats_request` and
//! `analysis_request` describe and hands the replies to `get_player_stats`
//! and `analyze_stats`.

use vstd::prelude::*;
use vstd::string::StringExecFns;
use crate::json::{json_text_at, text_at};
use crate::text::{
    first_index, has_substring, join, lemma_first_occurrence_unique, split_once, text_eq, trim,
    trimmed,
};

verus! {

/// The statistics of one player, each as the service writes it.
pub struct PlayerStats {
    pub player_name: String,
    pub vpip: String,
    pub pfr: String,
    pub three_bet: String,
    pub fold_to_3bet_pct: String,
    pub wtsd: String,
    pub wsd: String,
    pub cbet_flop: String,
    pub cbet_turn: String,
    pub fold_to_flop_cbet_pct: String,
    pub fold_to_turn_cbet_pct: String,
    pub limp_pct: Option<String>,
    pub limp_raise_pct: Option<String>,
    pub four_bet_preflop_pct: Option<String>,
    pub fold_to_4bet_pct: Option<String>,
    pub probe_bet_turn_pct: Option<String>,
    pub bet_river_pct: Option<String>,
    pub fold_to_river_bet_pct: Option<String>,
    pub overbet_turn_pct: Option<String>,
    pub overbet_river_pct: Option<String>,
    pub wsdwbr_pct: Option<String>,
    pub wwsf: String,
    pub total_manos: String,
    pub bb_100: String,
    pub win_usd: String,
}

impl Clone for PlayerStats {
    fn clone(&self) -> (copy: Self)
        ensures
            copy == *self,
    {
        PlayerStats {
            player_name: self.player_name.clone(),
            vpip: self.vpip.clone(),
            pfr: self.pfr.clone(),
            three_bet: self.three_bet.clone(),
            fold_to_3bet_pct: self.fold_to_3bet_pct.clone(),
            wtsd: self.wtsd.clone(),
            wsd: self.wsd.clone(),
            cbet_flop: self.cbet_flop.clone(),
            cbet_turn: self.cbet_turn.clone(),
            fold_to_flop_cbet_pct: self.fold_to_flop_cbet_pct.clone(),
            fold_to_turn_cbet_pct: self.fold_to_turn_cbet_pct.clone(),
            limp_pct: self.limp_pct.clone(),
            limp_raise_pct: self.limp_raise_pct.clone(),
            four_bet_preflop_pct: self.four_bet_preflop_pct.clone(),
            fold_to_4bet_pct: self.fold_to_4bet_pct.clone(),
            probe_bet_turn_pct: self.probe_bet_turn_pct.clone(),
            bet_river_pct: self.bet_river_pct.clone(),
            fold_to_river_bet_pct: self.fold_to_river_bet_pct.clone(),
            overbet_turn_pct: self.overbet_turn_pct.clone(),
            overbet_river_pct: self.overbet_river_pct.clone(),
            wsdwbr_pct: self.wsdwbr_pct.clone(),
            wwsf: self.wwsf.clone(),
            total_manos: self.total_manos.clone(),
            bb_100: self.bb_100.clone(),
            win_usd: self.win_usd.clone(),
        }
    }
}

/// An optional statistic as it is shown: a missing one reads `0`.
pub open spec fn or_zero(value: Option<String>) -> Seq<char> {
    match value {
        Some(text) => text@,
        None => "0"@,
    }
}

fn shown(value: &Option<String>) -> (text: String)
    ensures
        text@ == or_zero(*value),
{
    match value {
        Some(text) => text.clone(),
        None => "0".to_owned(),
    }
}

/// The statistic that `key` names; `None` where `key` names none.
pub open spec fn stat_text(stats: PlayerStats, key: Seq<char>) -> Option<Seq<char>> {
    if key == "vpip"@ {
        Some(stats.vpip@)
    } else if key == "pfr"@ {
        Some(stats.pfr@)
    } else if key == "three_bet"@ {
        Some(stats.three_bet@)
    } else if key == "fold_to_3bet_pct"@ {
        Some(stats.fold_to_3bet_pct@)
    } else if key == "wtsd"@ {
        Some(stats.wtsd@)
    } else if key == "wsd"@ {
        Some(stats.wsd@)
    } else if key == "cbet_flop"@ {
        Some(stats.cbet_flop@)
    } else if key == "cbet_turn"@ {
        Some(stats.cbet_turn@)
    } else if key == "fold_to_flop_cbet_pct"@ {
        Some(stats.fold_to_flop_cbet_pct@)
    } else if key == "fold_to_turn_cbet_pct"@ {
        Some(stats.fold_to_turn_cbet_pct@)
    } else if key == "wwsf"@ {
        Some(stats.wwsf@)
    } else if key == "total_manos"@ {
        Some(stats.total_manos@)
    } else if key == "bb_100"@ {
        Some(stats.bb_100@)
    } else if key == "win_usd"@ {
        Some(stats.win_usd@)
    } else if key == "limp_pct"@ {
        Some(or_zero(stats.limp_pct))
    } else if key == "limp_raise_pct"@ {
        Some(or_zero(stats.limp_raise_pct))
    } else if key == "four_bet_preflop_pct"@ {
        Some(or_zero(stats.four_bet_preflop_pct))
    } else if key == "fold_to_4bet_pct"@ {
        Some(or_zero(stats.fold_to_4bet_pct))
    } else if key == "probe_bet_turn_pct"@ {
        Some(or_zero(stats.probe_bet_turn_pct))
    } else if key == "bet_river_pct"@ {
        Some(or_zero(stats.bet_river_pct))
    } else if key == "fold_to_river_bet_pct"@ {
        Some(or_zero(stats.fold_to_river_bet_pct))
    } else if key == "overbet_turn_pct"@ {
        Some(or_zero(stats.overbet_turn_pct))
    } else if key == "overbet_river_pct"@ {
        Some(or_zero(stats.overbet_river_pct))
    } else if key == "wsdwbr_pct"@ {
        Some(or_zero(stats.wsdwbr_pct))
    } else {
        None
    }
}

/// The statistic that `key` names.
pub fn stat_value(stats: &PlayerStats, key: &str) -> (value: Option<String>)
    ensures
        value is Some == stat_text(*stats, key@) is Some,
        value matches Some(text) ==> stat_text(*stats, key@) == Some(text@),
{
    if text_eq(key, "vpip") {
        Some(stats.vpip.clone())
    } else if text_eq(key, "pfr") {
        Some(stats.pfr.clone())
    } else if text_eq(key, "three_bet") {
        Some(stats.three_bet.clone())
    } else if text_eq(key, "fold_to_3bet_pct") {
        Some(stats.fold_to_3bet_pct.clone())
    } else if text_eq(key, "wtsd") {
        Some(stats.wtsd.clone())
    } else if text_eq(key, "wsd") {
        Some(stats.wsd.clone())
    } else if text_eq(key, "cbet_flop") {
        Some(stats.cbet_flop.clone())
    } else if text_eq(key, "cbet_turn") {
        Some(stats.cbet_turn.clone())
    } else if text_eq(key, "fold_to_flop_cbet_pct") {
        Some(stats.fold_to_flop_cbet_pct.clone())
    } else if text_eq(key, "fold_to_turn_cbet_pct") {
        Some(stats.fold_to_turn_cbet_pct.clone())
    } else if text_eq(key, "wwsf") {
        Some(stats.wwsf.clone())
    } else if text_eq(key, "total_manos") {
        Some(stats.total_manos.clone())
    } else if text_eq(key, "bb_100") {
        Some(stats.bb_100.clone())
    } else if text_eq(key, "win_usd") {
        Some(stats.win_usd.clone())
    } else if text_eq(key, "limp_pct") {
        Some(shown(&stats.limp_pct))
    } else if text_eq(key, "limp_raise_pct") {
        Some(shown(&stats.limp_raise_pct))
    } else if text_eq(key, "four_bet_preflop_pct") {
        Some(shown(&stats.four_bet_preflop_pct))
    } else if text_eq(key, "fold_to_4bet_pct") {
        Some(shown(&stats.fold_to_4bet_pct))
    } else if text_eq(key, "probe_bet_turn_pct") {
        Some(shown(&stats.probe_bet_turn_pct))
    } else if text_eq(key, "bet_river_pct") {
        Some(shown(&stats.bet_river_pct))
    } else if text_eq(key, "fold_to_river_bet_pct") {
        Some(shown(&stats.fold_to_river_bet_pct))
    } else if text_eq(key, "overbet_turn_pct") {
        Some(shown(&stats.overbet_turn_pct))
    } else if text_eq(key, "overbet_river_pct") {
        Some(shown(&stats.overbet_river_pct))
    } else if text_eq(key, "wsdwbr_pct") {
        Some(shown(&stats.wsdwbr_pct))
    } else {
        None
    }
}

/// A stretch of the prompt.
pub const PROMPT_OPENING: &'static str = "Eres un jugador profesional de cash online (NL50–NL100). Vas a analizar estadísticas de un oponente y generar un informe **corto, claro y accionable**, como si fuera una nota para otro reg en Discord.\n\n🎯 Estilo directo, sin relleno, sin explicaciones teóricas. Evita tecnicismos largos. Usa lenguaje real de poker: \"LAG\", \"se frena en turn\", \"flotar flop\", \"3B light\", \"spots CO vs BTN\", etc.\n\n📌 Evalúa stats **en conjunto**, no por separado. Ejemplos:\n- VPIP alto + PFR bajo = pasivo.\n- C-Bet flop alta + Turn baja = agresión inconsistente.\n- WTSD alto + WSD bajo = paga mucho, gana poco.\n- Fold al 3-Bet solo es leak si es >65% o <35%, o no cuadra con su estilo.\n\n📌 Gap VPIP–PFR detectado: ";

/// A stretch of the prompt.
pub const PROMPT_AFTER_GAP_LABEL: &'static str = "\n\n📌 Si tiene menos de 1000 manos, di que el sample es bajo y que los reads son preliminares.\n\n❌ No incluyas ninguna lista de estadísticas numéricas al final ni pongas \"Stats clave\". Solo el análisis.\n\n---\n\n📄 FORMATO EXACTO DEL INFORME:\n\n🎯 Informe sobre ";

/// A stretch of the prompt.
pub const PROMPT_AFTER_NOMBRE_JUGADOR: &'static str = ":\n\n1️⃣ Estilo de juego: \n[Estilo en 1–2 líneas, con términos comunes entre regs]\n\n2️⃣ Errores explotables:\n- [Leak 1 corto]\n- [Leak 2 corto]\n- [Leak 3 corto]\n\n3️⃣ Cómo explotarlo:\n[Ajustes concisos, estilo \"3Btea más en BTN\", \"flota flop seco\", etc.]\n\n---\n\n📊 Stats disponibles:\n- Manos: ";

/// A stretch of the prompt.
pub const PROMPT_AFTER_TOTAL_MANOS: &'static str = "\n- BB/100: ";

/// A stretch of the prompt.
pub const PROMPT_AFTER_BB_100: &'static str = "\n- Ganancias USD: ";

/// A stretch of the prompt.
pub const PROMPT_AFTER_WIN_USD: &'static str = "\n- VPIP: ";

/// A stretch of the prompt.
pub const PROMPT_AFTER_VPIP: &'static str = "%\n- PFR: ";

/// A stretch of the prompt.
pub const PROMPT_AFTER_PFR: &'static str = "%\n- 3-Bet: ";

/// A stretch of the prompt.
pub const PROMPT_AFTER_THREE_BET: &'static str = "%\n- Fold to 3-Bet: ";

/// A stretch of the prompt.
pub const PROMPT_AFTER_FOLD_TO_3BET_PCT: &'static str = "%\n- 4-Bet: ";

/// A stretch of the prompt.
pub const PROMPT_AFTER_FOUR_BET_PREFLOP_PCT: &'static str = "%\n- Fold to 4-Bet: ";

/// A stretch of the prompt.
pub const PROMPT_AFTER_FOLD_TO_4BET_PCT: &'static str = "%\n- C-Bet Flop: ";

/// A stretch of the prompt.
pub const PROMPT_AFTER_CBET_FLOP: &'static str = "%\n- C-Bet Turn: ";

/// A stretch of the prompt.
pub const PROMPT_AFTER_CBET_TURN: &'static str = "%\n- WWSF: ";

/// A stretch of the prompt.
pub const PROMPT_AFTER_WWSF: &'static str = "%\n- WTSD: ";

/// A stretch of the prompt.
pub const PROMPT_AFTER_WTSD: &'static str = "%\n- WSD: ";

/// A stretch of the prompt.
pub const PROMPT_AFTER_WSD: &'static str = "%\n- Limp Preflop: ";

/// A stretch of the prompt.
pub const PROMPT_AFTER_LIMP_PCT: &'static str = "%\n- Limp-Raise: ";

/// A stretch of the prompt.
pub const PROMPT_AFTER_LIMP_RAISE_PCT: &'static str = "%\n- Fold to Flop C-Bet: ";

/// A stretch of the prompt.
pub const PROMPT_AFTER_FOLD_TO_FLOP_CBET_PCT: &'static str = "%\n- Fold to Turn C-Bet: ";

/// A stretch of the prompt.
pub const PROMPT_AFTER_FOLD_TO_TURN_CBET_PCT: &'static str = "%\n- Probe Bet Turn: ";

/// A stretch of the prompt.
pub const PROMPT_AFTER_PROBE_BET_TURN_PCT: &'static str = "%\n- Fold to River Bet: ";

/// A stretch of the prompt.
pub const PROMPT_AFTER_FOLD_TO_RIVER_BET_PCT: &'static str = "%\n- Bet River: ";

/// A stretch of the prompt.
pub const PROMPT_AFTER_BET_RIVER_PCT: &'static str = "%\n- Overbet Turn: ";

/// A stretch of the prompt.
pub const PROMPT_AFTER_OVERBET_TURN_PCT: &'static str = "%\n- Overbet River: ";

/// A stretch of the prompt.
pub const PROMPT_AFTER_OVERBET_RIVER_PCT: &'static str = "%\n- WSDwBR: ";

/// A stretch of the prompt.
pub const PROMPT_CLOSING: &'static str = "%";

/// The prompt sent to the language model: the instructions, the label of the
/// gap between VPIP and PFR, the layout of the report with the player's name
/// in its heading, and the statistics, a missing one reading `0`.
pub open spec fn analysis_prompt(player: Seq<char>, gap_label: Seq<char>, stats: PlayerStats) -> Seq<char> {
    PROMPT_OPENING@
        + gap_label + PROMPT_AFTER_GAP_LABEL@
        + player + PROMPT_AFTER_NOMBRE_JUGADOR@
        + stats.total_manos@ + PROMPT_AFTER_TOTAL_MANOS@
        + stats.bb_100@ + PROMPT_AFTER_BB_100@
        + stats.win_usd@ + PROMPT_AFTER_WIN_USD@
        + stats.vpip@ + PROMPT_AFTER_VPIP@
        + stats.pfr@ + PROMPT_AFTER_PFR@
        + stats.three_bet@ + PROMPT_AFTER_THREE_BET@
        + stats.fold_to_3bet_pct@ + PROMPT_AFTER_FOLD_TO_3BET_PCT@
        + or_zero(stats.four_bet_preflop_pct) + PROMPT_AFTER_FOUR_BET_PREFLOP_PCT@
        + or_zero(stats.fold_to_4bet_pct) + PROMPT_AFTER_FOLD_TO_4BET_PCT@
        + stats.cbet_flop@ + PROMPT_AFTER_CBET_FLOP@
        + stats.cbet_turn@ + PROMPT_AFTER_CBET_TURN@
        + stats.wwsf@ + PROMPT_AFTER_WWSF@
        + stats.wtsd@ + PROMPT_AFTER_WTSD@
        + stats.wsd@ + PROMPT_AFTER_WSD@
        + or_zero(stats.limp_pct) + PROMPT_AFTER_LIMP_PCT@
        + or_zero(stats.limp_raise_pct) + PROMPT_AFTER_LIMP_RAISE_PCT@
        + stats.fold_to_flop_cbet_pct@ + PROMPT_AFTER_FOLD_TO_FLOP_CBET_PCT@
        + stats.fold_to_turn_cbet_pct@ + PROMPT_AFTER_FOLD_TO_TURN_CBET_PCT@
        + or_zero(stats.probe_bet_turn_pct) + PROMPT_AFTER_PROBE_BET_TURN_PCT@
        + or_zero(stats.fold_to_river_bet_pct) + PROMPT_AFTER_FOLD_TO_RIVER_BET_PCT@
        + or_zero(stats.bet_river_pct) + PROMPT_AFTER_BET_RIVER_PCT@
        + or_zero(stats.overbet_turn_pct) + PROMPT_AFTER_OVERBET_TURN_PCT@
        + or_zero(stats.overbet_river_pct) + PROMPT_AFTER_OVERBET_RIVER_PCT@
        + or_zero(stats.wsdwbr_pct) + PROMPT_CLOSING@
}

/// The prompt sent to the language model.
pub fn create_analysis_prompt(nombre_jugador: &str, gap_label: &str, data: &PlayerStats) -> (prompt: String)
    ensures
        prompt@ == analysis_prompt(nombre_jugador@, gap_label@, *data),
{
    let mut prompt = String::from_str(PROMPT_OPENING);
    prompt.append(gap_label);
    prompt.append(PROMPT_AFTER_GAP_LABEL);
    prompt.append(nombre_jugador);
    prompt.append(PROMPT_AFTER_NOMBRE_JUGADOR);
    prompt.append(data.total_manos.as_str());
    prompt.append(PROMPT_AFTER_TOTAL_MANOS);
    prompt.append(data.bb_100.as_str());
    prompt.append(PROMPT_AFTER_BB_100);
    prompt.append(data.win_usd.as_str());
    prompt.append(PROMPT_AFTER_WIN_USD);
    prompt.append(data.vpip.as_str());
    prompt.append(PROMPT_AFTER_VPIP);
    prompt.append(data.pfr.as_str());
    prompt.append(PROMPT_AFTER_PFR);
    prompt.append(data.three_bet.as_str());
    prompt.append(PROMPT_AFTER_THREE_BET);
    prompt.append(data.fold_to_3bet_pct.as_str());
    prompt.append(PROMPT_AFTER_FOLD_TO_3BET_PCT);
    prompt.append(shown(&data.four_bet_preflop_pct).as_str());
    prompt.append(PROMPT_AFTER_FOUR_BET_PREFLOP_PCT);
    prompt.append(shown(&data.fold_to_4bet_pct).as_str());
    prompt.append(PROMPT_AFTER_FOLD_TO_4BET_PCT);
    prompt.append(data.cbet_flop.as_str());
    prompt.append(PROMPT_AFTER_CBET_FLOP);
    prompt.append(data.cbet_turn.as_str());
    prompt.append(PROMPT_AFTER_CBET_TURN);
    prompt.append(data.wwsf.as_str());
    prompt.append(PROMPT_AFTER_WWSF);
    prompt.append(data.wtsd.as_str());
    prompt.append(PROMPT_AFTER_WTSD);
    prompt.append(data.wsd.as_str());
    prompt.append(PROMPT_AFTER_WSD);
    prompt.append(shown(&data.limp_pct).as_str());
    prompt.append(PROMPT_AFTER_LIMP_PCT);
    prompt.append(shown(&data.limp_raise_pct).as_str());
    prompt.append(PROMPT_AFTER_LIMP_RAISE_PCT);
    prompt.append(data.fold_to_flop_cbet_pct.as_str());
    prompt.append(PROMPT_AFTER_FOLD_TO_FLOP_CBET_PCT);
    prompt.append(data.fold_to_turn_cbet_pct.as_str());
    prompt.append(PROMPT_AFTER_FOLD_TO_TURN_CBET_PCT);
    prompt.append(shown(&data.probe_bet_turn_pct).as_str());
    prompt.append(PROMPT_AFTER_PROBE_BET_TURN_PCT);
    prompt.append(shown(&data.fold_to_river_bet_pct).as_str());
    prompt.append(PROMPT_AFTER_FOLD_TO_RIVER_BET_PCT);
    prompt.append(shown(&data.bet_river_pct).as_str());
    prompt.append(PROMPT_AFTER_BET_RIVER_PCT);
    prompt.append(shown(&data.overbet_turn_pct).as_str());
    prompt.append(PROMPT_AFTER_OVERBET_TURN_PCT);
    prompt.append(shown(&data.overbet_river_pct).as_str());
    prompt.append(PROMPT_AFTER_OVERBET_RIVER_PCT);
    prompt.append(shown(&data.wsdwbr_pct).as_str());
    prompt.append(PROMPT_CLOSING);
    prompt
}

/// A byte that a URL may hold as it is: a letter, a digit, `-`, `.`, `_` or `~`.
pub open spec fn is_unreserved(byte: u8) -> bool {
    (0x30 <= byte <= 0x39) || (0x41 <= byte <= 0x5A) || (0x61 <= byte <= 0x7A) || byte == 0x2D
        || byte == 0x2E || byte == 0x5F || byte == 0x7E
}

/// The hexadecimal digit for `d`, which is below sixteen, in upper case.
pub open spec fn hex_digit(d: int) -> char {
    if d < 10 {
        (0x30 + d) as char
    } else {
        (0x41 + d - 10) as char
    }
}

/// `bytes` percent-encoded: an unreserved byte stands for itself, any other
/// is written as `%` and its two hexadecimal digits.
pub open spec fn percent_encoded(bytes: Seq<u8>) -> Seq<char>
    decreases bytes.len(),
{
    if bytes.len() == 0 {
        Seq::empty()
    } else if is_unreserved(bytes[0]) {
        seq![bytes[0] as char] + percent_encoded(bytes.drop_first())
    } else {
        seq!['%', hex_digit(bytes[0] as int / 16), hex_digit(bytes[0] as int % 16)]
            + percent_encoded(bytes.drop_first())
    }
}

/// Calls `urlencoding::encode`, which percent-encodes every byte of the
/// text's UTF-8 form except letters, digits, `-`, `_`, `.` and `~`, with
/// upper-case hexadecimal digits.
#[verifier::external_body]
fn url_encode(text: &str) -> (encoded: String)
    ensures
        encoded@ == percent_encoded(vstd::utf8::encode_utf8(text@)),
{
    urlencoding::encode(text).into_owned()
}

/// The request that fetches a player's statistics.
pub struct StatsRequest {
    /// Where the `GET` goes.
    pub url: String,
    /// The `Content-Type` header.
    pub content_type: String,
    /// The `Authorization` header, if one is sent.
    pub authorization: Option<String>,
}

/// The address of a player's statistics.
pub open spec fn stats_url(server_url: Seq<char>, sala: Seq<char>, nick: Seq<char>) -> Seq<char> {
    server_url + "/api/jugador/"@ + sala + "/"@ + percent_encoded(vstd::utf8::encode_utf8(nick))
}

/// The request that fetches the statistics of `nick` in the room `sala`. The
/// nickname is percent-encoded into the address. The token is sent as a
/// bearer token, and not at all where it is empty.
pub fn stats_request(nick: &str, sala: &str, token: &str, server_url: &str) -> (request:
    StatsRequest)
    ensures
        request.url@ == stats_url(server_url@, sala@, nick@),
        request.content_type@ == "application/json"@,
        token@.len() == 0 ==> request.authorization is None,
        token@.len() > 0 ==> request.authorization is Some && request.authorization->0@
            == "Bearer "@ + token@,
{
    let authorization = if token.is_empty() {
        None
    } else {
        Some(join("Bearer ", token))
    };
    let mut url = server_url.to_owned();
    url.append("/api/jugador/");
    url.append(sala);
    url.append("/");
    let encoded = url_encode(nick);
    url.append(encoded.as_str());
    StatsRequest { url, content_type: "application/json".to_owned(), authorization }
}

/// What came back for a `StatsRequest`.
pub enum StatsReply {
    /// The request could not be sent; the transport's message.
    Unreachable(String),
    /// The body could not be read; the transport's message.
    Unreadable(String),
    /// The service answered.
    Answered {
        /// Whether the status is a success.
        success: bool,
        /// The status, as it is shown.
        status: String,
        /// The body.
        body: String,
        /// The body read as statistics, or the reason why it holds none.
        decoded: Result<PlayerStats, String>,
    },
}

/// Why a reply yields no statistics; `None` where it yields them.
///
/// A reply with a successful status yields what its body decodes to. One
/// with another status fails with the message that the service put under
/// `error` in its body, and with the status where there is no such message.
pub open spec fn stats_failure(reply: StatsReply) -> Option<Seq<char>> {
    match reply {
        StatsReply::Unreachable(reason) => Some("Error de conexión: "@ + reason@),
        StatsReply::Unreadable(reason) => Some("Error leyendo cuerpo: "@ + reason@),
        StatsReply::Answered { success, status, body, decoded } => if success {
            match decoded {
                Ok(_) => None,
                Err(reason) => Some("Error al decodificar respuesta: "@ + reason@),
            }
        } else {
            match json_text_at(body@, "/error"@) {
                Some(message) => Some(message),
                None => Some("Error en la API: "@ + status@),
            }
        },
    }
}

/// The statistics that a reply holds, or the sentence that says why it holds none.
pub fn get_player_stats(reply: StatsReply) -> (outcome: Result<PlayerStats, String>)
    ensures
        outcome is Ok <==> stats_failure(reply) is None,
        outcome matches Ok(stats) ==> reply matches StatsReply::Answered { decoded: Ok(held), .. }
            && stats == held,
        outcome matches Err(message) ==> stats_failure(reply) == Some(message@),
{
    match reply {
        StatsReply::Unreachable(reason) => Err(join("Error de conexión: ", reason.as_str())),
        StatsReply::Unreadable(reason) => Err(join("Error leyendo cuerpo: ", reason.as_str())),
        StatsReply::Answered { success, status, body, decoded } => {
            if success {
                match decoded {
                    Ok(stats) => Ok(stats),
                    Err(reason) => Err(
                        join("Error al decodificar respuesta: ", reason.as_str()),
                    ),
                }
            } else {
                match text_at(body.as_str(), "/error") {
                    Some(message) => Err(message),
                    None => Err(join("Error en la API: ", status.as_str())),
                }
            }
        },
    }
}

/// The request that asks the language model for a report.
pub struct AnalysisRequest {
    /// Where the `POST` goes.
    pub url: String,
    /// The `Authorization` header.
    pub authorization: String,
    /// The model that is asked.
    pub model: String,
    /// The one message of the conversation, sent in the role of the user.
    pub prompt: String,
    /// The most tokens that the answer may have.
    pub max_tokens: u32,
    /// The sampling temperature, in tenths.
    pub temperature_tenths: u32,
}

/// The sentence for a missing API key.
pub const API_KEY_REQUIRED: &'static str =
    "Se requiere una API key de OpenAI para realizar el análisis";

/// The address of the language model.
pub const ANALYSIS_URL: &'static str = "https://api.openai.com/v1/chat/completions";

/// The request for a report on `data`, or the sentence that says that the API
/// key is missing: a key of nothing but whitespace is no key.
pub fn analysis_request(data: &PlayerStats, gap_label: &str, api_key: &str) -> (request: Result<
    AnalysisRequest,
    String,
>)
    ensures
        request is Err <==> trimmed(api_key@).len() == 0,
        request matches Err(message) ==> message@ == API_KEY_REQUIRED@,
        request matches Ok(sent) ==> {
            &&& sent.url@ == ANALYSIS_URL@
            &&& sent.authorization@ == "Bearer "@ + api_key@
            &&& sent.model@ == "gpt-3.5-turbo"@
            &&& sent.prompt@ == analysis_prompt(data.player_name@, gap_label@, *data)
            &&& sent.max_tokens == 300
            &&& sent.temperature_tenths == 7
        },
{
    if trim(api_key).is_empty() {
        return Err(API_KEY_REQUIRED.to_owned());
    }
    Ok(
        AnalysisRequest {
            url: ANALYSIS_URL.to_owned(),
            authorization: join("Bearer ", api_key),
            model: "gpt-3.5-turbo".to_owned(),
            prompt: create_analysis_prompt(data.player_name.as_str(), gap_label, data),
            max_tokens: 300,
            temperature_tenths: 7,
        },
    )
}

/// The words before which a report is cut: the model sometimes repeats the
/// statistics after its report.
pub const STATS_MARK: &'static str = "📊 Stats";

/// The report in what the model wrote: the text without the whitespace around
/// it, cut before the first `STATS_MARK` where there is one.
pub open spec fn report_text(content: Seq<char>) -> Seq<char> {
    let full = trimmed(content);
    if has_substring(full, STATS_MARK@) {
        trimmed(full.take(first_index(full, STATS_MARK@)))
    } else {
        full
    }
}

/// The report in what the model wrote.
pub fn clean_report(content: &str) -> (report: String)
    ensures
        report@ == report_text(content@),
{
    let full = trim(content);
    match split_once(full, STATS_MARK) {
        Some((before, after)) => {
            proof {
                lemma_first_occurrence_unique(full@, STATS_MARK@, before@.len() as int);
                assert(full@.take(before@.len() as int) =~= before@);
            }
            trim(before).to_owned()
        },
        None => full.to_owned(),
    }
}

/// What came back for an `AnalysisRequest`.
pub enum AnalysisReply {
    /// The request could not be sent; the transport's message.
    Unreachable(String),
    /// The service answered with a status that is no success; the status.
    Rejected(String),
    /// The service answered with a success and its body could not be read.
    Undecodable(String),
    /// The service answered with a success; the body.
    Answered(String),
}

/// What to do after an attempt.
pub enum AnalysisStep {
    /// Wait, then send the request again.
    Retry {
        /// How long to wait.
        wait_seconds: u64,
    },
    /// Stop with the report, or with the sentence that says why there is none.
    Finished(Result<String, String>),
}

/// How many times the request is sent at most.
pub const MAX_ATTEMPTS: u32 = 3;

/// How long to wait between two attempts.
pub const RETRY_WAIT_SECONDS: u64 = 2;

/// Where the report stands in the body of an answer.
pub const CONTENT_POINTER: &'static str = "/choices/0/message/content";

/// The attempts so far, this one included, leave another one.
pub open spec fn may_retry(attempt: u32) -> bool {
    attempt + 1 < MAX_ATTEMPTS
}

/// What an attempt's reply means once no further attempt follows it, or
/// where it is final in itself.
pub open spec fn analysis_outcome(reply: AnalysisReply) -> Result<Seq<char>, Seq<char>> {
    match reply {
        AnalysisReply::Unreachable(reason) => Err("Error de conexión con GPT: "@ + reason@),
        AnalysisReply::Rejected(status) => Err("Error en la API de GPT: "@ + status@),
        AnalysisReply::Undecodable(reason) => Err("Error al decodificar respuesta: "@ + reason@),
        AnalysisReply::Answered(body) => match crate::json::json_syntax_error(body@) {
            Some(reason) => Err("Error al decodificar respuesta: "@ + reason),
            None => match json_text_at(body@, CONTENT_POINTER@) {
                Some(content) => Ok(report_text(content)),
                None => Err("No se pudo extraer la respuesta generada por GPT"@),
            },
        },
    }
}

/// The reply is one after which the request is sent again while attempts are left.
pub open spec fn is_transient(reply: AnalysisReply) -> bool {
    reply is Unreachable || reply is Rejected
}

/// What to do after the attempt numbered `attempt`, counted from zero, has
/// been answered with `reply`.
///
/// A request that could not be sent, or that was answered with a status that
/// is no success, is sent again after a fixed wait, three times in all. Any
/// other reply ends the exchange: with the report, or with the reason why the
/// answer holds none.
pub fn analyze_stats(attempt: u32, reply: AnalysisReply) -> (step: AnalysisStep)
    ensures
        is_transient(reply) && may_retry(attempt) ==> step == (AnalysisStep::Retry {
            wait_seconds: RETRY_WAIT_SECONDS,
        }),
        !(is_transient(reply) && may_retry(attempt)) ==> step is Finished,
        step matches AnalysisStep::Finished(Ok(report)) ==> analysis_outcome(reply) == Ok::<
            Seq<char>,
            Seq<char>,
        >(report@),
        step matches AnalysisStep::Finished(Err(message)) ==> analysis_outcome(reply) == Err::<
            Seq<char>,
            Seq<char>,
        >(message@),
{
    match reply {
        AnalysisReply::Unreachable(reason) => {
            if attempt < MAX_ATTEMPTS - 1 {
                AnalysisStep::Retry { wait_seconds: RETRY_WAIT_SECONDS }
            } else {
                AnalysisStep::Finished(
                    Err(join("Error de conexión con GPT: ", reason.as_str())),
                )
            }
        },
        AnalysisReply::Rejected(status) => {
            if attempt < MAX_ATTEMPTS - 1 {
                AnalysisStep::Retry { wait_seconds: RETRY_WAIT_SECONDS }
            } else {
                AnalysisStep::Finished(Err(join("Error en la API de GPT: ", status.as_str())))
            }
        },
        AnalysisReply::Undecodable(reason) => AnalysisStep::Finished(
            Err(join("Error al decodificar respuesta: ", reason.as_str())),
        ),
        AnalysisReply::Answered(body) => {
            match crate::json::syntax_error(body.as_str()) {
                Some(reason) => AnalysisStep::Finished(
                    Err(join("Error al decodificar respuesta: ", reason.as_str())),
                ),
                None => match text_at(body.as_str(), CONTENT_POINTER) {
                    Some(content) => AnalysisStep::Finished(Ok(clean_report(content.as_str()))),
                    None => AnalysisStep::Finished(
                        Err("No se pudo extraer la respuesta generada por GPT".to_owned()),
                    ),
                },
            }
        },
    }
}

} // verus!
