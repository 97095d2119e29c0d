//! The bridge to the OCR engine: an external process that is started once
//! for each request and answers on its standard output.
//!
//! Starting the process is the caller's business. This module writes the
//! program text that the process is given and reads what it answered.

use vstd::prelude::*;
use vstd::string::StringExecFns;
use crate::error::{AppError, ErrorKind};
use crate::json::{
    json_number_bits_at, json_quoted, json_syntax_error, json_text_at, number_bits_at, quoted,
    syntax_error, text_at,
};
use crate::settings::OcrCoords;
use crate::text::{
    contains, decimal, decimal_text, has_substring, join, lowercase_of, signed_decimal,
    signed_decimal_text, strip_repeated_prefix, to_lowercase, trim, trim_start_matches, trimmed,
};
use crate::text_map::TextMap;

verus! {

/// What the engine read.
pub struct OcrResult {
    /// The nickname, without the `ID:` that a profile puts before it and
    /// without the whitespace around it.
    pub nick: String,
    /// How sure the engine is, as the bits of a double between zero and one.
    pub confidence_bits: u64,
    /// The hash of the picture that was read.
    pub image_hash: String,
}

/// What the platform knows of the window that is to be read.
pub enum WindowProbe {
    /// The platform cannot look at windows.
    Unsupported,
    /// There is no such window.
    Gone,
    /// The window, with its title.
    Found(String),
}

/// How a run of the engine ended.
pub enum BridgeRun {
    /// The engine's script is not installed; where it was looked for.
    ScriptMissing(String),
    /// The process could not be started; the system's message.
    NotStarted(String),
    /// The process ran.
    Exited {
        /// Whether it exited with code zero.
        success: bool,
        /// What it wrote to its standard output.
        stdout: String,
        /// What it wrote to its standard error.
        stderr: String,
    },
}

/// The rectangle in which a profile window shows the nickname.
pub open spec fn profile_coords() -> OcrCoords {
    OcrCoords { x: 180, y: 230, w: 140, h: 40 }
}

/// The title is that of a player's profile.
pub open spec fn is_profile_title(title: Seq<char>) -> bool {
    has_substring(title, "Profile"@) || has_substring(title, "perfil"@) || has_substring(
        title,
        "ID:"@,
    ) || has_substring(title, "jugador"@)
}

/// The rectangle to capture: `coords`, or the rectangle of a profile where
/// the window's title shows that it is one.
pub open spec fn optimized_coords(probe: WindowProbe, coords: OcrCoords) -> OcrCoords {
    match probe {
        WindowProbe::Found(title) => if title@.len() > 0 && is_profile_title(title@) {
            profile_coords()
        } else {
            coords
        },
        _ => coords,
    }
}

/// The sentence for a window that is gone.
pub const WINDOW_GONE: &'static str = "La ventana especificada no existe";

/// The rectangle to capture in the window that `probe` describes. A window
/// that is gone is a failure of window detection; on a platform that cannot
/// look at windows the rectangle stays as it is.
pub fn optimize_coords_for_profile(probe: &WindowProbe, coords: OcrCoords) -> (chosen: Result<
    OcrCoords,
    AppError,
>)
    ensures
        chosen is Err <==> *probe is Gone,
        chosen matches Err(failure) ==> failure is WindowDetection && failure.detail()
            == WINDOW_GONE@,
        chosen matches Ok(region) ==> region == optimized_coords(*probe, coords),
{
    match probe {
        WindowProbe::Unsupported => Ok(coords),
        WindowProbe::Gone => Err(AppError::WindowDetection(WINDOW_GONE.to_owned())),
        WindowProbe::Found(title) => {
            let name = title.as_str();
            if !name.is_empty() && (contains(name, "Profile") || contains(name, "perfil")
                || contains(name, "ID:") || contains(name, "jugador")) {
                Ok(OcrCoords { x: 180, y: 230, w: 140, h: 40 })
            } else {
                Ok(coords)
            }
        },
    }
}

/// A rectangle as the JSON object that the engine expects.
pub open spec fn coords_json(coords: OcrCoords) -> Seq<char> {
    "{\"x\":"@ + signed_decimal(coords.x as int) + ",\"y\":"@ + signed_decimal(coords.y as int)
        + ",\"w\":"@ + signed_decimal(coords.w as int) + ",\"h\":"@ + signed_decimal(
        coords.h as int,
    ) + "}"@
}

/// A rectangle as the JSON object that the engine expects.
pub fn coords_to_json(coords: OcrCoords) -> (json: String)
    ensures
        json@ == coords_json(coords),
{
    let mut json = String::from_str("{\"x\":");
    json.append(signed_decimal_text(coords.x).as_str());
    json.append(",\"y\":");
    json.append(signed_decimal_text(coords.y).as_str());
    json.append(",\"w\":");
    json.append(signed_decimal_text(coords.w).as_str());
    json.append(",\"h\":");
    json.append(signed_decimal_text(coords.h).as_str());
    json.append("}");
    json
}

/// The members of a JSON object for the first `count` entries, each but the
/// first with a comma before it; `None` where a key or a value cannot be quoted.
pub open spec fn options_members(keys: Seq<Seq<char>>, values: Seq<String>, count: nat) -> Option<
    Seq<char>,
>
    decreases count,
{
    if count == 0 {
        Some(Seq::empty())
    } else {
        match (
            options_members(keys, values, (count - 1) as nat),
            json_quoted(keys[count - 1]),
            json_quoted(values[count - 1]@),
        ) {
            (Some(before), Some(key), Some(value)) => Some(
                before + (if count == 1 {
                    Seq::empty()
                } else {
                    ","@
                }) + key + ":"@ + value,
            ),
            _ => None,
        }
    }
}

/// The engine's options as a JSON object, and `{}` where they cannot be written.
pub open spec fn options_json(options: TextMap<String>) -> Seq<char> {
    match options_members(options.keys(), options.values(), options.keys().len()) {
        Some(members) => "{"@ + members + "}"@,
        None => "{}"@,
    }
}

/// The engine's options as a JSON object of strings.
pub fn options_to_json(options: &TextMap<String>) -> (json: String)
    ensures
        json@ == options_json(*options),
{
    let mut members = String::new();
    let mut index: usize = 0;
    while index < options.len()
        invariant
            index <= options.keys().len(),
            options_members(options.keys(), options.values(), index as nat) == Some(members@),
        decreases options.keys().len() - index,
    {
        let key = quoted(options.key_at(index));
        let value = quoted(options.value_at(index).as_str());
        match (key, value) {
            (Some(key), Some(value)) => {
                let ghost before = members@;
                if index > 0 {
                    members.append(",");
                }
                members.append(key.as_str());
                members.append(":");
                members.append(value.as_str());
                proof {
                    let sep = if index == 0 {
                        Seq::<char>::empty()
                    } else {
                        ","@
                    };
                    assert(members@ =~= before + sep + key@ + ":"@ + value@);
                }
            },
            _ => {
                proof {
                    lemma_members_stay_none(
                        options.keys(),
                        options.values(),
                        index as nat + 1,
                        options.keys().len(),
                    );
                }
                return "{}".to_owned();
            },
        }
        index += 1;
    }
    let mut json = String::from_str("{");
    json.append(members.as_str());
    json.append("}");
    json
}

/// Once the members cannot be written for some entries, they cannot be
/// written for more of them.
proof fn lemma_members_stay_none(
    keys: Seq<Seq<char>>,
    values: Seq<String>,
    failed: nat,
    count: nat,
)
    requires
        failed <= count,
        options_members(keys, values, failed) is None,
    ensures
        options_members(keys, values, count) is None,
    decreases count,
{
    if failed < count {
        lemma_members_stay_none(keys, values, failed, (count - 1) as nat);
    }
}

/// The program that initializes the engine, up to the options.
pub const INITIALIZE_HEAD: &'static str =
    "import sys; sys.path.append('.'); from ocr_engine import initialize_ocr; import json; print(initialize_ocr(json.loads('";

/// The program that initializes the engine, after the options.
pub const INITIALIZE_TAIL: &'static str = "')))";

/// The program that asks whether the engine can be used.
pub const AVAILABILITY_COMMAND: &'static str =
    "import sys; sys.path.append('.'); from ocr_engine import check_ocr_availability; print(check_ocr_availability())";

/// The program that reads a nickname, up to the window handle.
pub const CAPTURE_HEAD: &'static str =
    "import sys; sys.path.append('.'); from ocr_engine import capture_and_read_nick, enhance_image_for_ocr; import json; print(json.dumps(capture_and_read_nick(";

/// The program that reads a nickname, between the handle and the rectangle.
pub const CAPTURE_MIDDLE: &'static str = ", json.loads('";

/// The program that reads a nickname, after the rectangle.
pub const CAPTURE_TAIL: &'static str = "'), enhance_profile=True)))";

/// The program that initializes the engine with `options`; without options
/// the engine is given an empty object.
pub fn initialize_command(options: Option<&TextMap<String>>) -> (program: String)
    ensures
        program@ == INITIALIZE_HEAD@ + (match options {
            Some(given) => options_json(*given),
            None => "{}"@,
        }) + INITIALIZE_TAIL@,
{
    let json = match options {
        Some(given) => options_to_json(given),
        None => "{}".to_owned(),
    };
    let mut program = String::from_str(INITIALIZE_HEAD);
    program.append(json.as_str());
    program.append(INITIALIZE_TAIL);
    program
}

/// The program that reads the nickname in the rectangle `coords` of the window `hwnd`.
pub open spec fn capture_program(hwnd: u32, coords: OcrCoords) -> Seq<char> {
    CAPTURE_HEAD@ + decimal(hwnd as nat) + CAPTURE_MIDDLE@ + coords_json(coords) + CAPTURE_TAIL@
}

/// The sentence for a missing script, up to the place where it was looked for.
pub const SCRIPT_MISSING: &'static str = "No se encontró el script OCR en: ";

/// The program that reads the nickname of the window `hwnd`, or the reason
/// why none is run.
///
/// `missing_script` names the place of the engine's script where it is not
/// installed: that is a failure of configuration and comes first. Then the
/// rectangle is chosen as `optimize_coords_for_profile` says, which fails for
/// a window that is gone.
pub fn capture_command(
    missing_script: Option<&str>,
    hwnd: u32,
    probe: &WindowProbe,
    coords: OcrCoords,
) -> (program: Result<String, AppError>)
    ensures
        program is Ok <==> missing_script is None && !(*probe is Gone),
        program matches Ok(text) ==> text@ == capture_program(
            hwnd,
            optimized_coords(*probe, coords),
        ),
        program matches Err(failure) ==> (match missing_script {
            Some(place) => failure is Config && failure.detail() == SCRIPT_MISSING@ + place@,
            None => failure is WindowDetection && failure.detail() == WINDOW_GONE@,
        }),
{
    match missing_script {
        Some(place) => Err(AppError::Config(join(SCRIPT_MISSING, place))),
        None => match optimize_coords_for_profile(probe, coords) {
            Err(failure) => Err(failure),
            Ok(region) => {
                let mut program = String::from_str(CAPTURE_HEAD);
                program.append(decimal_text(hwnd).as_str());
                program.append(CAPTURE_MIDDLE);
                program.append(coords_to_json(region).as_str());
                program.append(CAPTURE_TAIL);
                Ok(program)
            },
        },
    }
}

/// Why the engine is not initialized after `run`; `None` where it is.
pub open spec fn initialize_failure(run: BridgeRun) -> Option<Seq<char>> {
    match run {
        BridgeRun::ScriptMissing(place) => Some(SCRIPT_MISSING@ + place@),
        BridgeRun::NotStarted(reason) => Some("Error al ejecutar Python: "@ + reason@),
        BridgeRun::Exited { success, stdout, stderr } => if !success {
            Some("Error al inicializar OCR: "@ + stderr@)
        } else if has_substring(stdout@, "True"@) || has_substring(stdout@, "OK"@) {
            None
        } else {
            Some("Error al inicializar OCR: "@ + stdout@)
        },
    }
}

/// Whether the run that was to initialize the engine did so: it did if the
/// process exited with success and wrote `True` or `OK`.
pub fn initialize_ocr(run: &BridgeRun) -> (ready: Result<bool, String>)
    ensures
        ready is Ok <==> initialize_failure(*run) is None,
        ready matches Ok(flag) ==> flag,
        ready matches Err(message) ==> initialize_failure(*run) == Some(message@),
{
    match run {
        BridgeRun::ScriptMissing(place) => Err(join(SCRIPT_MISSING, place.as_str())),
        BridgeRun::NotStarted(reason) => Err(join("Error al ejecutar Python: ", reason.as_str())),
        BridgeRun::Exited { success, stdout, stderr } => {
            if !*success {
                Err(join("Error al inicializar OCR: ", stderr.as_str()))
            } else if contains(stdout.as_str(), "True") || contains(stdout.as_str(), "OK") {
                Ok(true)
            } else {
                Err(join("Error al inicializar OCR: ", stdout.as_str()))
            }
        },
    }
}

/// The run of the availability probe says that the engine can be used: the
/// process ran and its output holds `true` or `ok`, in any case of letters.
pub open spec fn reports_available(run: BridgeRun) -> bool {
    match run {
        BridgeRun::Exited { success, stdout, stderr } => has_substring(
            lowercase_of(stdout@),
            "true"@,
        ) || has_substring(lowercase_of(stdout@), "ok"@),
        _ => false,
    }
}

/// Whether the engine can be used, going by the run of the availability
/// probe. Every failure is a plain `false`.
pub fn check_ocr_availability(run: &BridgeRun) -> (available: bool)
    ensures
        available == reports_available(*run),
{
    match run {
        BridgeRun::Exited { success, stdout, stderr } => {
            let lowered = to_lowercase(stdout.as_str());
            contains(lowered.as_str(), "true") || contains(lowered.as_str(), "ok")
        },
        _ => false,
    }
}

/// A nickname as it is used: what the engine read, without the `ID:` before
/// it, however often it stands there, and then without the whitespace around it.
pub open spec fn cleaned_nick(raw: Seq<char>) -> Seq<char> {
    trimmed(strip_repeated_prefix(raw, "ID:"@))
}

/// A nickname as it is used.
pub fn clean_nick(raw: &str) -> (nick: String)
    ensures
        nick@ == cleaned_nick(raw@),
{
    trim(trim_start_matches(raw, "ID:")).to_owned()
}

/// What the engine's answer holds, field by field: the nickname as it is
/// used, `Error` standing for a missing one; the confidence, zero for a
/// missing one; the hash, empty for a missing one.
pub open spec fn answer_nick(stdout: Seq<char>) -> Seq<char> {
    cleaned_nick(
        match json_text_at(stdout, "/nick"@) {
            Some(nick) => nick,
            None => "Error"@,
        },
    )
}

/// The confidence in the engine's answer.
pub open spec fn answer_confidence_bits(stdout: Seq<char>) -> u64 {
    match json_number_bits_at(stdout, "/confidence"@) {
        Some(bits) => bits,
        None => 0,
    }
}

/// The hash in the engine's answer.
pub open spec fn answer_hash(stdout: Seq<char>) -> Seq<char> {
    match json_text_at(stdout, "/image_hash"@) {
        Some(hash) => hash,
        None => Seq::empty(),
    }
}

/// Why `run` yields no reading, as the kind and the detail of the failure;
/// `None` where it yields one.
pub open spec fn capture_failure(run: BridgeRun) -> Option<(ErrorKind, Seq<char>)> {
    match run {
        BridgeRun::ScriptMissing(place) => Some((ErrorKind::Config, SCRIPT_MISSING@ + place@)),
        BridgeRun::NotStarted(reason) => Some((ErrorKind::Io, reason@)),
        BridgeRun::Exited { success, stdout, stderr } => if !success {
            Some((ErrorKind::Api, "Error en OCR: "@ + stderr@))
        } else {
            match json_syntax_error(stdout@) {
                Some(reason) => Some(
                    (
                        ErrorKind::Api,
                        "Error al parsear resultado OCR: "@ + reason + " - Datos: "@ + stdout@,
                    ),
                ),
                None => None,
            }
        },
    }
}

/// What the engine read, going by the run of the program that
/// `capture_command` wrote.
///
/// A missing script is a failure of configuration, a process that did not
/// start one of input and output, a process that exited with an error or
/// wrote something that is no JSON one of the service, which carries what the
/// process wrote. An answer that is JSON always yields a reading: a field
/// that is missing, or of the wrong kind, is read as its default.
pub fn capture_and_read_nick(run: &BridgeRun) -> (reading: Result<OcrResult, AppError>)
    ensures
        reading is Ok <==> capture_failure(*run) is None,
        reading matches Err(failure) ==> capture_failure(*run) == Some(
            (failure.kind_of(), failure.detail()),
        ),
        reading matches Ok(result) ==> run matches BridgeRun::Exited { stdout, .. } && {
            &&& result.nick@ == answer_nick(stdout@)
            &&& result.confidence_bits == answer_confidence_bits(stdout@)
            &&& result.image_hash@ == answer_hash(stdout@)
        },
{
    match run {
        BridgeRun::ScriptMissing(place) => Err(
            AppError::Config(join(SCRIPT_MISSING, place.as_str())),
        ),
        BridgeRun::NotStarted(reason) => Err(AppError::Io(reason.clone())),
        BridgeRun::Exited { success, stdout, stderr } => {
            if !*success {
                return Err(AppError::Api(join("Error en OCR: ", stderr.as_str())));
            }
            match syntax_error(stdout.as_str()) {
                Some(reason) => {
                    let mut detail = String::from_str("Error al parsear resultado OCR: ");
                    detail.append(reason.as_str());
                    detail.append(" - Datos: ");
                    detail.append(stdout.as_str());
                    Err(AppError::Api(detail))
                },
                None => {
                    let nick = match text_at(stdout.as_str(), "/nick") {
                        Some(nick) => nick,
                        None => "Error".to_owned(),
                    };
                    let confidence_bits = match number_bits_at(stdout.as_str(), "/confidence") {
                        Some(bits) => bits,
                        None => 0,
                    };
                    let image_hash = match text_at(stdout.as_str(), "/image_hash") {
                        Some(hash) => hash,
                        None => String::new(),
                    };
                    Ok(OcrResult { nick: clean_nick(nick.as_str()), confidence_bits, image_hash })
                },
            }
        },
    }
}

} // verus!
