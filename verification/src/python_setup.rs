//! The decisions taken while the Python side of the OCR engine is set up.
//! Looking at the disk and running programs is the caller's business.

use vstd::prelude::*;
use crate::text::{starts_with, trim, trimmed};

verus! {

/// What `requirements.txt` holds when it is first written.
pub const REQUIREMENTS: &'static str =
    "# Dependencias para PokerProTrack OCR\npaddleocr~=2.6.0\npillow~=9.4.0\nnumpy~=1.24.2\npywin32~=306; platform_system==\"Windows\"\nopencv-python-headless~=4.7.0.72\n";

/// What a new `__init__.py` holds.
pub const PACKAGE_MARKER: &'static str = "# Módulo inicializador\n";

/// The sentence for a system without Python.
pub const PYTHON_MISSING: &'static str = "Python no está instalado o accesible en el PATH";

/// How an attempt to run an interpreter ended: `None` where it could not be
/// started, else whether it exited with success.
pub type Launch = Option<bool>;

/// Whether Python is installed, going by `python --version` and, where that
/// could not even be started, by `python3 --version`.
pub fn is_python_installed(python: Launch, python3: Launch) -> (installed: bool)
    ensures
        installed == (match python {
            Some(success) => success,
            None => python3 == Some(true),
        }),
{
    match python {
        Some(success) => success,
        None => match python3 {
            Some(success) => success,
            None => false,
        },
    }
}

/// Where the Python side lives.
#[derive(Clone, Copy, Debug, PartialEq, Eq, Structural)]
pub enum PythonPlace {
    /// In `python` beside the working directory, one level up.
    BesideWorkingDirectory,
    /// In `python` inside the working directory.
    InsideWorkingDirectory,
}

/// Where the Python side lives: beside the working directory if it is found
/// there, else inside it if it is found there, else beside it again, where
/// it will then be made.
pub fn get_python_directory(found_beside: bool, found_inside: bool) -> (place: PythonPlace)
    ensures
        place == (if !found_beside && found_inside {
            PythonPlace::InsideWorkingDirectory
        } else {
            PythonPlace::BesideWorkingDirectory
        }),
{
    if found_beside {
        PythonPlace::BesideWorkingDirectory
    } else if found_inside {
        PythonPlace::InsideWorkingDirectory
    } else {
        PythonPlace::BesideWorkingDirectory
    }
}

/// Whether the OCR package has to be installed, going by the run of the
/// program that tries to import it: it has, unless the program exited with
/// success and its output, without the whitespace around it, begins with `OK`.
pub fn check_ocr_installation(success: bool, stdout: &str) -> (install: bool)
    ensures
        install == !(success && "OK"@.is_prefix_of(trimmed(stdout@))),
{
    !success || !starts_with(trim(stdout), "OK")
}

} // verus!
