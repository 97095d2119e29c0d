//! A helper for players of online poker: it finds the poker tables on
//! screen, resolves an opponent's nickname through an OCR engine with a
//! time-boxed cache, and composes the report on that player.
//!
//! The library decides and computes; it performs no input or output. A host
//! program lists the windows, runs the OCR process and makes the HTTP calls,
//! and hands what came of them to the functions here.
//!
//! * [`classifier`] decides from a title whether a window shows a table.
//! * [`enumerator`] picks the tables out of the windows and orders them.
//! * [`nick_cache`] keeps the nicknames that were read.
//! * [`ocr_bridge`] writes the programs for the OCR engine and reads its answers.
//! * [`analysis`] takes the decisions of one analysis, step by step.
//! * [`right_click_detector`] decides when a press of the right button is an event.
//! * [`api`] and [`auth`] describe the requests to the services and read the replies.
//! * [`settings`] holds the settings and their defaults.
//! * [`capture`] turns captured pixels into a picture for the front end.
//! * [`python_setup`] takes the decisions of the engine's installation.
//! * [`error`], [`json`], [`text`] and [`text_map`] serve the others.

pub mod analysis;
pub mod api;
pub mod auth;
pub mod capture;
pub mod classifier;
pub mod enumerator;
pub mod error;
pub mod json;
pub mod nick_cache;
pub mod ocr_bridge;
pub mod python_setup;
pub mod right_click_detector;
pub mod settings;
pub mod text;
pub mod text_map;
