//! The failures that the library reports, and the sentence for each.

use vstd::prelude::*;
use crate::text::join;

verus! {

/// A failure, with the detail that came with it.
pub enum AppError {
    /// The filesystem, or the launch of a process.
    Io(String),
    /// The transport of an HTTP call.
    Network(String),
    /// Malformed JSON.
    Serialization(String),
    /// A login that was refused.
    Auth(String),
    /// A window query that the platform did not answer.
    WindowDetection(String),
    /// Something that has to be installed and is not.
    Config(String),
    /// A service that answered with an error, or with something unreadable.
    Api(String),
    /// Anything else.
    Unknown(String),
}

/// The kinds of failure.
#[derive(Clone, Copy, Debug, PartialEq, Eq, Structural)]
pub enum ErrorKind {
    Io,
    Network,
    Serialization,
    Auth,
    WindowDetection,
    Config,
    Api,
    Unknown,
}

impl AppError {
    /// The kind of the failure.
    pub open spec fn kind_of(self) -> ErrorKind {
        match self {
            AppError::Io(_) => ErrorKind::Io,
            AppError::Network(_) => ErrorKind::Network,
            AppError::Serialization(_) => ErrorKind::Serialization,
            AppError::Auth(_) => ErrorKind::Auth,
            AppError::WindowDetection(_) => ErrorKind::WindowDetection,
            AppError::Config(_) => ErrorKind::Config,
            AppError::Api(_) => ErrorKind::Api,
            AppError::Unknown(_) => ErrorKind::Unknown,
        }
    }

    /// The kind of the failure.
    pub fn kind(&self) -> (kind: ErrorKind)
        ensures
            kind == self.kind_of(),
    {
        match self {
            AppError::Io(_) => ErrorKind::Io,
            AppError::Network(_) => ErrorKind::Network,
            AppError::Serialization(_) => ErrorKind::Serialization,
            AppError::Auth(_) => ErrorKind::Auth,
            AppError::WindowDetection(_) => ErrorKind::WindowDetection,
            AppError::Config(_) => ErrorKind::Config,
            AppError::Api(_) => ErrorKind::Api,
            AppError::Unknown(_) => ErrorKind::Unknown,
        }
    }

    /// The detail that the failure carries.
    pub open spec fn detail(self) -> Seq<char> {
        match self {
            AppError::Io(detail) => detail@,
            AppError::Network(detail) => detail@,
            AppError::Serialization(detail) => detail@,
            AppError::Auth(detail) => detail@,
            AppError::WindowDetection(detail) => detail@,
            AppError::Config(detail) => detail@,
            AppError::Api(detail) => detail@,
            AppError::Unknown(detail) => detail@,
        }
    }

    /// The words that introduce the kind of failure.
    pub open spec fn heading(self) -> Seq<char> {
        match self {
            AppError::Io(_) => "Error de IO: "@,
            AppError::Network(_) => "Error de red: "@,
            AppError::Serialization(_) => "Error de serialización: "@,
            AppError::Auth(_) => "Error de autenticación: "@,
            AppError::WindowDetection(_) => "Error en la detección de ventanas: "@,
            AppError::Config(_) => "Error en la configuración: "@,
            AppError::Api(_) => "Error en la API: "@,
            AppError::Unknown(_) => "Error desconocido: "@,
        }
    }

    /// The sentence shown to the user: the heading, then the detail.
    pub open spec fn text(self) -> Seq<char> {
        self.heading() + self.detail()
    }

    /// The sentence shown to the user.
    pub fn to_text(&self) -> (sentence: String)
        ensures
            sentence@ == self.text(),
    {
        match self {
            AppError::Io(detail) => join("Error de IO: ", detail.as_str()),
            AppError::Network(detail) => join("Error de red: ", detail.as_str()),
            AppError::Serialization(detail) => join("Error de serialización: ", detail.as_str()),
            AppError::Auth(detail) => join("Error de autenticación: ", detail.as_str()),
            AppError::WindowDetection(detail) => join(
                "Error en la detección de ventanas: ",
                detail.as_str(),
            ),
            AppError::Config(detail) => join("Error en la configuración: ", detail.as_str()),
            AppError::Api(detail) => join("Error en la API: ", detail.as_str()),
            AppError::Unknown(detail) => join("Error desconocido: ", detail.as_str()),
        }
    }
}

} // verus!
