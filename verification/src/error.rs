//! What can go wrong, and how a failure of the host is reported.
//!
//! The host's own failures never reach this crate as values of the host's
//! types. The caller hands over what it was told, as text: for a failed write
//! the failure's debug rendering, for any other failure a [`HostError`], which
//! keeps the kind of the failure beside that rendering.

use vstd::prelude::*;

verus! {

/// An error of this plugin.
#[derive(Debug, Clone, PartialEq, Eq)]
pub enum NeviraideError {
    /// Nothing is known about the failure.
    Unknown,
    /// The editor itself reported a failure.
    NeovimApiError(String),
    /// The binding to the editor reported a failure; also every failure that
    /// has no variant of its own.
    OxiApiError(String),
}

/// The result of an operation of this plugin.
pub type NeviraideResult<T> = Result<T, NeviraideError>;

/// A [`NeviraideError`] with its message as a sequence of characters.
pub enum NeviraideErrorView {
    Unknown,
    NeovimApiError(Seq<char>),
    OxiApiError(Seq<char>),
}

impl View for NeviraideError {
    type V = NeviraideErrorView;

    open spec fn view(&self) -> NeviraideErrorView {
        match self {
            NeviraideError::Unknown => NeviraideErrorView::Unknown,
            NeviraideError::NeovimApiError(message) => NeviraideErrorView::NeovimApiError(message@),
            NeviraideError::OxiApiError(message) => NeviraideErrorView::OxiApiError(message@),
        }
    }
}

/// A failure of the host, by kind. Each variant carries the debug rendering of
/// the failure it stands for.
#[derive(Debug, Clone, PartialEq, Eq)]
pub enum HostError {
    /// A call of the editor's API failed.
    Api(String),
    /// The editor's core reported a failure.
    Nvim(String),
    /// A value could not be converted to or from one of the editor's objects.
    ObjectConversion(String),
    /// A value could not be serialized.
    Serialize(String),
    /// A value could not be deserialized.
    Deserialize(String),
    /// The editor's event loop reported a failure.
    Libuv(String),
    /// Any other failure. The rendering is that of the whole error.
    Other(String),
}

/// A [`HostError`] with its rendering as a sequence of characters.
pub enum HostErrorView {
    Api(Seq<char>),
    Nvim(Seq<char>),
    ObjectConversion(Seq<char>),
    Serialize(Seq<char>),
    Deserialize(Seq<char>),
    Libuv(Seq<char>),
    Other(Seq<char>),
}

impl View for HostError {
    type V = HostErrorView;

    open spec fn view(&self) -> HostErrorView {
        match self {
            HostError::Api(detail) => HostErrorView::Api(detail@),
            HostError::Nvim(detail) => HostErrorView::Nvim(detail@),
            HostError::ObjectConversion(detail) => HostErrorView::ObjectConversion(detail@),
            HostError::Serialize(detail) => HostErrorView::Serialize(detail@),
            HostError::Deserialize(detail) => HostErrorView::Deserialize(detail@),
            HostError::Libuv(detail) => HostErrorView::Libuv(detail@),
            HostError::Other(detail) => HostErrorView::Other(detail@),
        }
    }
}

impl HostErrorView {
    /// The plugin's error for this failure. Only a failure of the editor's
    /// core becomes a [`NeviraideError::NeovimApiError`]; every message names
    /// the kind and ends with the rendering.
    pub open spec fn wrapped(self) -> NeviraideErrorView {
        match self {
            HostErrorView::Api(detail) => NeviraideErrorView::OxiApiError("API error: "@ + detail),
            HostErrorView::Nvim(detail) => NeviraideErrorView::NeovimApiError(
                "Neovim error: "@ + detail,
            ),
            HostErrorView::ObjectConversion(detail) => NeviraideErrorView::OxiApiError(
                "Object conversion error: "@ + detail,
            ),
            HostErrorView::Serialize(detail) => NeviraideErrorView::OxiApiError(
                "Serialization error: "@ + detail,
            ),
            HostErrorView::Deserialize(detail) => NeviraideErrorView::OxiApiError(
                "Deserialization error: "@ + detail,
            ),
            HostErrorView::Libuv(detail) => NeviraideErrorView::OxiApiError(
                "Libuv error: "@ + detail,
            ),
            HostErrorView::Other(detail) => NeviraideErrorView::OxiApiError(
                "Unknown OxiError: "@ + detail,
            ),
        }
    }
}

impl NeviraideErrorView {
    /// The error for a write that the host refused, `reason` being the debug
    /// rendering of the host's failure.
    pub open spec fn set_var_failed(reason: Seq<char>) -> NeviraideErrorView {
        NeviraideErrorView::OxiApiError("Failed to set var: "@ + reason)
    }

    /// The message shown to the user.
    pub open spec fn message(self) -> Seq<char> {
        match self {
            NeviraideErrorView::Unknown => "Unknown error occurred"@,
            NeviraideErrorView::NeovimApiError(message) => "Neovim API error occurred: "@ + message,
            NeviraideErrorView::OxiApiError(message) => "Oxi API error occurred: "@ + message,
        }
    }
}

fn prefixed(prefix: &str, rest: &String) -> (r: String)
    ensures
        r@ == prefix@ + rest@,
{
    String::from_str(prefix).concat(rest.as_str())
}

impl NeviraideError {
    /// Wraps a failure of the host.
    pub fn from(error: HostError) -> (r: NeviraideError)
        ensures
            r@ == error@.wrapped(),
    {
        match error {
            HostError::Api(detail) => NeviraideError::OxiApiError(prefixed("API error: ", &detail)),
            HostError::Nvim(detail) => NeviraideError::NeovimApiError(
                prefixed("Neovim error: ", &detail),
            ),
            HostError::ObjectConversion(detail) => NeviraideError::OxiApiError(
                prefixed("Object conversion error: ", &detail),
            ),
            HostError::Serialize(detail) => NeviraideError::OxiApiError(
                prefixed("Serialization error: ", &detail),
            ),
            HostError::Deserialize(detail) => NeviraideError::OxiApiError(
                prefixed("Deserialization error: ", &detail),
            ),
            HostError::Libuv(detail) => NeviraideError::OxiApiError(
                prefixed("Libuv error: ", &detail),
            ),
            HostError::Other(detail) => NeviraideError::OxiApiError(
                prefixed("Unknown OxiError: ", &detail),
            ),
        }
    }

    /// The error for a write that the host refused, `reason` being the debug
    /// rendering of the host's failure.
    pub fn set_var_failed(reason: &String) -> (r: NeviraideError)
        ensures
            r@ == NeviraideErrorView::set_var_failed(reason@),
    {
        NeviraideError::OxiApiError(prefixed("Failed to set var: ", reason))
    }

    /// The message shown to the user.
    pub fn message(&self) -> (r: String)
        ensures
            r@ == self@.message(),
    {
        match self {
            NeviraideError::Unknown => String::from_str("Unknown error occurred"),
            NeviraideError::NeovimApiError(message) => prefixed(
                "Neovim API error occurred: ",
                message,
            ),
            NeviraideError::OxiApiError(message) => prefixed("Oxi API error occurred: ", message),
        }
    }
}

} // verus!
