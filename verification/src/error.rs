//! The ways a request can be refused, and the message for each.
use vstd::prelude::*;
use crate::text::{decimal_string, decimal_text, join_strings, join_text, strings_view};

verus! {

/// Why a request was refused.
pub enum SmokeError {
    /// No installed plugin has the requested URI.
    PluginNotFound { uri: String },
    /// A run was asked for with zero frames.
    ZeroFrames,
    /// The plugin requires features that a test run does not provide; the
    /// URIs of those features, in the order the plugin lists them.
    UnsupportedFeatures { features: Vec<String> },
    /// Instantiating the plugin gave nothing.
    InstantiateFailed { uri: String },
    /// A port that the plugin requires is of no type that a test run can
    /// connect.
    UnsupportedPort { index: usize, symbol: String },
}

/// The outermost message of a refusal, shown on its own: the context that
/// a failed instantiation is reported under, else the whole message.
pub open spec fn headline_text(e: SmokeError) -> Seq<char> {
    match e {
        SmokeError::InstantiateFailed { .. } => "Plugin instantiate returned null"@,
        _ => error_text(e),
    }
}

/// The underlying cause that a refusal's headline is the context of, if any.
pub open spec fn cause_text(e: SmokeError) -> Option<Seq<char>> {
    match e {
        SmokeError::InstantiateFailed { uri } => Some("Failed to instantiate plugin "@ + uri@),
        _ => None,
    }
}

/// The message that tells a user why the request was refused: the headline,
/// followed by `: ` and the cause when there is one.
pub open spec fn error_text(e: SmokeError) -> Seq<char> {
    match e {
        SmokeError::PluginNotFound { uri } => "Plugin not found for URI: "@ + uri@,
        SmokeError::ZeroFrames => "--frames must be greater than zero"@,
        SmokeError::UnsupportedFeatures { features } =>
            "Plugin requires unsupported LV2 features for test-plugin-run: "@
                + join_text(strings_view(features@), ", "@),
        SmokeError::InstantiateFailed { uri } =>
            "Plugin instantiate returned null: Failed to instantiate plugin "@ + uri@,
        SmokeError::UnsupportedPort { index, symbol } =>
            "Unsupported required port type for test-plugin-run: index="@ + decimal_text(
                index as nat,
            ) + ", symbol="@ + symbol@,
    }
}

impl SmokeError {
    /// The outermost message of the refusal, shown on its own.
    pub fn headline(&self) -> (s: String)
        ensures
            s@ == headline_text(*self),
    {
        match self {
            SmokeError::InstantiateFailed { .. } => String::from_str("Plugin instantiate returned null"),
            _ => self.message(),
        }
    }

    /// The cause under the headline, if the refusal has one.
    pub fn cause(&self) -> (c: Option<String>)
        ensures
            match c {
                Some(t) => cause_text(*self) == Some(t@),
                None => cause_text(*self) is None,
            },
    {
        match self {
            SmokeError::InstantiateFailed { uri } => {
                let mut s = String::from_str("Failed to instantiate plugin ");
                s.append(uri.as_str());
                Some(s)
            },
            _ => None,
        }
    }

    /// The message that tells a user why the request was refused.
    pub fn message(&self) -> (s: String)
        ensures
            s@ == error_text(*self),
    {
        match self {
            SmokeError::PluginNotFound { uri } => {
                let mut s = String::from_str("Plugin not found for URI: ");
                s.append(uri.as_str());
                s
            },
            SmokeError::ZeroFrames => String::from_str("--frames must be greater than zero"),
            SmokeError::UnsupportedFeatures { features } => {
                let mut s = String::from_str(
                    "Plugin requires unsupported LV2 features for test-plugin-run: ",
                );
                let joined = join_strings(features, ", ");
                s.append(joined.as_str());
                s
            },
            SmokeError::InstantiateFailed { uri } => {
                let mut s = String::from_str(
                    "Plugin instantiate returned null: Failed to instantiate plugin ",
                );
                s.append(uri.as_str());
                s
            },
            SmokeError::UnsupportedPort { index, symbol } => {
                let mut s = String::from_str(
                    "Unsupported required port type for test-plugin-run: index=",
                );
                let digits = decimal_string(*index as u64);
                s.append(digits.as_str());
                s.append(", symbol=");
                s.append(symbol.as_str());
                s
            },
        }
    }
}

} // verus!
