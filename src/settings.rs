use vstd::prelude::*;

verus! {

/// Why a required setting cannot be used.
#[derive(Debug, Clone, Copy, PartialEq, Eq)]
pub enum ConfigError {
    /// The setting is not present at all.
    Missing,
    /// The setting is present but holds the empty string.
    Empty,
}

/// A required setting: its value when present and non-empty.
pub fn required_setting(value: Option<String>) -> (r: Result<String, ConfigError>)
    ensures
        value is None <==> r == Err::<String, ConfigError>(ConfigError::Missing),
        value matches Some(v) ==> (v@.len() == 0 <==> r == Err::<String, ConfigError>(
            ConfigError::Empty,
        )),
        r matches Ok(s) ==> value matches Some(v) && s@ == v@ && v@.len() > 0,
{
    match value {
        None => Err(ConfigError::Missing),
        Some(v) => {
            if v.as_str().is_empty() {
                Err(ConfigError::Empty)
            } else {
                Ok(v)
            }
        },
    }
}

/// An optional setting: an empty value counts as absent.
pub fn optional_setting(value: Option<String>) -> (r: Option<String>)
    ensures
        r matches Some(s) ==> value matches Some(v) && s@ == v@ && v@.len() > 0,
        r is None <==> (value is None || value->0@.len() == 0),
{
    match value {
        None => None,
        Some(v) => {
            if v.as_str().is_empty() {
                None
            } else {
                Some(v)
            }
        },
    }
}

} // verus!
