//! The settings that the store takes from its environment.

use vstd::prelude::*;

use crate::error::NoteError;

verus! {

/// The environment of one run, read once and handed to every operation.
#[derive(Clone, Debug, PartialEq, Eq)]
pub struct Config {
    /// The data home, under which the store has its root; `None` if unset.
    pub data_home: Option<String>,
    /// The command that starts the editor; `None` if unset.
    pub editor: Option<String>,
    /// The user's name, which becomes the author of new notes; may be empty.
    pub user: String,
}

/// Whether a setting is there and not empty.
pub open spec fn is_set(setting: Option<String>) -> bool {
    match setting {
        Some(value) => value@.len() > 0,
        None => false,
    }
}

fn has_value(setting: &Option<String>) -> (yes: bool)
    ensures
        yes == is_set(*setting),
{
    match setting {
        Some(value) => !value.as_str().is_empty(),
        None => false,
    }
}

/// Refuses to start unless both the editor and the data home are set and
/// not empty.
pub fn check(config: &Config) -> (ready: Result<(), NoteError>)
    ensures
        ready == if is_set(config.editor) && is_set(config.data_home) {
            Ok::<(), NoteError>(())
        } else {
            Err::<(), NoteError>(NoteError::Config)
        },
{
    if has_value(&config.editor) && has_value(&config.data_home) {
        Ok(())
    } else {
        Err(NoteError::Config)
    }
}

} // verus!
