//! What a program is configured with.

use crate::theme::ThemeFacade;
use vstd::prelude::*;
use vstd::string::*;

verus! {

/// The keys that end the program.
#[derive(Debug, Clone, Copy)]
pub struct ExitKeys {
    pub esc: bool,
    pub q: bool,
    pub ctrl_c: bool,
}

impl Default for ExitKeys {
    /// All three keys end the program.
    fn default() -> (keys: Self)
        ensures
            keys.esc && keys.q && keys.ctrl_c,
    {
        Self { esc: true, q: true, ctrl_c: true }
    }
}

/// What a program runs with: the title of its window, its theme, how
/// long it waits for a key before it draws again (in milliseconds), and
/// the keys that end it.
#[derive(Debug, Clone)]
pub struct ProgramConfig {
    pub title: String,
    pub theme: ThemeFacade,
    pub tick_rate_ms: u64,
    pub exit_keys: ExitKeys,
}

impl ProgramConfig {
    /// A configuration with this title, the default theme, a tick of a
    /// tenth of a second, and all exit keys.
    #[must_use]
    pub fn new(title: String) -> (config: Self)
        ensures
            config.title == title,
            config.tick_rate_ms == 100,
            config.exit_keys.esc && config.exit_keys.q && config.exit_keys.ctrl_c,
    {
        Self {
            title,
            theme: ThemeFacade::default(),
            tick_rate_ms: 100,
            exit_keys: ExitKeys::default(),
        }
    }

    /// The same configuration with another theme.
    #[must_use]
    pub fn theme(self, theme: ThemeFacade) -> (config: Self)
        ensures
            config == (ProgramConfig { theme, ..self }),
    {
        Self { theme, ..self }
    }

    /// The same configuration with another tick, in milliseconds.
    #[must_use]
    pub fn tick_rate(self, tick_rate_ms: u64) -> (config: Self)
        ensures
            config == (ProgramConfig { tick_rate_ms, ..self }),
    {
        Self { tick_rate_ms, ..self }
    }

    /// The same configuration with other exit keys.
    #[must_use]
    pub fn exit_keys(self, exit_keys: ExitKeys) -> (config: Self)
        ensures
            config == (ProgramConfig { exit_keys, ..self }),
    {
        Self { exit_keys, ..self }
    }
}

impl Default for ProgramConfig {
    fn default() -> (config: Self)
        ensures
            config.title@ == "nodecode-terminal-kit-runtime"@,
            config.tick_rate_ms == 100,
            config.exit_keys.esc && config.exit_keys.q && config.exit_keys.ctrl_c,
    {
        Self::new("nodecode-terminal-kit-runtime".to_owned())
    }
}

} // verus!
