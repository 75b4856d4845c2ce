//! User configuration: engine choice, timing preset and feature toggles.
use vstd::prelude::*;
use crate::cli::Args;
use crate::text::{ascii_lower, is_ascii_text, std_to_lowercase, str_eq, to_lowercase};

verus! {

/// The engines the program can drive.
#[derive(Debug, Clone, Copy, PartialEq, Eq, Structural)]
pub enum Engine {
    Stockfish,
    Stockfish8,
    JsChess,
    Tomitank15,
    Tomitank51,
}

/// The name of each engine.
pub open spec fn engine_name(e: Engine) -> Seq<char> {
    match e {
        Engine::Stockfish => "stockfish"@,
        Engine::Stockfish8 => "stockfish8"@,
        Engine::JsChess => "jschess"@,
        Engine::Tomitank15 => "tomitank15"@,
        Engine::Tomitank51 => "tomitank51"@,
    }
}

/// The engine whose name is exactly `name`, if any.
pub open spec fn engine_named(name: Seq<char>) -> Option<Engine> {
    if name == "stockfish"@ {
        Some(Engine::Stockfish)
    } else if name == "stockfish8"@ {
        Some(Engine::Stockfish8)
    } else if name == "jschess"@ {
        Some(Engine::JsChess)
    } else if name == "tomitank15"@ {
        Some(Engine::Tomitank15)
    } else if name == "tomitank51"@ {
        Some(Engine::Tomitank51)
    } else {
        None
    }
}

impl Engine {
    /// The engine's name, in lower case.
    pub fn as_str(&self) -> (s: &'static str)
        ensures
            s@ == engine_name(*self),
    {
        match self {
            Engine::Stockfish => "stockfish",
            Engine::Stockfish8 => "stockfish8",
            Engine::JsChess => "jschess",
            Engine::Tomitank15 => "tomitank15",
            Engine::Tomitank51 => "tomitank51",
        }
    }

    /// The engine named exactly `name` (already lower-cased), if any.
    pub fn from_lowercase_name(name: &str) -> (r: Option<Engine>)
        ensures
            r == engine_named(name@),
    {
        if str_eq(name, "stockfish") {
            Some(Engine::Stockfish)
        } else if str_eq(name, "stockfish8") {
            Some(Engine::Stockfish8)
        } else if str_eq(name, "jschess") {
            Some(Engine::JsChess)
        } else if str_eq(name, "tomitank15") {
            Some(Engine::Tomitank15)
        } else if str_eq(name, "tomitank51") {
            Some(Engine::Tomitank51)
        } else {
            None
        }
    }

    /// The engine whose name is `s` once lower-cased, if any.
    pub fn from_str(s: &str) -> (r: Option<Engine>)
        ensures
            r == engine_named(std_to_lowercase(s@)),
            is_ascii_text(s@) ==> r == engine_named(s@.map_values(|c: char| ascii_lower(c))),
    {
        let lower = to_lowercase(s);
        Engine::from_lowercase_name(lower.as_str())
    }
}

/// The timing presets.
#[derive(Debug, Clone, Copy, PartialEq, Eq, Hash, Structural)]
pub enum ConfigMode {
    Fast7_5s,
    Normal15s,
    Slow30s,
}

/// The name of each timing preset.
pub open spec fn mode_name(m: ConfigMode) -> Seq<char> {
    match m {
        ConfigMode::Fast7_5s => "7.5s"@,
        ConfigMode::Normal15s => "15s"@,
        ConfigMode::Slow30s => "30s"@,
    }
}

/// The preset named exactly `name`, if any.
pub open spec fn mode_named(name: Seq<char>) -> Option<ConfigMode> {
    if name == "7.5s"@ {
        Some(ConfigMode::Fast7_5s)
    } else if name == "15s"@ {
        Some(ConfigMode::Normal15s)
    } else if name == "30s"@ {
        Some(ConfigMode::Slow30s)
    } else {
        None
    }
}

impl ConfigMode {
    /// The preset's name.
    pub fn as_str(&self) -> (s: &'static str)
        ensures
            s@ == mode_name(*self),
    {
        match self {
            ConfigMode::Fast7_5s => "7.5s",
            ConfigMode::Normal15s => "15s",
            ConfigMode::Slow30s => "30s",
        }
    }

    /// The preset named exactly `s` (case matters), if any.
    pub fn from_str(s: &str) -> (r: Option<ConfigMode>)
        ensures
            r == mode_named(s@),
    {
        if str_eq(s, "7.5s") {
            Some(ConfigMode::Fast7_5s)
        } else if str_eq(s, "15s") {
            Some(ConfigMode::Normal15s)
        } else if str_eq(s, "30s") {
            Some(ConfigMode::Slow30s)
        } else {
            None
        }
    }
}

/// The program's settings.
pub struct Config {
    // Engine Selection
    pub selected_engine: Engine,
    // Timing Presets
    pub config_mode: ConfigMode,
    // Feature Toggles
    pub auto_run: bool,
    pub show_arrows: bool,
    pub piece_select_mode: bool,
    pub human_mode: bool,
    pub varied_mode: bool,
    pub panic_mode: bool,
    // Network Settings
    pub vpn_ping_offset: u32,
    // Browser Bridge Settings
    pub bridge_port: u16,
    pub auto_rematch: bool,
}

impl Clone for Config {
    fn clone(&self) -> (c: Self)
        ensures
            c == *self,
    {
        Config {
            selected_engine: self.selected_engine,
            config_mode: self.config_mode,
            auto_run: self.auto_run,
            show_arrows: self.show_arrows,
            piece_select_mode: self.piece_select_mode,
            human_mode: self.human_mode,
            varied_mode: self.varied_mode,
            panic_mode: self.panic_mode,
            vpn_ping_offset: self.vpn_ping_offset,
            bridge_port: self.bridge_port,
            auto_rematch: self.auto_rematch,
        }
    }
}

/// The default settings.
pub open spec fn default_config() -> Config {
    Config {
        selected_engine: Engine::Stockfish,
        config_mode: ConfigMode::Normal15s,
        auto_run: false,
        show_arrows: true,
        piece_select_mode: false,
        human_mode: true,
        varied_mode: true,
        panic_mode: false,
        vpn_ping_offset: 0,
        bridge_port: 9876,
        auto_rematch: false,
    }
}

impl Default for Config {
    fn default() -> (c: Self)
        ensures
            c == default_config(),
    {
        Config {
            selected_engine: Engine::Stockfish,
            config_mode: ConfigMode::Normal15s,
            auto_run: false,
            show_arrows: true,
            piece_select_mode: false,
            human_mode: true,
            varied_mode: true,
            panic_mode: false,
            vpn_ping_offset: 0,
            bridge_port: 9876,
            auto_rematch: false,
        }
    }
}

/// The settings after the command line is merged in: a recognised engine or preset
/// replaces the configured one, a flag given on the command line switches its
/// feature on (never off), and the bridge port always comes from the command line.
pub open spec fn merged_config(c: Config, engine: Seq<char>, mode: Seq<char>, args: Args) -> Config {
    Config {
        selected_engine: match engine_named(std_to_lowercase(engine)) {
            Some(e) => e,
            None => c.selected_engine,
        },
        config_mode: match mode_named(mode) {
            Some(m) => m,
            None => c.config_mode,
        },
        auto_run: c.auto_run || args.auto,
        panic_mode: c.panic_mode || args.panic,
        human_mode: c.human_mode || args.human_mode,
        bridge_port: args.bridge_port,
        auto_rematch: c.auto_rematch || args.auto_rematch,
        ..c
    }
}

impl Config {
    /// Merges the command-line arguments into these settings.
    pub fn merge_with_cli(&mut self, cli: &Args)
        ensures
            *final(self) == merged_config(*old(self), cli.engine@, cli.config_mode@, *cli),
    {
        if let Some(engine) = Engine::from_str(cli.engine.as_str()) {
            self.selected_engine = engine;
        }
        if cli.auto {
            self.auto_run = true;
        }
        if let Some(mode) = ConfigMode::from_str(cli.config_mode.as_str()) {
            self.config_mode = mode;
        }
        if cli.panic {
            self.panic_mode = true;
        }
        if cli.human_mode {
            self.human_mode = true;
        }
        self.bridge_port = cli.bridge_port;
        if cli.auto_rematch {
            self.auto_rematch = true;
        }
    }
}

/// An engine's name, lower-cased in ASCII, names that engine again: the engine
/// names are already lower case.
pub proof fn lemma_engine_name_round_trip(e: Engine)
    ensures
        engine_name(e).map_values(|c: char| ascii_lower(c)) == engine_name(e),
        engine_named(engine_name(e)) == Some(e),
{
    reveal_strlit("stockfish");
    reveal_strlit("stockfish8");
    reveal_strlit("jschess");
    reveal_strlit("tomitank15");
    reveal_strlit("tomitank51");
    assert(engine_name(e).map_values(|c: char| ascii_lower(c)) =~= engine_name(e));
    assert("stockfish"@.len() != "stockfish8"@.len());
    assert("stockfish"@.len() != "jschess"@.len());
    assert("stockfish"@.len() != "tomitank15"@.len());
    assert("stockfish"@.len() != "tomitank51"@.len());
    assert("stockfish8"@[0] != "jschess"@[0]);
    assert("stockfish8"@[0] != "tomitank15"@[0]);
    assert("stockfish8"@[0] != "tomitank51"@[0]);
    assert("jschess"@.len() != "tomitank15"@.len());
    assert("jschess"@.len() != "tomitank51"@.len());
    assert("tomitank15"@[8] != "tomitank51"@[8]);
}

/// Naming a preset by its own name selects it again.
pub proof fn lemma_mode_name_round_trip(m: ConfigMode)
    ensures
        mode_named(mode_name(m)) == Some(m),
{
    reveal_strlit("7.5s");
    reveal_strlit("15s");
    reveal_strlit("30s");
    assert("7.5s"@.len() != "15s"@.len());
    assert("7.5s"@.len() != "30s"@.len());
    assert("15s"@[0] != "30s"@[0]);
}

} // verus!
