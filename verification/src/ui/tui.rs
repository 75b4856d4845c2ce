//! The terminal display: its state, what it shows, and the hotkeys.
use vstd::prelude::*;
use crate::chess_logic::{my_turn, GameState};
use crate::config::{default_config, engine_name, mode_name, Config, ConfigMode, Engine};
use crate::move_selector::VarietyStats;
use crate::text::{append_str, decimal, decimal_string};

verus! {

/// What a key press asks for.
#[derive(Debug, Clone, Copy, PartialEq, Eq, Structural)]
pub enum UICommand {
    ToggleAuto,
    TogglePanic,
    ToggleHuman,
    ToggleVaried,
    CycleEngine,
    CycleConfig,
    Hint,
    Quit,
    NoOp,
}

/// The statistics on display.
#[derive(Clone, Copy)]
pub struct DisplayStats {
    pub moves_played: u32,
    pub avg_time_ms: u32,
    pub engine_time_ms: u32,
    pub variety_stats: VarietyStats,
}

/// Everything the display shows.
pub struct UIState {
    pub auto_mode: bool,
    pub panic_mode: bool,
    pub human_mode: bool,
    pub varied_mode: bool,
    pub selected_engine: Engine,
    pub config_mode: ConfigMode,
    pub stats: DisplayStats,
    pub board_display: String,
    pub game_status: String,
    pub last_move: Option<String>,
    pub is_connected: bool,
}

/// The display before anything happened.
pub open spec fn initial_ui(s: UIState) -> bool {
    &&& !s.auto_mode
    &&& !s.panic_mode
    &&& s.human_mode
    &&& s.varied_mode
    &&& s.selected_engine == Engine::Stockfish
    &&& s.config_mode == ConfigMode::Normal15s
    &&& s.stats.moves_played == 0
    &&& s.stats.avg_time_ms == 0
    &&& s.stats.engine_time_ms == 0
    &&& s.stats.variety_stats == (VarietyStats { pv1: 0, pv2: 0, pv3: 0, pv4: 0, blunders: 0 })
    &&& s.board_display@ == Seq::<char>::empty()
    &&& s.game_status@ == "Waiting for game..."@
    &&& s.last_move is None
    &&& !s.is_connected
}

impl Default for UIState {
    fn default() -> (s: Self)
        ensures
            initial_ui(s),
    {
        UIState {
            auto_mode: false,
            panic_mode: false,
            human_mode: true,
            varied_mode: true,
            selected_engine: Engine::Stockfish,
            config_mode: ConfigMode::Normal15s,
            stats: DisplayStats {
                moves_played: 0,
                avg_time_ms: 0,
                engine_time_ms: 0,
                variety_stats: VarietyStats::default(),
            },
            board_display: String::new(),
            game_status: String::from_str("Waiting for game..."),
            last_move: None,
            is_connected: false,
        }
    }
}

/// The terminal display.
pub struct TerminalUI {
    state: UIState,
}

/// The status line of a game.
pub open spec fn game_status_text(ended: bool, our_turn: bool) -> Seq<char> {
    if ended {
        "Game ended"@
    } else if our_turn {
        "Our turn"@
    } else {
        "Opponent's turn"@
    }
}

/// How a switch is shown.
pub open spec fn switch_text(on: bool) -> Seq<char> {
    if on {
        "ON ✓"@
    } else {
        "OFF"@
    }
}

/// The lines of the screen, top to bottom.
pub open spec fn screen_lines(s: UIState) -> Seq<Seq<char>> {
    seq![
        "╔══════════════════════════════════════════════════════════════════════╗"@,
        "║              🦀 RUSTJSLICH - Lichess Automation                      ║"@,
        "╚══════════════════════════════════════════════════════════════════════╝"@,
        Seq::<char>::empty(),
        "Status: "@ + (if s.is_connected { "🟢 Connected"@ } else { "🔴 Disconnected"@ }) + " | "@
            + s.game_status@,
        Seq::<char>::empty(),
        "┌─ Configuration ──────────────────────────────────────────────────────┐"@,
        "│ Engine:  "@ + engine_name(s.selected_engine) + " [E to cycle]"@,
        "│ Mode:    "@ + mode_name(s.config_mode) + " [M to cycle]"@,
        "│ Auto:    "@ + switch_text(s.auto_mode) + " [A to toggle]"@,
        "│ Human:   "@ + switch_text(s.human_mode) + " [H to toggle]"@,
        "│ Varied:  "@ + switch_text(s.varied_mode) + " [V to toggle]"@,
        "│ Panic:   "@ + switch_text(s.panic_mode) + " [P to toggle]"@,
        "└──────────────────────────────────────────────────────────────────────┘"@,
        Seq::<char>::empty(),
        "┌─ Game Info ──────────────────────────────────────────────────────────┐"@,
        "│ Last Move: "@ + match s.last_move {
            Some(m) => m@,
            None => "None"@,
        },
        "│ "@ + s.board_display@,
        "└──────────────────────────────────────────────────────────────────────┘"@,
        Seq::<char>::empty(),
        "┌─ Statistics ─────────────────────────────────────────────────────────┐"@,
        "│ Moves:       "@ + decimal(s.stats.moves_played as nat),
        "│ Avg Time:    "@ + decimal(s.stats.avg_time_ms as nat) + "ms"@,
        "│ Engine Time: "@ + decimal(s.stats.engine_time_ms as nat) + "ms"@,
        "│"@,
        "│ Move Variety:"@,
        "│   PV1: "@ + decimal(s.stats.variety_stats.pv1 as nat) + " | PV2: "@ + decimal(
            s.stats.variety_stats.pv2 as nat,
        ) + " | PV3: "@ + decimal(s.stats.variety_stats.pv3 as nat) + " | PV4: "@ + decimal(
            s.stats.variety_stats.pv4 as nat,
        ),
        "│   Blunders: "@ + decimal(s.stats.variety_stats.blunders as nat),
        "└──────────────────────────────────────────────────────────────────────┘"@,
        Seq::<char>::empty(),
        "┌─ Hotkeys ────────────────────────────────────────────────────────────┐"@,
        "│ [A] Auto   [H] Human   [V] Varied   [P] Panic   [E] Engine   [M] Mode"@,
        "│ [Q] Quit   [Ctrl+C] Exit"@,
        "└──────────────────────────────────────────────────────────────────────┘"@
    ]
}

/// The command a key asks for (`key` is `None` for a key without a character).
pub open spec fn key_command(key: Option<char>, control: bool) -> UICommand {
    match key {
        Some(c) => if c == 'q' || c == 'Q' {
            UICommand::Quit
        } else if c == 'c' && control {
            UICommand::Quit
        } else if c == 'a' || c == 'A' {
            UICommand::ToggleAuto
        } else if c == 'p' || c == 'P' {
            UICommand::TogglePanic
        } else if c == 'h' || c == 'H' {
            UICommand::ToggleHuman
        } else if c == 'v' || c == 'V' {
            UICommand::ToggleVaried
        } else if c == 'e' || c == 'E' {
            UICommand::CycleEngine
        } else if c == 'm' || c == 'M' {
            UICommand::CycleConfig
        } else {
            UICommand::NoOp
        },
        None => UICommand::NoOp,
    }
}

/// `a` followed by `b`.
fn concat2(a: &str, b: &str) -> (s: String)
    ensures
        s@ == a@ + b@,
{
    let mut s = String::from_str(a);
    append_str(&mut s, b);
    s
}

/// `a`, `b` and `c` in a row.
fn concat3(a: &str, b: &str, c: &str) -> (s: String)
    ensures
        s@ == a@ + b@ + c@,
{
    let mut s = String::from_str(a);
    append_str(&mut s, b);
    append_str(&mut s, c);
    s
}

/// Appends a line.
fn push_line(lines: &mut Vec<String>, l: String)
    ensures
        final(lines)@.map_values(|x: String| x@) == old(lines)@.map_values(|x: String| x@).push(l@),
{
    let ghost before = lines@;
    lines.push(l);
    assert(lines@.map_values(|x: String| x@) =~= before.map_values(|x: String| x@).push(l@));
}

/// How a switch is shown.
fn switch_str(on: bool) -> (s: &'static str)
    ensures
        s@ == switch_text(on),
{
    if on {
        "ON ✓"
    } else {
        "OFF"
    }
}

impl TerminalUI {
    /// What the display shows.
    pub closed spec fn view(&self) -> UIState {
        self.state
    }

    /// A display in its initial state (the terminal itself is set up by the
    /// program).
    pub fn new() -> (t: TerminalUI)
        ensures
            initial_ui(t.view()),
    {
        TerminalUI { state: UIState::default() }
    }

    /// What the display shows.
    pub fn state(&self) -> (s: &UIState)
        ensures
            *s == self.view(),
    {
        &self.state
    }

    /// Shows the switches, engine and preset of the settings.
    pub fn update_from_config(&mut self, config: &Config)
        ensures
            final(self).view().auto_mode == config.auto_run,
            final(self).view().panic_mode == config.panic_mode,
            final(self).view().human_mode == config.human_mode,
            final(self).view().varied_mode == config.varied_mode,
            final(self).view().selected_engine == config.selected_engine,
            final(self).view().config_mode == config.config_mode,
            final(self).view().stats == old(self).view().stats,
            final(self).view().board_display == old(self).view().board_display,
            final(self).view().game_status == old(self).view().game_status,
            final(self).view().last_move == old(self).view().last_move,
            final(self).view().is_connected == old(self).view().is_connected,
    {
        self.state.auto_mode = config.auto_run;
        self.state.panic_mode = config.panic_mode;
        self.state.human_mode = config.human_mode;
        self.state.varied_mode = config.varied_mode;
        self.state.selected_engine = config.selected_engine;
        self.state.config_mode = config.config_mode;
    }

    /// Shows whose turn it is and the position.
    pub fn update_from_game(&mut self, game: &GameState)
        ensures
            final(self).view().game_status@ == game_status_text(
                game.game_ended,
                my_turn(game.board@, game.my_color),
            ),
            final(self).view().board_display@ == "FEN: "@ + game.board@,
            final(self).view().auto_mode == old(self).view().auto_mode,
            final(self).view().panic_mode == old(self).view().panic_mode,
            final(self).view().human_mode == old(self).view().human_mode,
            final(self).view().varied_mode == old(self).view().varied_mode,
            final(self).view().selected_engine == old(self).view().selected_engine,
            final(self).view().config_mode == old(self).view().config_mode,
            final(self).view().stats == old(self).view().stats,
            final(self).view().last_move == old(self).view().last_move,
            final(self).view().is_connected == old(self).view().is_connected,
    {
        self.state.game_status = if game.game_ended {
            String::from_str("Game ended")
        } else if game.is_my_turn() {
            String::from_str("Our turn")
        } else {
            String::from_str("Opponent's turn")
        };
        let fen = game.fen();
        self.state.board_display = concat2("FEN: ", fen.as_str());
    }

    /// Shows whether the browser extension is connected.
    pub fn set_connected(&mut self, connected: bool)
        ensures
            final(self).view() == (UIState { is_connected: connected, ..old(self).view() }),
    {
        self.state.is_connected = connected;
    }

    /// Shows the last move.
    pub fn set_last_move(&mut self, mv: String)
        ensures
            final(self).view() == (UIState { last_move: Some(mv), ..old(self).view() }),
    {
        self.state.last_move = Some(mv);
    }

    /// Shows new statistics.
    pub fn update_stats(&mut self, stats: DisplayStats)
        ensures
            final(self).view() == (UIState { stats: stats, ..old(self).view() }),
    {
        self.state.stats = stats;
    }

    /// The lines of the screen, top to bottom.
    pub fn render_lines(&self) -> (lines: Vec<String>)
        ensures
            lines@.map_values(|l: String| l@) == screen_lines(self.view()),
    {
        let s = &self.state;
        let mut lines: Vec<String> = Vec::new();
        push_line(&mut lines, String::from_str("╔══════════════════════════════════════════════════════════════════════╗"));
        push_line(&mut lines, String::from_str("║              🦀 RUSTJSLICH - Lichess Automation                      ║"));
        push_line(&mut lines, String::from_str("╚══════════════════════════════════════════════════════════════════════╝"));
        push_line(&mut lines, String::new());
        let conn = if s.is_connected {
            "🟢 Connected"
        } else {
            "🔴 Disconnected"
        };
        let mut status = concat3("Status: ", conn, " | ");
        append_str(&mut status, s.game_status.as_str());
        push_line(&mut lines, status);
        push_line(&mut lines, String::new());
        push_line(&mut lines, String::from_str("┌─ Configuration ──────────────────────────────────────────────────────┐"));
        push_line(&mut lines, concat3("│ Engine:  ", s.selected_engine.as_str(), " [E to cycle]"));
        push_line(&mut lines, concat3("│ Mode:    ", s.config_mode.as_str(), " [M to cycle]"));
        push_line(&mut lines, concat3("│ Auto:    ", switch_str(s.auto_mode), " [A to toggle]"));
        push_line(&mut lines, concat3("│ Human:   ", switch_str(s.human_mode), " [H to toggle]"));
        push_line(&mut lines, concat3("│ Varied:  ", switch_str(s.varied_mode), " [V to toggle]"));
        push_line(&mut lines, concat3("│ Panic:   ", switch_str(s.panic_mode), " [P to toggle]"));
        push_line(&mut lines, String::from_str("└──────────────────────────────────────────────────────────────────────┘"));
        push_line(&mut lines, String::new());
        push_line(&mut lines, String::from_str("┌─ Game Info ──────────────────────────────────────────────────────────┐"));
        match &s.last_move {
            Some(m) => push_line(&mut lines, concat2("│ Last Move: ", m.as_str())),
            None => push_line(&mut lines, concat2("│ Last Move: ", "None")),
        }
        push_line(&mut lines, concat2("│ ", s.board_display.as_str()));
        push_line(&mut lines, String::from_str("└──────────────────────────────────────────────────────────────────────┘"));
        push_line(&mut lines, String::new());
        push_line(&mut lines, String::from_str("┌─ Statistics ─────────────────────────────────────────────────────────┐"));
        let moves = decimal_string(s.stats.moves_played as u64);
        push_line(&mut lines, concat2("│ Moves:       ", moves.as_str()));
        let avg = decimal_string(s.stats.avg_time_ms as u64);
        push_line(&mut lines, concat3("│ Avg Time:    ", avg.as_str(), "ms"));
        let eng = decimal_string(s.stats.engine_time_ms as u64);
        push_line(&mut lines, concat3("│ Engine Time: ", eng.as_str(), "ms"));
        push_line(&mut lines, String::from_str("│"));
        push_line(&mut lines, String::from_str("│ Move Variety:"));
        let v = s.stats.variety_stats;
        let mut variety = concat2("│   PV1: ", decimal_string(v.pv1 as u64).as_str());
        append_str(&mut variety, " | PV2: ");
        append_str(&mut variety, decimal_string(v.pv2 as u64).as_str());
        append_str(&mut variety, " | PV3: ");
        append_str(&mut variety, decimal_string(v.pv3 as u64).as_str());
        append_str(&mut variety, " | PV4: ");
        append_str(&mut variety, decimal_string(v.pv4 as u64).as_str());
        push_line(&mut lines, variety);
        push_line(&mut lines, concat2("│   Blunders: ", decimal_string(v.blunders as u64).as_str()));
        push_line(&mut lines, String::from_str("└──────────────────────────────────────────────────────────────────────┘"));
        push_line(&mut lines, String::new());
        push_line(&mut lines, String::from_str("┌─ Hotkeys ────────────────────────────────────────────────────────────┐"));
        push_line(&mut lines, 
            String::from_str(
                "│ [A] Auto   [H] Human   [V] Varied   [P] Panic   [E] Engine   [M] Mode",
            ),
        );
        push_line(&mut lines, String::from_str("│ [Q] Quit   [Ctrl+C] Exit"));
        push_line(&mut lines, String::from_str("└──────────────────────────────────────────────────────────────────────┘"));
        let ghost t = lines@.map_values(|l: String| l@);
        let ghost e = screen_lines(self.view());
        assert(t.len() == e.len());
        // each line on its own: the whole screen at once is too large a query
        assert forall|i: int| 0 <= i < t.len() implies t[i] == e[i] by {
            if i < 12 {
                assert(t[i] == e[i]);
            } else if i < 24 {
                assert(t[i] == e[i]);
            } else {
                assert(t[i] == e[i]);
            }
        }
        assert(t =~= e);
        lines
    }

    /// The command a key asks for (`key` is `None` for a key without a character).
    pub fn process_key_event(&self, key: Option<char>, control: bool) -> (c: UICommand)
        ensures
            c == key_command(key, control),
    {
        match key {
            Some(c) => {
                if c == 'q' || c == 'Q' {
                    UICommand::Quit
                } else if c == 'c' && control {
                    UICommand::Quit
                } else if c == 'a' || c == 'A' {
                    UICommand::ToggleAuto
                } else if c == 'p' || c == 'P' {
                    UICommand::TogglePanic
                } else if c == 'h' || c == 'H' {
                    UICommand::ToggleHuman
                } else if c == 'v' || c == 'V' {
                    UICommand::ToggleVaried
                } else if c == 'e' || c == 'E' {
                    UICommand::CycleEngine
                } else if c == 'm' || c == 'M' {
                    UICommand::CycleConfig
                } else {
                    UICommand::NoOp
                }
            },
            None => UICommand::NoOp,
        }
    }
}

impl Default for TerminalUI {
    fn default() -> (t: Self)
        ensures
            initial_ui(t.view()),
    {
        TerminalUI::new()
    }
}

/// The hotkeys: `q`/`Q` (and Ctrl+C) quit, `a` toggles auto-run, `p` panic mode,
/// `h` human timing, `v` varied selection, `e` cycles the engine and `m` the timing
/// preset, in either case; every other key does nothing. A letter and its capital
/// do the same, except that only a lower-case `c` with Ctrl quits.
pub proof fn lemma_hotkeys(control: bool, c: char)
    ensures
        key_command(Some('q'), control) == UICommand::Quit,
        key_command(Some('Q'), control) == UICommand::Quit,
        key_command(Some('c'), true) == UICommand::Quit,
        key_command(Some('c'), false) == UICommand::NoOp,
        key_command(Some('a'), control) == UICommand::ToggleAuto,
        key_command(Some('A'), control) == UICommand::ToggleAuto,
        key_command(Some('p'), control) == UICommand::TogglePanic,
        key_command(Some('P'), control) == UICommand::TogglePanic,
        key_command(Some('h'), control) == UICommand::ToggleHuman,
        key_command(Some('H'), control) == UICommand::ToggleHuman,
        key_command(Some('v'), control) == UICommand::ToggleVaried,
        key_command(Some('V'), control) == UICommand::ToggleVaried,
        key_command(Some('e'), control) == UICommand::CycleEngine,
        key_command(Some('E'), control) == UICommand::CycleEngine,
        key_command(Some('m'), control) == UICommand::CycleConfig,
        key_command(Some('M'), control) == UICommand::CycleConfig,
        key_command(None, control) == UICommand::NoOp,
        !(c == 'q' || c == 'Q' || c == 'c' || c == 'a' || c == 'A' || c == 'p' || c == 'P' || c == 'h'
            || c == 'H' || c == 'v' || c == 'V' || c == 'e' || c == 'E' || c == 'm' || c == 'M')
            ==> key_command(Some(c), control) == UICommand::NoOp,
        'a' <= c <= 'z' && c != 'c' ==> key_command(Some(c), control) == key_command(
            Some(((c as int) - 32) as char),
            control,
        ),
{
}

} // verus!
