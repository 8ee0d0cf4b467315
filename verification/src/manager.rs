use vstd::prelude::*;

verus! {

/// What the main loop does after a frame.
#[derive(Debug, Clone, Copy, PartialEq, Eq, Structural)]
pub enum MoveAction {
    NoAction,
    /// Back to the title; `true` when coming from a game over.
    StartTitle(bool),
    StartInGame,
    BreakLoop,
}

/// The screen the game shows.
#[derive(Debug, Clone, Copy, PartialEq, Eq, Structural)]
pub enum GameState {
    Title,
    InGame,
}

/// Switches between the title and the game, and handles the escape key.
pub struct GameManager {
    state: GameState,
    esc_pressed: bool,
}

impl GameManager {
    pub closed spec fn state_spec(&self) -> GameState {
        self.state
    }

    pub closed spec fn esc_held(&self) -> bool {
        self.esc_pressed
    }

    /// The manager starts at the title.
    pub fn new() -> (m: GameManager)
        ensures
            m.state_spec() == GameState::Title,
            !m.esc_held(),
    {
        GameManager { state: GameState::Title, esc_pressed: false }
    }

    pub fn state(&self) -> (r: GameState)
        ensures
            r == self.state_spec(),
    {
        self.state
    }

    pub fn start_title(&mut self)
        ensures
            final(self).state_spec() == GameState::Title,
            final(self).esc_held() == old(self).esc_held(),
    {
        self.state = GameState::Title;
    }

    pub fn start_in_game(&mut self)
        ensures
            final(self).state_spec() == GameState::InGame,
            final(self).esc_held() == old(self).esc_held(),
    {
        self.state = GameState::InGame;
    }

    /// The escape key's effect on this frame: pressing it leaves a game for the title,
    /// or quits from the title. `None` leaves the frame to the current screen.
    pub fn mov(&mut self, esc_pressed: bool) -> (action: Option<MoveAction>)
        ensures
            final(self).state_spec() == old(self).state_spec(),
            final(self).esc_held() == esc_pressed,
            action == if esc_pressed && !old(self).esc_held() {
                match old(self).state_spec() {
                    GameState::InGame => Some(MoveAction::StartTitle(false)),
                    GameState::Title => Some(MoveAction::BreakLoop),
                }
            } else {
                None
            },
    {
        if esc_pressed {
            if !self.esc_pressed {
                self.esc_pressed = true;
                match self.state {
                    GameState::InGame => {
                        return Some(MoveAction::StartTitle(false));
                    },
                    GameState::Title => {
                        return Some(MoveAction::BreakLoop);
                    },
                }
            }
        } else {
            self.esc_pressed = false;
        }
        None
    }
}

/// Frames after game over from which a press of the first button returns to the title.
pub const GAME_OVER_BUTTON_FRAMES: u32 = 60;
/// Frames after game over after which the game returns to the title by itself.
pub const GAME_OVER_TIMEOUT_FRAMES: u32 = 1200;

/// The pause and game over handling of a game in progress.
pub struct InGameState {
    game_over_cnt: u32,
    btn_pressed: bool,
    pause_cnt: u32,
    pause_pressed: bool,
}

/// What the end of a frame decides once the clock has run out.
#[derive(Debug, Clone, Copy, PartialEq, Eq, Structural)]
pub struct GameOverStep {
    /// The game ends this frame: the ship is to be put in game over and the result
    /// recorded.
    pub ends_game: bool,
    pub action: MoveAction,
}

impl InGameState {
    pub closed spec fn game_over_cnt_spec(&self) -> u32 {
        self.game_over_cnt
    }

    pub closed spec fn btn_held(&self) -> bool {
        self.btn_pressed
    }

    pub closed spec fn pause_cnt_spec(&self) -> u32 {
        self.pause_cnt
    }

    pub closed spec fn pause_held(&self) -> bool {
        self.pause_pressed
    }

    pub fn new() -> (s: InGameState)
        ensures
            s.game_over_cnt_spec() == 0,
            !s.btn_held(),
            s.pause_cnt_spec() == 0,
            !s.pause_held(),
    {
        InGameState { game_over_cnt: 0, btn_pressed: false, pause_cnt: 0, pause_pressed: false }
    }

    /// The frames counted since the clock ran out.
    pub fn game_over_cnt(&self) -> (r: u32)
        ensures
            r == self.game_over_cnt_spec(),
    {
        self.game_over_cnt
    }

    /// The pause counter: zero while the game runs.
    pub fn pause_cnt(&self) -> (r: u32)
        ensures
            r == self.pause_cnt_spec(),
    {
        self.pause_cnt
    }

    /// A game starts: no game over, no pause.
    pub fn start(&mut self)
        ensures
            final(self).game_over_cnt_spec() == 0,
            final(self).pause_cnt_spec() == 0,
            final(self).btn_held() == old(self).btn_held(),
            final(self).pause_held() == old(self).pause_held(),
    {
        self.game_over_cnt = 0;
        self.pause_cnt = 0;
    }

    /// The pause key: a new press pauses a running game, or resumes a paused one.
    /// Returns whether the frame is paused.
    pub fn mov_pause(&mut self, pause_key: bool, ship_game_over: bool) -> (paused: bool)
        requires
            old(self).pause_cnt_spec() < u32::MAX,
        ensures
            final(self).pause_held() == pause_key,
            final(self).game_over_cnt_spec() == old(self).game_over_cnt_spec(),
            final(self).btn_held() == old(self).btn_held(),
            ({
                let cnt = if pause_key && !old(self).pause_held() {
                    if old(self).pause_cnt_spec() == 0 && !ship_game_over {
                        1int
                    } else {
                        0int
                    }
                } else {
                    old(self).pause_cnt_spec() as int
                };
                &&& paused == (cnt > 0)
                &&& final(self).pause_cnt_spec() == if cnt > 0 {
                    cnt + 1
                } else {
                    cnt
                }
            }),
    {
        if pause_key {
            if !self.pause_pressed {
                if self.pause_cnt == 0 && !ship_game_over {
                    self.pause_cnt = 1;
                } else {
                    self.pause_cnt = 0;
                }
            }
            self.pause_pressed = true;
        } else {
            self.pause_pressed = false;
        }
        if self.pause_cnt > 0 {
            self.pause_cnt = self.pause_cnt + 1;
            return true;
        }
        false
    }

    /// The end of a frame once the clock has run out (`time_over`): the game ends if
    /// it has not yet, and after a while the first button, or a timeout, returns to
    /// the title.
    pub fn mov_game_over(&mut self, time_over: bool, ship_game_over: bool, button_a: bool) -> (r:
        GameOverStep)
        requires
            old(self).game_over_cnt_spec() < u32::MAX,
        ensures
            !time_over ==> r == (GameOverStep { ends_game: false, action: MoveAction::NoAction })
                && final(self).game_over_cnt_spec() == old(self).game_over_cnt_spec()
                && final(self).btn_held() == old(self).btn_held(),
            time_over ==> {
                let cnt = old(self).game_over_cnt_spec() + 1;
                let held = old(self).btn_held() || !ship_game_over;
                &&& r.ends_game == !ship_game_over
                &&& final(self).game_over_cnt_spec() == cnt
                &&& final(self).btn_held() == button_a
                &&& r.action == if cnt > GAME_OVER_TIMEOUT_FRAMES {
                    MoveAction::StartTitle(false)
                } else if button_a && cnt > GAME_OVER_BUTTON_FRAMES && !held {
                    MoveAction::StartTitle(true)
                } else {
                    MoveAction::NoAction
                }
            },
            final(self).pause_cnt_spec() == old(self).pause_cnt_spec(),
            final(self).pause_held() == old(self).pause_held(),
    {
        let mut action = MoveAction::NoAction;
        let mut ends_game = false;
        if time_over {
            if !ship_game_over {
                ends_game = true;
                self.btn_pressed = true;
            }
            self.game_over_cnt = self.game_over_cnt + 1;
            if button_a {
                if self.game_over_cnt > GAME_OVER_BUTTON_FRAMES && !self.btn_pressed {
                    action = MoveAction::StartTitle(true);
                }
                self.btn_pressed = true;
            } else {
                self.btn_pressed = false;
            }
            if self.game_over_cnt > GAME_OVER_TIMEOUT_FRAMES {
                action = MoveAction::StartTitle(false);
            }
        }
        GameOverStep { ends_game, action }
    }
}

/// Frames after the demo replay's game over before the demo starts again.
pub const REPLAY_RESTART_FRAMES: u32 = 120;

/// The title screen's demo: whether a replay is there to play behind the menu, and
/// how long the demo's game has been over.
pub struct TitleState {
    game_over_cnt: u32,
    has_replay: bool,
}

impl TitleState {
    pub closed spec fn game_over_cnt_spec(&self) -> u32 {
        self.game_over_cnt
    }

    pub closed spec fn replay_held(&self) -> bool {
        self.has_replay
    }

    /// A title screen without a replay.
    pub fn new() -> (s: TitleState)
        ensures
            s.game_over_cnt_spec() == 0,
            !s.replay_held(),
    {
        TitleState { game_over_cnt: 0, has_replay: false }
    }

    /// A replay to play behind the menu has been handed over.
    pub fn set_replay_data(&mut self)
        ensures
            final(self).replay_held(),
            final(self).game_over_cnt_spec() == old(self).game_over_cnt_spec(),
    {
        self.has_replay = true;
    }

    /// Whether a replay is there to play.
    pub fn has_replay(&self) -> (r: bool)
        ensures
            r == self.replay_held(),
    {
        self.has_replay
    }

    /// How many frames the demo's game has been over.
    pub fn game_over_cnt(&self) -> (r: u32)
        ensures
            r == self.game_over_cnt_spec(),
    {
        self.game_over_cnt
    }

    /// The demo (re)starts: a replay, when there is one, starts afresh, with no game
    /// over counted.
    pub fn start_replay(&mut self)
        ensures
            final(self).replay_held() == old(self).replay_held(),
            final(self).game_over_cnt_spec() == if old(self).replay_held() {
                0
            } else {
                old(self).game_over_cnt_spec()
            },
    {
        if self.has_replay {
            self.game_over_cnt = 0;
        }
    }

    /// Counts a frame of the demo's game over. Returns whether the demo restarts this
    /// frame, which it does once the game has been over for more than
    /// `REPLAY_RESTART_FRAMES` frames.
    pub fn mov_game_over(&mut self, ship_game_over: bool) -> (restart: bool)
        requires
            old(self).game_over_cnt_spec() < u32::MAX,
        ensures
            restart == (ship_game_over && old(self).game_over_cnt_spec() + 1
                > REPLAY_RESTART_FRAMES),
            final(self).replay_held() == old(self).replay_held(),
            final(self).game_over_cnt_spec() == if !ship_game_over {
                old(self).game_over_cnt_spec() as int
            } else if restart && old(self).replay_held() {
                0
            } else {
                old(self).game_over_cnt_spec() + 1
            },
    {
        if ship_game_over {
            self.game_over_cnt = self.game_over_cnt + 1;
            if self.game_over_cnt > REPLAY_RESTART_FRAMES {
                self.start_replay();
                return true;
            }
        }
        false
    }
}

} // verus!
