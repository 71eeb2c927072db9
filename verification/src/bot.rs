//! Shared steps of the tasks: where a match is clicked, whether the game
//! runs, which window is the game's, and starting the game client.

use vstd::prelude::*;
use crate::assets::TemplateId;
use crate::config;
use crate::process::{self, ProcessEntry};
use crate::text;
use crate::text::{push_str};
use crate::window::{self, WindowInfo};

verus! {

/// One thing for the platform layer to do on behalf of a task.
pub enum BotAction {
    /// Write this line to the log.
    Log(String),
    /// Bring the game's window to the front.
    FocusGame,
    /// Wait (the default 40 seconds) for the template, then click its centre.
    FindAndClick(TemplateId),
    /// Look once for the template; where it is, click its centre moved by
    /// this offset and pause a second.
    ClickIfExists(TemplateId, i32, i32),
    /// Find the first template, then the second inside it, and click there;
    /// retry until found.
    ClickWithinRegion(TemplateId, TemplateId),
    /// Wait for the template for this many seconds (0: without limit) and
    /// report whether it appeared.
    WaitAppear(TemplateId, u64),
    /// Look once for the template and report whether it is there.
    Find(TemplateId),
    /// Hold down this key for this many milliseconds.
    Press(char, u64),
    /// Pause for this many milliseconds.
    Sleep(u64),
    /// Patch the game's memory with Cheat Engine: replace this value with that one.
    PatchGame(i64, i64),
    /// Start the game client.
    StartGame,
    /// Log in to the game, giving up after this many seconds.
    LoginGame(u64),
    /// Start opening and closing the bag now and then, until stopped.
    StartBagGuard,
    /// Stop the bag guard and wait for it.
    StopBagGuard,
}

/// An action with its strings taken as character sequences.
pub ghost enum ActionView {
    Log(Seq<char>),
    FocusGame,
    FindAndClick(TemplateId),
    ClickIfExists(TemplateId, i32, i32),
    ClickWithinRegion(TemplateId, TemplateId),
    WaitAppear(TemplateId, u64),
    Find(TemplateId),
    Press(char, u64),
    Sleep(u64),
    PatchGame(i64, i64),
    StartGame,
    LoginGame(u64),
    StartBagGuard,
    StopBagGuard,
}

impl View for BotAction {
    type V = ActionView;

    open spec fn view(&self) -> ActionView {
        match self {
            BotAction::Log(s) => ActionView::Log(s@),
            BotAction::FocusGame => ActionView::FocusGame,
            BotAction::FindAndClick(t) => ActionView::FindAndClick(*t),
            BotAction::ClickIfExists(t, x, y) => ActionView::ClickIfExists(*t, *x, *y),
            BotAction::ClickWithinRegion(a, b) => ActionView::ClickWithinRegion(*a, *b),
            BotAction::WaitAppear(t, s) => ActionView::WaitAppear(*t, *s),
            BotAction::Find(t) => ActionView::Find(*t),
            BotAction::Press(c, ms) => ActionView::Press(*c, *ms),
            BotAction::Sleep(ms) => ActionView::Sleep(*ms),
            BotAction::PatchGame(a, b) => ActionView::PatchGame(*a, *b),
            BotAction::StartGame => ActionView::StartGame,
            BotAction::LoginGame(s) => ActionView::LoginGame(*s),
            BotAction::StartBagGuard => ActionView::StartBagGuard,
            BotAction::StopBagGuard => ActionView::StopBagGuard,
        }
    }
}

/// The views of a list of actions.
pub open spec fn views(actions: Seq<BotAction>) -> Seq<ActionView> {
    actions.map_values(|a: BotAction| a@)
}

/// Seconds that a template is waited for by default.
pub const DEFAULT_WAIT_SECONDS: u64 = 40;

/// The centre of a `w`×`h` match whose top-left pixel is `(x, y)`.
pub fn match_center(x: u32, y: u32, w: u32, h: u32) -> (res: (i32, i32))
    requires
        x + w / 2 <= i32::MAX,
        y + h / 2 <= i32::MAX,
    ensures
        res.0 == x + w / 2,
        res.1 == y + h / 2,
{
    ((x + w / 2) as i32, (y + h / 2) as i32)
}

/// A position inside a region, in screen coordinates: the region's top-left
/// pixel `(bx, by)` moved by the position `(tx, ty)` within it.
pub fn region_point(bx: u32, by: u32, tx: i32, ty: i32) -> (res: (i32, i32))
    requires
        i32::MIN <= bx + tx <= i32::MAX,
        i32::MIN <= by + ty <= i32::MAX,
        bx <= i32::MAX,
        by <= i32::MAX,
    ensures
        res.0 == bx + tx,
        res.1 == by + ty,
{
    (bx as i32 + tx, by as i32 + ty)
}

/// Where a found template is clicked: its centre moved by `offset`.
pub fn click_point(pos: (i32, i32), offset: (i32, i32)) -> (res: (i32, i32))
    requires
        i32::MIN <= pos.0 + offset.0 <= i32::MAX,
        i32::MIN <= pos.1 + offset.1 <= i32::MAX,
    ensures
        res.0 == pos.0 + offset.0,
        res.1 == pos.1 + offset.1,
{
    (pos.0 + offset.0, pos.1 + offset.1)
}

/// Whether the game client appears in the process snapshot under one of its
/// executable names (ignoring ASCII case).
pub fn game_running(procs: &[ProcessEntry]) -> (res: bool)
    ensures
        res == exists|j: int| 0 <= j < procs@.len() && process::name_listed(config::GAME_PROCESS_NAMES@, (#[trigger] procs@[j]).name@),
{
    let names = config::GAME_PROCESS_NAMES;
    process::is_running(names.as_slice(), procs)
}

/// The game's window among the listed ones: the first visible one whose
/// trimmed title contains one of the game's window words.
pub fn focus_game(windows: &[WindowInfo]) -> (res: Option<usize>)
    ensures
        res matches Some(i) ==> window::matching_windows(config::GAME_WINDOW_KEYS@, windows@).len() > 0
            && i == window::matching_windows(config::GAME_WINDOW_KEYS@, windows@)[0],
        res is None ==> window::matching_windows(config::GAME_WINDOW_KEYS@, windows@).len() == 0,
{
    let keys = config::GAME_WINDOW_KEYS;
    window::focus_game(keys.as_slice(), windows)
}

/// How many times the start of the game client is checked for, a second apart.
pub const START_POLLS: u32 = 60;

/// What the platform layer does next while starting the game client.
pub enum StartGameStep {
    /// Check whether the game client runs and report it.
    CheckRunning,
    /// Open the game's executable and report whether that worked.
    Open,
    /// Pause a second, then check whether the game client runs and report it.
    SleepThenCheck,
    /// Write this line to the log; starting is over.
    GiveUp(String),
    /// Pause a second, then write this line to the log; starting is over.
    SleepThenGiveUp(String),
    /// Starting is over.
    Done,
}

/// What the platform layer reports back.
pub enum StartGameEvent {
    Running(bool),
    Opened(bool),
}

/// Starting the game client: nothing if it runs already; otherwise open it
/// and check once a second, up to sixty times, whether it came up.
pub struct StartGame {
    path: String,
    opened: bool,
    polls: u32,
}

impl StartGame {
    /// The executable that is opened.
    pub closed spec fn spec_path(&self) -> Seq<char> {
        self.path@
    }

    /// Whether the executable has been opened.
    pub closed spec fn spec_opened(&self) -> bool {
        self.opened
    }

    /// How many checks followed the opening.
    pub closed spec fn spec_polls(&self) -> nat {
        self.polls as nat
    }

    pub closed spec fn wf(&self) -> bool {
        self.polls <= START_POLLS && (!self.opened ==> self.polls == 0)
    }

    /// The first step: check whether the game client runs.
    pub fn first() -> (res: StartGameStep)
        ensures
            res is CheckRunning,
    {
        StartGameStep::CheckRunning
    }

    /// Answers one report of the platform layer.
    pub fn step(&mut self, event: StartGameEvent) -> (res: StartGameStep)
        requires
            old(self).wf(),
        ensures
            final(self).wf(),
            final(self).spec_path() == old(self).spec_path(),
            match event {
                StartGameEvent::Running(true) => res is Done,
                StartGameEvent::Running(false) => if !old(self).spec_opened() {
                    res is Open && final(self).spec_polls() == 0
                } else if old(self).spec_polls() < START_POLLS {
                    res is SleepThenCheck && final(self).spec_polls() == old(self).spec_polls() + 1 && final(self).spec_opened()
                } else {
                    res matches StartGameStep::SleepThenGiveUp(m) && m@ == "等待魔法哈奇进程超时"@
                },
                StartGameEvent::Opened(false) => res matches StartGameStep::GiveUp(m)
                    && m@ == "启动魔法哈奇失败: "@ + old(self).spec_path(),
                StartGameEvent::Opened(true) => res is CheckRunning && final(self).spec_opened()
                    && final(self).spec_polls() == 1,
            },
    {
        match event {
            StartGameEvent::Running(true) => StartGameStep::Done,
            StartGameEvent::Running(false) => {
                if !self.opened {
                    StartGameStep::Open
                } else if self.polls < START_POLLS {
                    self.polls = self.polls + 1;
                    StartGameStep::SleepThenCheck
                } else {
                    StartGameStep::SleepThenGiveUp(text::string_of(text::chars_of("等待魔法哈奇进程超时").as_slice()))
                }
            },
            StartGameEvent::Opened(false) => {
                let mut m = text::string_of(text::chars_of("启动魔法哈奇失败: ").as_slice());
                push_str(&mut m, self.path.as_str());
                StartGameStep::GiveUp(m)
            },
            StartGameEvent::Opened(true) => {
                self.opened = true;
                self.polls = 1;
                StartGameStep::CheckRunning
            },
        }
    }
}

/// Starts the game client from the executable at `path`.
pub fn start_game(path: &str) -> (res: StartGame)
    ensures
        res.wf(),
        res.spec_path() == path@,
        !res.spec_opened(),
        res.spec_polls() == 0,
{
    StartGame { path: text::string_of(text::chars_of(path).as_slice()), opened: false, polls: 0 }
}

/// `"卡片<file>没有找到"`: the log line when a template never appeared.
pub fn not_found_message(t: TemplateId) -> (res: String)
    ensures
        res@ == "卡片"@ + crate::assets::spec_file_name(t) + "没有找到"@,
{
    let mut s = text::string_of(text::chars_of("卡片").as_slice());
    push_str(&mut s, t.file_name());
    push_str(&mut s, "没有找到");
    s
}

/// What the login waits on after its actions.
pub enum LoginQuery {
    /// Look once for the template and report whether it is there.
    Find(TemplateId),
    /// Report whether time is left before the login's time limit.
    TimeLeft,
    /// The login is over.
    Done,
}

/// Where the login stands.
pub enum LoginPhase {
    /// Whether the map shows before anything is clicked.
    Start,
    /// Whether time is left.
    Clock,
    /// Whether the map shows after the pop-ups were closed.
    Poll,
}

/// Logging in to the game: nothing where the map shows already; otherwise
/// click through the login screens, then close pop-ups and look for the map
/// once a second until it shows or the time limit passes.
pub struct LoginGame {
    phase: LoginPhase,
}

/// What a report leads to: the actions, what they end waiting on, and the
/// next phase.
pub open spec fn login_plan(phase: LoginPhase, report: bool) -> (Seq<ActionView>, LoginQuery, LoginPhase) {
    match phase {
        LoginPhase::Start => if report {
            (Seq::empty(), LoginQuery::Done, LoginPhase::Start)
        } else {
            (seq![
                ActionView::FindAndClick(TemplateId::Jinruyouxi),
                ActionView::Sleep(2000),
                ActionView::FocusGame,
                ActionView::FindAndClick(TemplateId::Denglu),
                ActionView::FindAndClick(TemplateId::Jinruyouxi2),
                ActionView::FindAndClick(TemplateId::Paopao),
            ], LoginQuery::TimeLeft, LoginPhase::Clock)
        },
        LoginPhase::Clock => if report {
            (seq![ActionView::ClickIfExists(TemplateId::Cha, 0, 0)], LoginQuery::Find(TemplateId::Ditu), LoginPhase::Poll)
        } else {
            (seq![ActionView::Log("登录魔法哈奇超时"@)], LoginQuery::Done, LoginPhase::Clock)
        },
        LoginPhase::Poll => if report {
            (Seq::empty(), LoginQuery::Done, LoginPhase::Poll)
        } else {
            (seq![ActionView::Sleep(1000)], LoginQuery::TimeLeft, LoginPhase::Clock)
        },
    }
}

impl LoginGame {
    pub closed spec fn phase(&self) -> LoginPhase {
        self.phase
    }

    /// Answers the report that the last query asked for.
    pub fn step(&mut self, report: bool) -> (res: (Vec<BotAction>, LoginQuery))
        ensures
            views(res.0@) == login_plan(old(self).phase(), report).0,
            res.1 == login_plan(old(self).phase(), report).1,
            final(self).phase() == login_plan(old(self).phase(), report).2,
    {
        let mut v: Vec<BotAction> = Vec::new();
        let q = match self.phase {
            LoginPhase::Start => {
                if report {
                    LoginQuery::Done
                } else {
                    v.push(BotAction::FindAndClick(TemplateId::Jinruyouxi));
                    v.push(BotAction::Sleep(2000));
                    v.push(BotAction::FocusGame);
                    v.push(BotAction::FindAndClick(TemplateId::Denglu));
                    v.push(BotAction::FindAndClick(TemplateId::Jinruyouxi2));
                    v.push(BotAction::FindAndClick(TemplateId::Paopao));
                    self.phase = LoginPhase::Clock;
                    LoginQuery::TimeLeft
                }
            },
            LoginPhase::Clock => {
                if report {
                    v.push(BotAction::ClickIfExists(TemplateId::Cha, 0, 0));
                    self.phase = LoginPhase::Poll;
                    LoginQuery::Find(TemplateId::Ditu)
                } else {
                    v.push(BotAction::Log(text::string_of(text::chars_of("登录魔法哈奇超时").as_slice())));
                    LoginQuery::Done
                }
            },
            LoginPhase::Poll => {
                if report {
                    LoginQuery::Done
                } else {
                    v.push(BotAction::Sleep(1000));
                    self.phase = LoginPhase::Clock;
                    LoginQuery::TimeLeft
                }
            },
        };
        assert(views(v@) =~= login_plan(old(self).phase(), report).0);
        (v, q)
    }
}

/// The report that a login phase waits for: whether the map shows (before
/// anything is clicked, or after the pop-ups were closed), or whether time is
/// left.
pub open spec fn awaits(phase: LoginPhase) -> LoginQuery {
    match phase {
        LoginPhase::Start => LoginQuery::Find(TemplateId::Ditu),
        LoginPhase::Clock => LoginQuery::TimeLeft,
        LoginPhase::Poll => LoginQuery::Find(TemplateId::Ditu),
    }
}

/// How a login goes, whatever the reports: each step that does not end the
/// login asks for the report that its next phase answers; the map showing
/// ends the login at once, with nothing more done; time running out ends it
/// with the timeout line, which is logged then and only then; while time is
/// left a pop-up is closed and the map looked for; and while the map is
/// missing the login goes on.
pub proof fn lemma_login_course(phase: LoginPhase, report: bool)
    ensures
        ({
            let (acts, query, next) = login_plan(phase, report);
            &&& query != LoginQuery::Done ==> awaits(next) == query
            &&& (awaits(phase) is Find && report) ==> acts.len() == 0 && query == LoginQuery::Done
            &&& query == LoginQuery::Done <==> ((awaits(phase) is Find && report) || (awaits(phase) is TimeLeft && !report))
            &&& (awaits(phase) is TimeLeft && !report) ==> acts == seq![ActionView::Log("登录魔法哈奇超时"@)]
            &&& acts.contains(ActionView::Log("登录魔法哈奇超时"@)) ==> (awaits(phase) is TimeLeft && !report)
            &&& (awaits(phase) is TimeLeft && report) ==> query == LoginQuery::Find(TemplateId::Ditu)
                && acts == seq![ActionView::ClickIfExists(TemplateId::Cha, 0, 0)]
            &&& (awaits(phase) is Find && !report) ==> query == LoginQuery::TimeLeft
        }),
{
    let (acts, query, next) = login_plan(phase, report);
    if acts.contains(ActionView::Log("登录魔法哈奇超时"@)) {
        let i = choose|i: int| 0 <= i < acts.len() && acts[i] == ActionView::Log("登录魔法哈奇超时"@);
        assert(acts[i] is Log);
    }
}

/// Starts logging in: first look for the map.
pub fn login_game() -> (res: (LoginGame, LoginQuery))
    ensures
        res.0.phase() is Start,
        res.1 == LoginQuery::Find(TemplateId::Ditu),
        res.1 == awaits(res.0.phase()),
{
    (LoginGame { phase: LoginPhase::Start }, LoginQuery::Find(TemplateId::Ditu))
}

} // verus!
