//! The yingxionggu loop: join the valley, buy a ticket where one is needed,
//! patch the game where the daily limit is hit, and wait out each match.

use vstd::prelude::*;
use crate::assets::TemplateId;
use crate::bot::{self, ActionView, BotAction, DEFAULT_WAIT_SECONDS};
use crate::tasks::{self, owned, round_message};
use crate::text;
use crate::text::{decimal_of, push_all, push_str};

verus! {

/// How many times per run Cheat Engine may be started to lift the daily limit.
pub const MAX_CE_PATCH_ATTEMPTS: u32 = 2;

/// The value that the patch looks for in the game's memory.
pub const PATCH_SCAN_VALUE: i64 = 50417;

/// The value that the patch writes in its place.
pub const PATCH_WRITE_VALUE: i64 = -1;

/// Seconds the login may take when the game has to be started.
pub const LOGIN_TIMEOUT_SECONDS: u64 = 120;

/// Where a round stands: which look-up the next report answers.
pub enum Phase {
    /// No round is under way.
    Idle,
    /// Whether the "10 times" notice showed.
    TenTimesNotice,
    /// Whether the ticket question showed.
    TicketQuestion,
    /// Whether the "return to the main city" button showed.
    ReturnButton,
    /// Whether the equipment panel is open.
    BagOpen,
}

/// The loop: rounds begun and Cheat Engine patches started so far.
pub struct Yingxionggu {
    round: u64,
    ce_patch_attempts: u32,
    phase: Phase,
}

/// What one report leads to: the actions, the next phase and the patch count.
pub open spec fn step_plan(phase: Phase, round: nat, attempts: u32, found: bool) -> (Seq<ActionView>, Phase, u32) {
    match phase {
        Phase::TenTimesNotice => {
            if found {
                if attempts < MAX_CE_PATCH_ATTEMPTS {
                    (seq![
                        ActionView::FindAndClick(TemplateId::Queding),
                        ActionView::Log(tasks::round_line(round, " 轮：检测到 10 次提示，第 "@ + text::decimal((attempts + 1) as nat) + " 次启动 CE 修改"@)),
                        ActionView::PatchGame(PATCH_SCAN_VALUE, PATCH_WRITE_VALUE),
                        ActionView::Sleep(1000),
                        ActionView::FocusGame,
                        ActionView::Sleep(10000),
                        ActionView::Sleep(2000),
                    ], Phase::Idle, (attempts + 1) as u32)
                } else {
                    (seq![
                        ActionView::FindAndClick(TemplateId::Queding),
                        ActionView::Log(tasks::round_line(round, " 轮：检测到 10 次提示，CE 修改已达最大尝试次数"@)),
                        ActionView::Sleep(10000),
                        ActionView::Sleep(2000),
                    ], Phase::Idle, attempts)
                }
            } else {
                (seq![ActionView::Find(TemplateId::Shi)], Phase::TicketQuestion, attempts)
            }
        },
        Phase::TicketQuestion => {
            let wait = seq![ActionView::Sleep(10000), ActionView::Find(TemplateId::Fanhuizhucheng)];
            if found {
                (seq![
                    ActionView::Log(tasks::round_line(round, " 轮：购买门票"@)),
                    ActionView::FindAndClick(TemplateId::Fou),
                    ActionView::FindAndClick(TemplateId::Dianjichakan),
                    ActionView::ClickWithinRegion(TemplateId::Yingxionggumenpiao, TemplateId::Goumai1),
                    ActionView::FindAndClick(TemplateId::Mashanggoumai1),
                    ActionView::FindAndClick(TemplateId::Cha),
                    ActionView::FindAndClick(TemplateId::Jiaruyingxionggu),
                ] + wait, Phase::ReturnButton, attempts)
            } else {
                (wait, Phase::ReturnButton, attempts)
            }
        },
        Phase::ReturnButton => {
            if found {
                (seq![
                    ActionView::StartBagGuard,
                    ActionView::WaitAppear(TemplateId::Saichangchengji, 0),
                    ActionView::StopBagGuard,
                    ActionView::FindAndClick(TemplateId::Fanhuizhucheng),
                    ActionView::FindAndClick(TemplateId::Shi),
                    ActionView::Log(tasks::round_line(round, " 轮完成"@)),
                    ActionView::Sleep(2000),
                ], Phase::Idle, attempts)
            } else {
                (seq![ActionView::Find(TemplateId::Zhuangbei)], Phase::BagOpen, attempts)
            }
        },
        Phase::BagOpen => {
            if found {
                (seq![ActionView::Press('b', 500), ActionView::Sleep(2000)], Phase::Idle, attempts)
            } else {
                (seq![ActionView::Sleep(2000)], Phase::Idle, attempts)
            }
        },
        Phase::Idle => (Seq::empty(), Phase::Idle, attempts),
    }
}

/// Cheat Engine is started at most `MAX_CE_PATCH_ATTEMPTS` times in a run:
/// every step that patches counts one more attempt and only happens below the
/// limit; every other step leaves the count alone.
pub proof fn lemma_patch_budget(phase: Phase, round: nat, attempts: u32, found: bool)
    requires
        attempts <= MAX_CE_PATCH_ATTEMPTS,
    ensures
        step_plan(phase, round, attempts, found).2 <= MAX_CE_PATCH_ATTEMPTS,
        step_plan(phase, round, attempts, found).0.contains(ActionView::PatchGame(PATCH_SCAN_VALUE, PATCH_WRITE_VALUE))
            ==> attempts < MAX_CE_PATCH_ATTEMPTS && step_plan(phase, round, attempts, found).2 == attempts + 1,
        !step_plan(phase, round, attempts, found).0.contains(ActionView::PatchGame(PATCH_SCAN_VALUE, PATCH_WRITE_VALUE))
            ==> step_plan(phase, round, attempts, found).2 == attempts,
{
    let (plan, next, count) = step_plan(phase, round, attempts, found);
    let patch = ActionView::PatchGame(PATCH_SCAN_VALUE, PATCH_WRITE_VALUE);
    match phase {
        Phase::TenTimesNotice => {
            if found && attempts < MAX_CE_PATCH_ATTEMPTS {
                assert(plan[2] == patch);
            } else if found {
                assert(forall|i: int| 0 <= i < plan.len() ==> plan[i] != patch);
            } else {
                assert(forall|i: int| 0 <= i < plan.len() ==> plan[i] != patch);
            }
        },
        Phase::TicketQuestion => {
            assert(forall|i: int| 0 <= i < plan.len() ==> plan[i] != patch);
        },
        _ => {
            assert(forall|i: int| 0 <= i < plan.len() ==> plan[i] != patch);
        },
    }
}

/// How many of `plan`'s actions start a Cheat Engine patch.
pub open spec fn patch_count(plan: Seq<ActionView>) -> nat
    decreases plan.len(),
{
    if plan.len() == 0 {
        0
    } else {
        patch_count(plan.drop_last()) + if plan.last() == ActionView::PatchGame(PATCH_SCAN_VALUE, PATCH_WRITE_VALUE) { 1nat } else { 0nat }
    }
}

/// The Cheat Engine patches a whole run starts, from a loop state and for
/// the look-up outcomes reported in turn: where no round is under way the
/// next round begins first, then the outcome answers its step.
pub open spec fn run_patches(phase: Phase, round: nat, attempts: u32, reports: Seq<bool>) -> nat
    decreases reports.len(),
{
    if reports.len() == 0 {
        0
    } else {
        let begins = phase is Idle;
        let round1 = if begins { round + 1 } else { round };
        let phase1 = if begins { Phase::TenTimesNotice } else { phase };
        let opening = if begins { patch_count(begin_plan(round1)) } else { 0nat };
        let (plan, next, count) = step_plan(phase1, round1, attempts, reports[0]);
        opening + patch_count(plan) + run_patches(next, round1, count, reports.drop_first())
    }
}

/// A step starts exactly as many patches as it adds to the count.
proof fn lemma_step_patch_count(phase: Phase, round: nat, attempts: u32, found: bool)
    requires
        attempts <= MAX_CE_PATCH_ATTEMPTS,
    ensures
        patch_count(step_plan(phase, round, attempts, found).0) + attempts == step_plan(phase, round, attempts, found).2,
{
    reveal_with_fuel(patch_count, 14);
}

/// Beginning a round starts no patch.
proof fn lemma_begin_no_patch(round: nat)
    ensures
        patch_count(begin_plan(round)) == 0,
{
    reveal_with_fuel(patch_count, 8);
}

/// Over a whole run, whatever the look-ups report and however many rounds
/// pass, Cheat Engine is started at most `MAX_CE_PATCH_ATTEMPTS` times: the
/// patches started plus those counted before never exceed the limit.
pub proof fn lemma_run_patch_limit(phase: Phase, round: nat, attempts: u32, reports: Seq<bool>)
    requires
        attempts <= MAX_CE_PATCH_ATTEMPTS,
    ensures
        run_patches(phase, round, attempts, reports) + attempts <= MAX_CE_PATCH_ATTEMPTS,
    decreases reports.len(),
{
    if reports.len() > 0 {
        let begins = phase is Idle;
        let round1 = if begins { round + 1 } else { round };
        let phase1 = if begins { Phase::TenTimesNotice } else { phase };
        lemma_begin_no_patch(round1);
        lemma_patch_budget(phase1, round1, attempts, reports[0]);
        lemma_step_patch_count(phase1, round1, attempts, reports[0]);
        let (plan, next, count) = step_plan(phase1, round1, attempts, reports[0]);
        lemma_run_patch_limit(next, round1, count, reports.drop_first());
    }
}

/// A run starts with no patch counted (see `run`), so all its rounds
/// together start Cheat Engine at most `MAX_CE_PATCH_ATTEMPTS` times.
pub proof fn lemma_whole_run(reports: Seq<bool>)
    ensures
        run_patches(Phase::Idle, 0, 0, reports) <= MAX_CE_PATCH_ATTEMPTS,
{
    lemma_run_patch_limit(Phase::Idle, 0, 0, reports);
}

/// The actions that begin a round, ending with the look-up for the notice
/// that the day's ten entries are used up.
pub open spec fn begin_plan(round: nat) -> Seq<ActionView> {
    seq![
        ActionView::Log(tasks::round_line(round, " 轮开始"@)),
        ActionView::FocusGame,
        ActionView::WaitAppear(TemplateId::Ditu, DEFAULT_WAIT_SECONDS),
        ActionView::FindAndClick(TemplateId::Yingxionggu),
        ActionView::FindAndClick(TemplateId::Jiaruyingxionggu),
        ActionView::Sleep(2000),
        ActionView::Find(TemplateId::Yingxionggu10ci),
    ]
}

/// The actions that start the loop: start and log in to the game first where
/// it does not run.
pub open spec fn launch_plan(game_running: bool) -> Seq<ActionView> {
    if game_running {
        seq![ActionView::Log("英雄谷脚本启动"@)]
    } else {
        seq![
            ActionView::Log("英雄谷脚本启动"@),
            ActionView::Log("魔法哈奇未运行，尝试启动并登录"@),
            ActionView::StartGame,
            ActionView::LoginGame(LOGIN_TIMEOUT_SECONDS),
        ]
    }
}

/// Where the game client does not run, the loop starts it and then logs in,
/// with the login's time limit; where it runs, the loop neither starts it nor
/// logs in.
pub proof fn lemma_launch_starts_game(game_running: bool)
    ensures
        ({
            let plan = launch_plan(game_running);
            &&& plan.contains(ActionView::StartGame) <==> !game_running
            &&& plan.contains(ActionView::LoginGame(LOGIN_TIMEOUT_SECONDS)) <==> !game_running
            &&& forall|j: int| 0 <= j < plan.len() && (#[trigger] plan[j]) is LoginGame ==>
                    plan[j] == ActionView::LoginGame(LOGIN_TIMEOUT_SECONDS)
                    && exists|i: int| 0 <= i < j && plan[i] == ActionView::StartGame
        }),
{
    let plan = launch_plan(game_running);
    if game_running {
        assert(plan[0] is Log);
    } else {
        assert(plan[2] == ActionView::StartGame);
        assert(plan[3] == ActionView::LoginGame(LOGIN_TIMEOUT_SECONDS));
    }
}

impl Yingxionggu {
    pub closed spec fn rounds(&self) -> nat {
        self.round as nat
    }

    /// Cheat Engine patches started so far.
    pub closed spec fn patch_attempts(&self) -> u32 {
        self.ce_patch_attempts
    }

    pub closed spec fn phase(&self) -> Phase {
        self.phase
    }

    /// The patch count never exceeds its limit.
    pub open spec fn wf(&self) -> bool {
        self.patch_attempts() <= MAX_CE_PATCH_ATTEMPTS
    }

    /// Rounds begun so far.
    pub fn round_count(&self) -> (res: u64)
        ensures
            res == self.rounds(),
    {
        self.round
    }

    /// Whether no round is under way (the next call is `start`).
    pub fn is_idle(&self) -> (res: bool)
        ensures
            res == (self.phase() is Idle),
    {
        match self.phase {
            Phase::Idle => true,
            _ => false,
        }
    }

    /// Begins the next round; the last action is a look-up whose outcome
    /// goes to `step`.
    pub fn start(&mut self) -> (res: Vec<BotAction>)
        requires
            old(self).wf(),
            old(self).phase() is Idle,
            old(self).rounds() < u64::MAX,
        ensures
            final(self).wf(),
            final(self).rounds() == old(self).rounds() + 1,
            final(self).patch_attempts() == old(self).patch_attempts(),
            final(self).phase() is TenTimesNotice,
            bot::views(res@) == begin_plan(final(self).rounds()),
    {
        self.round = self.round + 1;
        self.phase = Phase::TenTimesNotice;
        let mut v: Vec<BotAction> = Vec::new();
        v.push(BotAction::Log(round_message(self.round, " 轮开始")));
        v.push(BotAction::FocusGame);
        v.push(BotAction::WaitAppear(TemplateId::Ditu, DEFAULT_WAIT_SECONDS));
        v.push(BotAction::FindAndClick(TemplateId::Yingxionggu));
        v.push(BotAction::FindAndClick(TemplateId::Jiaruyingxionggu));
        v.push(BotAction::Sleep(2000));
        v.push(BotAction::Find(TemplateId::Yingxionggu10ci));
        assert(bot::views(v@) =~= begin_plan(self.round as nat));
        v
    }

    /// Answers the outcome of the look-up that ended the previous actions.
    pub fn step(&mut self, found: bool) -> (res: Vec<BotAction>)
        requires
            old(self).wf(),
            !(old(self).phase() is Idle),
        ensures
            final(self).wf(),
            final(self).rounds() == old(self).rounds(),
            ({
                let (plan, phase, attempts) = step_plan(old(self).phase(), old(self).rounds(), old(self).patch_attempts(), found);
                &&& bot::views(res@) == plan
                &&& final(self).phase() == phase
                &&& final(self).patch_attempts() == attempts
            }),
    {
        let ghost plan = step_plan(self.phase, self.round as nat, self.ce_patch_attempts, found);
        let mut v: Vec<BotAction> = Vec::new();
        match self.phase {
            Phase::TenTimesNotice => {
                if found {
                    v.push(BotAction::FindAndClick(TemplateId::Queding));
                    if self.ce_patch_attempts < MAX_CE_PATCH_ATTEMPTS {
                        self.ce_patch_attempts = self.ce_patch_attempts + 1;
                        let mut m = round_message(self.round, " 轮：检测到 10 次提示，第 ");
                        let d = decimal_of(self.ce_patch_attempts as u64);
                        push_all(&mut m, d.as_slice());
                        push_str(&mut m, " 次启动 CE 修改");
                        assert(m@ =~= tasks::round_line(self.round as nat, " 轮：检测到 10 次提示，第 "@ + text::decimal(self.ce_patch_attempts as nat) + " 次启动 CE 修改"@));
                        v.push(BotAction::Log(m));
                        v.push(BotAction::PatchGame(PATCH_SCAN_VALUE, PATCH_WRITE_VALUE));
                        v.push(BotAction::Sleep(1000));
                        v.push(BotAction::FocusGame);
                    } else {
                        v.push(BotAction::Log(round_message(self.round, " 轮：检测到 10 次提示，CE 修改已达最大尝试次数")));
                    }
                    v.push(BotAction::Sleep(10000));
                    v.push(BotAction::Sleep(2000));
                    self.phase = Phase::Idle;
                } else {
                    v.push(BotAction::Find(TemplateId::Shi));
                    self.phase = Phase::TicketQuestion;
                }
            },
            Phase::TicketQuestion => {
                if found {
                    v.push(BotAction::Log(round_message(self.round, " 轮：购买门票")));
                    v.push(BotAction::FindAndClick(TemplateId::Fou));
                    v.push(BotAction::FindAndClick(TemplateId::Dianjichakan));
                    v.push(BotAction::ClickWithinRegion(TemplateId::Yingxionggumenpiao, TemplateId::Goumai1));
                    v.push(BotAction::FindAndClick(TemplateId::Mashanggoumai1));
                    v.push(BotAction::FindAndClick(TemplateId::Cha));
                    v.push(BotAction::FindAndClick(TemplateId::Jiaruyingxionggu));
                }
                v.push(BotAction::Sleep(10000));
                v.push(BotAction::Find(TemplateId::Fanhuizhucheng));
                self.phase = Phase::ReturnButton;
            },
            Phase::ReturnButton => {
                if found {
                    v.push(BotAction::StartBagGuard);
                    v.push(BotAction::WaitAppear(TemplateId::Saichangchengji, 0));
                    v.push(BotAction::StopBagGuard);
                    v.push(BotAction::FindAndClick(TemplateId::Fanhuizhucheng));
                    v.push(BotAction::FindAndClick(TemplateId::Shi));
                    v.push(BotAction::Log(round_message(self.round, " 轮完成")));
                    v.push(BotAction::Sleep(2000));
                    self.phase = Phase::Idle;
                } else {
                    v.push(BotAction::Find(TemplateId::Zhuangbei));
                    self.phase = Phase::BagOpen;
                }
            },
            Phase::BagOpen => {
                if found {
                    v.push(BotAction::Press('b', 500));
                }
                v.push(BotAction::Sleep(2000));
                self.phase = Phase::Idle;
            },
            Phase::Idle => {},
        }
        assert(bot::views(v@) =~= plan.0);
        v
    }
}

/// Starts the loop, given whether the game client runs: the loop, and the
/// actions that come before the first round.
pub fn run(game_running: bool) -> (res: (Yingxionggu, Vec<BotAction>))
    ensures
        res.0.wf(),
        res.0.rounds() == 0,
        res.0.patch_attempts() == 0,
        res.0.phase() is Idle,
        bot::views(res.1@) == launch_plan(game_running),
{
    let mut v: Vec<BotAction> = Vec::new();
    v.push(BotAction::Log(owned("英雄谷脚本启动")));
    if !game_running {
        v.push(BotAction::Log(owned("魔法哈奇未运行，尝试启动并登录")));
        v.push(BotAction::StartGame);
        v.push(BotAction::LoginGame(LOGIN_TIMEOUT_SECONDS));
    }
    assert(bot::views(v@) =~= launch_plan(game_running));
    (Yingxionggu { round: 0, ce_patch_attempts: 0, phase: Phase::Idle }, v)
}

/// One thing the bag guard asks of the platform layer.
pub enum GuardAction {
    /// Report whether the guard has been told to stop.
    CheckStop,
    /// Look once for the template and report whether it is there.
    Find(TemplateId),
    /// Hold down this key for this many milliseconds.
    Press(char, u64),
    /// Wait this many seconds, checking ten times a second whether the guard
    /// has been told to stop, and report whether it has.
    Wait(u64),
    /// The guard is over.
    Finish,
}

/// Where the bag guard stands: which report comes next.
pub enum GuardPhase {
    /// Whether it has been told to stop, at the head of its loop.
    Head,
    /// Whether the map is showing.
    MapCheck,
    /// Whether a stop came while waiting after opening the bag.
    AfterOpenWait,
    /// Whether the equipment panel is open.
    PanelCheck,
    /// Whether a stop came during the long wait.
    AfterCloseWait,
    /// Whether a stop came while waiting for the map.
    NoMapWait,
}

/// What a report leads to: the actions and the next phase.
pub open spec fn guard_plan(phase: GuardPhase, report: bool) -> (Seq<GuardAction>, GuardPhase) {
    match phase {
        GuardPhase::Head => if report {
            (seq![GuardAction::Finish], GuardPhase::Head)
        } else {
            (seq![GuardAction::Find(TemplateId::Ditu)], GuardPhase::MapCheck)
        },
        GuardPhase::MapCheck => if report {
            (seq![GuardAction::Press('b', 500), GuardAction::Wait(1)], GuardPhase::AfterOpenWait)
        } else {
            (seq![GuardAction::Wait(10)], GuardPhase::NoMapWait)
        },
        GuardPhase::AfterOpenWait => if report {
            (seq![GuardAction::Finish], GuardPhase::AfterOpenWait)
        } else {
            (seq![GuardAction::Find(TemplateId::Zhuangbei)], GuardPhase::PanelCheck)
        },
        GuardPhase::PanelCheck => if report {
            (seq![GuardAction::Press('b', 500), GuardAction::Wait(100)], GuardPhase::AfterCloseWait)
        } else {
            (seq![GuardAction::Wait(100)], GuardPhase::AfterCloseWait)
        },
        GuardPhase::AfterCloseWait => if report {
            (seq![GuardAction::Finish], GuardPhase::AfterCloseWait)
        } else {
            (seq![GuardAction::CheckStop], GuardPhase::Head)
        },
        GuardPhase::NoMapWait => if report {
            (seq![GuardAction::Finish], GuardPhase::NoMapWait)
        } else {
            (seq![GuardAction::CheckStop], GuardPhase::Head)
        },
    }
}

/// While a match is waited out, the bag is opened and closed now and then so
/// that the game does not count the player as idle.
pub struct BagGuard {
    phase: GuardPhase,
}

impl BagGuard {
    pub closed spec fn phase(&self) -> GuardPhase {
        self.phase
    }

    /// Answers the report that the last action asked for.
    pub fn step(&mut self, report: bool) -> (res: Vec<GuardAction>)
        ensures
            res@ == guard_plan(old(self).phase(), report).0,
            final(self).phase() == guard_plan(old(self).phase(), report).1,
    {
        let mut v: Vec<GuardAction> = Vec::new();
        match self.phase {
            GuardPhase::Head => {
                if report {
                    v.push(GuardAction::Finish);
                } else {
                    v.push(GuardAction::Find(TemplateId::Ditu));
                    self.phase = GuardPhase::MapCheck;
                }
            },
            GuardPhase::MapCheck => {
                if report {
                    v.push(GuardAction::Press('b', 500));
                    v.push(GuardAction::Wait(1));
                    self.phase = GuardPhase::AfterOpenWait;
                } else {
                    v.push(GuardAction::Wait(10));
                    self.phase = GuardPhase::NoMapWait;
                }
            },
            GuardPhase::AfterOpenWait => {
                if report {
                    v.push(GuardAction::Finish);
                } else {
                    v.push(GuardAction::Find(TemplateId::Zhuangbei));
                    self.phase = GuardPhase::PanelCheck;
                }
            },
            GuardPhase::PanelCheck => {
                if report {
                    v.push(GuardAction::Press('b', 500));
                }
                v.push(GuardAction::Wait(100));
                self.phase = GuardPhase::AfterCloseWait;
            },
            GuardPhase::AfterCloseWait | GuardPhase::NoMapWait => {
                if report {
                    v.push(GuardAction::Finish);
                } else {
                    v.push(GuardAction::CheckStop);
                    self.phase = GuardPhase::Head;
                }
            },
        }
        assert(v@ =~= guard_plan(old(self).phase(), report).0);
        v
    }
}

/// Starts the bag guard: first it checks whether it has been told to stop.
pub fn bag_guard() -> (res: (BagGuard, GuardAction))
    ensures
        res.0.phase() is Head,
        res.1 is CheckStop,
{
    (BagGuard { phase: GuardPhase::Head }, GuardAction::CheckStop)
}

} // verus!
