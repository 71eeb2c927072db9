//! The hunzhu loop: provoke an enemy at the chosen level, fight, and walk on
//! once the map is back.

use vstd::prelude::*;
use crate::assets::TemplateId;
use crate::bot::{self, ActionView, BotAction};
use crate::tasks::{self, owned, round_message};
use crate::text;
use crate::text::{decimal_of, push_all, push_str};

verus! {

/// Offset from the enemy marker's centre to the enemy that is selected:
/// 30 pixels above it.
pub const SELECT_ENEMY_OFFSET: (i32, i32) = (0, -30);

/// How long to turn left once the map is back, in milliseconds.
pub const TURN_LEFT_MILLIS: u64 = 500;

/// How long to walk forward once the map is back, in milliseconds.
pub const FORWARD_MILLIS: u64 = 500;

/// Pause between rounds, in milliseconds.
pub const ROUND_PAUSE_MILLIS: u64 = 2000;

/// The provocation template of a level: levels 2 and 3 have their own, every
/// other level uses level 1's.
pub open spec fn spec_jinu(level: u8) -> TemplateId {
    if level == 2 {
        TemplateId::Jinu2
    } else if level == 3 {
        TemplateId::Jinu3
    } else {
        TemplateId::Jinu1
    }
}

/// `jinu<level>.png`: the file of level `level`'s provocation template.
pub open spec fn jinu_file(level: u8) -> Seq<char> {
    "jinu"@ + text::decimal(level as nat) + ".png"@
}

/// Each of the levels 1, 2 and 3 provokes with the template of its own
/// number (`jinu<level>.png`); any other level provokes with level 1's. In a
/// round, the provocation click (the fourth action) is on that template.
pub proof fn lemma_jinu_level(level: u8, round: nat)
    ensures
        1 <= level <= 3 ==> crate::assets::spec_file_name(spec_jinu(level)) == jinu_file(level),
        !(1 <= level <= 3) ==> crate::assets::spec_file_name(spec_jinu(level)) == jinu_file(1),
        round_plan(round, level)[3] == ActionView::FindAndClick(spec_jinu(level)),
        round_plan(round, level).len() == 7,
{
    reveal_strlit("jinu");
    reveal_strlit(".png");
    reveal_strlit("jinu1.png");
    reveal_strlit("jinu2.png");
    reveal_strlit("jinu3.png");
    text::lemma_digit(1);
    text::lemma_digit(2);
    text::lemma_digit(3);
    assert(text::decimal(1) =~= seq!['1']);
    assert(text::decimal(2) =~= seq!['2']);
    assert(text::decimal(3) =~= seq!['3']);
    assert(jinu_file(1) =~= "jinu1.png"@);
    assert(jinu_file(2) =~= "jinu2.png"@);
    assert(jinu_file(3) =~= "jinu3.png"@);
}

/// The provocation template of a level.
pub fn jinu(level: u8) -> (res: TemplateId)
    ensures
        res == spec_jinu(level),
{
    match level {
        2 => TemplateId::Jinu2,
        3 => TemplateId::Jinu3,
        _ => TemplateId::Jinu1,
    }
}

/// `"第 <round> 轮开始[<level> 级激怒]"`.
pub open spec fn start_line(round: nat, level: u8) -> Seq<char> {
    tasks::round_line(round, " 轮开始["@ + text::decimal(level as nat) + " 级激怒]"@)
}

/// `"魂珠脚本启动[<level> 级激怒]"`.
pub open spec fn launch_line(level: u8) -> Seq<char> {
    "魂珠脚本启动["@ + text::decimal(level as nat) + " 级激怒]"@
}

/// The actions of one round.
pub open spec fn round_plan(round: nat, level: u8) -> Seq<ActionView> {
    seq![
        ActionView::Log(start_line(round, level)),
        ActionView::FocusGame,
        ActionView::FindAndClick(TemplateId::Fuwenka),
        ActionView::FindAndClick(spec_jinu(level)),
        ActionView::ClickIfExists(TemplateId::Weijinu, 0, -30i32),
        ActionView::FindAndClick(TemplateId::Maichongaoyi),
        ActionView::Log(tasks::round_line(round, " 轮完成"@)),
    ]
}

/// What follows a round, given one look for the map: turn and walk on where
/// it shows, then pause before the next round.
pub open spec fn after_map_plan(round: nat, map_seen: bool) -> Seq<ActionView> {
    if map_seen {
        seq![
            ActionView::Log(tasks::round_line(round, " 轮：检测到地图，走位"@)),
            ActionView::Press('a', TURN_LEFT_MILLIS),
            ActionView::Press('w', FORWARD_MILLIS),
            ActionView::Sleep(ROUND_PAUSE_MILLIS),
        ]
    } else {
        seq![
            ActionView::Log(tasks::round_line(round, " 轮：未检测到地图，跳过走位"@)),
            ActionView::Sleep(ROUND_PAUSE_MILLIS),
        ]
    }
}

/// One round: focus the game, open the rune card, provoke at `level`,
/// select the enemy 30 pixels above its marker, and charge.
pub fn start(round_no: u64, level: u8) -> (res: Vec<BotAction>)
    ensures
        bot::views(res@) == round_plan(round_no as nat, level),
{
    let mut head = round_message(round_no, " 轮开始[");
    let d = decimal_of(level as u64);
    push_all(&mut head, d.as_slice());
    push_str(&mut head, " 级激怒]");
    let mut v: Vec<BotAction> = Vec::new();
    v.push(BotAction::Log(head));
    v.push(BotAction::FocusGame);
    v.push(BotAction::FindAndClick(TemplateId::Fuwenka));
    v.push(BotAction::FindAndClick(jinu(level)));
    v.push(BotAction::ClickIfExists(TemplateId::Weijinu, SELECT_ENEMY_OFFSET.0, SELECT_ENEMY_OFFSET.1));
    v.push(BotAction::FindAndClick(TemplateId::Maichongaoyi));
    v.push(BotAction::Log(round_message(round_no, " 轮完成")));
    assert(start_line(round_no as nat, level) =~= "第 "@ + text::decimal(round_no as nat) + " 轮开始["@ + text::decimal(level as nat) + " 级激怒]"@);
    assert(bot::views(v@) =~= round_plan(round_no as nat, level));
    v
}

/// The hunzhu loop at one provocation level, counting rounds.
pub struct Hunzhu {
    level: u8,
    round: u64,
}

impl Hunzhu {
    pub closed spec fn spec_level(&self) -> u8 {
        self.level
    }

    /// Rounds begun so far.
    pub closed spec fn rounds(&self) -> nat {
        self.round as nat
    }

    /// Rounds begun so far.
    pub fn round_count(&self) -> (res: u64)
        ensures
            res == self.rounds(),
    {
        self.round
    }

    /// Begins the next round: its actions, then one look for the map, whose
    /// outcome goes to `after_round`.
    pub fn begin_round(&mut self) -> (res: Vec<BotAction>)
        requires
            old(self).rounds() < u64::MAX,
        ensures
            final(self).rounds() == old(self).rounds() + 1,
            final(self).spec_level() == old(self).spec_level(),
            bot::views(res@) == round_plan(final(self).rounds(), final(self).spec_level())
                .push(ActionView::Find(TemplateId::Ditu)),
    {
        self.round = self.round + 1;
        let mut v = start(self.round, self.level);
        v.push(BotAction::Find(TemplateId::Ditu));
        assert(bot::views(v@) =~= round_plan(self.round as nat, self.level).push(ActionView::Find(TemplateId::Ditu)));
        v
    }

    /// Ends the current round, given whether the map showed.
    pub fn after_round(&self, map_seen: bool) -> (res: Vec<BotAction>)
        ensures
            bot::views(res@) == after_map_plan(self.rounds(), map_seen),
    {
        let mut v: Vec<BotAction> = Vec::new();
        if map_seen {
            v.push(BotAction::Log(round_message(self.round, " 轮：检测到地图，走位")));
            v.push(BotAction::Press('a', TURN_LEFT_MILLIS));
            v.push(BotAction::Press('w', FORWARD_MILLIS));
        } else {
            v.push(BotAction::Log(round_message(self.round, " 轮：未检测到地图，跳过走位")));
        }
        v.push(BotAction::Sleep(ROUND_PAUSE_MILLIS));
        assert(bot::views(v@) =~= after_map_plan(self.round as nat, map_seen));
        v
    }
}

/// Starts the hunzhu loop at provocation level `level`: the loop, and the
/// line it logs first.
pub fn run(level: u8) -> (res: (Hunzhu, String))
    ensures
        res.0.rounds() == 0,
        res.0.spec_level() == level,
        res.1@ == launch_line(level),
{
    let mut s = owned("魂珠脚本启动[");
    let d = decimal_of(level as u64);
    push_all(&mut s, d.as_slice());
    push_str(&mut s, " 级激怒]");
    (Hunzhu { level, round: 0 }, s)
}

} // verus!
