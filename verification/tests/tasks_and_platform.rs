use mfhq::assets::{self, TemplateId};
use mfhq::bot::{self, BotAction, LoginQuery, StartGameEvent, StartGameStep};
use mfhq::ce::{self, LocateEvent, LocateStep};
use mfhq::console;
use mfhq::input;
use mfhq::log;
use mfhq::process::ProcessEntry;
use mfhq::tasks::controller::{self, ControllerAction};
use mfhq::tasks::hunzhu;
use mfhq::tasks::yingxionggu::{self, GuardAction};
use mfhq::window::{self, WindowInfo};

fn win(visible: bool, title: &str) -> WindowInfo {
    WindowInfo { visible, title: title.to_string() }
}

fn logs(actions: &[BotAction]) -> Vec<String> {
    actions
        .iter()
        .filter_map(|a| match a {
            BotAction::Log(s) => Some(s.clone()),
            _ => None,
        })
        .collect()
}

#[test]
fn log_line_format() {
    assert_eq!(log::format_line(2026, 7, 3, 9, 5, 0, "hello"), "[2026-07-03 09:05:00] hello");
    assert_eq!(log::format_line(12345, 12, 31, 23, 59, 59, ""), "[12345-12-31 23:59:59] ");
    assert_eq!(log::format_line(7, 1, 1, 0, 0, 0, "x"), "[0007-01-01 00:00:00] x");
}

#[test]
fn absolute_coordinates() {
    assert_eq!(input::to_absolute(960, 540, 1920, 1080), (32767, 32767));
    assert_eq!(input::to_absolute(200, 200, 0, -5), (13107000, 13107000));
    assert_eq!(input::to_absolute(-7, 0, 2, 2), (-229372, 0));
}

#[test]
fn game_window_choice() {
    let ws = vec![win(false, "魔法哈奇"), win(true, "   "), win(true, "Notepad"), win(true, " 哈奇 v2 "), win(true, "ParaEngine")];
    assert_eq!(window::find(&["魔法哈奇", "哈奇", "paraengine"], &ws), vec![3]);
    assert_eq!(bot::focus_game(&ws), Some(3));
    assert_eq!(bot::focus_game(&ws[..3]), None);
}

#[test]
fn game_process_check() {
    let procs = vec![ProcessEntry { pid: 9, name: "00000bac-PARAENGINECLIENT.exe".to_string() }];
    assert!(bot::game_running(&procs));
    assert!(!bot::game_running(&[]));
}

#[test]
fn click_geometry() {
    assert_eq!(bot::match_center(100, 50, 31, 20), (115, 60));
    assert_eq!(bot::region_point(10, 20, 5, -3), (15, 17));
    assert_eq!(bot::click_point((10, 40), (0, -35)), (10, 5));
    assert_eq!(bot::not_found_message(TemplateId::Ditu), "卡片ditu.jpg没有找到");
}

#[test]
fn starting_the_game() {
    let mut s = bot::start_game("C:\\g.exe");
    assert!(matches!(bot::StartGame::first(), StartGameStep::CheckRunning));
    assert!(matches!(s.step(StartGameEvent::Running(false)), StartGameStep::Open));
    assert!(matches!(s.step(StartGameEvent::Opened(true)), StartGameStep::CheckRunning));
    let mut sleeps = 0;
    loop {
        match s.step(StartGameEvent::Running(false)) {
            StartGameStep::SleepThenCheck => sleeps += 1,
            StartGameStep::SleepThenGiveUp(m) => {
                assert_eq!(m, "等待魔法哈奇进程超时");
                break;
            }
            _ => panic!("unexpected step"),
        }
    }
    assert_eq!(sleeps, 59);
    let mut f = bot::start_game("C:\\g.exe");
    f.step(StartGameEvent::Running(false));
    match f.step(StartGameEvent::Opened(false)) {
        StartGameStep::GiveUp(m) => assert_eq!(m, "启动魔法哈奇失败: C:\\g.exe"),
        _ => panic!("an open failure gives up"),
    }
}

#[test]
fn hunzhu_round() {
    assert_eq!(hunzhu::jinu(2), TemplateId::Jinu2);
    assert_eq!(hunzhu::jinu(3), TemplateId::Jinu3);
    assert_eq!(hunzhu::jinu(9), TemplateId::Jinu1);
    let (mut h, first) = hunzhu::run(2);
    assert_eq!(first, "魂珠脚本启动[2 级激怒]");
    let acts = h.begin_round();
    assert_eq!(acts.len(), 8);
    assert_eq!(logs(&acts), vec!["第 1 轮开始[2 级激怒]".to_string(), "第 1 轮完成".to_string()]);
    assert!(matches!(acts[1], BotAction::FocusGame));
    assert!(matches!(acts[2], BotAction::FindAndClick(TemplateId::Fuwenka)));
    assert!(matches!(acts[3], BotAction::FindAndClick(TemplateId::Jinu2)));
    assert!(matches!(acts[4], BotAction::ClickIfExists(TemplateId::Weijinu, 0, -30)));
    assert!(matches!(acts[5], BotAction::FindAndClick(TemplateId::Maichongaoyi)));
    assert!(matches!(acts.last(), Some(BotAction::Find(TemplateId::Ditu))));
    let after = h.after_round(true);
    assert_eq!(logs(&after), vec!["第 1 轮：检测到地图，走位".to_string()]);
    assert!(matches!(after[1], BotAction::Press('a', 500)));
    assert!(matches!(after[2], BotAction::Press('w', 500)));
    assert!(matches!(after[3], BotAction::Sleep(2000)));
    let after = h.after_round(false);
    assert!(!after.iter().any(|a| matches!(a, BotAction::Press(..))));
    assert!(matches!(after.last(), Some(BotAction::Sleep(2000))));
}

#[test]
fn yingxionggu_patch_limit() {
    let (mut y, first) = yingxionggu::run(false);
    assert_eq!(logs(&first), vec!["英雄谷脚本启动".to_string(), "魔法哈奇未运行，尝试启动并登录".to_string()]);
    let mut patches = 0;
    for round in 1..=4u64 {
        assert!(y.is_idle());
        let acts = y.start();
        assert!(matches!(acts.last(), Some(BotAction::Find(TemplateId::Yingxionggu10ci))));
        let acts = y.step(true);
        patches += acts.iter().filter(|a| matches!(a, BotAction::PatchGame(50417, -1))).count();
        let l = logs(&acts);
        if round <= 2 {
            assert_eq!(l, vec![format!("第 {round} 轮：检测到 10 次提示，第 {round} 次启动 CE 修改")]);
        } else {
            assert_eq!(l, vec![format!("第 {round} 轮：检测到 10 次提示，CE 修改已达最大尝试次数")]);
        }
    }
    assert_eq!(patches, 2);
    assert_eq!(y.round_count(), 4);
}

#[test]
fn yingxionggu_ticket_and_match() {
    let (mut y, first) = yingxionggu::run(true);
    assert_eq!(first.len(), 1);
    y.start();
    assert!(matches!(y.step(false).as_slice(), [BotAction::Find(TemplateId::Shi)]));
    let buy = y.step(true);
    assert_eq!(logs(&buy), vec!["第 1 轮：购买门票".to_string()]);
    assert!(matches!(buy.last(), Some(BotAction::Find(TemplateId::Fanhuizhucheng))));
    let fight = y.step(true);
    assert!(matches!(fight[0], BotAction::StartBagGuard));
    assert!(matches!(fight[1], BotAction::WaitAppear(TemplateId::Saichangchengji, 0)));
    assert!(y.is_idle());
    y.start();
    y.step(false);
    y.step(false);
    assert!(matches!(y.step(false).as_slice(), [BotAction::Find(TemplateId::Zhuangbei)]));
    assert!(matches!(y.step(true).as_slice(), [BotAction::Press('b', 500), BotAction::Sleep(2000)]));
    assert!(y.is_idle());
}

#[test]
fn bag_guard_cycle() {
    let (mut g, first) = yingxionggu::bag_guard();
    assert!(matches!(first, GuardAction::CheckStop));
    assert!(matches!(g.step(false).as_slice(), [GuardAction::Find(TemplateId::Ditu)]));
    assert!(matches!(g.step(true).as_slice(), [GuardAction::Press('b', 500), GuardAction::Wait(1)]));
    assert!(matches!(g.step(false).as_slice(), [GuardAction::Find(TemplateId::Zhuangbei)]));
    assert!(matches!(g.step(false).as_slice(), [GuardAction::Wait(100)]));
    assert!(matches!(g.step(false).as_slice(), [GuardAction::CheckStop]));
    assert!(matches!(g.step(false).as_slice(), [GuardAction::Find(TemplateId::Ditu)]));
    assert!(matches!(g.step(false).as_slice(), [GuardAction::Wait(10)]));
    assert!(matches!(g.step(true).as_slice(), [GuardAction::Finish]));
}

#[test]
fn controller_schedule() {
    assert!(controller::is_active_time(5, 10));
    assert!(controller::is_active_time(0, 21));
    assert!(!controller::is_active_time(5, 22));
    assert!(!controller::is_active_time(1, 12));
    assert!(!controller::is_active_time(6, 9));
    let procs = vec![ProcessEntry { pid: 77, name: "mfhq.exe".to_string() }];
    assert_eq!(controller::tick(6, 12, "77\nC:\\mfhq.exe", &procs), vec![]);
    assert_eq!(
        controller::tick(6, 12, "78\nC:\\mfhq.exe", &procs),
        vec![ControllerAction::CloseCheatEngine, ControllerAction::ClearScriptPid, ControllerAction::LaunchScript]
    );
    assert_eq!(controller::tick(6, 12, "", &procs), vec![ControllerAction::ClearScriptPid, ControllerAction::LaunchScript]);
    assert_eq!(
        controller::tick(3, 12, "77\nC:\\mfhq.exe", &procs),
        vec![ControllerAction::StopOwnedScript, ControllerAction::CloseCheatEngine]
    );
    assert_eq!(controller::tick(3, 12, "", &procs), vec![ControllerAction::CloseCheatEngine, ControllerAction::ClearScriptPid]);
    assert_eq!(controller::started_message("C:\\mfhq.exe", 9), "started: C:\\mfhq.exe yingxionggu pid=9");
    assert_eq!(controller::missing_exe_message("x"), "app exe not found: x");
}

#[test]
fn cheat_engine_pieces() {
    assert_eq!(ce::script_name(50417, -1), "mfhq_patch_50417_to_neg1.lua");
    assert!(ce::is_patch_script("mfhq_patch_1_to_2.lua"));
    assert!(!ce::is_patch_script("other.lua"));
    assert!(!ce::is_patch_script("mfhq_patch_1.txt"));
    assert!(ce::is_exe("Cheat Engine.EXE"));
    assert!(!ce::is_exe(".exe"));
    assert!(!ce::is_exe("readme.txt"));
    let lua = ce::lua_script(50417, -1, "C:\\ce\\autorun\\s.lua", "C:\\log.txt");
    assert!(lua.starts_with("local processName = \"paraengineclient.exe\"\nlocal processKeyword = \"paraengineclient\"\nlocal scanValue = \"50417\"\nlocal writeValue = -1\nlocal scriptPath = [[C:\\ce\\autorun\\s.lua]]\nlocal logPath = [[C:\\log.txt]]\n\nlocal function log(message)"));
    assert!(lua.ends_with("timer.Enabled = true\n"));
    let k = ce::close("12\nC:\\ce.exe");
    assert_eq!((k.pid, k.label.as_str()), (12, "Cheat Engine"));
    assert_eq!(ce::not_found_message(), "Cheat Engine not found. Put it in resources or set MFHQ_CE_DIR");
}

#[test]
fn cheat_engine_search() {
    let (mut l, first) = ce::locate(3);
    assert!(matches!(first, LocateStep::Inspect(0)));
    assert!(matches!(l.step(LocateEvent::Missing), LocateStep::Inspect(1)));
    assert!(matches!(l.step(LocateEvent::Directory), LocateStep::Probe(1, 0)));
    assert!(matches!(l.step(LocateEvent::Exists(false)), LocateStep::Probe(1, 1)));
    assert!(matches!(l.step(LocateEvent::Exists(false)), LocateStep::Probe(1, 2)));
    assert!(matches!(l.step(LocateEvent::Exists(false)), LocateStep::List(1)));
    let two = vec!["a.exe".to_string(), "b.EXE".to_string()];
    assert!(matches!(l.step(LocateEvent::Listing(Some(two))), LocateStep::Inspect(2)));
    assert!(matches!(l.step(LocateEvent::Directory), LocateStep::Probe(2, 0)));
    assert!(matches!(l.step(LocateEvent::Exists(false)), LocateStep::Probe(2, 1)));
    assert!(matches!(l.step(LocateEvent::Exists(false)), LocateStep::Probe(2, 2)));
    assert!(matches!(l.step(LocateEvent::Exists(false)), LocateStep::List(2)));
    let one = vec!["readme.txt".to_string(), "ce.exe".to_string()];
    assert!(matches!(l.step(LocateEvent::Listing(Some(one))), LocateStep::FoundListed(2, 1)));
    let (mut m, _) = ce::locate(1);
    assert!(matches!(m.step(LocateEvent::File(true)), LocateStep::FoundFile(0)));
    let (mut n, _) = ce::locate(1);
    assert!(matches!(n.step(LocateEvent::Directory), LocateStep::Probe(0, 0)));
    assert!(matches!(n.step(LocateEvent::Exists(true)), LocateStep::FoundNamed(0, 0)));
    let (mut o, _) = ce::locate(1);
    assert!(matches!(o.step(LocateEvent::File(false)), LocateStep::NotFound));
}

#[test]
fn console_session() {
    assert!(console::on_console(Some("Console")));
    assert!(!console::on_console(Some("RDP-Tcp#3")));
    assert!(!console::on_console(None));
    assert_eq!(console::tscon_path(None), "C:\\Windows\\System32\\tscon.exe");
    assert_eq!(console::tscon_path(Some("D:\\Win")), "D:\\Win\\System32\\tscon.exe");
    assert_eq!(console::detached_message(3), "detaching RDP session 3 to console");
    assert_eq!(console::tscon_failed_message(3, " Access denied.\r\n"), "tscon failed for session 3: Access denied.");
}

#[test]
fn template_files() {
    let all = assets::all();
    assert_eq!(all.len(), 27);
    assert_eq!(all[0].file_name(), "fuwenka.png");
    assert_eq!(TemplateId::Paopao.file_name(), "paopao.jpg");
}

#[test]
fn logging_in() {
    let (mut l, q) = bot::login_game();
    assert!(matches!(q, LoginQuery::Find(TemplateId::Ditu)));
    let (acts, q) = l.step(false);
    assert_eq!(acts.len(), 6);
    assert!(matches!(acts[0], BotAction::FindAndClick(TemplateId::Jinruyouxi)));
    assert!(matches!(acts[5], BotAction::FindAndClick(TemplateId::Paopao)));
    assert!(matches!(q, LoginQuery::TimeLeft));
    let (acts, q) = l.step(true);
    assert!(matches!(acts.as_slice(), [BotAction::ClickIfExists(TemplateId::Cha, 0, 0)]));
    assert!(matches!(q, LoginQuery::Find(TemplateId::Ditu)));
    let (acts, q) = l.step(false);
    assert!(matches!(acts.as_slice(), [BotAction::Sleep(1000)]));
    assert!(matches!(q, LoginQuery::TimeLeft));
    let (acts, q) = l.step(false);
    assert_eq!(logs(&acts), vec!["登录魔法哈奇超时".to_string()]);
    assert!(matches!(q, LoginQuery::Done));
    let (mut m, _) = bot::login_game();
    let (acts, q) = m.step(true);
    assert!(acts.is_empty() && matches!(q, LoginQuery::Done));
}
