use mfhq::pidfile::{self, OwnedKillAction, OwnedKillEvent};
use mfhq::process::{self, KillNext, ProcessEntry};
use mfhq::text;

fn proc(pid: u32, name: &str) -> ProcessEntry {
    ProcessEntry { pid, name: name.to_string() }
}

#[test]
fn trim_matches_str_trim() {
    for s in ["", "  ", " a b ", "\t\r\nx\u{3000}", "\u{a0}y\u{2028}", "no-space"] {
        let cs: Vec<char> = s.chars().collect();
        let got: String = text::trim_chars(&cs).into_iter().collect();
        assert_eq!(got, s.trim());
    }
}

#[test]
fn parse_u32_follows_from_str() {
    for s in ["0", "42", "+7", "4294967295", "4294967296", "-1", "", "+", "12a", " 5", "007"] {
        assert_eq!(text::parse_u32_str(s), s.parse::<u32>().ok(), "input {s:?}");
    }
}

#[test]
fn decimal_numerals() {
    let d: String = text::decimal_of(0).into_iter().collect();
    assert_eq!(d, "0");
    let d: String = text::decimal_of(u64::MAX).into_iter().collect();
    assert_eq!(d, u64::MAX.to_string());
    let mut v = Vec::new();
    text::push_signed_decimal(&mut v, i64::MIN);
    assert_eq!(v.into_iter().collect::<String>(), i64::MIN.to_string());
}

#[test]
fn ascii_case_folding() {
    let a: Vec<char> = "C:\\Game\\Client.EXE".chars().collect();
    let b: Vec<char> = "c:\\game\\client.exe".chars().collect();
    assert!(text::eq_ignore_case(&a, &b));
    let c: Vec<char> = "Ä".chars().collect();
    let d: Vec<char> = "ä".chars().collect();
    assert!(!text::eq_ignore_case(&c, &d));
    assert_eq!(text::to_ascii_lower('Q'), 'q');
    assert_eq!(text::to_ascii_lower('['), '[');
}

#[test]
fn substring_tests() {
    let s: Vec<char> = "魔法哈奇 - 客户端".chars().collect();
    let k: Vec<char> = "哈奇".chars().collect();
    assert!(text::contains_chars(&s, &k));
    let k2: Vec<char> = "paraengine".chars().collect();
    assert!(!text::contains_chars(&s, &k2));
    let name: Vec<char> = "paraengineclient.exe".chars().collect();
    let ext: Vec<char> = ".exe".chars().collect();
    let kw: String = text::trim_end_matches_chars(&name, &ext).into_iter().collect();
    assert_eq!(kw, "paraengineclient");
    let twice: Vec<char> = "a.exe.exe".chars().collect();
    let kw2: String = text::trim_end_matches_chars(&twice, &ext).into_iter().collect();
    assert_eq!(kw2, "a");
}

#[test]
fn pid_record_round_trip() {
    let text = pidfile::write(1234, "C:\\bot\\mfhq.exe");
    assert_eq!(text, "1234\nC:\\bot\\mfhq.exe");
    assert_eq!(pidfile::read(&text), (1234, "C:\\bot\\mfhq.exe".to_string()));
}

#[test]
fn pid_record_edge_cases() {
    assert_eq!(pidfile::read(""), (0, String::new()));
    assert_eq!(pidfile::read("abc\npath"), (0, "path".to_string()));
    assert_eq!(pidfile::read(" 77 \r\n  C:\\x.exe \r\nmore"), (77, "C:\\x.exe".to_string()));
    assert_eq!(pidfile::read("5"), (5, String::new()));
    assert_eq!(pidfile::read("5\n"), (5, String::new()));
}

#[test]
fn owned_kill_steps() {
    let k = pidfile::kill_if_owned("42\nC:\\CE\\ce.exe", "Cheat Engine");
    assert_eq!(k.pid, 42);
    match k.step(&OwnedKillEvent::Alive(false)).as_slice() {
        [OwnedKillAction::Clear] => {}
        _ => panic!("a dead record is only cleared"),
    }
    match k.step(&OwnedKillEvent::Alive(true)).as_slice() {
        [OwnedKillAction::QueryExePath(42)] => {}
        _ => panic!("a live record is checked first"),
    }
    match k.step(&OwnedKillEvent::ExePath("c:\\ce\\CE.EXE".to_string())).as_slice() {
        [OwnedKillAction::Kill(42)] => {}
        _ => panic!("a matching path is terminated"),
    }
    match k.step(&OwnedKillEvent::ExePath("C:\\other.exe".to_string())).as_slice() {
        [OwnedKillAction::Log(m), OwnedKillAction::Clear] => {
            assert_eq!(m, "skip killing Cheat Engine pid=42: exe path mismatch")
        }
        _ => panic!("a different path is left alone"),
    }
    match k.step(&OwnedKillEvent::Killed(true)).as_slice() {
        [OwnedKillAction::Log(m), OwnedKillAction::Clear] => assert_eq!(m, "killed Cheat Engine pid=42"),
        _ => panic!("a termination is logged"),
    }
    let empty = pidfile::kill_if_owned("42", "yingxionggu");
    match empty.step(&OwnedKillEvent::Alive(true)).as_slice() {
        [OwnedKillAction::Log(m)] => assert_eq!(m, "skip killing yingxionggu pid=42: missing recorded exe path"),
        _ => panic!("a record without a path is refused"),
    }
}

#[test]
fn process_queries() {
    let procs = vec![proc(4, "System"), proc(100, "ParaEngineClient.exe"), proc(200, "paraengineclient.exe")];
    let names = ["paraengineclient.exe", "00000BAC-paraengineclient.exe"];
    assert!(process::is_running(&names, &procs));
    assert!(!process::is_running(&["notepad.exe"], &procs));
    assert!(process::pid_alive(4, &procs));
    assert!(!process::pid_alive(0, &procs));
    assert!(!process::pid_alive(5, &procs));
    assert_eq!(process::listed_pids_of(&names, &procs), vec![100, 200]);
    let mut plan = process::kill_by_name(&names, &procs);
    assert!(matches!(plan.next(None), KillNext::Kill(100)));
    assert!(matches!(plan.next(Some(false)), KillNext::Kill(200)));
    assert!(matches!(plan.next(Some(false)), KillNext::Finished(false)));
    let mut plan = process::kill_by_name(&names, &procs);
    assert!(matches!(plan.next(None), KillNext::Kill(100)));
    assert!(matches!(plan.next(Some(true)), KillNext::Kill(200)));
    assert!(matches!(plan.next(Some(false)), KillNext::Finished(true)));
    let mut none = process::kill_by_name(&["notepad.exe"], &procs);
    assert!(matches!(none.next(None), KillNext::Finished(false)));
    assert_eq!(process::name_len(&[104, 105, 0, 7]), 2);
    assert_eq!(process::name_len(&[104, 105]), 2);
}

#[test]
fn numerals_parse_back() {
    for n in [0u32, 9, 10, 65535, u32::MAX] {
        let s: String = text::decimal_of(n as u64).into_iter().collect();
        assert_eq!(text::parse_u32_str(&s), Some(n));
    }
}
