use mfhq::cli::{self, Command};

fn parse(args: &[&str]) -> cli::Invocation {
    let v: Vec<String> = args.iter().map(|s| s.to_string()).collect();
    cli::parse_args(&v)
}

fn level(args: &[&str]) -> Option<u8> {
    match parse(args).command {
        Command::Hunzhu(l) => Some(l),
        _ => None,
    }
}

#[test]
fn level_spellings() {
    assert_eq!(level(&["hunzhu"]), Some(1));
    for spelling in [vec!["hunzhu", "2"], vec!["hunzhu", "-l", "2"], vec!["hunzhu", "-level", "2"], vec!["hunzhu", "--l", "2"], vec!["hunzhu", "--level", "2"]] {
        assert_eq!(level(&spelling), Some(2));
    }
    assert_eq!(level(&["hunzhu", "-x", "2"]), None);
    assert_eq!(level(&["hunzhu", "two"]), None);
    assert_eq!(level(&["hunzhu", "300"]), None);
    assert_eq!(level(&["hunzhu", "7"]), None);
    assert_eq!(level(&["hunzhu", "0"]), None);
    assert_eq!(level(&["hunzhu", "--level", "4"]), None);
    assert_eq!(level(&["hunzhu", "3"]), Some(3));
    assert_eq!(level(&["hunzhu", "2", "-l", "3"]), Some(3));
    assert_eq!(level(&["hunzhu", "--level", "3", "1"]), Some(3));
    assert_eq!(level(&["hunzhu", "7", "-l", "3"]), None);
    assert_eq!(level(&["hunzhu", "2", "3"]), None);
}

#[test]
fn commands() {
    assert!(matches!(parse(&[]).command, Command::Pick));
    assert!(matches!(parse(&["yingxionggu"]).command, Command::Yingxionggu));
    assert!(matches!(parse(&["controller"]).command, Command::Controller));
    assert!(matches!(parse(&["diag"]).command, Command::Diag(None)));
    match parse(&["diag", "out.png"]).command {
        Command::Diag(Some(p)) => assert_eq!(p, "out.png"),
        _ => panic!("diag takes an output file"),
    }
    match parse(&["match", "a.png", "b.png"]).command {
        Command::Match(a, b) => assert_eq!((a.as_str(), b.as_str()), ("a.png", "b.png")),
        _ => panic!("match takes two images"),
    }
    assert!(matches!(parse(&["match", "a.png"]).command, Command::Usage));
    assert!(matches!(parse(&["pangpang"]).command, Command::Usage));
}

#[test]
fn console_flag() {
    let i = parse(&["-c", "yingxionggu"]);
    assert!(i.console_first);
    assert!(matches!(i.command, Command::Yingxionggu));
    let j = parse(&["-c"]);
    assert!(j.console_first);
    assert!(matches!(j.command, Command::Pick));
    assert!(!parse(&["controller"]).console_first);
}
