//! The command line: which script to run, and whether to move the session to
//! the console first.

use vstd::prelude::*;
use crate::text;
use crate::text::{parse_u32_str, str_eq, string_of, chars_of};

verus! {

/// What the program is asked to do.
pub enum Command {
    /// No script named: let the user pick one.
    Pick,
    /// The hunzhu loop at this provocation level.
    Hunzhu(u8),
    /// The yingxionggu loop.
    Yingxionggu,
    /// The schedule controller.
    Controller,
    /// Capture the screen (saved to the given file, where one is named) and
    /// score every template.
    Diag(Option<String>),
    /// Score one template image against one scene image.
    Match(String, String),
    /// Anything else: print the usage.
    Usage,
}

/// A parsed command line.
pub struct Invocation {
    /// `-c`: move the remote session to the console before running.
    pub console_first: bool,
    pub command: Command,
}

/// A command with its strings taken as character sequences.
pub ghost enum CommandView {
    Pick,
    Hunzhu(u8),
    Yingxionggu,
    Controller,
    Diag(Option<Seq<char>>),
    Match(Seq<char>, Seq<char>),
    Usage,
}

impl View for Command {
    type V = CommandView;

    open spec fn view(&self) -> CommandView {
        match self {
            Command::Pick => CommandView::Pick,
            Command::Hunzhu(l) => CommandView::Hunzhu(*l),
            Command::Yingxionggu => CommandView::Yingxionggu,
            Command::Controller => CommandView::Controller,
            Command::Diag(None) => CommandView::Diag(None),
            Command::Diag(Some(p)) => CommandView::Diag(Some(p@)),
            Command::Match(a, b) => CommandView::Match(a@, b@),
            Command::Usage => CommandView::Usage,
        }
    }
}

/// `u8::from_str`: a `u32` numeral whose value fits in 8 bits.
pub open spec fn parse_u8(s: Seq<char>) -> Option<u8> {
    match text::parse_u32(s) {
        Some(v) => if v <= 255 { Some(v as u8) } else { None },
        None => None,
    }
}

/// The four flags that may stand before a level.
pub open spec fn is_level_flag(s: Seq<char>) -> bool {
    s == "-l"@ || s == "-level"@ || s == "--l"@ || s == "--level"@
}

/// A provocation level: 1, 2 or 3.
pub open spec fn level_choice(s: Seq<char>) -> Option<u8> {
    match parse_u8(s) {
        Some(v) => if 1 <= v <= 3 { Some(v) } else { None },
        None => None,
    }
}

/// The level given after `hunzhu`: none (level 1), the level itself, or a
/// level flag and the level. Where both a bare level and a flagged one are
/// given, both must be levels and the flagged one counts. Anything else is
/// no level.
pub open spec fn level_of(rest: Seq<Seq<char>>) -> Option<u8> {
    if rest.len() == 0 {
        Some(1)
    } else if rest.len() == 1 {
        level_choice(rest[0])
    } else if rest.len() == 2 {
        if is_level_flag(rest[0]) { level_choice(rest[1]) } else { None }
    } else if rest.len() == 3 {
        if is_level_flag(rest[1]) && level_choice(rest[0]) is Some {
            level_choice(rest[2])
        } else if is_level_flag(rest[0]) && level_choice(rest[2]) is Some {
            level_choice(rest[1])
        } else {
            None
        }
    } else {
        None
    }
}

/// What a command line (without the program's name, and without `-c`) asks for.
pub open spec fn command_of(args: Seq<Seq<char>>) -> CommandView {
    if args.len() == 0 {
        CommandView::Pick
    } else if args[0] == "hunzhu"@ {
        match level_of(args.skip(1)) {
            Some(l) => CommandView::Hunzhu(l),
            None => CommandView::Usage,
        }
    } else if args[0] == "yingxionggu"@ && args.len() == 1 {
        CommandView::Yingxionggu
    } else if args[0] == "controller"@ && args.len() == 1 {
        CommandView::Controller
    } else if args[0] == "diag"@ && args.len() == 1 {
        CommandView::Diag(None)
    } else if args[0] == "diag"@ && args.len() == 2 {
        CommandView::Diag(Some(args[1]))
    } else if args[0] == "match"@ && args.len() == 3 {
        CommandView::Match(args[1], args[2])
    } else {
        CommandView::Usage
    }
}

/// The arguments as character sequences.
pub open spec fn arg_views(args: Seq<String>) -> Seq<Seq<char>> {
    args.map_values(|a: String| a@)
}

fn parse_level(s: &str) -> (res: Option<u8>)
    ensures
        res == level_choice(s@),
{
    match parse_u32_str(s) {
        Some(v) => if 1 <= v && v <= 3 { Some(v as u8) } else { None },
        None => None,
    }
}

fn is_flag(s: &str) -> (res: bool)
    ensures
        res == is_level_flag(s@),
{
    str_eq(s, "-l") || str_eq(s, "-level") || str_eq(s, "--l") || str_eq(s, "--level")
}

fn copy(s: &str) -> (res: String)
    ensures
        res@ == s@,
{
    string_of(chars_of(s).as_slice())
}

/// Reads the command from `args[start..]`.
fn command(args: &[String], start: usize) -> (res: Command)
    requires
        start <= args@.len(),
    ensures
        res@ == command_of(arg_views(args@).skip(start as int)),
{
    let ghost a = arg_views(args@).skip(start as int);
    let n = args.len() - start;
    assert(a.len() == n);
    if n == 0 {
        return Command::Pick;
    }
    let first = args[start].as_str();
    assert(a[0] == args@[start as int]@);
    if str_eq(first, "hunzhu") {
        let ghost rest = a.skip(1);
        assert(rest.len() == n - 1);
        let level = if n == 1 {
            Some(1u8)
        } else if n == 2 {
            assert(rest[0] == args@[start + 1]@);
            parse_level(args[start + 1].as_str())
        } else if n == 3 {
            assert(rest[0] == args@[start + 1]@);
            if is_flag(args[start + 1].as_str()) {
                parse_level(args[start + 2].as_str())
            } else {
                None
            }
        } else if n == 4 {
            assert(rest[0] == args@[start + 1]@);
            assert(rest[1] == args@[start + 2]@);
            assert(rest[2] == args@[start + 3]@);
            let a = args[start + 1].as_str();
            let b = args[start + 2].as_str();
            let c = args[start + 3].as_str();
            if is_flag(b) && parse_level(a).is_some() {
                parse_level(c)
            } else if is_flag(a) && parse_level(c).is_some() {
                parse_level(b)
            } else {
                None
            }
        } else {
            None
        };
        assert(level == level_of(rest));
        match level {
            Some(l) => Command::Hunzhu(l),
            None => Command::Usage,
        }
    } else if str_eq(first, "yingxionggu") && n == 1 {
        Command::Yingxionggu
    } else if str_eq(first, "controller") && n == 1 {
        Command::Controller
    } else if str_eq(first, "diag") && n == 1 {
        Command::Diag(None)
    } else if str_eq(first, "diag") && n == 2 {
        assert(a[1] == args@[start + 1]@);
        Command::Diag(Some(copy(args[start + 1].as_str())))
    } else if str_eq(first, "match") && n == 3 {
        assert(a[1] == args@[start + 1]@);
        assert(a[2] == args@[start + 2]@);
        Command::Match(copy(args[start + 1].as_str()), copy(args[start + 2].as_str()))
    } else {
        Command::Usage
    }
}

/// Reads the command line (without the program's name): an optional leading
/// `-c`, then the command.
pub fn parse_args(args: &[String]) -> (res: Invocation)
    ensures
        ({
            let a = arg_views(args@);
            let console = a.len() > 0 && a[0] == "-c"@;
            &&& res.console_first == console
            &&& res.command@ == command_of(if console { a.skip(1) } else { a })
        }),
{
    let ghost a = arg_views(args@);
    if args.len() > 0 && str_eq(args[0].as_str(), "-c") {
        assert(a[0] == args@[0]@);
        Invocation { console_first: true, command: command(args, 1) }
    } else {
        proof {
            if args@.len() > 0 {
                assert(a[0] == args@[0]@);
            }
        }
        assert(a.skip(0) =~= a);
        Invocation { console_first: false, command: command(args, 0) }
    }
}

/// The level after `hunzhu` may be written five ways, all meaning the same:
/// the number alone, or the number after `-l`, `-level`, `--l` or `--level`;
/// without a level, the level is 1; only 1, 2 and 3 are levels.
pub proof fn lemma_level_spellings(v: Seq<char>)
    ensures
        level_of(seq![v]) == level_choice(v),
        level_of(seq!["-l"@, v]) == level_choice(v),
        level_of(seq!["-level"@, v]) == level_choice(v),
        level_of(seq!["--l"@, v]) == level_choice(v),
        level_of(seq!["--level"@, v]) == level_choice(v),
        level_of(Seq::empty()) == Some(1u8),
        level_choice(v) matches Some(l) ==> 1 <= l <= 3,
{
}

/// A level keeps the value that was written: a string that gives a level
/// is the numeral of that level, and the numerals of 1, 2 and 3 give those
/// levels.
pub proof fn lemma_level_value(s: Seq<char>)
    ensures
        level_choice(s) matches Some(l) ==> text::parse_u32(s) == Some(l as u32) && 1 <= l <= 3,
        text::parse_u32(s) matches Some(n) ==> (1 <= n <= 3 ==> level_choice(s) == Some(n as u8)),
{
}

/// The numeral of 1, 2 or 3 after `hunzhu`, alone or after any of the four
/// level flags, runs the hunzhu loop at that level.
pub proof fn lemma_hunzhu_numeral(v: u8)
    requires
        1 <= v <= 3,
    ensures
        ({
            let n = text::decimal(v as nat);
            &&& command_of(seq!["hunzhu"@, n]) == CommandView::Hunzhu(v)
            &&& command_of(seq!["hunzhu"@, "-l"@, n]) == CommandView::Hunzhu(v)
            &&& command_of(seq!["hunzhu"@, "-level"@, n]) == CommandView::Hunzhu(v)
            &&& command_of(seq!["hunzhu"@, "--l"@, n]) == CommandView::Hunzhu(v)
            &&& command_of(seq!["hunzhu"@, "--level"@, n]) == CommandView::Hunzhu(v)
        }),
{
    let n = text::decimal(v as nat);
    text::lemma_parse_decimal(v as u32);
    lemma_level_value(n);
    lemma_level_spellings(n);
    assert(seq!["hunzhu"@, n].skip(1) =~= seq![n]);
    assert(seq!["hunzhu"@, "-l"@, n].skip(1) =~= seq!["-l"@, n]);
    assert(seq!["hunzhu"@, "-level"@, n].skip(1) =~= seq!["-level"@, n]);
    assert(seq!["hunzhu"@, "--l"@, n].skip(1) =~= seq!["--l"@, n]);
    assert(seq!["hunzhu"@, "--level"@, n].skip(1) =~= seq!["--level"@, n]);
}

/// The level the hunzhu loop runs at is 1 where none is given, and otherwise
/// one written on the command line: some argument after `hunzhu` is its
/// numeral.
pub proof fn lemma_hunzhu_level_written(args: Seq<Seq<char>>)
    requires
        args.len() > 0,
        args[0] == "hunzhu"@,
    ensures
        command_of(args) matches CommandView::Hunzhu(l) ==> {
            &&& 1 <= l <= 3
            &&& (args.len() == 1 && l == 1)
                || exists|i: int| 1 <= i < args.len() && text::parse_u32(#[trigger] args[i]) == Some(l as u32)
        },
{
    let rest = args.skip(1);
    if command_of(args) matches CommandView::Hunzhu(l) {
        if rest.len() == 1 {
            lemma_level_value(rest[0]);
            assert(rest[0] == args[1]);
        } else if rest.len() == 2 {
            lemma_level_value(rest[1]);
            assert(rest[1] == args[2]);
        } else if rest.len() == 3 {
            lemma_level_value(rest[1]);
            lemma_level_value(rest[2]);
            assert(rest[1] == args[2]);
            assert(rest[2] == args[3]);
        }
    }
}

} // verus!
