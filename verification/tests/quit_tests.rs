use sicth::app::Cmd;
use sicth::quit::{after_open, plan_quit, Exit, Quit};

fn exit(code: i32, cd_to: Option<&str>, command: Option<&str>) -> Quit {
    Quit::Exit(Exit { code, cd_to: cd_to.map(String::from), command: command.map(String::from) })
}

#[test]
fn quit_plans() {
    let cwd = "/w".to_string();
    assert_eq!(plan_quit(Cmd::QuitCd, cwd.clone(), true), exit(0, Some("/w"), None));
    assert_eq!(plan_quit(Cmd::QuitToDir("/m".into()), cwd.clone(), false), exit(0, Some("/m"), None));
    assert_eq!(plan_quit(Cmd::QuitNoCd, cwd.clone(), true), exit(130, None, None));
    assert_eq!(plan_quit(Cmd::OpenFile("/w/f".into()), cwd.clone(), true), Quit::Open("/w/f".into()));
    assert_eq!(plan_quit(Cmd::RunCommand("ls".into()), cwd.clone(), true), exit(0, Some("/w"), Some("ls")));
    assert_eq!(plan_quit(Cmd::RunCommand("ls".into()), cwd, false), Quit::NoShellFunction);
}

#[test]
fn keep_open_returns_to_the_popup() {
    assert_eq!(after_open(None, true, "/w".into()), None);
    assert_eq!(after_open(None, false, "/w".into()), Some(Exit { code: 0, cd_to: Some("/w".into()), command: None }));
    assert_eq!(after_open(Some(3), true, "/w".into()), Some(Exit { code: 3, cd_to: Some("/w".into()), command: None }));
}
