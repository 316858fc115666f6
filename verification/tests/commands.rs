use papyrus::cmds::{CmdArgs, Command, Commands};
use papyrus::complete::{ActionArgComplete, ActionMatch, ArgComplete};
use papyrus::text::word_break_start;

fn table() -> Vec<Command<u8>> {
    vec![
        Command::new("help".to_string(), CmdArgs::Text, "prints this".to_string(), 0u8),
        Command::new("load".to_string(), CmdArgs::Filename, "loads a file".to_string(), 1u8),
        Command::new("run".to_string(), CmdArgs::NoArgs, "runs".to_string(), 2u8),
    ]
}

#[test]
fn find_command_returns_the_named_entry() {
    let cmds = table();
    let c = cmds.find_command("load").expect("load is defined");
    assert_eq!(c.name, "load");
    assert_eq!(c.help, "loads a file");
    assert_eq!(c.action, 1u8);

    let e = cmds.find_command("quit").err().expect("quit is not defined");
    assert_eq!(e, "unrecognized command: quit");
}

#[test]
fn help_response_lists_every_command() {
    let cmds = table();
    assert_eq!(
        cmds.build_help_response(None),
        "Available commands:\nhelp [text] prints this\nload <filename> loads a file\nrun runs\n"
    );
    assert_eq!(cmds.build_help_response(Some("load")), "load <filename> loads a file\n");
    assert_eq!(cmds.build_help_response(Some("quit")), "unrecognized command: quit");
}

#[test]
fn arg_complete_test() {
    let items = vec![ActionMatch {
        completestr: "some action ".to_string(),
        qualified_path: "some..action".to_string(),
        help_msg: String::new(),
    }];

    let valid = vec!["some..action"];

    let a = ActionArgComplete { items };

    let f = a.find("some action arg1", &valid).unwrap();

    assert_eq!(
        f,
        ArgComplete {
            line: "arg1".to_string(),
            word: "arg1".to_string(),
            word_start: 0,
            help_msg: String::new(),
        }
    );

    let f = a.find("some action arg1 argu", &valid).unwrap();

    assert_eq!(
        f,
        ArgComplete {
            line: "arg1 argu".to_string(),
            word: "argu".to_string(),
            word_start: 5,
            help_msg: String::new(),
        }
    );
}

#[test]
fn find_refuses_paths_outside_valid() {
    let items = vec![ActionMatch {
        completestr: "some action ".to_string(),
        qualified_path: "some..action".to_string(),
        help_msg: "hm".to_string(),
    }];
    let a = ActionArgComplete { items };

    assert!(a.find("some action arg", &vec!["other..action"]).is_none());
    assert!(a.find("unrelated line", &vec!["some..action"]).is_none());
}

#[test]
fn word_break_finds_the_last_word() {
    let seps = vec![' '];
    assert_eq!(word_break_start("arg1 argu", &seps), 5);
    assert_eq!(word_break_start("argu", &seps), 0);
    assert_eq!(word_break_start("trailing ", &seps), 9);
    assert_eq!(word_break_start("", &seps), 0);
}
