use pls::builtins::minfd;
use pls::is::{api, arithmetic, environment, shell_altering_command, signal_handler_enabled};
use pls::lines::LineInfo;
use pls::parse_line;
use pls::pipeline::{finish, plan, split_chars, words};
use pls::parses::line::parses;
use pls::path::{is_shell_altering_command, merge_paths, system_paths};
use pls::regex::{contains, search};
use pls::replies::Reply;
use pls::run;

fn texts(info: &LineInfo) -> Vec<String> {
    info.tokens.iter().map(|t| t.1.clone()).collect()
}

#[test]
fn arithmetic_lines_are_recognised() {
    assert!(arithmetic("1 + 2"));
    assert!(arithmetic("(3*4)/2"));
    assert!(arithmetic("2^10 "));
    assert!(arithmetic("1.5-0.5"));
    assert!(arithmetic("1+2)"));
}

#[test]
fn non_arithmetic_lines_are_rejected() {
    assert!(!arithmetic(""));
    assert!(!arithmetic("1"));
    assert!(!arithmetic("12"));
    assert!(!arithmetic("1 +"));
    assert!(!arithmetic("+ -"));
    assert!(!arithmetic("ls -l 2"));
    assert!(!arithmetic("1+2("));
    assert!(!arithmetic("1+2\n"));
}

#[test]
fn environment_assignments() {
    assert!(environment("FOO=bar"));
    assert!(environment("_x1="));
    assert!(environment("a=b=c"));
    assert!(!environment("1A=b"));
    assert!(!environment("=b"));
    assert!(!environment("FOO"));
    assert!(!environment("FO-O=b"));
    assert!(!environment("FOO=b\nc"));
    assert!(!environment(" FOO=b"));
}

#[test]
fn shell_altering_commands() {
    assert!(shell_altering_command("alias ll='ls -l'"));
    assert!(shell_altering_command("  export PATH=/bin"));
    assert!(shell_altering_command("unalias ll"));
    assert!(shell_altering_command("unset FOO"));
    assert!(shell_altering_command("source ~/.plsrc"));
    assert!(shell_altering_command("FOO=bar  "));
    assert!(shell_altering_command("\tFOO=bar\u{3000}"));
    assert!(!shell_altering_command("alias"));
    assert!(!shell_altering_command("ls -l"));
    assert!(!shell_altering_command("echo FOO=bar"));
    assert!(!shell_altering_command("exporter x"));
}

#[test]
fn both_altering_checks_agree() {
    for line in ["alias a=b", " x=1 ", "ls", "", "source", "unset X", "1=2"] {
        assert_eq!(shell_altering_command(line), is_shell_altering_command(line));
    }
}

#[test]
fn surrounding_space_does_not_change_altering() {
    for line in ["alias a=b", "x=1", "ls -l", "unset X"] {
        let padded = format!(" \t{}\u{a0} ", line);
        assert_eq!(shell_altering_command(line), shell_altering_command(&padded));
    }
}

#[test]
fn assignments_alter_the_shell() {
    for line in ["A=1", "b_=", "ZZ=a b c"] {
        assert!(environment(line));
        assert!(shell_altering_command(line));
    }
}

#[test]
fn arithmetic_is_no_assignment() {
    for line in ["1+1", "2 * 3", "(1)/2"] {
        assert!(arithmetic(line));
        assert!(!environment(line));
    }
}

#[test]
fn builtin_names() {
    assert!(api("cd"));
    assert!(api("minfd"));
    assert!(api("unpath"));
    assert!(!api("ls"));
    assert!(!api(""));
    assert!(!api("cd "));
}

#[test]
fn signal_handler_setting() {
    assert!(signal_handler_enabled(Some("1")));
    assert!(!signal_handler_enabled(Some("0")));
    assert!(!signal_handler_enabled(Some("1 ")));
    assert!(!signal_handler_enabled(Some("")));
    assert!(!signal_handler_enabled(None));
}

#[test]
fn parses_arithmetic_into_tokens() {
    let info = parses("1 + 2");
    assert!(info.is_complete);
    assert_eq!(texts(&info), vec!["1", "+", "2"]);
    assert!(info.tokens.iter().all(|t| t.0.is_empty()));
}

#[test]
fn parses_keeps_empty_pieces() {
    let info = parses(" 1  +2 ");
    assert!(info.is_complete);
    assert_eq!(texts(&info), vec!["", "1", "", "+2", ""]);
}

#[test]
fn tokens_join_back_to_the_line() {
    for line in ["1 + 2", "  3*4 ", "(1 - 2)/3."] {
        let info = parses(line);
        assert!(info.is_complete);
        assert_eq!(texts(&info).join(" "), line);
        assert_eq!(texts(&info).len(), line.matches(' ').count() + 1);
    }
}

#[test]
fn parses_other_lines_as_incomplete() {
    for line in ["echo hi", "ls", "ls -l", ""] {
        let info = parses(line);
        assert!(!info.is_complete, "{:?}", line);
        assert!(info.tokens.is_empty());
    }
}

#[test]
fn parse_line_tokenises_commands() {
    let info = parse_line("echo hi");
    assert!(info.is_complete);
    assert_eq!(texts(&info), vec!["echo", "hi"]);
    assert!(info.tokens.iter().all(|t| t.0.is_empty()));
    let info = parse_line("ls");
    assert!(info.is_complete);
    assert_eq!(texts(&info), vec!["ls"]);
    let info = parse_line("a  b");
    assert_eq!(texts(&info), vec!["a", "", "b"]);
    let info = parse_line("");
    assert!(info.is_complete);
    assert_eq!(texts(&info), vec![""]);
}

#[test]
fn parse_line_matches_parses() {
    let a = parse_line("4 - 1");
    let b = parses("4 - 1");
    assert_eq!(a.is_complete, b.is_complete);
    assert_eq!(texts(&a), texts(&b));
}

#[test]
fn line_info_constructors() {
    let a = LineInfo::new();
    assert!(!a.is_complete);
    assert!(a.tokens.is_empty());
    let b = LineInfo::create(vec![(String::new(), "x".to_string())]);
    assert!(b.is_complete);
    assert_eq!(b.tokens.len(), 1);
}

#[test]
fn replies() {
    let r = Reply::new();
    assert_eq!((r.gid, r.status), (0, 0));
    assert!(r.stdout.is_empty() && r.stderr.is_empty());
    let r = Reply::from_status(7, 3);
    assert_eq!((r.gid, r.status), (7, 3));
    let r = Reply::error();
    assert_eq!((r.gid, r.status), (0, 1));
    let r: Reply = Default::default();
    assert_eq!((r.gid, r.status), (0, 0));
}

#[test]
fn run_plans_pipelines() {
    assert_eq!(run("ls -l").ok(), Some(vec![vec!["ls".to_string(), "-l".to_string()]]));
    assert_eq!(
        run(" cat  a.txt | grep x|wc -l ").ok(),
        Some(vec![
            vec!["cat".to_string(), "a.txt".to_string()],
            vec!["grep".to_string(), "x".to_string()],
            vec!["wc".to_string(), "-l".to_string()],
        ])
    );
    let r = run("   ").unwrap_err();
    assert_eq!((r.gid, r.status), (0, 0));
    assert!(r.stdout.is_empty() && r.stderr.is_empty());
    let r = run("").unwrap_err();
    assert_eq!((r.gid, r.status), (0, 0));
    for bad in ["ls |", "| wc", "ls | | wc", "|", " | "] {
        let r = run(bad).unwrap_err();
        assert_eq!((r.gid, r.status), (0, 0), "{:?}", bad);
        assert!(r.stdout.is_empty() && r.stderr.is_empty());
    }
}

#[test]
fn pipeline_pieces_and_reply() {
    let chars: Vec<char> = "a||b".chars().collect();
    let pieces = split_chars(&chars, '|');
    assert_eq!(pieces, vec![vec!['a'], vec![], vec!['b']]);
    let stage: Vec<char> = "  echo   hi ".chars().collect();
    assert_eq!(words(&stage), vec!["echo".to_string(), "hi".to_string()]);
    assert_eq!(plan("a|b c").unwrap().len(), 2);
    assert_eq!(plan("a||b"), None);
    let r = finish(&vec![0, 3], "out".to_string(), "err".to_string());
    assert_eq!((r.gid, r.status), (0, 3));
    assert_eq!((r.stdout.as_str(), r.stderr.as_str()), ("out", "err"));
}

#[test]
fn minfd_is_not_supported() {
    let (r, msg) = minfd::run(false);
    assert_eq!((r.gid, r.status), (0, 0));
    assert_eq!(msg, ":: minfd: error: Not Supported On The Windows Platform");
}

#[test]
fn regex_search() {
    assert!(contains("abc123", r"[0-9]+"));
    assert!(!contains("abcdef", r"[0-9]+"));
    assert!(contains("FOO=bar", r"^[a-zA-Z_][a-zA-Z0-9_]*=.*$"));
    assert!(!contains("anything", r"("));
    assert!(!contains("", r"a"));
}

#[test]
fn regex_search_reports_bad_patterns() {
    assert_eq!(search("abc123", r"[0-9]+"), Ok(true));
    assert_eq!(search("abc", r"[0-9]+"), Ok(false));
    let e = search("abc", r"(").unwrap_err();
    assert!(e.contains("unclosed group"), "{}", e);
}

#[test]
fn system_path_candidates() {
    let p = system_paths();
    assert_eq!(
        p,
        vec![
            r"C:\\WINDOWS",
            r"C:\\WINDOWS\\SYSTEM32",
            r"C:\\WINDOWS\\SYSTEM32\\Drivers",
            r"C:\\WINDOWS\\SYSTEM32\\Drivers\\DriverData",
            r"C:\\WINDOWS\\SYSTEM32\\OpenSSH",
            r"C:\\WINDOWS\\SYSTEM32\\Wbem",
            r"C:\\WINDOWS\\SYSTEM32\\WindowsPowerShell",
            r"C:\\WINDOWS\\SYSTEM32\\WindowsPowerShell\\v1.0",
        ]
    );
}

#[test]
fn merged_paths_hold_each_directory_once() {
    let existing = vec!["/a".to_string(), "/b".to_string(), "/a".to_string()];
    let env = vec!["/c".to_string(), "/b".to_string(), "/d".to_string(), "/c".to_string()];
    let merged = merge_paths(existing, env);
    assert_eq!(merged, vec!["/a", "/b", "/c", "/d"]);
    assert!(merge_paths(vec![], vec![]).is_empty());
}

#[test]
fn single_command_runs_its_parsed_words() {
    for line in ["  echo  hi ", "ls", "a b  c", "   ", ""] {
        let words: Vec<String> =
            texts(&parse_line(line)).into_iter().filter(|w| !w.is_empty()).collect();
        match run(line) {
            Ok(stages) => assert_eq!(stages, vec![words]),
            Err(reply) => {
                assert!(words.is_empty());
                assert_eq!(reply.status, 0);
            }
        }
    }
}
