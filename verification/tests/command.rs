use tunnel_lifecycle::async_pipe::{
    get_socket_name, pipe_open_failed, pipe_path, socket_name_with,
};
use tunnel_lifecycle::command::{
    check_output_status, command_failed, kill_process, kill_tree, kill_tree_at_once,
    list_children, render_command, spawn_failed, CodeError, CommandLine, CommandOutput,
};

fn strings(items: &[&str]) -> Vec<String> {
    items.iter().map(|s| s.to_string()).collect()
}

fn line(program: &str, args: &[&str]) -> CommandLine {
    CommandLine {
        program: program.to_string(),
        args: strings(args),
    }
}

fn output(code: Option<i32>, stdout: &[u8], stderr: &[u8]) -> CommandOutput {
    CommandOutput {
        code,
        stdout: stdout.to_vec(),
        stderr: stderr.to_vec(),
    }
}

#[test]
fn a_process_that_ended_with_zero_passes() {
    let result = check_output_status(output(Some(0), b"out", b"warn"), || {
        panic!("the command is rendered for a failure only")
    });
    assert_eq!(result, Ok(output(Some(0), b"out", b"warn")));
}

#[test]
fn a_failed_process_reports_what_it_wrote_to_standard_error() {
    let result = check_output_status(output(Some(2), b"out", b"bad thing"), || {
        "tool --flag".to_string()
    });
    assert_eq!(
        result,
        Err(CodeError::CommandFailed {
            command: "tool --flag".to_string(),
            code: 2,
            output: "bad thing".to_string()
        })
    );
}

#[test]
fn a_failed_process_that_wrote_no_error_reports_its_output() {
    let result = check_output_status(output(Some(1), b"only out", b""), || "t".to_string());
    assert_eq!(
        result,
        Err(CodeError::CommandFailed {
            command: "t".to_string(),
            code: 1,
            output: "only out".to_string()
        })
    );
}

#[test]
fn a_process_without_a_code_reports_minus_one() {
    let result = check_output_status(output(None, b"", b"killed"), || "t".to_string());
    assert_eq!(
        result,
        Err(CodeError::CommandFailed {
            command: "t".to_string(),
            code: -1,
            output: "killed".to_string()
        })
    );
}

#[test]
fn bytes_that_are_no_text_are_replaced() {
    let result = check_output_status(output(Some(1), b"", &[b'a', 0xff, b'b']), || {
        "t".to_string()
    });
    assert_eq!(
        result,
        Err(CodeError::CommandFailed {
            command: "t".to_string(),
            code: 1,
            output: "a\u{fffd}b".to_string()
        })
    );
}

#[test]
fn a_failure_carries_the_command_the_code_and_the_text() {
    assert_eq!(
        command_failed("tool".to_string(), Some(3), "text".to_string()),
        CodeError::CommandFailed {
            command: "tool".to_string(),
            code: 3,
            output: "text".to_string()
        }
    );
    assert_eq!(
        command_failed("tool".to_string(), None, String::new()),
        CodeError::CommandFailed {
            command: "tool".to_string(),
            code: -1,
            output: String::new()
        }
    );
}

#[test]
fn a_command_that_could_not_be_run_reports_minus_one() {
    assert_eq!(
        spawn_failed("pgrep -P 7".to_string(), "not found".to_string()),
        CodeError::CommandFailed {
            command: "pgrep -P 7".to_string(),
            code: -1,
            output: "not found".to_string()
        }
    );
}

#[test]
fn a_command_is_shown_with_spaces_between_its_parts() {
    assert_eq!(
        render_command("git", &strings(&["commit", "-m", "msg"])),
        "git commit -m msg"
    );
    assert_eq!(render_command("ls", &strings(&["-l"])), "ls -l");
    assert_eq!(render_command("ls", &Vec::new()), "ls ");
}

#[test]
fn the_children_of_a_process_are_listed_by_its_identifier() {
    assert_eq!(list_children(4242), line("pgrep", &["-P", "4242"]));
}

#[test]
fn a_process_is_ended_with_each_of_its_children() {
    assert_eq!(
        kill_tree(100, &strings(&["101", "102"])),
        vec![
            line("kill", &["100"]),
            line("kill", &["101"]),
            line("kill", &["102"])
        ]
    );
    assert_eq!(kill_tree(7, &Vec::new()), vec![line("kill", &["7"])]);
}

#[test]
fn the_plan_for_a_tree_is_one_kill_for_each_process_parent_first() {
    let children = strings(&["11", "12", "13"]);
    let mut one_by_one = vec![kill_process("10".to_string())];
    for child in &children {
        one_by_one.push(kill_process(child.clone()));
    }
    assert_eq!(kill_tree(10, &children), one_by_one);
    assert_eq!(kill_process("77".to_string()), line("kill", &["77"]));
}

#[test]
fn a_process_tree_is_ended_at_once_where_a_command_does_so() {
    assert_eq!(
        kill_tree_at_once(321),
        line("taskkill", &["/t", "/pid", "321"])
    );
}

#[test]
fn a_socket_name_is_the_application_and_an_identifier() {
    assert_eq!(socket_name_with("code", "abc"), "code-abc");
}

#[test]
fn a_fresh_socket_name_holds_a_random_identifier() {
    let first = get_socket_name("code");
    let second = get_socket_name("code");
    assert_ne!(first, second);
    for name in [first, second] {
        let id = name.strip_prefix("code-").unwrap();
        assert_eq!(id.len(), 36);
        for (i, c) in id.chars().enumerate() {
            if [8, 13, 18, 23].contains(&i) {
                assert_eq!(c, '-');
            } else {
                assert!(c.is_ascii_digit() || ('a'..='f').contains(&c));
            }
        }
    }
}

#[test]
fn a_pipe_lives_under_the_pipe_prefix() {
    assert_eq!(pipe_path("code-abc"), r"\\.\pipe\code-abc");
}

#[test]
fn only_a_busy_pipe_is_tried_again() {
    assert_eq!(pipe_open_failed(Some(231), "busy".to_string()), Ok(100));
    for code in [Some(2), Some(0), Some(-231), None] {
        assert_eq!(
            pipe_open_failed(code, "no such pipe".to_string()),
            Err(CodeError::AsyncPipeFailed("no such pipe".to_string()))
        );
    }
}
