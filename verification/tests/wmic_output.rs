use hdesk_platform::wmic::{
    get_pids_with_args_from_wmic_output, get_pids_with_first_arg_from_wmic_output, split_lines,
};

#[test]
fn test_get_pids_with_args_from_wmic_output() {
    let output = r#"
CommandLine=
ProcessId=33796

CommandLine=
ProcessId=34668

CommandLine="C:\Program Files\testapp\TestApp.exe" --tray
ProcessId=13728

CommandLine="C:\Program Files\testapp\TestApp.exe"
ProcessId=10136
"#;
    let name = "testapp.exe";
    let args = vec!["--tray"];
    let pids = get_pids_with_args_from_wmic_output(
        &String::from_utf8_lossy(output.as_bytes()),
        name,
        &args,
    );
    assert_eq!(pids.len(), 1);
    assert_eq!(pids[0], 13728);

    let args: Vec<&str> = vec![];
    let pids = get_pids_with_args_from_wmic_output(
        &String::from_utf8_lossy(output.as_bytes()),
        name,
        &args,
    );
    assert_eq!(pids.len(), 1);
    assert_eq!(pids[0], 10136);

    let args = vec!["--other"];
    let pids = get_pids_with_args_from_wmic_output(
        &String::from_utf8_lossy(output.as_bytes()),
        name,
        &args,
    );
    assert_eq!(pids.len(), 0);
}

#[test]
fn test_get_pids_with_first_arg_from_wmic_output() {
    let output = r#"
CommandLine=
ProcessId=33796

CommandLine=
ProcessId=34668

CommandLine="C:\Program Files\testapp\TestApp.exe" --tray
ProcessId=13728

CommandLine="C:\Program Files\testapp\TestApp.exe"
ProcessId=10136
    "#;
    let name = "testapp.exe";
    let arg = "--tray";
    let pids = get_pids_with_first_arg_from_wmic_output(
        &String::from_utf8_lossy(output.as_bytes()),
        name,
        arg,
    );
    assert_eq!(pids.len(), 1);
    assert_eq!(pids[0], 13728);

    let arg = "";
    let pids = get_pids_with_first_arg_from_wmic_output(
        &String::from_utf8_lossy(output.as_bytes()),
        name,
        arg,
    );
    assert_eq!(pids.len(), 1);
    assert_eq!(pids[0], 10136);

    let arg = "--other";
    let pids = get_pids_with_first_arg_from_wmic_output(
        &String::from_utf8_lossy(output.as_bytes()),
        name,
        arg,
    );
    assert_eq!(pids.len(), 0);
}

fn lines(s: &str) -> Vec<String> {
    let chars: Vec<char> = s.chars().collect();
    split_lines(&chars).iter().map(|l| l.iter().collect()).collect()
}

#[test]
fn lines_split_like_str_lines() {
    for text in ["", "a", "a\n", "a\r\nb", "a\n\nb\r\n", "\r", "x\ry\n", "\n\n"] {
        let expected: Vec<String> = text.lines().map(|l| l.to_string()).collect();
        assert_eq!(lines(text), expected, "{:?}", text);
    }
}

#[test]
fn crlf_output_and_lowercase_names_match() {
    let output = "CommandLine=\"C:\\APP\\TESTAPP.EXE\" --tray --x\r\nProcessId= 42 \r\nCommandLine=other.exe --tray\r\nProcessId=43\r\n";
    assert_eq!(
        get_pids_with_args_from_wmic_output(output, "testapp.exe", &["--tray", "--x"]),
        vec![42]
    );
    assert_eq!(
        get_pids_with_first_arg_from_wmic_output(output, "testapp.exe", "--tray"),
        vec![42]
    );
}

#[test]
fn pid_line_without_matching_command_is_ignored() {
    let output = "ProcessId=5\nCommandLine=testapp.exe\nProcessId=notanumber\nProcessId=6\n";
    assert_eq!(
        get_pids_with_args_from_wmic_output(output, "testapp.exe", &[]),
        Vec::<u32>::new()
    );
}

#[test]
fn first_arg_after_repeated_name_joins_the_rest() {
    let output = "CommandLine=testapp.exe --testapp.exe--tray\nProcessId=7\n";
    assert_eq!(
        get_pids_with_first_arg_from_wmic_output(output, "testapp.exe", "----tray"),
        vec![7]
    );
}
