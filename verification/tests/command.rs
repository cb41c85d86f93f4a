use rpc_gen::command::{command_output, Command, ProcessOutput};

fn ended(success: bool, stdout: &[u8]) -> Option<ProcessOutput> {
    Some(ProcessOutput { success, stdout: stdout.to_vec() })
}

#[test]
fn a_command_that_did_not_start_gives_nothing() {
    assert_eq!(command_output(None), None);
}

#[test]
fn a_successful_command_gives_its_trimmed_output() {
    assert_eq!(command_output(ended(true, b"hello\n")), Some("hello".to_string()));
    assert_eq!(command_output(ended(true, b"  two words \r\n")), Some("two words".to_string()));
}

#[test]
fn a_successful_command_that_printed_nothing_gives_the_empty_text() {
    assert_eq!(command_output(ended(true, b"")), Some(String::new()));
    assert_eq!(command_output(ended(true, b"\n")), Some(String::new()));
}

#[test]
fn a_failed_command_gives_nothing() {
    assert_eq!(command_output(ended(false, b"hello\n")), None);
    assert_eq!(command_output(ended(false, b"")), None);
}

#[test]
fn output_that_is_not_utf8_gives_nothing() {
    assert_eq!(command_output(ended(true, &[0xff])), None);
    assert_eq!(command_output(ended(true, &[b'a', 0xc3])), None);
    assert_eq!(command_output(ended(true, &[0xed, 0xa0, 0x80])), None);
    assert_eq!(command_output(ended(true, &[0xc0, 0x80])), None);
}

#[test]
fn utf8_output_is_decoded() {
    assert_eq!(
        command_output(ended(true, "  h\u{e9}llo \u{65e5}\u{672c}\u{3000}\n".as_bytes())),
        Some("h\u{e9}llo \u{65e5}\u{672c}".to_string())
    );
    assert_eq!(
        command_output(ended(true, &[0xf0, 0x9f, 0x98, 0x80, b'\n'])),
        Some("\u{1f600}".to_string())
    );
}

#[test]
fn working_dir_defaults_to_the_current_directory() {
    let mut command = Command { program: "git".to_string(), args: Vec::new(), dir: None };
    assert_eq!(command.working_dir(), ".");
    command.dir = Some("./docs".to_string());
    assert_eq!(command.working_dir(), "./docs");
}
