use sidecar_launch::output::render_output_line;
use sidecar_launch::output::trim_blank;
use sidecar_launch::output::OutputChannel;

#[test]
fn trims_blanks_at_both_ends() {
    assert_eq!(trim_blank("  a b  ").as_str(), "a b");
    assert_eq!(trim_blank("\t hello\r\n").as_str(), "hello");
    assert_eq!(trim_blank("no-blanks").as_str(), "no-blanks");
    assert_eq!(trim_blank("").as_str(), "");
    assert_eq!(trim_blank(" \t\r\n ").as_str(), "");
}

#[test]
fn blank_lines_produce_no_event() {
    let lines = ["a", "", "  ", "b"];
    let mut events: Vec<String> = Vec::new();
    for line in lines {
        if let Some(text) = render_output_line(OutputChannel::Stdout, line) {
            events.push(text);
        }
    }
    assert_eq!(events.len(), 2);
    assert_eq!(events[0].as_str(), "[sidecar] a");
    assert_eq!(events[1].as_str(), "[sidecar] b");
}

#[test]
fn stderr_lines_carry_error_prefix() {
    let r = render_output_line(OutputChannel::Stderr, " boom \n");
    assert_eq!(r.unwrap().as_str(), "[sidecar:err] boom");
}

#[test]
fn stdout_line_is_trimmed_before_prefixing() {
    let r = render_output_line(OutputChannel::Stdout, "\tlistening on 127.0.0.1  ");
    assert_eq!(r.unwrap().as_str(), "[sidecar] listening on 127.0.0.1");
}
