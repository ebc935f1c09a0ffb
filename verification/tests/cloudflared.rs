use cftun::cloudflared::{
    check_list, check_output, cloudflared_ok, create_args, delete_args, json_array, list_args,
    list_output, listed_array, parse_uuid, route_args, run_args, unroute_args, CommandOutput,
};

fn output(success: bool, stdout: &[u8], stderr: &[u8]) -> CommandOutput {
    CommandOutput {
        success,
        status: "exit status: 1".to_string(),
        stdout: stdout.to_vec(),
        stderr: stderr.to_vec(),
    }
}

fn words(args: &[&str]) -> Vec<String> {
    args.iter().map(|s| s.to_string()).collect()
}

#[test]
fn uuid_is_read_from_the_announcement() {
    assert_eq!(
        parse_uuid("Created tunnel my-tunnel with id aaafc451-1eea-47a4-81e2-3c02b3907c37"),
        Some("aaafc451-1eea-47a4-81e2-3c02b3907c37".to_string())
    );
}

#[test]
fn uuid_is_found_among_other_lines() {
    let text = "Tunnel credentials written to /x.json.\n\nCreated tunnel a b with id 12-34\r\nwith id 99\n";
    assert_eq!(parse_uuid(text), Some("12-34".to_string()));
}

#[test]
fn uuid_is_the_last_word_of_the_first_line() {
    assert_eq!(parse_uuid("with id"), Some("id".to_string()));
    assert_eq!(parse_uuid("with id 1 2 \t"), Some("2".to_string()));
    assert_eq!(parse_uuid("x\nwithout id\n  with idle \n"), Some("idle".to_string()));
}

#[test]
fn no_uuid_without_the_words() {
    assert_eq!(parse_uuid(""), None);
    assert_eq!(parse_uuid("\n\n"), None);
    assert_eq!(parse_uuid("Created tunnel with\nid 12"), None);
    assert_eq!(parse_uuid("With ID 12"), None);
}

#[test]
fn uuid_is_what_the_standard_library_finds() {
    let pieces = ["", "with id", "\n", "\r\n", " 12", "\u{3000}", "\r", "x with id é"];
    for a in pieces {
        for b in pieces {
            for c in pieces {
                for d in pieces {
                    let text = format!("{a}{b}{c}{d}");
                    let expected = text
                        .lines()
                        .find(|l| l.contains("with id"))
                        .and_then(|l| l.split_whitespace().rev().next())
                        .map(|s| s.to_string());
                    assert_eq!(parse_uuid(&text), expected, "{text:?}");
                }
            }
        }
    }
}

#[test]
fn output_of_a_run_that_ended_well() {
    let r = cloudflared_ok(&words(&["tunnel"]), &output(true, b" out \n", b"err"));
    assert_eq!(r.unwrap(), " out \n");
}

#[test]
fn output_that_is_no_utf8_gets_replacements() {
    let r = cloudflared_ok(&words(&[]), &output(true, b"a\xff\xc3\xa9\xe2\x82b", b""));
    assert_eq!(r.unwrap(), "a\u{fffd}é\u{fffd}b");
}

#[test]
fn failed_run_is_quoted() {
    let r = cloudflared_ok(
        &words(&["tunnel", "create", "x"]),
        &output(false, b" some \xff\n", b"\n broken \n"),
    );
    assert_eq!(
        r.unwrap_err().message(),
        "cloudflared tunnel create x failed (exit status: 1):\nstdout: some \u{fffd}\nstderr: broken"
    );
}

#[test]
fn texts_of_a_run_are_checked() {
    let args = words(&["a", "b"]);
    assert_eq!(check_output(&args, true, "s", "out".to_string(), "err").unwrap(), "out");
    let e = check_output(&args, false, "s", " out ".to_string(), "").unwrap_err();
    assert_eq!(e.message(), "cloudflared a b failed (s):\nstdout: out\nstderr: ");
}

#[test]
fn list_of_tunnels_is_checked() {
    assert_eq!(list_output(&output(true, b"[]\n", b"x")).unwrap(), "[]\n");
    let e = list_output(&output(false, b"[]", b"  not logged in\n")).unwrap_err();
    assert_eq!(e.message(), "cloudflared tunnel list failed: not logged in");
    assert_eq!(check_list(true, "t".to_string(), "u").unwrap(), "t");
    assert_eq!(
        check_list(false, "t".to_string(), " u ").unwrap_err().message(),
        "cloudflared tunnel list failed: u"
    );
}

#[test]
fn list_of_tunnels_is_cut_to_its_array() {
    let log = b"[]\n{\"level\":\"info\",\"ids\":[1]}\n";
    assert_eq!(listed_array(&output(true, log, b"x")).unwrap(), "[]");
    assert_eq!(listed_array(&output(true, b"\xff[\"\xff]\"]\n]", b"")).unwrap(), "[\"\u{fffd}]\"]");
    let e = listed_array(&output(false, log, b" no \n")).unwrap_err();
    assert_eq!(e.message(), "cloudflared tunnel list failed: no");
}

#[test]
fn array_is_found_among_log_lines() {
    let text = "log {\"a\":1}\n[{\"id\":\"1\",\"connections\":[]}]\n{\"level\":\"info\"}\n";
    assert_eq!(json_array(text), "[{\"id\":\"1\",\"connections\":[]}]");
}

#[test]
fn only_the_first_array_is_taken() {
    assert_eq!(json_array("[]\n{\"level\":\"info\",\"ids\":[1]}\n"), "[]");
    assert_eq!(json_array("[1]\n{\"a\":[2]}\n"), "[1]");
    assert_eq!(json_array("[1][2]"), "[1]");
    assert_eq!(json_array("a] [b] c]"), "[b]");
}

#[test]
fn array_ends_with_the_bracket_that_closes_it() {
    assert_eq!(json_array("[[1],[2,[3]]] ]"), "[[1],[2,[3]]]");
    assert_eq!(json_array("x [ [ ] ] y"), "[ [ ] ]");
}

#[test]
fn brackets_in_strings_do_not_count() {
    assert_eq!(json_array(r#"["]"] ]"#), r#"["]"]"#);
    assert_eq!(json_array(r#"["[", 1] ]"#), r#"["[", 1]"#);
    assert_eq!(json_array(r#"["a\"]b", 1] ]"#), r#"["a\"]b", 1]"#);
    assert_eq!(json_array(r#"["a\\"] ]"#), r#"["a\\"]"#);
}

#[test]
fn text_without_a_whole_array_is_kept_to_its_end() {
    assert_eq!(json_array("null"), "null");
    assert_eq!(json_array(""), "");
    assert_eq!(json_array("é[é"), "[é");
    assert_eq!(json_array("é]é"), "é]é");
    assert_eq!(json_array("[[1]"), "[[1]");
    assert_eq!(json_array(r#"["]"#), r#"["]"#);
    assert_eq!(json_array("a] [b"), "[b");
}

#[test]
fn array_is_the_one_that_serde_json_reads() {
    let arrays = [
        "[]",
        "[1,[2,3],[]]",
        r#"[{"id":"1","name":"a]b","connections":[{"x":"["}]}]"#,
        r#"["\"]","\\","[["]"#,
    ];
    for array in arrays {
        for after in ["", "\n", "\n{\"ids\":[1]}\n", "]", "[", "\"]"] {
            let found = json_array(&format!("log\n{array}{after}"));
            assert_eq!(found, array);
            assert!(serde_json::from_str::<serde_json::Value>(&found).unwrap().is_array());
        }
    }
}

#[test]
fn arguments_of_cloudflared() {
    assert_eq!(list_args(), ["tunnel", "list", "-o", "json"]);
    assert_eq!(create_args("n"), ["tunnel", "create", "n"]);
    assert_eq!(delete_args("id"), ["tunnel", "delete", "id"]);
    assert_eq!(route_args("n", "h"), ["tunnel", "route", "dns", "n", "h"]);
    assert_eq!(unroute_args("h"), ["tunnel", "route", "dns", "delete", "h"]);
    assert_eq!(run_args("/c.yaml"), ["tunnel", "--config", "/c.yaml", "run"]);
}
