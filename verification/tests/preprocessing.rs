use rustit::directive::directives_exec;
use rustit::preprocess::{expand_vars, process, text_directives_exec, var_names, PreProcessAction};
use rustit::xml_fetch;

fn chars(s: &str) -> Vec<char> {
    s.chars().collect()
}

fn set(name: &str, value: &str) -> PreProcessAction {
    PreProcessAction::SetVariable { name: name.to_string(), value: value.to_string() }
}

#[test]
fn set_directive_sets_a_variable() {
    let text = "<include>\n  <X-PRE-PROCESS cmd=\"set\" data=\"domain=example.com\"/>\n</include>";
    assert_eq!(process(text), vec![set("domain", "example.com")]);
}

#[test]
fn directive_words_ignore_case_and_allow_spaces() {
    let text = "<x-pre-process   CMD = \"SET\"\tDATA= \"a=b\"  />\nX-PRE-PROCESS";
    assert_eq!(process(text), vec![set("a", "b")]);
}

#[test]
fn nothing_happens_without_the_upper_case_marker() {
    let text = "<x-pre-process cmd=\"set\" data=\"a=b\"/>";
    assert_eq!(process(text), vec![]);
    assert_eq!(process(""), vec![]);
}

#[test]
fn stun_env_and_unsupported_commands() {
    let text = "<X-PRE-PROCESS cmd=\"stun-set\" data=\"external_rtp_ip=1.2.3.4\"/>\n\
                <X-PRE-PROCESS cmd=\"env-set\" data=\"HOME=/root\"/>\n\
                <X-PRE-PROCESS cmd=\"include\" data=\"dialplan/*.xml\"/>";
    assert_eq!(
        process(text),
        vec![
            PreProcessAction::StunSet {
                name: "external_rtp_ip".to_string(),
                value: "1.2.3.4".to_string()
            },
            PreProcessAction::EnvSet { name: "HOME".to_string(), value: "/root".to_string() },
            PreProcessAction::Unsupported {
                directive: "<X-PRE-PROCESS cmd=\"include\" data=\"dialplan/*.xml\"/>".to_string()
            },
        ]
    );
}

#[test]
fn assignments_need_both_sides() {
    let text = "<X-PRE-PROCESS cmd=\"set\" data=\"novalue=\"/>\n\
                <X-PRE-PROCESS cmd=\"set\" data=\"=noname\"/>\n\
                <X-PRE-PROCESS cmd=\"set\" data=\"plain\"/>\n\
                <X-PRE-PROCESS cmd=\"set\" data=\"a=b=c\"/>";
    assert_eq!(process(text), vec![set("a", "b=c")]);
}

#[test]
fn unknown_command_words_and_empty_data_do_not_match() {
    let text = "<X-PRE-PROCESS cmd=\"unset\" data=\"a=b\"/>\n<X-PRE-PROCESS cmd=\"set\" data=\"\"/>";
    assert_eq!(process(text), vec![]);
}

#[test]
fn data_runs_to_the_last_closer_of_the_line() {
    let line = "<X-PRE-PROCESS cmd=\"set\" data=\"a=1\"/><X-PRE-PROCESS cmd=\"set\" data=\"b=2\"/>";
    assert_eq!(process(line), vec![set("a", "1\"/><X-PRE-PROCESS cmd=\"set\" data=\"b=2")]);
    let spans = directives_exec(&chars(line));
    assert_eq!(spans.len(), 1);
    assert_eq!(spans[0].start, 0);
    assert_eq!(spans[0].end, line.chars().count());
}

#[test]
fn directives_are_found_line_by_line() {
    let text = "a <X-PRE-PROCESS cmd=\"set\" data=\"x=1\"/> b\r\n<X-PRE-PROCESS cmd=\"exec\" data=\"y\"/>\n";
    let ds = text_directives_exec(&chars(text));
    assert_eq!(ds.len(), 2);
    assert_eq!(ds[0].full, "<X-PRE-PROCESS cmd=\"set\" data=\"x=1\"/>");
    assert_eq!(ds[0].cmd, "set");
    assert_eq!(ds[0].data, "x=1");
    assert_eq!(ds[1].cmd, "exec");
    assert_eq!(ds[1].data, "y");
}

#[test]
fn fetched_documents_keep_the_inverted_marker_check() {
    let lower = "<x-pre-process cmd=\"set\" data=\"a=b\"/>";
    let ds = xml_fetch::process(lower);
    assert_eq!(ds.len(), 1);
    assert_eq!(ds[0].data, "a=b");
    let upper = "<X-PRE-PROCESS cmd=\"set\" data=\"a=b\"/>";
    assert_eq!(xml_fetch::process(upper).len(), 0);
}

#[test]
fn variable_names_in_order() {
    assert_eq!(var_names("$${a} and $${bb}"), vec!["a".to_string(), "bb".to_string()]);
    assert_eq!(var_names("no refs"), Vec::<String>::new());
    assert_eq!(var_names("$${open"), Vec::<String>::new());
    assert_eq!(var_names("$${}"), vec!["".to_string()]);
    assert_eq!(var_names("$${a$${b}"), vec!["a$${b".to_string(), "b".to_string()]);
}

#[test]
fn expanding_replaces_every_reference() {
    let s = "sip:$${user}@$${domain};$${user}";
    let names = var_names(s);
    assert_eq!(names, vec!["user".to_string(), "domain".to_string(), "user".to_string()]);
    let values = vec!["alice".to_string(), "example.com".to_string(), "alice".to_string()];
    assert_eq!(expand_vars(s, &values), "sip:alice@example.com;alice");
}

#[test]
fn expanding_without_references_changes_nothing() {
    let s = "plain text ${not_a_core_var}";
    assert_eq!(var_names(s).len(), 0);
    assert_eq!(expand_vars(s, &vec![]), s);
}
