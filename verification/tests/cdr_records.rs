use rustit::cdr::{
    cdr_plan, is_http_url, make_cdr_data, post_content_type, record_path, write_error_log,
    write_http_log, CdrPlan, CdrPoster, Limits, PostStep, Profile,
};

fn configured(params: &[(&str, &str)], limits: &Limits) -> Profile {
    let mut p = Profile::new();
    for (k, v) in params {
        p.apply_param(k, v, "/var/log/freeswitch", limits);
    }
    p
}

#[test]
fn profile_defaults() {
    let p = Profile::new();
    assert_eq!(p.timeout, 60);
    assert_eq!(p.retries, 0);
    assert_eq!(p.delay, 5);
    assert!(p.log_errors_to_disk);
    assert!(p.encode_values);
    assert!(!p.log_b_leg);
    assert!(!p.is_usable());
}

#[test]
fn numbers_are_clamped_into_their_ranges() {
    let l = Limits::cdr();
    let p = configured(&[("retries", "50"), ("delay", "0"), ("timeout", "100")], &l);
    assert_eq!((p.retries, p.delay, p.timeout), (10, 1, 1000));
    let p = configured(&[("retries", "x"), ("delay", "x"), ("timeout", "x")], &l);
    assert_eq!((p.retries, p.delay, p.timeout), (1, 5, 5000));
    let p = configured(&[("RETRIES", "3"), ("Delay", "30"), ("timeout", "9999")], &l);
    assert_eq!((p.retries, p.delay, p.timeout), (3, 30, 6000));
    let lp = Limits::cdr_post();
    let p = configured(&[("retries", "junk"), ("delay", "5"), ("timeout", "7000")], &lp);
    assert_eq!((p.retries, p.delay, p.timeout), (1, 10, 6000));
    let p = configured(&[("retries", "-4")], &lp);
    assert_eq!(p.retries, 1);
}

#[test]
fn text_and_switch_parameters() {
    let l = Limits::cdr();
    let p = configured(
        &[
            ("url", "https://cdr.example.com/post"),
            ("format", "json"),
            ("log-dir", ""),
            ("err-log-dir", "/tmp/err"),
            ("log-b-leg", "true"),
            ("prefix-a-leg", "on"),
            ("log-http-and-disk", "1"),
            ("encode-values", "false"),
        ],
        &l,
    );
    assert_eq!(p.url, "https://cdr.example.com/post");
    assert_eq!(p.format, "json");
    assert_eq!(p.log_dir, "/var/log/freeswitch/zrs_cdr");
    assert_eq!(p.err_log_dir, "/tmp/err");
    assert!(p.log_b_leg && p.prefix_a_leg && p.log_http_and_disk);
    assert!(!p.encode_values);
    assert!(p.is_usable());
    let mut q = Profile::new();
    q.set_name("default");
    assert_eq!(q.name, "default");
}

#[test]
fn only_http_urls_are_used() {
    assert!(is_http_url("http://a"));
    assert!(is_http_url("https://a"));
    assert!(!is_http_url("HTTP://a"));
    assert!(!is_http_url("ftp://a"));
    assert!(!is_http_url(""));
}

#[test]
fn b_legs_are_recorded_only_when_asked() {
    let l = Limits::cdr();
    let p = configured(&[("format", "JSON")], &l);
    assert!(matches!(cdr_plan(&p, true, ""), CdrPlan::Skip));
    assert!(matches!(cdr_plan(&p, true, "false"), CdrPlan::Skip));
    match cdr_plan(&p, true, "yes") {
        CdrPlan::Generate { json, is_bleg, a_prefix } => {
            assert!(json && is_bleg && !a_prefix);
        }
        CdrPlan::Skip => panic!("forced records are produced"),
    }
    match cdr_plan(&p, false, "") {
        CdrPlan::Generate { json, is_bleg, a_prefix } => {
            assert!(json && !is_bleg && !a_prefix);
        }
        CdrPlan::Skip => panic!("A legs are always recorded"),
    }
    let q = configured(&[("log-b-leg", "yes"), ("prefix-a-leg", "yes"), ("format", "xml")], &l);
    match cdr_plan(&q, true, "") {
        CdrPlan::Generate { json, is_bleg, a_prefix } => {
            assert!(!json && is_bleg && a_prefix);
        }
        CdrPlan::Skip => panic!("logged B legs are recorded"),
    }
}

#[test]
fn record_names_and_paths() {
    let l = Limits::cdr();
    let p = configured(&[("format", "xml")], &l);
    let d = make_cdr_data(&p, true, "1234-abcd", "<cdr/>".to_string());
    assert_eq!(d.filename, "a_1234-abcd.cdr.xml");
    assert_eq!(d.fromat, "xml");
    assert_eq!(d.uuid, "1234-abcd");
    assert_eq!(d.text, "<cdr/>");
    let d = make_cdr_data(&p, false, "u", String::new());
    assert_eq!(d.filename, "u.cdr.xml");
    assert_eq!(record_path("/var/log", "2024", "0131", "u.cdr.xml"), "/var/log/2024/0131/u.cdr.xml");
    assert_eq!(record_path("/var/log/", "2024", "0131", "f"), "/var/log/2024/0131/f");
}

#[test]
fn content_type_follows_the_original_choice() {
    assert_eq!(post_content_type("json"), "text/xml");
    assert_eq!(post_content_type("JSON"), "text/xml");
    assert_eq!(post_content_type("xml"), "application/json");
}

#[test]
fn disk_logging_decisions() {
    assert!(write_http_log(true, false, true));
    assert!(!write_http_log(true, true, true));
    assert!(!write_http_log(false, false, true));
    assert!(write_error_log(false, true, true, false));
    assert!(write_error_log(false, true, false, true));
    assert!(!write_error_log(true, true, true, true));
    assert!(!write_error_log(false, false, true, true));
    assert!(!write_error_log(false, true, false, false));
}

fn run_poster(retries: i32, with_first_try: bool, outcomes: &[bool]) -> (u32, bool, Vec<bool>, Vec<bool>) {
    let unit = if with_first_try { 1000 } else { 1 };
    let mut p = CdrPoster::new(retries, 7, unit, with_first_try);
    let mut waits = Vec::new();
    let mut announced = Vec::new();
    let mut k = 0;
    loop {
        match p.next() {
            PostStep::Post { wait_first, wait_ms } => {
                assert_eq!(wait_ms, if wait_first { 7 * unit } else { 0 });
                waits.push(wait_first);
                let ok = outcomes.get(k).copied().unwrap_or(false);
                k += 1;
                announced.push(p.record(ok));
            }
            PostStep::Finished { success } => return (p.made, success, waits, announced),
        }
    }
}

#[test]
fn posting_retries_until_success_or_limit() {
    assert_eq!(run_poster(2, true, &[false, false, false]), (3, false, vec![false, true, true], vec![true, true, false]));
    assert_eq!(run_poster(2, true, &[false, true]), (2, true, vec![false, true], vec![true, false]));
    assert_eq!(run_poster(3, false, &[true]), (1, true, vec![false], vec![false]));
    assert_eq!(run_poster(1, false, &[false]), (1, false, vec![false], vec![true]));
    assert_eq!(run_poster(-1, true, &[]), (0, false, vec![], vec![]));
    assert_eq!(run_poster(0, true, &[false]), (1, false, vec![false], vec![false]));
}

#[test]
fn retry_waits_in_the_flavour_unit() {
    assert_eq!(Limits::cdr().delay_unit_ms, 1000);
    assert_eq!(Limits::cdr_post().delay_unit_ms, 1);
    assert_eq!(CdrPoster::new(2, 5, 1000, true).delay_ms, 5000);
    assert_eq!(CdrPoster::new(2, 20, 1, false).delay_ms, 20);
    assert_eq!(CdrPoster::new(2, 0, 1000, true).delay_ms, 0);
    assert_eq!(CdrPoster::new(2, -1, 1, false).delay_ms, u64::MAX);
    assert_eq!(CdrPoster::new(2, -2, 1, false).delay_ms, u64::MAX - 1);
    assert_eq!(CdrPoster::new(2, -1, 1000, true).delay_ms, u64::MAX);
    let mut p = CdrPoster::new(1, 3, 1000, true);
    assert_eq!(p.next(), PostStep::Post { wait_first: false, wait_ms: 0 });
    p.record(false);
    assert_eq!(p.next(), PostStep::Post { wait_first: true, wait_ms: 3000 });
    p.record(false);
    assert_eq!(p.next(), PostStep::Finished { success: false });
}
