use chatbot::api::{nmap, openvas, BackendRequest, HttpMethod};
use chatbot::json::Json;
use chatbot::services::advanced_nmap_scan::{
    advanced_nmap_scan, comprehensive_scan, network_discovery, quick_scan, stealth_scan,
};
use chatbot::services::nmap_normal_scan::nmap_normal_scan;
use chatbot::services::openvas_create_target::openvas_create_target;
use chatbot::services::openvas_create_task::openvas_create_task;
use chatbot::services::openvas_get_report::openvas_get_report;
use chatbot::services::openvas_get_version::openvas_get_version;
use chatbot::services::openvas_list_configs::openvas_list_configs;
use chatbot::services::openvas_start_task::openvas_start_task;
use chatbot::services::openvas_task_status::openvas_task_status;

const SCAN: &str = "http://127.0.0.1:8080/scan-open-ports";

fn s(text: &str) -> String {
    text.to_string()
}

fn text(value: &str) -> Json {
    Json::Str(s(value))
}

fn object(members: Vec<(&str, Json)>) -> Json {
    Json::Object(members.into_iter().map(|(k, v)| (s(k), v)).collect())
}

fn post(url: &str, body: Json) -> BackendRequest {
    BackendRequest { method: HttpMethod::Post, url: s(url), body: Some(body) }
}

fn get(url: &str) -> BackendRequest {
    BackendRequest { method: HttpMethod::Get, url: s(url), body: None }
}

#[test]
fn request_constructors() {
    assert_eq!(BackendRequest::get("u"), get("u"));
    assert_eq!(BackendRequest::post("u", Json::Null), post("u", Json::Null));
}

#[test]
fn scans_are_posted_to_the_scanner() {
    let body = object(vec![("target", text("h"))]);
    assert_eq!(nmap::advanced_scan(&body), post(SCAN, body.clone()));
}

#[test]
fn simple_scan_names_target_and_timing() {
    assert_eq!(nmap::scan_open_ports("h", None), post(SCAN, object(vec![("target", text("h"))])));
    assert_eq!(
        nmap::scan_open_ports("h", Some("T4")),
        post(SCAN, object(vec![("target", text("h")), ("timing", text("T4"))]))
    );
    assert_eq!(nmap_normal_scan("h", Some("T1")), nmap::scan_open_ports("h", Some("T1")));
}

#[test]
fn advanced_scan_with_nothing_set_names_the_target_only() {
    let request = advanced_nmap_scan(
        "h", None, None, None, false, false, None, None, false, false, false, false, false, false,
        false, None,
    );
    assert_eq!(request, post(SCAN, object(vec![("target", text("h"))])));
}

#[test]
fn advanced_scan_with_everything_set() {
    let stealth = object(vec![("ttl", Json::Number(s("64")))]);
    let request = advanced_nmap_scan(
        "h",
        Some("T3"),
        Some("udp"),
        Some("1-10"),
        true,
        true,
        Some("vuln"),
        Some("xml"),
        true,
        true,
        true,
        true,
        true,
        true,
        true,
        Some(&stealth),
    );
    assert_eq!(
        request,
        post(
            SCAN,
            object(vec![
                ("target", text("h")),
                ("timing", text("T3")),
                ("scan_type", text("udp")),
                ("ports", text("1-10")),
                ("service_detection", Json::Bool(true)),
                ("os_detection", Json::Bool(true)),
                ("scripts", text("vuln")),
                ("output_format", text("xml")),
                ("stealth_options", stealth.clone()),
                ("aggressive", Json::Bool(true)),
                ("traceroute", Json::Bool(true)),
                ("flag_o", Json::Bool(true)),
                ("flag_sc", Json::Bool(true)),
                ("flag_sv", Json::Bool(true)),
                ("flag_traceroute", Json::Bool(true)),
                ("flag_a", Json::Bool(true)),
            ])
        )
    );
}

#[test]
fn quick_scan_presets() {
    let base = |extra: Vec<(&'static str, Json)>| {
        let mut members = vec![("target", text("h")), ("timing", text("T4"))];
        members.extend(extra);
        post(SCAN, object(members))
    };
    assert_eq!(quick_scan("h", "ping_sweep", "T4"), base(vec![("scan_type", text("ping"))]));
    assert_eq!(
        quick_scan("h", "common_ports", "T4"),
        base(vec![
            ("scan_type", text("tcp_syn")),
            ("ports", text("1-1000")),
            ("service_detection", Json::Bool(true)),
        ])
    );
    assert_eq!(
        quick_scan("h", "service_detection", "T4"),
        base(vec![
            ("scan_type", text("tcp_syn")),
            ("service_detection", Json::Bool(true)),
            ("os_detection", Json::Bool(true)),
        ])
    );
    assert_eq!(
        quick_scan("h", "vuln_scan", "T4"),
        base(vec![
            ("scan_type", text("tcp_syn")),
            ("service_detection", Json::Bool(true)),
            ("scripts", text("vuln")),
        ])
    );
    assert_eq!(quick_scan("h", "something_else", "T4"), base(vec![]));
}

fn stealth_body(timing: &str, options: Vec<(&str, Json)>) -> BackendRequest {
    post(
        SCAN,
        object(vec![
            ("target", text("h")),
            ("timing", text(timing)),
            ("scan_type", text("tcp_fin")),
            ("stealth_options", object(options)),
        ]),
    )
}

#[test]
fn stealth_levels() {
    assert_eq!(stealth_scan("h", "low", "tcp_fin", true, false), stealth_body("T3", vec![]));
    assert_eq!(
        stealth_scan("h", "medium", "tcp_fin", true, false),
        stealth_body(
            "T2",
            vec![
                ("decoys", Json::Array(vec![text("RND:5"), text("ME")])),
                ("ttl", Json::Number(s("64"))),
            ]
        )
    );
    assert_eq!(
        stealth_scan("h", "high", "tcp_fin", true, true),
        stealth_body(
            "T1",
            vec![
                ("decoys", Json::Array(vec![text("RND:10"), text("8.8.8.8"), text("ME")])),
                ("ttl", Json::Number(s("128"))),
                ("fragment_packets", Json::Bool(true)),
            ]
        )
    );
    assert_eq!(
        stealth_scan("h", "maximum", "tcp_fin", true, false),
        stealth_body(
            "T0",
            vec![
                (
                    "decoys",
                    Json::Array(vec![text("RND:15"), text("8.8.8.8"), text("1.1.1.1"), text("ME")])
                ),
                ("ttl", Json::Number(s("255"))),
            ]
        )
    );
    assert_eq!(
        stealth_scan("h", "maximum", "tcp_fin", false, false),
        stealth_body("T0", vec![("ttl", Json::Number(s("255")))])
    );
    assert_eq!(
        stealth_scan("h", "unheard", "tcp_fin", true, true),
        stealth_body("T2", vec![("fragment_packets", Json::Bool(true))])
    );
}

#[test]
fn comprehensive_scan_body() {
    let body = |scripts: &str| {
        post(
            SCAN,
            object(vec![
                ("target", text("h")),
                ("timing", text("T3")),
                ("scan_type", text("tcp_syn")),
                ("ports", text("1-65535")),
                ("service_detection", Json::Bool(true)),
                ("os_detection", Json::Bool(true)),
                ("scripts", text(scripts)),
                ("output_format", text("xml")),
            ]),
        )
    };
    assert_eq!(comprehensive_scan("h", false), body("default"));
    assert_eq!(comprehensive_scan("h", true), body("default,vuln"));
}

#[test]
fn network_discovery_body() {
    assert_eq!(
        network_discovery("10.0.0.0/24", "T4"),
        post(
            SCAN,
            object(vec![
                ("target", text("10.0.0.0/24")),
                ("timing", text("T4")),
                ("scan_type", text("ping")),
                ("ports", text("22,80,443,3389,8080")),
            ])
        )
    );
}

#[test]
fn vulnerability_scanner_reads() {
    assert_eq!(openvas::get_version(), get("http://127.0.0.1:8081/openvas/version"));
    assert_eq!(openvas::list_configs(), get("http://127.0.0.1:8081/openvas/configs"));
    assert_eq!(openvas_get_version(), openvas::get_version());
    assert_eq!(openvas_list_configs(), openvas::list_configs());
}

#[test]
fn create_target_leaves_a_blank_port_range_out() {
    let url = "http://127.0.0.1:8080/openvas/targets";
    let plain = post(url, object(vec![("name", text("n")), ("hosts", text("h"))]));
    assert_eq!(openvas::create_target("n", "h", None), plain);
    assert_eq!(openvas::create_target("n", "h", Some("")), plain);
    assert_eq!(openvas::create_target("n", "h", Some("  \t")), plain);
    assert_eq!(
        openvas::create_target("n", "h", Some("1-100")),
        post(
            url,
            object(vec![("name", text("n")), ("hosts", text("h")), ("port_range", text("1-100"))])
        )
    );
    assert_eq!(
        openvas::create_target("n", "h", Some(" 1-100 ")),
        post(
            url,
            object(vec![
                ("name", text("n")),
                ("hosts", text("h")),
                ("port_range", text(" 1-100 "))
            ])
        )
    );
    assert_eq!(
        openvas_create_target("n", "h", Some("1")),
        openvas::create_target("n", "h", Some("1"))
    );
}

#[test]
fn create_task_body() {
    let expected = post(
        "http://127.0.0.1:8080/openvas/tasks",
        object(vec![("name", text("n")), ("config_id", text("c")), ("target_id", text("t"))]),
    );
    assert_eq!(openvas::create_task("n", "c", "t"), expected);
    assert_eq!(openvas_create_task("n", "c", "t"), expected);
}

#[test]
fn task_and_report_requests() {
    let start =
        post("http://127.0.0.1:8080/openvas/tasks/start", object(vec![("task_id", text("t1"))]));
    let status =
        post("http://127.0.0.1:8080/openvas/tasks/status", object(vec![("task_id", text("t1"))]));
    let report =
        post("http://127.0.0.1:8080/openvas/reports", object(vec![("report_id", text("r1"))]));
    assert_eq!(openvas::start_task("t1"), start);
    assert_eq!(openvas_start_task("t1"), start);
    assert_eq!(openvas::get_task_status("t1"), status);
    assert_eq!(openvas_task_status("t1"), status);
    assert_eq!(openvas::get_report("r1"), report);
    assert_eq!(openvas_get_report("r1"), report);
}
