//! The scans with many options, and the presets built on them.

use vstd::prelude::*;
use vstd::string::*;
use crate::api::nmap::{self, SCAN_URL};
use crate::api::{BackendRequest, BackendRequestView};
use crate::json::{value_of, Json, JsonValue};
use crate::text::{same_text, text_of};

verus! {

/// The body of a scan with all its options: the target, then every option
/// that is given and every flag that is set, in a fixed order.
pub open spec fn advanced_scan_body(
    target: Seq<char>,
    timing: Option<Seq<char>>,
    scan_type: Option<Seq<char>>,
    ports: Option<Seq<char>>,
    service_detection: bool,
    os_detection: bool,
    scripts: Option<Seq<char>>,
    output_format: Option<Seq<char>>,
    aggressive: bool,
    traceroute: bool,
    flag_o: bool,
    flag_sc: bool,
    flag_sv: bool,
    flag_traceroute: bool,
    flag_a: bool,
    stealth_options: Option<JsonValue>,
) -> JsonValue {
    JsonValue::object().with("target"@, JsonValue::Str(target)).with_text("timing"@, timing).with_text(
        "scan_type"@,
        scan_type,
    ).with_text("ports"@, ports).with_flag("service_detection"@, service_detection).with_flag(
        "os_detection"@,
        os_detection,
    ).with_text("scripts"@, scripts).with_text("output_format"@, output_format).with_some(
        "stealth_options"@,
        stealth_options,
    ).with_flag("aggressive"@, aggressive).with_flag("traceroute"@, traceroute).with_flag(
        "flag_o"@,
        flag_o,
    ).with_flag("flag_sc"@, flag_sc).with_flag("flag_sv"@, flag_sv).with_flag(
        "flag_traceroute"@,
        flag_traceroute,
    ).with_flag("flag_a"@, flag_a)
}

/// The request of a scan with all its options.
pub fn advanced_nmap_scan(
    target: &str,
    timing: Option<&str>,
    scan_type: Option<&str>,
    ports: Option<&str>,
    service_detection: bool,
    os_detection: bool,
    scripts: Option<&str>,
    output_format: Option<&str>,
    aggressive: bool,
    traceroute: bool,
    flag_o: bool,
    flag_sc: bool,
    flag_sv: bool,
    flag_traceroute: bool,
    flag_a: bool,
    stealth_options: Option<&Json>,
) -> (request: BackendRequest)
    ensures
        request@ == BackendRequestView::post(
            SCAN_URL@,
            advanced_scan_body(
                target@,
                text_of(timing),
                text_of(scan_type),
                text_of(ports),
                service_detection,
                os_detection,
                text_of(scripts),
                text_of(output_format),
                aggressive,
                traceroute,
                flag_o,
                flag_sc,
                flag_sv,
                flag_traceroute,
                flag_a,
                value_of(stealth_options),
            ),
        ),
{
    let mut body = Json::object().with("target", Json::string(target)).with_text("timing", timing)
        .with_text("scan_type", scan_type).with_text("ports", ports).with_flag(
        "service_detection",
        service_detection,
    ).with_flag("os_detection", os_detection).with_text("scripts", scripts).with_text(
        "output_format",
        output_format,
    );
    if let Some(options) = stealth_options {
        body = body.with("stealth_options", options.clone());
    }
    let body = body.with_flag("aggressive", aggressive).with_flag("traceroute", traceroute)
        .with_flag("flag_o", flag_o).with_flag("flag_sc", flag_sc).with_flag("flag_sv", flag_sv)
        .with_flag("flag_traceroute", flag_traceroute).with_flag("flag_a", flag_a);
    nmap::advanced_scan(&body)
}

/// The target and the timing, with which every preset starts.
pub open spec fn preset_body(target: Seq<char>, timing: Seq<char>) -> JsonValue {
    JsonValue::object().with("target"@, JsonValue::Str(target)).with("timing"@, JsonValue::Str(timing))
}

/// The body of a quick scan. A preset that is not known scans with the
/// target and the timing alone.
pub open spec fn quick_scan_body(target: Seq<char>, scan_type: Seq<char>, timing: Seq<char>) -> JsonValue {
    let body = preset_body(target, timing);
    if scan_type == "ping_sweep"@ {
        body.with("scan_type"@, JsonValue::Str("ping"@))
    } else if scan_type == "common_ports"@ {
        body.with("scan_type"@, JsonValue::Str("tcp_syn"@)).with("ports"@, JsonValue::Str("1-1000"@))
            .with("service_detection"@, JsonValue::Bool(true))
    } else if scan_type == "service_detection"@ {
        body.with("scan_type"@, JsonValue::Str("tcp_syn"@)).with(
            "service_detection"@,
            JsonValue::Bool(true),
        ).with("os_detection"@, JsonValue::Bool(true))
    } else if scan_type == "vuln_scan"@ {
        body.with("scan_type"@, JsonValue::Str("tcp_syn"@)).with(
            "service_detection"@,
            JsonValue::Bool(true),
        ).with("scripts"@, JsonValue::Str("vuln"@))
    } else {
        body
    }
}

/// The request of a quick scan by one of the presets `ping_sweep`,
/// `common_ports`, `service_detection` and `vuln_scan`.
pub fn quick_scan(target: &str, scan_type: &str, timing: &str) -> (request: BackendRequest)
    ensures
        request@ == BackendRequestView::post(SCAN_URL@, quick_scan_body(target@, scan_type@, timing@)),
{
    let body = Json::object().with("target", Json::string(target)).with(
        "timing",
        Json::string(timing),
    );
    let body = if same_text(scan_type, "ping_sweep") {
        body.with("scan_type", Json::string("ping"))
    } else if same_text(scan_type, "common_ports") {
        body.with("scan_type", Json::string("tcp_syn")).with("ports", Json::string("1-1000")).with(
            "service_detection",
            Json::Bool(true),
        )
    } else if same_text(scan_type, "service_detection") {
        body.with("scan_type", Json::string("tcp_syn")).with("service_detection", Json::Bool(true))
            .with("os_detection", Json::Bool(true))
    } else if same_text(scan_type, "vuln_scan") {
        body.with("scan_type", Json::string("tcp_syn")).with("service_detection", Json::Bool(true))
            .with("scripts", Json::string("vuln"))
    } else {
        body
    };
    nmap::advanced_scan(&body)
}

/// The timing that a stealth level scans with; a level that is not known
/// scans as `medium` does.
pub open spec fn stealth_timing(level: Seq<char>) -> Seq<char> {
    if level == "low"@ {
        "T3"@
    } else if level == "high"@ {
        "T1"@
    } else if level == "maximum"@ {
        "T0"@
    } else {
        "T2"@
    }
}

/// The decoys of a stealth level, where decoys are wanted and the level
/// has any.
pub open spec fn stealth_decoys(level: Seq<char>, use_decoys: bool) -> Option<JsonValue> {
    if !use_decoys {
        None
    } else if level == "medium"@ {
        Some(JsonValue::array().item(JsonValue::Str("RND:5"@)).item(JsonValue::Str("ME"@)))
    } else if level == "high"@ {
        Some(
            JsonValue::array().item(JsonValue::Str("RND:10"@)).item(JsonValue::Str("8.8.8.8"@)).item(
                JsonValue::Str("ME"@),
            ),
        )
    } else if level == "maximum"@ {
        Some(
            JsonValue::array().item(JsonValue::Str("RND:15"@)).item(JsonValue::Str("8.8.8.8"@)).item(
                JsonValue::Str("1.1.1.1"@),
            ).item(JsonValue::Str("ME"@)),
        )
    } else {
        None
    }
}

/// The hop limit of a stealth level, where it sets one.
pub open spec fn stealth_ttl(level: Seq<char>) -> Option<JsonValue> {
    if level == "medium"@ {
        Some(JsonValue::integer(64))
    } else if level == "high"@ {
        Some(JsonValue::integer(128))
    } else if level == "maximum"@ {
        Some(JsonValue::integer(255))
    } else {
        None
    }
}

/// The body of a stealth scan.
pub open spec fn stealth_scan_body(
    target: Seq<char>,
    stealth_level: Seq<char>,
    scan_type: Seq<char>,
    use_decoys: bool,
    fragment_packets: bool,
) -> JsonValue {
    let options = JsonValue::object().with_some("decoys"@, stealth_decoys(stealth_level, use_decoys))
        .with_some("ttl"@, stealth_ttl(stealth_level)).with_flag(
        "fragment_packets"@,
        fragment_packets,
    );
    preset_body(target, stealth_timing(stealth_level)).with("scan_type"@, JsonValue::Str(scan_type))
        .with("stealth_options"@, options)
}

/// The request of a scan that evades notice: the slower and the better
/// hidden, the higher the level among `low`, `medium`, `high` and `maximum`.
pub fn stealth_scan(
    target: &str,
    stealth_level: &str,
    scan_type: &str,
    use_decoys: bool,
    fragment_packets: bool,
) -> (request: BackendRequest)
    ensures
        request@ == BackendRequestView::post(
            SCAN_URL@,
            stealth_scan_body(target@, stealth_level@, scan_type@, use_decoys, fragment_packets),
        ),
{
    let low = same_text(stealth_level, "low");
    let medium = same_text(stealth_level, "medium");
    let high = same_text(stealth_level, "high");
    let maximum = same_text(stealth_level, "maximum");
    let timing = if low {
        "T3"
    } else if high {
        "T1"
    } else if maximum {
        "T0"
    } else {
        "T2"
    };
    let mut options = Json::object();
    if use_decoys {
        if medium {
            options = options.with(
                "decoys",
                Json::array().item(Json::string("RND:5")).item(Json::string("ME")),
            );
        } else if high {
            options = options.with(
                "decoys",
                Json::array().item(Json::string("RND:10")).item(Json::string("8.8.8.8")).item(
                    Json::string("ME"),
                ),
            );
        } else if maximum {
            options = options.with(
                "decoys",
                Json::array().item(Json::string("RND:15")).item(Json::string("8.8.8.8")).item(
                    Json::string("1.1.1.1"),
                ).item(Json::string("ME")),
            );
        }
    }
    if medium {
        options = options.with("ttl", Json::integer(64));
    } else if high {
        options = options.with("ttl", Json::integer(128));
    } else if maximum {
        options = options.with("ttl", Json::integer(255));
    }
    let options = options.with_flag("fragment_packets", fragment_packets);
    let body = Json::object().with("target", Json::string(target)).with(
        "timing",
        Json::string(timing),
    ).with("scan_type", Json::string(scan_type)).with("stealth_options", options);
    nmap::advanced_scan(&body)
}

/// The body of a comprehensive scan.
pub open spec fn comprehensive_scan_body(target: Seq<char>, include_vuln: bool) -> JsonValue {
    preset_body(target, "T3"@).with("scan_type"@, JsonValue::Str("tcp_syn"@)).with(
        "ports"@,
        JsonValue::Str("1-65535"@),
    ).with("service_detection"@, JsonValue::Bool(true)).with("os_detection"@, JsonValue::Bool(true))
        .with(
        "scripts"@,
        JsonValue::Str(
            if include_vuln {
                "default,vuln"@
            } else {
                "default"@
            },
        ),
    ).with("output_format"@, JsonValue::Str("xml"@))
}

/// The request of a scan of every port, with service and operating system
/// detection and the default scripts, and the vulnerability scripts too
/// where they are asked for.
pub fn comprehensive_scan(target: &str, include_vuln: bool) -> (request: BackendRequest)
    ensures
        request@ == BackendRequestView::post(SCAN_URL@, comprehensive_scan_body(target@, include_vuln)),
{
    let scripts = if include_vuln {
        "default,vuln"
    } else {
        "default"
    };
    let body = Json::object().with("target", Json::string(target)).with("timing", Json::string("T3"))
        .with("scan_type", Json::string("tcp_syn")).with("ports", Json::string("1-65535")).with(
        "service_detection",
        Json::Bool(true),
    ).with("os_detection", Json::Bool(true)).with("scripts", Json::string(scripts)).with(
        "output_format",
        Json::string("xml"),
    );
    nmap::advanced_scan(&body)
}

/// The body of a network discovery.
pub open spec fn network_discovery_body(subnet: Seq<char>, timing: Seq<char>) -> JsonValue {
    preset_body(subnet, timing).with("scan_type"@, JsonValue::Str("ping"@)).with(
        "ports"@,
        JsonValue::Str("22,80,443,3389,8080"@),
    )
}

/// The request that looks for live hosts in a subnet.
pub fn network_discovery(subnet: &str, timing: &str) -> (request: BackendRequest)
    ensures
        request@ == BackendRequestView::post(SCAN_URL@, network_discovery_body(subnet@, timing@)),
{
    let body = Json::object().with("target", Json::string(subnet)).with(
        "timing",
        Json::string(timing),
    ).with("scan_type", Json::string("ping")).with("ports", Json::string("22,80,443,3389,8080"));
    nmap::advanced_scan(&body)
}

} // verus!
