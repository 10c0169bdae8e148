//! The tools for scans with many options, and the presets built on them.

use vstd::prelude::*;
use crate::api::nmap::SCAN_URL;
use crate::api::BackendRequestView;
use crate::json::{Json, JsonValue};
use crate::services::advanced_nmap_scan::{
    advanced_nmap_scan, advanced_scan_body, comprehensive_scan, comprehensive_scan_body,
    network_discovery, network_discovery_body, quick_scan, quick_scan_body, stealth_scan,
    stealth_scan_body,
};
use crate::tools::schema::{closed_object, make_closed_object, make_property, property};
use crate::tools::{missing_field, outcome_view, Invocation, InvocationView, Tool, ToolError};

verus! {

/// The name under which the tool is called.
pub const ADVANCED_NMAP_NAME: &'static str = "advanced_nmap_scan";

/// What the tool does, as it is listed.
pub const ADVANCED_NMAP_DESCRIPTION: &'static str =
    "Comprehensive Nmap scan with multiple options: timing, scan types, service detection, OS detection, scripts, and output formats.";

/// The input that `advanced_nmap_scan` takes.
pub open spec fn advanced_nmap_schema() -> JsonValue {
    closed_object(
        JsonValue::object()
            .with("target"@, property("string"@, "Target hostname or IP address to scan."@))
            .with(
                "timing"@,
                JsonValue::object()
                    .with_str("type"@, "string"@)
                    .with_str(
                        "description"@,
                        "Nmap timing template: T0 (Paranoid), T1 (Sneaky), T2 (Polite), T3 (Normal), T4 (Aggressive), T5 (Insane). Default: T2"@,
                    )
                    .with(
                        "enum"@,
                        JsonValue::array()
                            .item_str("T0"@)
                            .item_str("T1"@)
                            .item_str("T2"@)
                            .item_str("T3"@)
                            .item_str("T4"@)
                            .item_str("T5"@),
                    ),
            )
            .with(
                "scan_type"@,
                JsonValue::object()
                    .with_str("type"@, "string"@)
                    .with_str("description"@, "Type of scan to perform"@)
                    .with(
                        "enum"@,
                        JsonValue::array()
                            .item_str("ping"@)
                            .item_str("tcp_syn"@)
                            .item_str("tcp_connect"@)
                            .item_str("udp"@)
                            .item_str("tcp_ack"@)
                            .item_str("tcp_fin"@)
                            .item_str("tcp_null"@)
                            .item_str("tcp_xmas"@),
                    ),
            )
            .with(
                "ports"@,
                property(
                    "string"@,
                    "Port specification: '80,443', '1-1000', 'U:53,T:80-443', or 'all' for all ports"@,
                ),
            )
            .with(
                "service_detection"@,
                property("boolean"@, "Enable service/version detection (-sV)"@),
            )
            .with("os_detection"@, property("boolean"@, "Enable OS detection (-O)"@))
            .with(
                "scripts"@,
                property(
                    "string"@,
                    "Script names or categories: 'vuln', 'default', 'auth,discovery', or specific script names"@,
                ),
            )
            .with(
                "output_format"@,
                JsonValue::object()
                    .with_str("type"@, "string"@)
                    .with_str("description"@, "Output format for results"@)
                    .with(
                        "enum"@,
                        JsonValue::array()
                            .item_str("normal"@)
                            .item_str("xml"@)
                            .item_str("json"@)
                            .item_str("greppable"@)
                            .item_str("all"@),
                    ),
            )
            .with(
                "aggressive"@,
                property(
                    "boolean"@,
                    "Enable aggressive scan options (-A): service detection, OS detection, scripts, and traceroute"@,
                ),
            )
            .with("traceroute"@, property("boolean"@, "Enable traceroute (--traceroute)"@))
            .with("flag_o"@, property("boolean"@, "Enable OS detection (-O)"@))
            .with("flag_sc"@, property("boolean"@, "Enable default scripts (-sC)"@))
            .with("flag_sv"@, property("boolean"@, "Enable service detection (-sV)"@))
            .with("flag_traceroute"@, property("boolean"@, "Enable traceroute (--traceroute)"@))
            .with("flag_a"@, property("boolean"@, "Enable aggressive scan (-A)"@))
            .with(
                "stealth_options"@,
                JsonValue::object()
                    .with_str("type"@, "object"@)
                    .with_str("description"@, "Stealth and evasion options"@)
                    .with(
                        "properties"@,
                        JsonValue::object()
                            .with(
                                "decoys"@,
                                JsonValue::object()
                                    .with_str("type"@, "array"@)
                                    .with(
                                        "items"@,
                                        JsonValue::object()
                                            .with_str("type"@, "string"@),
                                    )
                                    .with_str(
                                        "description"@,
                                        "Decoy IPs (-D RND:10,ME,8.8.8.8)"@,
                                    ),
                            )
                            .with(
                                "source_port"@,
                                property(
                                    "integer"@,
                                    "Source port for packets (--source-port 53)"@,
                                ),
                            )
                            .with(
                                "interface"@,
                                property("string"@, "Network interface to use (-e eth0)"@),
                            )
                            .with(
                                "ttl"@,
                                property("integer"@, "Time to live for packets (--ttl 64)"@),
                            )
                            .with(
                                "randomize_hosts"@,
                                property(
                                    "boolean"@,
                                    "Randomize target host order (--randomize-hosts)"@,
                                ),
                            )
                            .with(
                                "spoof_ip"@,
                                property("string"@, "Spoof source IP address (-S 192.168.1.1)"@),
                            )
                            .with(
                                "spoof_mac"@,
                                property("string"@, "Spoof MAC address (--spoof-mac 0)"@),
                            ),
                    ),
            ),
        JsonValue::array().item_str("target"@),
    )
}

/// Scans a target with every option that the scanner backend takes.
#[derive(Debug, Clone, Copy, PartialEq, Eq)]
pub struct AdvancedNmapTool;

impl Tool for AdvancedNmapTool {
    open spec fn spec_name(&self) -> Seq<char> {
        ADVANCED_NMAP_NAME@
    }

    open spec fn spec_description(&self) -> Seq<char> {
        ADVANCED_NMAP_DESCRIPTION@
    }

    open spec fn spec_input_schema(&self) -> JsonValue {
        advanced_nmap_schema()
    }

    open spec fn spec_execute(&self, input: JsonValue) -> Result<InvocationView, Seq<char>> {
        match input.str_at("target"@) {
            Some(target) => Ok(
                InvocationView::Backend(
                    BackendRequestView::post(
                        SCAN_URL@,
                        advanced_scan_body(
                            target,
                            input.str_at("timing"@),
                            input.str_at("scan_type"@),
                            input.str_at("ports"@),
                            input.bool_or("service_detection"@, false),
                            input.bool_or("os_detection"@, false),
                            input.str_at("scripts"@),
                            input.str_at("output_format"@),
                            input.bool_or("aggressive"@, false),
                            input.bool_or("traceroute"@, false),
                            input.bool_or("flag_o"@, false),
                            input.bool_or("flag_sc"@, false),
                            input.bool_or("flag_sv"@, false),
                            input.bool_or("flag_traceroute"@, false),
                            input.bool_or("flag_a"@, false),
                            input.get("stealth_options"@),
                        ),
                    ),
                ),
            ),
            None => Err(missing_field("target"@)),
        }
    }

    fn name(&self) -> (name: &'static str)
        ensures
            name@ == self.spec_name(),
    {
        ADVANCED_NMAP_NAME
    }

    fn description(&self) -> (description: &'static str)
        ensures
            description@ == self.spec_description(),
    {
        ADVANCED_NMAP_DESCRIPTION
    }

    fn input_schema(&self) -> (schema: Json)
        ensures
            schema@ == self.spec_input_schema(),
    {
        make_closed_object(
            Json::object()
                .with(
                    "target",
                    make_property("string", "Target hostname or IP address to scan."),
                )
                .with(
                    "timing",
                    Json::object()
                        .with_str("type", "string")
                        .with_str(
                            "description",
                            "Nmap timing template: T0 (Paranoid), T1 (Sneaky), T2 (Polite), T3 (Normal), T4 (Aggressive), T5 (Insane). Default: T2",
                        )
                        .with(
                            "enum",
                            Json::array()
                                .item_str("T0")
                                .item_str("T1")
                                .item_str("T2")
                                .item_str("T3")
                                .item_str("T4")
                                .item_str("T5"),
                        ),
                )
                .with(
                    "scan_type",
                    Json::object()
                        .with_str("type", "string")
                        .with_str("description", "Type of scan to perform")
                        .with(
                            "enum",
                            Json::array()
                                .item_str("ping")
                                .item_str("tcp_syn")
                                .item_str("tcp_connect")
                                .item_str("udp")
                                .item_str("tcp_ack")
                                .item_str("tcp_fin")
                                .item_str("tcp_null")
                                .item_str("tcp_xmas"),
                        ),
                )
                .with(
                    "ports",
                    make_property(
                        "string",
                        "Port specification: '80,443', '1-1000', 'U:53,T:80-443', or 'all' for all ports",
                    ),
                )
                .with(
                    "service_detection",
                    make_property("boolean", "Enable service/version detection (-sV)"),
                )
                .with("os_detection", make_property("boolean", "Enable OS detection (-O)"))
                .with(
                    "scripts",
                    make_property(
                        "string",
                        "Script names or categories: 'vuln', 'default', 'auth,discovery', or specific script names",
                    ),
                )
                .with(
                    "output_format",
                    Json::object()
                        .with_str("type", "string")
                        .with_str("description", "Output format for results")
                        .with(
                            "enum",
                            Json::array()
                                .item_str("normal")
                                .item_str("xml")
                                .item_str("json")
                                .item_str("greppable")
                                .item_str("all"),
                        ),
                )
                .with(
                    "aggressive",
                    make_property(
                        "boolean",
                        "Enable aggressive scan options (-A): service detection, OS detection, scripts, and traceroute",
                    ),
                )
                .with(
                    "traceroute",
                    make_property("boolean", "Enable traceroute (--traceroute)"),
                )
                .with("flag_o", make_property("boolean", "Enable OS detection (-O)"))
                .with("flag_sc", make_property("boolean", "Enable default scripts (-sC)"))
                .with("flag_sv", make_property("boolean", "Enable service detection (-sV)"))
                .with(
                    "flag_traceroute",
                    make_property("boolean", "Enable traceroute (--traceroute)"),
                )
                .with("flag_a", make_property("boolean", "Enable aggressive scan (-A)"))
                .with(
                    "stealth_options",
                    Json::object()
                        .with_str("type", "object")
                        .with_str("description", "Stealth and evasion options")
                        .with(
                            "properties",
                            Json::object()
                                .with(
                                    "decoys",
                                    Json::object()
                                        .with_str("type", "array")
                                        .with(
                                            "items",
                                            Json::object()
                                                .with_str("type", "string"),
                                        )
                                        .with_str(
                                            "description",
                                            "Decoy IPs (-D RND:10,ME,8.8.8.8)",
                                        ),
                                )
                                .with(
                                    "source_port",
                                    make_property(
                                        "integer",
                                        "Source port for packets (--source-port 53)",
                                    ),
                                )
                                .with(
                                    "interface",
                                    make_property(
                                        "string",
                                        "Network interface to use (-e eth0)",
                                    ),
                                )
                                .with(
                                    "ttl",
                                    make_property(
                                        "integer",
                                        "Time to live for packets (--ttl 64)",
                                    ),
                                )
                                .with(
                                    "randomize_hosts",
                                    make_property(
                                        "boolean",
                                        "Randomize target host order (--randomize-hosts)",
                                    ),
                                )
                                .with(
                                    "spoof_ip",
                                    make_property(
                                        "string",
                                        "Spoof source IP address (-S 192.168.1.1)",
                                    ),
                                )
                                .with(
                                    "spoof_mac",
                                    make_property("string", "Spoof MAC address (--spoof-mac 0)"),
                                ),
                        ),
                ),
            Json::array().item_str("target"),
        )
    }

    fn execute(&self, input: Json) -> (outcome: Result<Invocation, ToolError>)
        ensures
            outcome_view(outcome) == self.spec_execute(input@),
    {
        let target = match input.str_at("target") {
            Some(target) => target,
            None => {
                return Err(ToolError::missing_field("target"));
            },
        };
        let timing = input.str_at("timing");
        let scan_type = input.str_at("scan_type");
        let ports = input.str_at("ports");
        let service_detection = input.bool_or("service_detection", false);
        let os_detection = input.bool_or("os_detection", false);
        let scripts = input.str_at("scripts");
        let output_format = input.str_at("output_format");
        let aggressive = input.bool_or("aggressive", false);
        let traceroute = input.bool_or("traceroute", false);
        let flag_o = input.bool_or("flag_o", false);
        let flag_sc = input.bool_or("flag_sc", false);
        let flag_sv = input.bool_or("flag_sv", false);
        let flag_traceroute = input.bool_or("flag_traceroute", false);
        let flag_a = input.bool_or("flag_a", false);
        let stealth_options = input.get("stealth_options");
        Ok(
            Invocation::Backend(
                advanced_nmap_scan(
                    target,
                    timing,
                    scan_type,
                    ports,
                    service_detection,
                    os_detection,
                    scripts,
                    output_format,
                    aggressive,
                    traceroute,
                    flag_o,
                    flag_sc,
                    flag_sv,
                    flag_traceroute,
                    flag_a,
                    stealth_options,
                ),
            ),
        )
    }
}

/// The name under which the tool is called.
pub const QUICK_SCAN_NAME: &'static str = "quick_scan";

/// What the tool does, as it is listed.
pub const QUICK_SCAN_DESCRIPTION: &'static str =
    "Fast network reconnaissance with common scan patterns (ping sweep, port scan, service detection).";

/// The input that `quick_scan` takes.
pub open spec fn quick_scan_schema() -> JsonValue {
    closed_object(
        JsonValue::object()
            .with("target"@, property("string"@, "Target hostname, IP, or CIDR range."@))
            .with(
                "scan_type"@,
                JsonValue::object()
                    .with_str("type"@, "string"@)
                    .with_str("description"@, "Quick scan type"@)
                    .with(
                        "enum"@,
                        JsonValue::array()
                            .item_str("ping_sweep"@)
                            .item_str("common_ports"@)
                            .item_str("service_detection"@)
                            .item_str("vuln_scan"@),
                    )
                    .with_str("default"@, "common_ports"@),
            )
            .with(
                "timing"@,
                JsonValue::object()
                    .with_str("type"@, "string"@)
                    .with_str("description"@, "Speed: T3 (Normal) or T4 (Aggressive)"@)
                    .with("enum"@, JsonValue::array().item_str("T3"@).item_str("T4"@))
                    .with_str("default"@, "T4"@),
            ),
        JsonValue::array().item_str("target"@),
    )
}

/// Scans a target by one of a few presets for common cases.
#[derive(Debug, Clone, Copy, PartialEq, Eq)]
pub struct QuickScanTool;

impl Tool for QuickScanTool {
    open spec fn spec_name(&self) -> Seq<char> {
        QUICK_SCAN_NAME@
    }

    open spec fn spec_description(&self) -> Seq<char> {
        QUICK_SCAN_DESCRIPTION@
    }

    open spec fn spec_input_schema(&self) -> JsonValue {
        quick_scan_schema()
    }

    open spec fn spec_execute(&self, input: JsonValue) -> Result<InvocationView, Seq<char>> {
        match input.str_at("target"@) {
            Some(target) => Ok(
                InvocationView::Backend(
                    BackendRequestView::post(
                        SCAN_URL@,
                        quick_scan_body(
                            target,
                            input.str_or("scan_type"@, "common_ports"@),
                            input.str_or("timing"@, "T4"@),
                        ),
                    ),
                ),
            ),
            None => Err(missing_field("target"@)),
        }
    }

    fn name(&self) -> (name: &'static str)
        ensures
            name@ == self.spec_name(),
    {
        QUICK_SCAN_NAME
    }

    fn description(&self) -> (description: &'static str)
        ensures
            description@ == self.spec_description(),
    {
        QUICK_SCAN_DESCRIPTION
    }

    fn input_schema(&self) -> (schema: Json)
        ensures
            schema@ == self.spec_input_schema(),
    {
        make_closed_object(
            Json::object()
                .with("target", make_property("string", "Target hostname, IP, or CIDR range."))
                .with(
                    "scan_type",
                    Json::object()
                        .with_str("type", "string")
                        .with_str("description", "Quick scan type")
                        .with(
                            "enum",
                            Json::array()
                                .item_str("ping_sweep")
                                .item_str("common_ports")
                                .item_str("service_detection")
                                .item_str("vuln_scan"),
                        )
                        .with_str("default", "common_ports"),
                )
                .with(
                    "timing",
                    Json::object()
                        .with_str("type", "string")
                        .with_str("description", "Speed: T3 (Normal) or T4 (Aggressive)")
                        .with("enum", Json::array().item_str("T3").item_str("T4"))
                        .with_str("default", "T4"),
                ),
            Json::array().item_str("target"),
        )
    }

    fn execute(&self, input: Json) -> (outcome: Result<Invocation, ToolError>)
        ensures
            outcome_view(outcome) == self.spec_execute(input@),
    {
        let target = match input.str_at("target") {
            Some(target) => target,
            None => {
                return Err(ToolError::missing_field("target"));
            },
        };
        let scan_type = input.str_or("scan_type", "common_ports");
        let timing = input.str_or("timing", "T4");
        Ok(Invocation::Backend(quick_scan(target, scan_type, timing)))
    }
}

/// The name under which the tool is called.
pub const STEALTH_SCAN_NAME: &'static str = "stealth_scan";

/// What the tool does, as it is listed.
pub const STEALTH_SCAN_DESCRIPTION: &'static str =
    "Stealthy scans with evasion techniques (slow timing, decoys, fragmentation).";

/// The input that `stealth_scan` takes.
pub open spec fn stealth_scan_schema() -> JsonValue {
    closed_object(
        JsonValue::object()
            .with("target"@, property("string"@, "Target hostname or IP address."@))
            .with(
                "stealth_level"@,
                JsonValue::object()
                    .with_str("type"@, "string"@)
                    .with_str("description"@, "Stealth level"@)
                    .with(
                        "enum"@,
                        JsonValue::array()
                            .item_str("low"@)
                            .item_str("medium"@)
                            .item_str("high"@)
                            .item_str("maximum"@),
                    )
                    .with_str("default"@, "medium"@),
            )
            .with(
                "scan_type"@,
                JsonValue::object()
                    .with_str("type"@, "string"@)
                    .with_str("description"@, "Stealth scan type"@)
                    .with(
                        "enum"@,
                        JsonValue::array()
                            .item_str("tcp_fin"@)
                            .item_str("tcp_null"@)
                            .item_str("tcp_xmas"@)
                            .item_str("tcp_ack"@)
                            .item_str("tcp_syn"@),
                    )
                    .with_str("default"@, "tcp_syn"@),
            )
            .with(
                "use_decoys"@,
                JsonValue::object()
                    .with_str("type"@, "boolean"@)
                    .with_str("description"@, "Use decoy hosts"@)
                    .with_bool("default"@, true),
            )
            .with(
                "fragment_packets"@,
                JsonValue::object()
                    .with_str("type"@, "boolean"@)
                    .with_str("description"@, "Fragment packets to evade IDS"@)
                    .with_bool("default"@, false),
            ),
        JsonValue::array().item_str("target"@),
    )
}

/// Scans a target in ways that are hard to notice.
#[derive(Debug, Clone, Copy, PartialEq, Eq)]
pub struct StealthScanTool;

impl Tool for StealthScanTool {
    open spec fn spec_name(&self) -> Seq<char> {
        STEALTH_SCAN_NAME@
    }

    open spec fn spec_description(&self) -> Seq<char> {
        STEALTH_SCAN_DESCRIPTION@
    }

    open spec fn spec_input_schema(&self) -> JsonValue {
        stealth_scan_schema()
    }

    open spec fn spec_execute(&self, input: JsonValue) -> Result<InvocationView, Seq<char>> {
        match input.str_at("target"@) {
            Some(target) => Ok(
                InvocationView::Backend(
                    BackendRequestView::post(
                        SCAN_URL@,
                        stealth_scan_body(
                            target,
                            input.str_or("stealth_level"@, "medium"@),
                            input.str_or("scan_type"@, "tcp_syn"@),
                            input.bool_or("use_decoys"@, true),
                            input.bool_or("fragment_packets"@, false),
                        ),
                    ),
                ),
            ),
            None => Err(missing_field("target"@)),
        }
    }

    fn name(&self) -> (name: &'static str)
        ensures
            name@ == self.spec_name(),
    {
        STEALTH_SCAN_NAME
    }

    fn description(&self) -> (description: &'static str)
        ensures
            description@ == self.spec_description(),
    {
        STEALTH_SCAN_DESCRIPTION
    }

    fn input_schema(&self) -> (schema: Json)
        ensures
            schema@ == self.spec_input_schema(),
    {
        make_closed_object(
            Json::object()
                .with("target", make_property("string", "Target hostname or IP address."))
                .with(
                    "stealth_level",
                    Json::object()
                        .with_str("type", "string")
                        .with_str("description", "Stealth level")
                        .with(
                            "enum",
                            Json::array()
                                .item_str("low")
                                .item_str("medium")
                                .item_str("high")
                                .item_str("maximum"),
                        )
                        .with_str("default", "medium"),
                )
                .with(
                    "scan_type",
                    Json::object()
                        .with_str("type", "string")
                        .with_str("description", "Stealth scan type")
                        .with(
                            "enum",
                            Json::array()
                                .item_str("tcp_fin")
                                .item_str("tcp_null")
                                .item_str("tcp_xmas")
                                .item_str("tcp_ack")
                                .item_str("tcp_syn"),
                        )
                        .with_str("default", "tcp_syn"),
                )
                .with(
                    "use_decoys",
                    Json::object()
                        .with_str("type", "boolean")
                        .with_str("description", "Use decoy hosts")
                        .with_bool("default", true),
                )
                .with(
                    "fragment_packets",
                    Json::object()
                        .with_str("type", "boolean")
                        .with_str("description", "Fragment packets to evade IDS")
                        .with_bool("default", false),
                ),
            Json::array().item_str("target"),
        )
    }

    fn execute(&self, input: Json) -> (outcome: Result<Invocation, ToolError>)
        ensures
            outcome_view(outcome) == self.spec_execute(input@),
    {
        let target = match input.str_at("target") {
            Some(target) => target,
            None => {
                return Err(ToolError::missing_field("target"));
            },
        };
        let stealth_level = input.str_or("stealth_level", "medium");
        let scan_type = input.str_or("scan_type", "tcp_syn");
        let use_decoys = input.bool_or("use_decoys", true);
        let fragment_packets = input.bool_or("fragment_packets", false);
        Ok(
            Invocation::Backend(
                stealth_scan(target, stealth_level, scan_type, use_decoys, fragment_packets),
            ),
        )
    }
}

/// The name under which the tool is called.
pub const COMPREHENSIVE_SCAN_NAME: &'static str = "comprehensive_scan";

/// What the tool does, as it is listed.
pub const COMPREHENSIVE_SCAN_DESCRIPTION: &'static str =
    "Full comprehensive scan: all 65535 ports with service detection, OS detection, and scripts. Use for thorough security assessment.";

/// The input that `comprehensive_scan` takes.
pub open spec fn comprehensive_scan_schema() -> JsonValue {
    closed_object(
        JsonValue::object()
            .with("target"@, property("string"@, "Target hostname or IP address to scan."@))
            .with(
                "include_vuln"@,
                JsonValue::object()
                    .with_str("type"@, "boolean"@)
                    .with_str(
                        "description"@,
                        "Include vulnerability scripts (vuln category). Default: false"@,
                    )
                    .with_bool("default"@, false),
            ),
        JsonValue::array().item_str("target"@),
    )
}

/// Scans every port of a target, with service and operating system
/// detection and scripts.
#[derive(Debug, Clone, Copy, PartialEq, Eq)]
pub struct ComprehensiveScanTool;

impl Tool for ComprehensiveScanTool {
    open spec fn spec_name(&self) -> Seq<char> {
        COMPREHENSIVE_SCAN_NAME@
    }

    open spec fn spec_description(&self) -> Seq<char> {
        COMPREHENSIVE_SCAN_DESCRIPTION@
    }

    open spec fn spec_input_schema(&self) -> JsonValue {
        comprehensive_scan_schema()
    }

    open spec fn spec_execute(&self, input: JsonValue) -> Result<InvocationView, Seq<char>> {
        match input.str_at("target"@) {
            Some(target) => Ok(
                InvocationView::Backend(
                    BackendRequestView::post(
                        SCAN_URL@,
                        comprehensive_scan_body(target, input.bool_or("include_vuln"@, false)),
                    ),
                ),
            ),
            None => Err(missing_field("target"@)),
        }
    }

    fn name(&self) -> (name: &'static str)
        ensures
            name@ == self.spec_name(),
    {
        COMPREHENSIVE_SCAN_NAME
    }

    fn description(&self) -> (description: &'static str)
        ensures
            description@ == self.spec_description(),
    {
        COMPREHENSIVE_SCAN_DESCRIPTION
    }

    fn input_schema(&self) -> (schema: Json)
        ensures
            schema@ == self.spec_input_schema(),
    {
        make_closed_object(
            Json::object()
                .with(
                    "target",
                    make_property("string", "Target hostname or IP address to scan."),
                )
                .with(
                    "include_vuln",
                    Json::object()
                        .with_str("type", "boolean")
                        .with_str(
                            "description",
                            "Include vulnerability scripts (vuln category). Default: false",
                        )
                        .with_bool("default", false),
                ),
            Json::array().item_str("target"),
        )
    }

    fn execute(&self, input: Json) -> (outcome: Result<Invocation, ToolError>)
        ensures
            outcome_view(outcome) == self.spec_execute(input@),
    {
        let target = match input.str_at("target") {
            Some(target) => target,
            None => {
                return Err(ToolError::missing_field("target"));
            },
        };
        let include_vuln = input.bool_or("include_vuln", false);
        Ok(Invocation::Backend(comprehensive_scan(target, include_vuln)))
    }
}

/// The name under which the tool is called.
pub const NETWORK_DISCOVERY_NAME: &'static str = "network_discovery";

/// What the tool does, as it is listed.
pub const NETWORK_DISCOVERY_DESCRIPTION: &'static str =
    "Network discovery scan for subnet enumeration. Finds live hosts and checks common ports (22, 80, 443, 3389, 8080).";

/// The input that `network_discovery` takes.
pub open spec fn network_discovery_schema() -> JsonValue {
    closed_object(
        JsonValue::object()
            .with(
                "subnet"@,
                property(
                    "string"@,
                    "Target subnet in CIDR notation (e.g., '192.168.1.0/24') or IP range."@,
                ),
            )
            .with(
                "timing"@,
                JsonValue::object()
                    .with_str("type"@, "string"@)
                    .with_str(
                        "description"@,
                        "Timing template: T3 (Normal) or T4 (Aggressive). Default: T4"@,
                    )
                    .with("enum"@, JsonValue::array().item_str("T3"@).item_str("T4"@))
                    .with_str("default"@, "T4"@),
            ),
        JsonValue::array().item_str("subnet"@),
    )
}

/// Looks for the live hosts of a subnet.
#[derive(Debug, Clone, Copy, PartialEq, Eq)]
pub struct NetworkDiscoveryTool;

impl Tool for NetworkDiscoveryTool {
    open spec fn spec_name(&self) -> Seq<char> {
        NETWORK_DISCOVERY_NAME@
    }

    open spec fn spec_description(&self) -> Seq<char> {
        NETWORK_DISCOVERY_DESCRIPTION@
    }

    open spec fn spec_input_schema(&self) -> JsonValue {
        network_discovery_schema()
    }

    open spec fn spec_execute(&self, input: JsonValue) -> Result<InvocationView, Seq<char>> {
        match input.str_at("subnet"@) {
            Some(subnet) => Ok(
                InvocationView::Backend(
                    BackendRequestView::post(
                        SCAN_URL@,
                        network_discovery_body(subnet, input.str_or("timing"@, "T4"@)),
                    ),
                ),
            ),
            None => Err(missing_field("subnet"@)),
        }
    }

    fn name(&self) -> (name: &'static str)
        ensures
            name@ == self.spec_name(),
    {
        NETWORK_DISCOVERY_NAME
    }

    fn description(&self) -> (description: &'static str)
        ensures
            description@ == self.spec_description(),
    {
        NETWORK_DISCOVERY_DESCRIPTION
    }

    fn input_schema(&self) -> (schema: Json)
        ensures
            schema@ == self.spec_input_schema(),
    {
        make_closed_object(
            Json::object()
                .with(
                    "subnet",
                    make_property(
                        "string",
                        "Target subnet in CIDR notation (e.g., '192.168.1.0/24') or IP range.",
                    ),
                )
                .with(
                    "timing",
                    Json::object()
                        .with_str("type", "string")
                        .with_str(
                            "description",
                            "Timing template: T3 (Normal) or T4 (Aggressive). Default: T4",
                        )
                        .with("enum", Json::array().item_str("T3").item_str("T4"))
                        .with_str("default", "T4"),
                ),
            Json::array().item_str("subnet"),
        )
    }

    fn execute(&self, input: Json) -> (outcome: Result<Invocation, ToolError>)
        ensures
            outcome_view(outcome) == self.spec_execute(input@),
    {
        let subnet = match input.str_at("subnet") {
            Some(subnet) => subnet,
            None => {
                return Err(ToolError::missing_field("subnet"));
            },
        };
        let timing = input.str_or("timing", "T4");
        Ok(Invocation::Backend(network_discovery(subnet, timing)))
    }
}

} // verus!
