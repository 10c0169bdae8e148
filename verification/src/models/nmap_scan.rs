//! Scan options and the command line they compile to.
//!
//! A request names a target and any number of optional settings. Compiling it
//! gives the arguments of one scanner run as a list of tokens: the program,
//! then the flags of each setting in a fixed order, then the target. A flag
//! that takes a value is followed by that value as a token of its own. The
//! tokens are meant to be handed to the scanner as they are, never through a
//! shell.

use vstd::prelude::*;
use vstd::string::*;
use crate::text::{decimal, decimal_text, join, joined, lemma_texts_concat, texts};

verus! {

/// The name of the scanner program, the first token of every command.
pub const PROGRAM: &'static str = "nmap";

/// How fast the scanner works, from the slowest level to the fastest.
#[derive(Debug, Clone, Copy, PartialEq, Eq)]
pub enum TimingTemplate {
    /// Paranoid.
    T0,
    /// Sneaky.
    T1,
    /// Polite.
    T2,
    /// Normal.
    T3,
    /// Aggressive.
    T4,
    /// Insane.
    T5,
}

/// The probing technique; a request names at most one.
#[derive(Debug, Clone, Copy, PartialEq, Eq)]
pub enum ScanType {
    PingScan,
    TcpScan,
    TcpConnectScan,
    UdpScan,
    TcpSynScan,
    TcpAckScan,
    TcpWindowScan,
    TcpMaimonScan,
    TcpFinScan,
    TcpNullScan,
    TcpXmasScan,
}

/// Which ports are scanned.
#[derive(Debug, Clone)]
pub enum PortSpec {
    /// Every port.
    All,
    /// The given number of most common ports.
    TopPorts(u16),
    /// The listed ports.
    Specific(Vec<String>),
    /// A range such as `1-1000`.
    Range(String),
    /// The scanner's own choice: no flag.
    Common,
}

/// Detection of the services behind open ports.
#[derive(Debug, Clone)]
pub struct ServiceDetection {
    pub enabled: bool,
    /// How hard to probe, from 0 to 9.
    pub intensity: Option<u8>,
    pub all_ports: bool,
}

/// The scripts to run against the target.
#[derive(Debug, Clone)]
pub struct ScriptScan {
    /// Scripts by name.
    pub scripts: Vec<String>,
    /// Arguments handed to the scripts.
    pub args: Option<String>,
    /// Scripts by category.
    pub categories: Vec<ScriptCategory>,
}

/// A category of scripts.
#[derive(Debug, Clone, Copy, PartialEq, Eq)]
pub enum ScriptCategory {
    Auth,
    Default,
    Discovery,
    Dos,
    Exploit,
    External,
    Fuzzer,
    Intrusive,
    Malware,
    Safe,
    Version,
    Vuln,
    Brute,
    Broadcast,
    Meterpreter,
    Sniffer,
}

/// The format of the scanner's report.
#[derive(Debug, Clone, Copy, PartialEq, Eq)]
pub enum OutputFormat {
    /// The scanner's own choice: no flag.
    Normal,
    Xml,
    Json,
    Greppable,
    All,
}

/// Settings that make a scan harder to notice or to trace.
#[derive(Debug, Clone)]
pub struct StealthOptions {
    pub decoys: Option<Vec<String>>,
    pub source_port: Option<u16>,
    pub interface: Option<String>,
    pub ttl: Option<u8>,
    pub randomize_hosts: bool,
    pub spoof_ip: Option<String>,
    pub spoof_mac: Option<String>,
}

/// One scan: the target and the settings chosen for it.
#[derive(Debug, Clone)]
pub struct NmapScanRequest {
    pub target: String,
    pub timing: Option<TimingTemplate>,
    pub scan_type: Option<ScanType>,
    pub port_specification: Option<PortSpec>,
    pub service_detection: Option<ServiceDetection>,
    pub os_detection: bool,
    pub script_scan: Option<ScriptScan>,
    pub output_format: Option<OutputFormat>,
    pub stealth_options: Option<StealthOptions>,
}

impl TimingTemplate {
    /// The flag of this level.
    pub open spec fn flag(self) -> Seq<char> {
        match self {
            TimingTemplate::T0 => "-T0"@,
            TimingTemplate::T1 => "-T1"@,
            TimingTemplate::T2 => "-T2"@,
            TimingTemplate::T3 => "-T3"@,
            TimingTemplate::T4 => "-T4"@,
            TimingTemplate::T5 => "-T5"@,
        }
    }

    /// The flag of this level, as text.
    pub fn flag_text(&self) -> (text: &'static str)
        ensures
            text@ == self.flag(),
    {
        match self {
            TimingTemplate::T0 => "-T0",
            TimingTemplate::T1 => "-T1",
            TimingTemplate::T2 => "-T2",
            TimingTemplate::T3 => "-T3",
            TimingTemplate::T4 => "-T4",
            TimingTemplate::T5 => "-T5",
        }
    }
}

impl ScanType {
    /// The flag of this technique. The plain TCP scan and the SYN scan share
    /// one flag.
    pub open spec fn flag(self) -> Seq<char> {
        match self {
            ScanType::PingScan => "-sn"@,
            ScanType::TcpScan => "-sS"@,
            ScanType::TcpConnectScan => "-sT"@,
            ScanType::UdpScan => "-sU"@,
            ScanType::TcpSynScan => "-sS"@,
            ScanType::TcpAckScan => "-sA"@,
            ScanType::TcpWindowScan => "-sW"@,
            ScanType::TcpMaimonScan => "-sM"@,
            ScanType::TcpFinScan => "-sF"@,
            ScanType::TcpNullScan => "-sN"@,
            ScanType::TcpXmasScan => "-sX"@,
        }
    }

    /// The flag of this technique, as text.
    pub fn flag_text(&self) -> (text: &'static str)
        ensures
            text@ == self.flag(),
    {
        match self {
            ScanType::PingScan => "-sn",
            ScanType::TcpScan => "-sS",
            ScanType::TcpConnectScan => "-sT",
            ScanType::UdpScan => "-sU",
            ScanType::TcpSynScan => "-sS",
            ScanType::TcpAckScan => "-sA",
            ScanType::TcpWindowScan => "-sW",
            ScanType::TcpMaimonScan => "-sM",
            ScanType::TcpFinScan => "-sF",
            ScanType::TcpNullScan => "-sN",
            ScanType::TcpXmasScan => "-sX",
        }
    }
}

impl ScriptCategory {
    /// The name under which the scanner knows this category.
    pub open spec fn name(self) -> Seq<char> {
        match self {
            ScriptCategory::Auth => "auth"@,
            ScriptCategory::Default => "default"@,
            ScriptCategory::Discovery => "discovery"@,
            ScriptCategory::Dos => "dos"@,
            ScriptCategory::Exploit => "exploit"@,
            ScriptCategory::External => "external"@,
            ScriptCategory::Fuzzer => "fuzzer"@,
            ScriptCategory::Intrusive => "intrusive"@,
            ScriptCategory::Malware => "malware"@,
            ScriptCategory::Safe => "safe"@,
            ScriptCategory::Version => "version"@,
            ScriptCategory::Vuln => "vuln"@,
            ScriptCategory::Brute => "brute"@,
            ScriptCategory::Broadcast => "broadcast"@,
            ScriptCategory::Meterpreter => "meterpreter"@,
            ScriptCategory::Sniffer => "sniffer"@,
        }
    }

    /// The name of this category, as text.
    pub fn name_text(&self) -> (text: &'static str)
        ensures
            text@ == self.name(),
    {
        match self {
            ScriptCategory::Auth => "auth",
            ScriptCategory::Default => "default",
            ScriptCategory::Discovery => "discovery",
            ScriptCategory::Dos => "dos",
            ScriptCategory::Exploit => "exploit",
            ScriptCategory::External => "external",
            ScriptCategory::Fuzzer => "fuzzer",
            ScriptCategory::Intrusive => "intrusive",
            ScriptCategory::Malware => "malware",
            ScriptCategory::Safe => "safe",
            ScriptCategory::Version => "version",
            ScriptCategory::Vuln => "vuln",
            ScriptCategory::Brute => "brute",
            ScriptCategory::Broadcast => "broadcast",
            ScriptCategory::Meterpreter => "meterpreter",
            ScriptCategory::Sniffer => "sniffer",
        }
    }
}

/// The names of a list of categories, in order.
pub open spec fn category_names(categories: Seq<ScriptCategory>) -> Seq<Seq<char>> {
    Seq::new(categories.len(), |i: int| categories[i].name())
}

/// A flag followed by its value.
pub open spec fn flag_with(flag: Seq<char>, value: Seq<char>) -> Seq<Seq<char>> {
    seq![flag, value]
}

/// What the timing level contributes.
pub open spec fn timing_tokens(timing: Option<TimingTemplate>) -> Seq<Seq<char>> {
    match timing {
        Some(level) => seq![level.flag()],
        None => Seq::empty(),
    }
}

/// What the technique contributes.
pub open spec fn scan_type_tokens(scan_type: Option<ScanType>) -> Seq<Seq<char>> {
    match scan_type {
        Some(technique) => seq![technique.flag()],
        None => Seq::empty(),
    }
}

/// What the choice of ports contributes.
pub open spec fn port_tokens(ports: Option<PortSpec>) -> Seq<Seq<char>> {
    match ports {
        Some(PortSpec::All) => seq!["-p-"@],
        Some(PortSpec::TopPorts(n)) => flag_with("--top-ports"@, decimal(n as nat)),
        Some(PortSpec::Specific(list)) => flag_with("-p"@, joined(texts(list@), ","@)),
        Some(PortSpec::Range(range)) => flag_with("-p"@, range@),
        Some(PortSpec::Common) => Seq::empty(),
        None => Seq::empty(),
    }
}

/// What the intensity of service detection contributes.
pub open spec fn intensity_tokens(intensity: Option<u8>) -> Seq<Seq<char>> {
    match intensity {
        Some(level) => flag_with("--version-intensity"@, decimal(level as nat)),
        None => Seq::empty(),
    }
}

/// What a flag without a value contributes when it is switched on.
pub open spec fn switch_tokens(on: bool, flag: Seq<char>) -> Seq<Seq<char>> {
    if on {
        seq![flag]
    } else {
        Seq::empty()
    }
}

/// What service detection contributes: nothing unless it is enabled.
pub open spec fn service_tokens(detection: Option<ServiceDetection>) -> Seq<Seq<char>> {
    match detection {
        Some(d) => if d.enabled {
            seq!["-sV"@] + intensity_tokens(d.intensity) + switch_tokens(d.all_ports, "--all-ports"@)
        } else {
            Seq::empty()
        },
        None => Seq::empty(),
    }
}

/// What a list-valued option contributes: nothing when the list is empty,
/// else the flag and the items joined by commas.
pub open spec fn list_tokens(flag: Seq<char>, items: Seq<Seq<char>>) -> Seq<Seq<char>> {
    if items.len() == 0 {
        Seq::empty()
    } else {
        flag_with(flag, joined(items, ","@))
    }
}

/// What an optional text contributes: the flag and the text, or nothing.
pub open spec fn text_tokens(flag: Seq<char>, value: Option<String>) -> Seq<Seq<char>> {
    match value {
        Some(text) => flag_with(flag, text@),
        None => Seq::empty(),
    }
}

/// What the scripts contribute: the named scripts, then the categories, each
/// under a flag of its own, then the arguments. Where neither a script nor
/// a category is named there is nothing to run, and nothing is contributed,
/// whatever the arguments.
pub open spec fn script_tokens(scripts: Option<ScriptScan>) -> Seq<Seq<char>> {
    match scripts {
        Some(s) => if s.scripts@.len() == 0 && s.categories@.len() == 0 {
            Seq::empty()
        } else {
            list_tokens("--script"@, texts(s.scripts@)) + list_tokens(
                "--script"@,
                category_names(s.categories@),
            ) + text_tokens("--script-args"@, s.args)
        },
        None => Seq::empty(),
    }
}

/// What the report format contributes.
pub open spec fn output_tokens(format: Option<OutputFormat>) -> Seq<Seq<char>> {
    match format {
        Some(OutputFormat::Xml) => seq!["-oX"@],
        Some(OutputFormat::Json) => seq!["-oJ"@],
        Some(OutputFormat::Greppable) => seq!["-oG"@],
        Some(OutputFormat::All) => seq!["-oA"@],
        Some(OutputFormat::Normal) => Seq::empty(),
        None => Seq::empty(),
    }
}

/// What the decoys contribute.
pub open spec fn decoy_tokens(decoys: Option<Vec<String>>) -> Seq<Seq<char>> {
    match decoys {
        Some(hosts) => list_tokens("-D"@, texts(hosts@)),
        None => Seq::empty(),
    }
}

/// What an optional port number contributes.
pub open spec fn port_number_tokens(flag: Seq<char>, port: Option<u16>) -> Seq<Seq<char>> {
    match port {
        Some(n) => flag_with(flag, decimal(n as nat)),
        None => Seq::empty(),
    }
}

/// What an optional hop limit contributes.
pub open spec fn ttl_tokens(ttl: Option<u8>) -> Seq<Seq<char>> {
    match ttl {
        Some(n) => flag_with("--ttl"@, decimal(n as nat)),
        None => Seq::empty(),
    }
}

/// What the stealth settings contribute, in their fixed order.
pub open spec fn stealth_tokens(stealth: Option<StealthOptions>) -> Seq<Seq<char>> {
    match stealth {
        Some(s) => decoy_tokens(s.decoys) + port_number_tokens("--source-port"@, s.source_port)
            + text_tokens("-e"@, s.interface) + ttl_tokens(s.ttl) + switch_tokens(
            s.randomize_hosts,
            "--randomize-hosts"@,
        ) + text_tokens("-S"@, s.spoof_ip) + text_tokens("--spoof-mac"@, s.spoof_mac),
        None => Seq::empty(),
    }
}

/// No tokens.
fn no_args() -> (args: Vec<String>)
    ensures
        texts(args@) == Seq::<Seq<char>>::empty(),
{
    let args: Vec<String> = Vec::new();
    assert(texts(args@) =~= Seq::<Seq<char>>::empty());
    args
}

/// A single token.
fn one_arg(token: &str) -> (args: Vec<String>)
    ensures
        texts(args@) == seq![token@],
{
    let mut args: Vec<String> = Vec::new();
    args.push(token.to_owned());
    assert(texts(args@) =~= seq![token@]);
    args
}

/// A flag and its value.
fn flag_args(flag: &str, value: String) -> (args: Vec<String>)
    ensures
        texts(args@) == flag_with(flag@, value@),
{
    let mut args: Vec<String> = Vec::new();
    args.push(flag.to_owned());
    args.push(value);
    assert(texts(args@) =~= flag_with(flag@, value@));
    args
}

/// Moves `args` to the end of `command`.
fn append_args(command: &mut Vec<String>, args: Vec<String>)
    ensures
        texts(final(command)@) == texts(old(command)@) + texts(args@),
{
    let mut args = args;
    proof {
        lemma_texts_concat(command@, args@);
    }
    command.append(&mut args);
}

/// A flag without a value, where it is switched on.
fn switch_args(on: bool, flag: &str) -> (args: Vec<String>)
    ensures
        texts(args@) == switch_tokens(on, flag@),
{
    if on {
        one_arg(flag)
    } else {
        no_args()
    }
}

/// A flag and a list joined by commas, where the list has items.
fn list_args(flag: &str, items: &Vec<String>) -> (args: Vec<String>)
    ensures
        texts(args@) == list_tokens(flag@, texts(items@)),
{
    if items.len() == 0 {
        no_args()
    } else {
        flag_args(flag, join(items, ","))
    }
}

/// A flag and a text, where the text is given.
fn text_args(flag: &str, value: &Option<String>) -> (args: Vec<String>)
    ensures
        texts(args@) == text_tokens(flag@, *value),
{
    match value {
        Some(text) => flag_args(flag, text.clone()),
        None => no_args(),
    }
}

/// The tokens of the timing level.
fn timing_args(timing: &Option<TimingTemplate>) -> (args: Vec<String>)
    ensures
        texts(args@) == timing_tokens(*timing),
{
    match timing {
        Some(level) => one_arg(level.flag_text()),
        None => no_args(),
    }
}

/// The tokens of the technique.
fn scan_type_args(scan_type: &Option<ScanType>) -> (args: Vec<String>)
    ensures
        texts(args@) == scan_type_tokens(*scan_type),
{
    match scan_type {
        Some(technique) => one_arg(technique.flag_text()),
        None => no_args(),
    }
}

/// The tokens of the choice of ports.
fn port_args(ports: &Option<PortSpec>) -> (args: Vec<String>)
    ensures
        texts(args@) == port_tokens(*ports),
{
    match ports {
        Some(PortSpec::All) => one_arg("-p-"),
        Some(PortSpec::TopPorts(n)) => flag_args("--top-ports", decimal_text(*n as u64)),
        Some(PortSpec::Specific(list)) => flag_args("-p", join(list, ",")),
        Some(PortSpec::Range(range)) => flag_args("-p", range.clone()),
        Some(PortSpec::Common) => no_args(),
        None => no_args(),
    }
}

/// The tokens of service detection.
fn service_args(detection: &Option<ServiceDetection>) -> (args: Vec<String>)
    ensures
        texts(args@) == service_tokens(*detection),
{
    match detection {
        Some(d) => {
            if d.enabled {
                let mut args = one_arg("-sV");
                let intensity = match d.intensity {
                    Some(level) => flag_args("--version-intensity", decimal_text(level as u64)),
                    None => no_args(),
                };
                append_args(&mut args, intensity);
                append_args(&mut args, switch_args(d.all_ports, "--all-ports"));
                args
            } else {
                no_args()
            }
        },
        None => no_args(),
    }
}

/// The names of the categories, as texts.
fn category_texts(categories: &Vec<ScriptCategory>) -> (names: Vec<String>)
    ensures
        texts(names@) == category_names(categories@),
{
    let mut names: Vec<String> = Vec::new();
    let mut i: usize = 0;
    while i < categories.len()
        invariant
            i <= categories.len(),
            names@.len() == i,
            forall|k: int| 0 <= k < i ==> names@[k]@ == categories@[k].name(),
        decreases categories.len() - i,
    {
        names.push(categories[i].name_text().to_owned());
        i += 1;
    }
    assert(texts(names@) =~= category_names(categories@));
    names
}

/// The tokens of the scripts.
fn script_args(scripts: &Option<ScriptScan>) -> (args: Vec<String>)
    ensures
        texts(args@) == script_tokens(*scripts),
{
    match scripts {
        Some(s) => {
            if s.scripts.len() == 0 && s.categories.len() == 0 {
                no_args()
            } else {
                let mut args = list_args("--script", &s.scripts);
                let names = category_texts(&s.categories);
                append_args(&mut args, list_args("--script", &names));
                append_args(&mut args, text_args("--script-args", &s.args));
                args
            }
        },
        None => no_args(),
    }
}

/// The tokens of the report format.
fn output_args(format: &Option<OutputFormat>) -> (args: Vec<String>)
    ensures
        texts(args@) == output_tokens(*format),
{
    match format {
        Some(OutputFormat::Xml) => one_arg("-oX"),
        Some(OutputFormat::Json) => one_arg("-oJ"),
        Some(OutputFormat::Greppable) => one_arg("-oG"),
        Some(OutputFormat::All) => one_arg("-oA"),
        Some(OutputFormat::Normal) => no_args(),
        None => no_args(),
    }
}

/// The tokens of the stealth settings.
fn stealth_args(stealth: &Option<StealthOptions>) -> (args: Vec<String>)
    ensures
        texts(args@) == stealth_tokens(*stealth),
{
    match stealth {
        Some(s) => {
            let mut args = match &s.decoys {
                Some(hosts) => list_args("-D", hosts),
                None => no_args(),
            };
            let source_port = match s.source_port {
                Some(n) => flag_args("--source-port", decimal_text(n as u64)),
                None => no_args(),
            };
            append_args(&mut args, source_port);
            append_args(&mut args, text_args("-e", &s.interface));
            let ttl = match s.ttl {
                Some(n) => flag_args("--ttl", decimal_text(n as u64)),
                None => no_args(),
            };
            append_args(&mut args, ttl);
            append_args(&mut args, switch_args(s.randomize_hosts, "--randomize-hosts"));
            append_args(&mut args, text_args("-S", &s.spoof_ip));
            append_args(&mut args, text_args("--spoof-mac", &s.spoof_mac));
            args
        },
        None => no_args(),
    }
}

impl NmapScanRequest {
    /// The flags of this request, between the program and the target.
    pub open spec fn flags(self) -> Seq<Seq<char>> {
        timing_tokens(self.timing) + scan_type_tokens(self.scan_type) + port_tokens(
            self.port_specification,
        ) + service_tokens(self.service_detection) + switch_tokens(self.os_detection, "-O"@)
            + script_tokens(self.script_scan) + output_tokens(self.output_format) + stealth_tokens(
            self.stealth_options,
        )
    }

    /// The command of this request: the program, the flags, the target.
    pub open spec fn command(self) -> Seq<Seq<char>> {
        seq![PROGRAM@] + self.flags() + seq![self.target@]
    }

    /// Compiles this request into the tokens of one scanner run.
    ///
    /// The first token is the program and the last is the target, whatever
    /// the settings; between them stand the flags of the settings that are
    /// present, in the order timing, technique, ports, service detection,
    /// operating system detection, scripts, report format, stealth.
    pub fn build_command(&self) -> (command: Vec<String>)
        ensures
            texts(command@) == self.command(),
    {
        let mut flags = timing_args(&self.timing);
        append_args(&mut flags, scan_type_args(&self.scan_type));
        append_args(&mut flags, port_args(&self.port_specification));
        append_args(&mut flags, service_args(&self.service_detection));
        append_args(&mut flags, switch_args(self.os_detection, "-O"));
        append_args(&mut flags, script_args(&self.script_scan));
        append_args(&mut flags, output_args(&self.output_format));
        append_args(&mut flags, stealth_args(&self.stealth_options));
        let mut command = one_arg(PROGRAM);
        append_args(&mut command, flags);
        append_args(&mut command, one_arg(self.target.as_str()));
        command
    }
}

/// A request that sets nothing but its target compiles to exactly two
/// tokens: the program and the target.
pub proof fn lemma_bare_request_is_program_and_target(request: NmapScanRequest)
    requires
        request.timing is None,
        request.scan_type is None,
        request.port_specification is None,
        request.service_detection is None,
        !request.os_detection,
        request.script_scan is None,
        request.output_format is None,
        request.stealth_options is None,
    ensures
        request.command() == seq![PROGRAM@, request.target@],
{
    assert(request.flags() =~= Seq::<Seq<char>>::empty());
    assert(request.command() =~= seq![PROGRAM@, request.target@]);
}

/// Every command starts with the program and ends with the target.
pub proof fn lemma_command_starts_with_program_ends_with_target(request: NmapScanRequest)
    ensures
        request.command().len() >= 2,
        request.command().first() == PROGRAM@,
        request.command().last() == request.target@,
{
}

/// Scripts with neither a name nor a category emit no token at all: no
/// script flag, and no flag for their arguments either, whether they have
/// arguments or not.
pub proof fn lemma_no_scripts_no_script_flag(scripts: ScriptScan)
    requires
        scripts.scripts@.len() == 0,
        scripts.categories@.len() == 0,
    ensures
        script_tokens(Some(scripts)) == Seq::<Seq<char>>::empty(),
{
}

/// A request whose scripts name neither a script nor a category compiles
/// to the command of the same request without scripts.
pub proof fn lemma_empty_scripts_compile_as_none(request: NmapScanRequest, scripts: ScriptScan)
    requires
        request.script_scan == Some(scripts),
        scripts.scripts@.len() == 0,
        scripts.categories@.len() == 0,
    ensures
        request.command() == (NmapScanRequest { script_scan: None, ..request }).command(),
{
}

/// Named scripts and categories are not merged: the names come first under
/// a flag of their own, then the categories under a second one.
pub proof fn lemma_names_before_categories(scripts: ScriptScan)
    requires
        scripts.scripts@.len() > 0,
        scripts.categories@.len() > 0,
    ensures
        script_tokens(Some(scripts)) == seq![
            "--script"@,
            joined(texts(scripts.scripts@), ","@),
            "--script"@,
            joined(category_names(scripts.categories@), ","@),
        ] + text_tokens("--script-args"@, scripts.args),
{
    assert(texts(scripts.scripts@).len() > 0);
    assert(category_names(scripts.categories@).len() > 0);
    assert(script_tokens(Some(scripts)) =~= seq![
        "--script"@,
        joined(texts(scripts.scripts@), ","@),
        "--script"@,
        joined(category_names(scripts.categories@), ","@),
    ] + text_tokens("--script-args"@, scripts.args));
}

/// An empty list of decoys emits no decoy flag.
pub proof fn lemma_no_decoys_no_decoy_flag(hosts: Vec<String>)
    requires
        hosts@.len() == 0,
    ensures
        decoy_tokens(Some(hosts)) == Seq::<Seq<char>>::empty(),
{
    assert(texts(hosts@).len() == 0);
}

} // verus!
