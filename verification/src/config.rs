//! Configuration records for the client and the agent, with their
//! documented defaults. Paths are carried as plain strings; reading and
//! writing config files happens outside the library.

use vstd::prelude::*;
use vstd::string::StringExecFns;
use vstd::string::StrSliceExecFns;

verus! {

/// How the client connects to the agent.
#[derive(Debug, Clone, Copy, PartialEq, Eq, Structural)]
pub enum AgentMode {
    /// Connect to a remote host over the network.
    Remote,
    /// Use a local VM.
    LocalVm,
}

impl Default for AgentMode {
    fn default() -> (r: Self)
        ensures
            r == AgentMode::LocalVm,
    {
        AgentMode::LocalVm
    }
}

pub fn default_remote_host() -> (r: String)
    ensures
        r@ == "localhost"@,
{
    String::from_str("localhost")
}

pub fn default_agent_port() -> (r: u16)
    ensures
        r == 8080,
{
    8080
}

pub fn default_timeout() -> (r: u64)
    ensures
        r == 30,
{
    30
}

pub fn default_qemu_path() -> (r: String)
    ensures
        r@ == "/usr/bin/qemu-system-x86_64"@,
{
    String::from_str("/usr/bin/qemu-system-x86_64")
}

pub fn default_ovmf_path() -> (r: String)
    ensures
        r@ == "/usr/share/OVMF/OVMF_CODE.fd"@,
{
    String::from_str("/usr/share/OVMF/OVMF_CODE.fd")
}

pub fn default_memory() -> (r: String)
    ensures
        r@ == "8G"@,
{
    String::from_str("8G")
}

pub fn default_cpus() -> (r: u32)
    ensures
        r == 4,
{
    4
}

pub fn default_vnc_port() -> (r: u16)
    ensures
        r == 5900,
{
    5900
}

pub fn default_ssh_port() -> (r: u16)
    ensures
        r == 2222,
{
    2222
}

pub fn default_boot_timeout() -> (r: u64)
    ensures
        r == 180,
{
    180
}

pub fn default_novnc_path() -> (r: String)
    ensures
        r@ == "/opt/novnc"@,
{
    String::from_str("/opt/novnc")
}

pub fn default_websockify_port() -> (r: u16)
    ensures
        r == 6080,
{
    6080
}

pub fn default_true() -> (r: bool)
    ensures
        r == true,
{
    true
}

pub fn default_exclude_patterns() -> (r: Vec<String>)
    ensures
        r@.len() == 8,
        r@[0]@ == ".git"@,
        r@[1]@ == "build"@,
        r@[2]@ == "DerivedData"@,
        r@[3]@ == "*.xcuserstate"@,
        r@[4]@ == "Pods"@,
        r@[5]@ == ".build"@,
        r@[6]@ == "*.o"@,
        r@[7]@ == "*.a"@,
{
    let mut v: Vec<String> = Vec::new();
    v.push(String::from_str(".git"));
    v.push(String::from_str("build"));
    v.push(String::from_str("DerivedData"));
    v.push(String::from_str("*.xcuserstate"));
    v.push(String::from_str("Pods"));
    v.push(String::from_str(".build"));
    v.push(String::from_str("*.o"));
    v.push(String::from_str("*.a"));
    v
}

pub fn default_device() -> (r: String)
    ensures
        r@ == "iPhone 15 Pro"@,
{
    String::from_str("iPhone 15 Pro")
}

pub fn default_bind_host() -> (r: String)
    ensures
        r@ == "0.0.0.0"@,
{
    String::from_str("0.0.0.0")
}

pub fn default_projects_dir() -> (r: String)
    ensures
        r@ == "/var/xcode-agent/projects"@,
{
    String::from_str("/var/xcode-agent/projects")
}

pub fn default_logs_dir() -> (r: String)
    ensures
        r@ == "/var/xcode-agent/logs"@,
{
    String::from_str("/var/xcode-agent/logs")
}

pub fn default_max_projects() -> (r: usize)
    ensures
        r == 10,
{
    10
}

pub fn default_cleanup_hours() -> (r: u32)
    ensures
        r == 24,
{
    24
}

pub fn default_idle_shutdown() -> (r: u32)
    ensures
        r == 30,
{
    30
}

/// Agent connection configuration.
#[derive(Debug, Clone)]
pub struct AgentConfig {
    /// Connection mode.
    pub mode: AgentMode,
    /// Remote host (when mode = remote).
    pub remote_host: String,
    /// Remote port (when mode = remote).
    pub remote_port: u16,
    /// Connection timeout in seconds.
    pub timeout_secs: u64,
}

impl Default for AgentConfig {
    fn default() -> (r: Self)
        ensures
            r.mode == AgentMode::LocalVm,
            r.remote_host@ == "localhost"@,
            r.remote_port == 8080,
            r.timeout_secs == 30,
    {
        AgentConfig {
            mode: AgentMode::LocalVm,
            remote_host: default_remote_host(),
            remote_port: default_agent_port(),
            timeout_secs: default_timeout(),
        }
    }
}

/// VM configuration for the local-VM mode.
#[derive(Debug, Clone)]
pub struct VmConfig {
    /// Path to the hypervisor binary.
    pub qemu_path: String,
    /// Path to the guest disk image.
    pub disk_image: String,
    /// Path to the UEFI firmware image.
    pub ovmf_code: String,
    /// Memory allocation (e.g., "8G").
    pub memory: String,
    /// Number of CPU cores.
    pub cpus: u32,
    /// VNC display port.
    pub vnc_port: u16,
    /// Host SSH port forwarding.
    pub ssh_port: u16,
    /// Host agent port forwarding.
    pub agent_port: u16,
    /// Wait timeout for the VM to boot, in seconds.
    pub boot_timeout_secs: u64,
}

impl Default for VmConfig {
    fn default() -> (r: Self)
        ensures
            r.qemu_path@ == "/usr/bin/qemu-system-x86_64"@,
            r.disk_image@ == ""@,
            r.ovmf_code@ == "/usr/share/OVMF/OVMF_CODE.fd"@,
            r.memory@ == "8G"@,
            r.cpus == 4,
            r.vnc_port == 5900,
            r.ssh_port == 2222,
            r.agent_port == 8080,
            r.boot_timeout_secs == 180,
    {
        proof {
            reveal_strlit("");
            assert(""@ =~= Seq::<char>::empty());
        }
        VmConfig {
            qemu_path: default_qemu_path(),
            disk_image: String::new(),
            ovmf_code: default_ovmf_path(),
            memory: default_memory(),
            cpus: default_cpus(),
            vnc_port: default_vnc_port(),
            ssh_port: default_ssh_port(),
            agent_port: default_agent_port(),
            boot_timeout_secs: default_boot_timeout(),
        }
    }
}

/// VNC / browser-proxy configuration.
#[derive(Debug, Clone)]
pub struct VncConfig {
    /// Path to the browser VNC client installation.
    pub novnc_path: String,
    /// Proxy port for the browser VNC client.
    pub websockify_port: u16,
    /// Auto-open the browser when starting VNC.
    pub auto_open_browser: bool,
}

impl Default for VncConfig {
    fn default() -> (r: Self)
        ensures
            r.novnc_path@ == "/opt/novnc"@,
            r.websockify_port == 6080,
            r.auto_open_browser == true,
    {
        VncConfig {
            novnc_path: default_novnc_path(),
            websockify_port: default_websockify_port(),
            auto_open_browser: true,
        }
    }
}

/// Project sync configuration.
#[derive(Debug, Clone)]
pub struct ProjectConfig {
    /// Default scheme to build, if not specified.
    pub default_scheme: Option<String>,
    /// Patterns to exclude from sync, in addition to ignore files.
    pub exclude_patterns: Vec<String>,
}

impl Default for ProjectConfig {
    fn default() -> (r: Self)
        ensures
            r.default_scheme is None,
            r.exclude_patterns@.len() == 8,
    {
        ProjectConfig { default_scheme: None, exclude_patterns: default_exclude_patterns() }
    }
}

/// Default simulator settings.
#[derive(Debug, Clone)]
pub struct SimulatorConfig {
    /// Preferred device name.
    pub preferred_device: String,
    /// Preferred runtime version.
    pub preferred_runtime: Option<String>,
}

impl Default for SimulatorConfig {
    fn default() -> (r: Self)
        ensures
            r.preferred_device@ == "iPhone 15 Pro"@,
            r.preferred_runtime is None,
    {
        SimulatorConfig { preferred_device: default_device(), preferred_runtime: None }
    }
}

/// Client configuration.
#[derive(Debug, Clone)]
pub struct CliConfig {
    /// Agent connection settings.
    pub agent: AgentConfig,
    /// VM settings (for local-VM mode).
    pub vm: VmConfig,
    /// VNC settings.
    pub vnc: VncConfig,
    /// Project sync settings.
    pub project: ProjectConfig,
    /// Default simulator settings.
    pub simulator: SimulatorConfig,
}

impl Default for CliConfig {
    fn default() -> (r: Self)
        ensures
            r.agent.mode == AgentMode::LocalVm,
            r.agent.remote_port == 8080,
            r.vm.agent_port == 8080,
            r.simulator.preferred_device@ == "iPhone 15 Pro"@,
    {
        CliConfig {
            agent: AgentConfig::default(),
            vm: VmConfig::default(),
            vnc: VncConfig::default(),
            project: ProjectConfig::default(),
            simulator: SimulatorConfig::default(),
        }
    }
}

/// Agent storage configuration.
#[derive(Debug, Clone)]
pub struct StorageConfig {
    /// Directory for synced projects.
    pub projects_dir: String,
    /// Directory for logs.
    pub logs_dir: String,
    /// Maximum number of cached projects.
    pub max_projects: usize,
    /// Clean up projects older than this many hours.
    pub cleanup_after_hours: u32,
}

impl Default for StorageConfig {
    fn default() -> (r: Self)
        ensures
            r.projects_dir@ == "/var/xcode-agent/projects"@,
            r.logs_dir@ == "/var/xcode-agent/logs"@,
            r.max_projects == 10,
            r.cleanup_after_hours == 24,
    {
        StorageConfig {
            projects_dir: default_projects_dir(),
            logs_dir: default_logs_dir(),
            max_projects: default_max_projects(),
            cleanup_after_hours: default_cleanup_hours(),
        }
    }
}

/// Toolchain configuration for the agent.
#[derive(Debug, Clone, Default)]
pub struct XcodeConfig {
    /// Path to the toolchain, auto-detected when absent.
    pub path: Option<String>,
    /// Custom build-output root.
    pub derived_data_path: Option<String>,
}

/// Simulator management configuration for the agent.
#[derive(Debug, Clone)]
pub struct AgentSimulatorConfig {
    /// Auto-boot a simulator when needed.
    pub auto_boot: bool,
    /// Shut a simulator down after this many idle minutes.
    pub shutdown_idle_after_minutes: u32,
}

impl Default for AgentSimulatorConfig {
    fn default() -> (r: Self)
        ensures
            r.auto_boot == true,
            r.shutdown_idle_after_minutes == 30,
    {
        AgentSimulatorConfig { auto_boot: true, shutdown_idle_after_minutes: default_idle_shutdown() }
    }
}

/// Agent server configuration.
#[derive(Debug, Clone)]
pub struct AgentServerConfig {
    /// Host to bind to.
    pub host: String,
    /// Server port.
    pub port: u16,
    /// Storage settings.
    pub storage: StorageConfig,
    /// Toolchain settings.
    pub xcode: XcodeConfig,
    /// Simulator settings.
    pub simulator: AgentSimulatorConfig,
}

impl Default for AgentServerConfig {
    fn default() -> (r: Self)
        ensures
            r.host@ == "0.0.0.0"@,
            r.port == 8080,
            r.storage.max_projects == 10,
            r.simulator.auto_boot == true,
    {
        AgentServerConfig {
            host: default_bind_host(),
            port: default_agent_port(),
            storage: StorageConfig::default(),
            xcode: XcodeConfig { path: None, derived_data_path: None },
            simulator: AgentSimulatorConfig::default(),
        }
    }
}

/// The HTTP base URL the client should use for the configured mode.
pub fn get_agent_url(config: &CliConfig) -> (r: String)
    ensures
        config.agent.mode == AgentMode::LocalVm ==> r@ == "http://127.0.0.1:"@
            + crate::text::dec_seq(config.vm.agent_port as nat),
        config.agent.mode == AgentMode::Remote ==> r@ == "http://"@ + config.agent.remote_host@
            + ":"@ + crate::text::dec_seq(config.agent.remote_port as nat),
{
    match config.agent.mode {
        AgentMode::LocalVm => {
            String::from_str("http://127.0.0.1:").concat(
                crate::text::u64_to_string(config.vm.agent_port as u64).as_str(),
            )
        },
        AgentMode::Remote => {
            String::from_str("http://").concat(config.agent.remote_host.as_str()).concat(
                ":",
            ).concat(crate::text::u64_to_string(config.agent.remote_port as u64).as_str())
        },
    }
}

/// The default config file path under the given user config directory;
/// falls back to the current directory when none is known.
pub fn default_config_path(config_dir: Option<&str>) -> (r: String)
    ensures
        match config_dir {
            Some(d) => r@ == d@ + "/xscape/config.toml"@,
            None => r@ == "./xscape/config.toml"@,
        },
{
    let base: &str = match config_dir {
        Some(d) => d,
        None => ".",
    };
    let r = String::from_str(base).concat("/xscape/config.toml");
    proof {
        if config_dir is None {
            reveal_strlit(".");
            reveal_strlit("/xscape/config.toml");
            reveal_strlit("./xscape/config.toml");
            assert(r@ =~= "./xscape/config.toml"@);
        }
    }
    r
}

/// Expands a leading `~/` against the given home directory, when one is
/// known; any other path is returned unchanged.
pub fn expand_tilde(path: &str, home: Option<&str>) -> (r: String)
    ensures
        (match home {
            Some(h) => {
                if path@.len() >= 2 && path@[0] == '~' && path@[1] == '/' {
                    r@ == h@ + path@.subrange(1, path@.len() as int)
                } else {
                    r@ == path@
                }
            },
            None => r@ == path@,
        }),
{
    let n = path.unicode_len();
    if n >= 2 {
        if path.get_char(0) == '~' && path.get_char(1) == '/' {
            if let Some(h) = home {
                let rest = path.substring_char(1, n);
                return String::from_str(h).concat(rest);
            }
        }
    }
    path.to_owned()
}

/// Expands a leading `~/` against the given home directory; same rule as
/// `expand_tilde`, under the name used by the interactive prompts.
pub fn tilde(path: &str, home: Option<&str>) -> (r: String)
    ensures
        (match home {
            Some(h) => {
                if path@.len() >= 2 && path@[0] == '~' && path@[1] == '/' {
                    r@ == h@ + path@.subrange(1, path@.len() as int)
                } else {
                    r@ == path@
                }
            },
            None => r@ == path@,
        }),
{
    expand_tilde(path, home)
}

/// The text of the annotated configuration file written by
/// `config init`.
pub open spec fn spec_default_config_text() -> Seq<char> {
    ("# xscape configuration\n\n[agent]\n# Connection mode: \"remote\" or \"local-vm\"\nmode = \"local-vm\"\n\n# Remote Mac settings (when mode = \"remote\")\nremote_host = \"192.168.1.100\"\nremote_port = 8080\n\n# Connection timeout in seconds\ntimeout_secs = 30\n\n[vm]\n# Path to QEMU binary\nqemu_path = \"/usr/bin/qemu-system-x86_64\"\n\n# Path to OSX-KVM directory (recommended - other paths derived automatically)\n# osx_kvm_path = \"/home/user/OSX-KVM\"\n\n# Individual paths (alternative to osx_kvm_path)\ndisk_image = \"\"              # Main macOS disk (mac_hdd_ng.img)\nopencore_image = \"\"          # OpenCore bootloader (OpenCore/OpenCore.qcow2)\nbase_system_image = \"\"       # Recovery image (BaseSystem.img)\novmf_code = \"\"               # UEFI firmware code (OVMF_CODE.fd)\novmf_vars = \"\"               # UEFI firmware vars (OVMF_VARS-1920x1080.fd)\n\n# VM resources\nmemory = \"16384\"             # Memory in MiB (16GB)\ncpus = 8\n\n# Ports\nvnc_port = 5900\nssh_port = 2222\nagent_port = 8080\n\n# Boot timeout in seconds\nboot_timeout_secs = 180\n\n[vnc]\n# Path to noVNC installation (optional)\nnovnc_path = \"/usr/share/novnc\"\n\n# websockify port\nwebsockify_port = 6080\n\n# Auto-open browser\nauto_open_browser = true\n\n[project]\n# Patterns to exclude from sync (in addition to .gitignore)\nexclude_patterns = [\n    \".git\",\n    \"build\",\n    \"DerivedData\",\n    \"*.xcuserstate\",\n    \"Pods\",\n    \".build\",\n]\n\n[simulator]\n# Preferred device name\npreferred_device = \"iPhone 15 Pro\"\n\n# Preferred iOS version (optional)\n# preferred_runtime = \"iOS 17.0\"\n")@
}

/// The annotated configuration file written by `config init`: always the
/// same fixed template.
pub fn generate_default_config() -> (r: String)
    ensures
        r@ == spec_default_config_text(),
{
    String::from_str(
        "# xscape configuration\n\n[agent]\n# Connection mode: \"remote\" or \"local-vm\"\nmode = \"local-vm\"\n\n# Remote Mac settings (when mode = \"remote\")\nremote_host = \"192.168.1.100\"\nremote_port = 8080\n\n# Connection timeout in seconds\ntimeout_secs = 30\n\n[vm]\n# Path to QEMU binary\nqemu_path = \"/usr/bin/qemu-system-x86_64\"\n\n# Path to OSX-KVM directory (recommended - other paths derived automatically)\n# osx_kvm_path = \"/home/user/OSX-KVM\"\n\n# Individual paths (alternative to osx_kvm_path)\ndisk_image = \"\"              # Main macOS disk (mac_hdd_ng.img)\nopencore_image = \"\"          # OpenCore bootloader (OpenCore/OpenCore.qcow2)\nbase_system_image = \"\"       # Recovery image (BaseSystem.img)\novmf_code = \"\"               # UEFI firmware code (OVMF_CODE.fd)\novmf_vars = \"\"               # UEFI firmware vars (OVMF_VARS-1920x1080.fd)\n\n# VM resources\nmemory = \"16384\"             # Memory in MiB (16GB)\ncpus = 8\n\n# Ports\nvnc_port = 5900\nssh_port = 2222\nagent_port = 8080\n\n# Boot timeout in seconds\nboot_timeout_secs = 180\n\n[vnc]\n# Path to noVNC installation (optional)\nnovnc_path = \"/usr/share/novnc\"\n\n# websockify port\nwebsockify_port = 6080\n\n# Auto-open browser\nauto_open_browser = true\n\n[project]\n# Patterns to exclude from sync (in addition to .gitignore)\nexclude_patterns = [\n    \".git\",\n    \"build\",\n    \"DerivedData\",\n    \"*.xcuserstate\",\n    \"Pods\",\n    \".build\",\n]\n\n[simulator]\n# Preferred device name\npreferred_device = \"iPhone 15 Pro\"\n\n# Preferred iOS version (optional)\n# preferred_runtime = \"iOS 17.0\"\n",
    )
}

} // verus!
