//! Sovereign Industrial Kernel (SIK).
//!
//! The lowest-level runtime contract for every component: hard resource
//! limits (a 20 W power profile and a memory ceiling), the inference-server
//! endpoint, and operational switches, with the queries that check a request
//! against them.

use vstd::prelude::*;
use crate::text::{decimal, push_decimal};

verus! {

/// Power budget expressed in watts.
#[derive(Debug, Clone, PartialEq)]
pub struct PowerProfile {
    /// Maximum sustained power draw in watts.
    pub max_watts: u32,
    /// Whether the power constraint is actively enforced.
    pub enforced: bool,
}

/// `"ACTIVE"` or `"INACTIVE"`.
pub open spec fn activity_text(enforced: bool) -> Seq<char> {
    if enforced {
        "ACTIVE"@
    } else {
        "INACTIVE"@
    }
}

/// The one-line description of a power profile, e.g. `20W profile: ACTIVE`.
pub open spec fn power_text(max_watts: u32, enforced: bool) -> Seq<char> {
    decimal(max_watts as nat) + "W profile: "@ + activity_text(enforced)
}

impl PowerProfile {
    /// The 20 W, enforced profile.
    pub fn new_default() -> (p: Self)
        ensures
            p.max_watts == 20,
            p.enforced,
    {
        PowerProfile { max_watts: 20, enforced: true }
    }

    /// One-line description, e.g. `20W profile: ACTIVE`.
    pub fn display_string(&self) -> (s: String)
        ensures
            s@ == power_text(self.max_watts, self.enforced),
    {
        let mut s = String::new();
        push_decimal(&mut s, self.max_watts as u64);
        s.append("W profile: ");
        if self.enforced {
            s.append("ACTIVE");
        } else {
            s.append("INACTIVE");
        }
        assert(s@ =~= power_text(self.max_watts, self.enforced));
        s
    }
}

impl Default for PowerProfile {
    fn default() -> (p: Self)
        ensures
            p.max_watts == 20,
            p.enforced,
    {
        Self::new_default()
    }
}

/// Network endpoint of the local LLM inference server.
#[derive(Debug, Clone, PartialEq)]
pub struct NetworkEndpoint {
    /// Hostname (default: `localhost`).
    pub host: String,
    /// Port (default: `11434`).
    pub port: u16,
}

/// `host:port`.
pub open spec fn endpoint_text(host: Seq<char>, port: u16) -> Seq<char> {
    host + ":"@ + decimal(port as nat)
}

impl NetworkEndpoint {
    /// `localhost:11434`.
    pub fn new_default() -> (e: Self)
        ensures
            e.host@ == "localhost"@,
            e.port == 11434,
    {
        NetworkEndpoint { host: String::from_str("localhost"), port: 11434 }
    }

    /// `host:port`.
    pub fn display_string(&self) -> (s: String)
        ensures
            s@ == endpoint_text(self.host@, self.port),
    {
        let mut s = self.host.clone();
        s.append(":");
        push_decimal(&mut s, self.port as u64);
        assert(s@ =~= endpoint_text(self.host@, self.port));
        s
    }
}

impl Default for NetworkEndpoint {
    fn default() -> (e: Self)
        ensures
            e.host@ == "localhost"@,
            e.port == 11434,
    {
        Self::new_default()
    }
}

/// Memory constraint in megabytes.
#[derive(Debug, Clone, PartialEq)]
pub struct MemoryConstraint {
    /// Maximum resident set size in megabytes.
    pub max_mb: u32,
    /// Whether the constraint is actively enforced.
    pub enforced: bool,
}

impl Default for MemoryConstraint {
    fn default() -> (m: Self)
        ensures
            m.max_mb == 512,
            m.enforced,
    {
        MemoryConstraint { max_mb: 512, enforced: true }
    }
}

/// Complete Sovereign Industrial Kernel configuration.
#[derive(Debug, Clone, PartialEq)]
pub struct SikConfig {
    /// Power budget.
    pub power: PowerProfile,
    /// Inference server endpoint.
    pub endpoint: NetworkEndpoint,
    /// Memory constraint.
    pub memory: MemoryConstraint,
    /// Maximum number of concurrent proposals the policy gate may evaluate.
    pub max_concurrent_proposals: u32,
    /// Whether determinism mode is engaged.
    pub determinism_mode: bool,
}

/// The default configuration: 20 W enforced, `localhost:11434`, 512 MB
/// enforced, one proposal at a time, determinism on.
pub open spec fn is_default_config(c: SikConfig) -> bool {
    &&& c.power.max_watts == 20
    &&& c.power.enforced
    &&& c.endpoint.host@ == "localhost"@
    &&& c.endpoint.port == 11434
    &&& c.memory.max_mb == 512
    &&& c.memory.enforced
    &&& c.max_concurrent_proposals == 1
    &&& c.determinism_mode
}

impl Default for SikConfig {
    fn default() -> (c: Self)
        ensures
            is_default_config(c),
    {
        SikConfig {
            power: PowerProfile::default(),
            endpoint: NetworkEndpoint::default(),
            memory: MemoryConstraint::default(),
            max_concurrent_proposals: 1,
            determinism_mode: true,
        }
    }
}

/// A request for `requested` units fits a limit of `max` that is enforced
/// or not.
pub open spec fn within_limit(enforced: bool, max: u32, requested: u32) -> bool {
    !enforced || requested <= max
}

/// The status summary of a kernel with configuration `c`.
pub open spec fn status_text(c: SikConfig) -> Seq<char> {
    "SIK active | "@ + power_text(c.power.max_watts, c.power.enforced) + " | endpoint: "@
        + endpoint_text(c.endpoint.host@, c.endpoint.port) + " | memory: "@ + decimal(
        c.memory.max_mb as nat,
    ) + "MB | determinism: "@ + (if c.determinism_mode {
        "ON"@
    } else {
        "OFF"@
    })
}

/// The lines of the boot banner of a kernel with configuration `c`.
pub open spec fn boot_banner_text(c: SikConfig) -> Seq<Seq<char>> {
    seq![
        "[SIK] \u{1F527} Sovereign Industrial Kernel activated"@,
        "      \u{2192} "@ + power_text(c.power.max_watts, c.power.enforced),
        "      \u{2192} "@ + endpoint_text(c.endpoint.host@, c.endpoint.port) + " ready"@,
        "      \u{2192} Resource constraints: "@ + (if c.memory.enforced && c.power.enforced {
            "ENFORCED"@
        } else {
            "RELAXED"@
        }),
    ]
}

/// The runtime handle of the Sovereign Industrial Kernel.
///
/// Holds a configuration snapshot and answers compliance queries.
#[derive(Debug, Clone)]
pub struct SovereignIndustrialKernel {
    config: SikConfig,
    active: bool,
}

impl SovereignIndustrialKernel {
    /// The configuration the kernel enforces.
    pub closed spec fn configuration(&self) -> SikConfig {
        self.config
    }

    /// Whether the kernel is running.
    pub closed spec fn running(&self) -> bool {
        self.active
    }

    /// Initialise the kernel with a specific configuration.
    pub fn new(config: SikConfig) -> (k: Self)
        ensures
            k.configuration() == config,
            k.running(),
    {
        SovereignIndustrialKernel { config, active: true }
    }

    /// Return `true` if the kernel is running.
    pub fn is_active(&self) -> (b: bool)
        ensures
            b == self.running(),
    {
        self.active
    }

    /// Return the current configuration.
    pub fn config(&self) -> (c: &SikConfig)
        ensures
            *c == self.configuration(),
    {
        &self.config
    }

    /// One-line status summary suitable for log output.
    pub fn status_line(&self) -> (s: String)
        ensures
            s@ == status_text(self.configuration()),
    {
        let mut s = String::from_str("SIK active | ");
        let power = self.config.power.display_string();
        s.append(power.as_str());
        s.append(" | endpoint: ");
        let endpoint = self.config.endpoint.display_string();
        s.append(endpoint.as_str());
        s.append(" | memory: ");
        push_decimal(&mut s, self.config.memory.max_mb as u64);
        s.append("MB | determinism: ");
        if self.config.determinism_mode {
            s.append("ON");
        } else {
            s.append("OFF");
        }
        assert(s@ =~= status_text(self.configuration()));
        s
    }

    /// Whether a memory allocation of `requested_mb` megabytes fits the
    /// configured constraint.
    pub fn check_memory(&self, requested_mb: u32) -> (ok: bool)
        ensures
            ok == within_limit(
                self.configuration().memory.enforced,
                self.configuration().memory.max_mb,
                requested_mb,
            ),
    {
        !self.config.memory.enforced || requested_mb <= self.config.memory.max_mb
    }

    /// Whether the power profile allows a draw of `requested_watts`.
    pub fn check_power(&self, requested_watts: u32) -> (ok: bool)
        ensures
            ok == within_limit(
                self.configuration().power.enforced,
                self.configuration().power.max_watts,
                requested_watts,
            ),
    {
        !self.config.power.enforced || requested_watts <= self.config.power.max_watts
    }

    /// The lines of the structured boot banner, in print order.
    pub fn boot_banner_lines(&self) -> (lines: Vec<String>)
        ensures
            lines@.map_values(|l: String| l@) == boot_banner_text(self.configuration()),
    {
        let mut lines: Vec<String> = Vec::new();
        lines.push(String::from_str("[SIK] \u{1F527} Sovereign Industrial Kernel activated"));
        let mut power = String::from_str("      \u{2192} ");
        let p = self.config.power.display_string();
        power.append(p.as_str());
        lines.push(power);
        let mut endpoint = String::from_str("      \u{2192} ");
        let e = self.config.endpoint.display_string();
        endpoint.append(e.as_str());
        endpoint.append(" ready");
        lines.push(endpoint);
        let mut limits = String::from_str("      \u{2192} Resource constraints: ");
        if self.config.memory.enforced && self.config.power.enforced {
            limits.append("ENFORCED");
        } else {
            limits.append("RELAXED");
        }
        lines.push(limits);
        assert(lines@.map_values(|l: String| l@) =~= boot_banner_text(self.configuration()));
        lines
    }
}

impl Default for SovereignIndustrialKernel {
    fn default() -> (k: Self)
        ensures
            is_default_config(k.configuration()),
            k.running(),
    {
        Self::new(SikConfig::default())
    }
}

/// A limit that admits a request admits every smaller request, and an
/// unenforced limit admits every request.
pub proof fn law_limits_monotone(enforced: bool, max: u32, smaller: u32, larger: u32)
    requires
        smaller <= larger,
    ensures
        within_limit(enforced, max, larger) ==> within_limit(enforced, max, smaller),
        !enforced ==> within_limit(enforced, max, larger),
        enforced ==> (within_limit(enforced, max, larger) <==> larger <= max),
{
}

} // verus!
