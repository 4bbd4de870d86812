//! Tunnel supervisor: restart policy, URL extraction, startup errors.
//!
//! The supervisor keeps an external tunnelling subprocess alive.  The
//! decisions — whether to restart a dead process, when to give up, and
//! which line of subprocess output carries the public URL — are made
//! here; spawning, killing and reading the process happen outside and
//! feed their observations in.

use vstd::prelude::*;
use vstd::string::*;
use crate::strutil::chars_to_string;
use crate::encode::{append_str, push_dec_u64};
use crate::wire::dec_digits;

verus! {

/// Seconds the supervisor waits for the public URL at startup.
pub const TUNNEL_START_TIMEOUT_SECS: u64 = 30;

/// Seconds between liveness polls of the subprocess.
pub const HEALTH_CHECK_INTERVAL_SECS: u64 = 5;

/// How many consecutive restarts are attempted before giving up.
pub const MAX_RESTART_ATTEMPTS: u32 = 3;

/// Seconds waited before a restart.
pub const RESTART_DELAY_SECS: u64 = 2;

/// Why the tunnelling binary could not be provided.
#[derive(Debug)]
pub enum CloudflaredManagerError {
    /// A directory for the binary could not be created.
    DirectoryCreationFailed(String),
    /// Fetching the binary failed.
    DownloadFailed(String),
    /// No binary exists for this platform.
    UnsupportedPlatform,
    /// The binary could not be marked executable.
    PermissionsFailed,
    /// The binary is missing where it was expected.
    BinaryNotFound,
}

impl CloudflaredManagerError {
    /// A human-readable description of the failure.
    pub fn message(&self) -> (r: String)
        ensures
            match self {
                CloudflaredManagerError::DirectoryCreationFailed(d) => r@
                    == "Failed to create directory: "@ + d@,
                CloudflaredManagerError::DownloadFailed(d) => r@
                    == "Failed to download cloudflared: "@ + d@,
                CloudflaredManagerError::UnsupportedPlatform => r@ == "Unsupported platform"@,
                CloudflaredManagerError::PermissionsFailed => r@
                    == "Failed to set executable permissions"@,
                CloudflaredManagerError::BinaryNotFound => r@
                    == "Cloudflared binary not found at expected path"@,
            },
    {
        match self {
            CloudflaredManagerError::DirectoryCreationFailed(d) => String::from_str(
                "Failed to create directory: ",
            ).concat(d.as_str()),
            CloudflaredManagerError::DownloadFailed(d) => String::from_str(
                "Failed to download cloudflared: ",
            ).concat(d.as_str()),
            CloudflaredManagerError::UnsupportedPlatform => String::from_str(
                "Unsupported platform",
            ),
            CloudflaredManagerError::PermissionsFailed => String::from_str(
                "Failed to set executable permissions",
            ),
            CloudflaredManagerError::BinaryNotFound => String::from_str(
                "Cloudflared binary not found at expected path",
            ),
        }
    }
}

/// Why the tunnel could not be brought up.
#[derive(Debug)]
pub enum TunnelError {
    /// The binary manager failed first.
    ManagerError(String),
    /// The subprocess could not be spawned.
    SpawnFailed(String),
    /// The subprocess output could not be read.
    StdioError,
    /// The subprocess ended before a public URL appeared.
    UrlNotFound,
    /// No public URL appeared within the startup window.
    Timeout,
}

impl TunnelError {
    /// A human-readable description of the failure.
    pub fn message(&self) -> (r: String)
        ensures
            match self {
                TunnelError::ManagerError(d) => r@ == "Cloudflared manager error: "@ + d@,
                TunnelError::SpawnFailed(d) => r@ == "Failed to spawn cloudflared process: "@
                    + d@,
                TunnelError::StdioError => r@ == "Failed to read cloudflared stdout"@,
                TunnelError::UrlNotFound => r@
                    == "Cloudflare URL not found in output within timeout"@,
                TunnelError::Timeout => r@ == "Timed out waiting for cloudflared URL"@,
            },
    {
        match self {
            TunnelError::ManagerError(d) => String::from_str("Cloudflared manager error: ").concat(
                d.as_str(),
            ),
            TunnelError::SpawnFailed(d) => String::from_str(
                "Failed to spawn cloudflared process: ",
            ).concat(d.as_str()),
            TunnelError::StdioError => String::from_str("Failed to read cloudflared stdout"),
            TunnelError::UrlNotFound => String::from_str(
                "Cloudflare URL not found in output within timeout",
            ),
            TunnelError::Timeout => String::from_str("Timed out waiting for cloudflared URL"),
        }
    }
}

/// Supervisor bookkeeping for the tunnel subprocess.
pub struct ProcessManager {
    /// The local port the tunnel forwards to.
    pub ws_port: u16,
    /// Consecutive restarts attempted since the last stable run.
    pub restart_attempts: u32,
    /// Whether the subprocess is believed to run.
    pub is_running: bool,
}

/// What the health poll decided.
#[derive(Clone, Copy, PartialEq, Eq, Structural, Debug)]
pub enum HealthAction {
    /// The process lives; nothing to do.
    Continue,
    /// The process died and a restart is attempted after the delay.
    Restart,
    /// The restart budget is exhausted; the tunnel is given up as
    /// failed.
    GiveUp,
}

/// One poll of the health loop, as a function of the attempt counter.
pub open spec fn spec_health_step(attempts: nat, process_alive: bool) -> (nat, HealthAction) {
    if process_alive {
        (attempts, HealthAction::Continue)
    } else if attempts < MAX_RESTART_ATTEMPTS {
        (attempts + 1, HealthAction::Restart)
    } else {
        (attempts, HealthAction::GiveUp)
    }
}

impl ProcessManager {
    /// Fresh bookkeeping for a just-started tunnel.
    pub fn new(ws_port: u16) -> (r: ProcessManager)
        ensures
            r.ws_port == ws_port,
            r.restart_attempts == 0,
            r.is_running == false,
    {
        ProcessManager { ws_port, restart_attempts: 0, is_running: false }
    }

    /// Forget past restarts, after a restart proved stable.
    pub fn reset_restart_attempts(&mut self)
        ensures
            final(self).restart_attempts == 0,
            final(self).ws_port == old(self).ws_port,
            final(self).is_running == old(self).is_running,
    {
        self.restart_attempts = 0;
    }

    /// Count one more restart attempt.
    pub fn increment_restart_attempts(&mut self)
        requires
            old(self).restart_attempts < u32::MAX,
        ensures
            final(self).restart_attempts == old(self).restart_attempts + 1,
            final(self).ws_port == old(self).ws_port,
            final(self).is_running == old(self).is_running,
    {
        self.restart_attempts = self.restart_attempts + 1;
    }

    /// Whether the restart budget still allows another attempt.
    pub fn can_restart(&self) -> (r: bool)
        ensures
            r == (self.restart_attempts < MAX_RESTART_ATTEMPTS),
    {
        self.restart_attempts < MAX_RESTART_ATTEMPTS
    }

    /// Record whether the subprocess runs.
    pub fn set_running(&mut self, running: bool)
        ensures
            final(self).is_running == running,
            final(self).ws_port == old(self).ws_port,
            final(self).restart_attempts == old(self).restart_attempts,
    {
        self.is_running = running;
    }

    /// One poll of the health loop: decide whether to restart the
    /// subprocess, give the tunnel up, or do nothing.
    pub fn health_step(&mut self, process_alive: bool) -> (r: HealthAction)
        ensures
            final(self).ws_port == old(self).ws_port,
            final(self).is_running == old(self).is_running,
            (final(self).restart_attempts as nat, r) == spec_health_step(
                old(self).restart_attempts as nat,
                process_alive,
            ),
    {
        if process_alive {
            HealthAction::Continue
        } else if self.restart_attempts < MAX_RESTART_ATTEMPTS {
            self.increment_restart_attempts();
            HealthAction::Restart
        } else {
            HealthAction::GiveUp
        }
    }

    /// A restart survived one full health interval: the budget is
    /// restored.
    pub fn on_interval_survived(&mut self)
        ensures
            final(self).restart_attempts == 0,
            final(self).ws_port == old(self).ws_port,
            final(self).is_running == old(self).is_running,
    {
        self.reset_restart_attempts();
    }
}

/// The attempt counter after `n` consecutive dead polls from a fresh
/// supervisor.
pub open spec fn attempts_after_exits(n: nat) -> nat
    decreases n,
{
    if n == 0 {
        0
    } else {
        spec_health_step(attempts_after_exits((n - 1) as nat), false).0
    }
}

/// The number of restarts granted over `n` consecutive dead polls.
pub open spec fn restarts_after_exits(n: nat) -> nat
    decreases n,
{
    if n == 0 {
        0
    } else {
        restarts_after_exits((n - 1) as nat) + if spec_health_step(
            attempts_after_exits((n - 1) as nat),
            false,
        ).1 == HealthAction::Restart {
            1 as nat
        } else {
            0 as nat
        }
    }
}

/// The restart budget is a hard bound: over any run of consecutive
/// subprocess deaths, at most three restarts are granted, and from the
/// fourth death on every poll answers that the tunnel is given up.
/// The retry loop can therefore never run unboundedly.
pub proof fn lemma_restart_bound(n: nat)
    ensures
        attempts_after_exits(n) == if n < MAX_RESTART_ATTEMPTS {
            n
        } else {
            MAX_RESTART_ATTEMPTS as nat
        },
        restarts_after_exits(n) == if n < MAX_RESTART_ATTEMPTS {
            n
        } else {
            MAX_RESTART_ATTEMPTS as nat
        },
        n >= MAX_RESTART_ATTEMPTS ==> spec_health_step(attempts_after_exits(n), false).1
            == HealthAction::GiveUp,
    decreases n,
{
    if n > 0 {
        lemma_restart_bound((n - 1) as nat);
    }
}

/// `http://`
pub open spec fn lit_http() -> Seq<char> {
    seq!['h', 't', 't', 'p', ':', '/', '/']
}

/// `https://`
pub open spec fn lit_https() -> Seq<char> {
    seq!['h', 't', 't', 'p', 's', ':', '/', '/']
}

/// `.trycloudflare.com`
pub open spec fn lit_tunnel_suffix() -> Seq<char> {
    seq!['.', 't', 'r', 'y', 'c', 'l', 'o', 'u', 'd', 'f', 'l', 'a', 'r', 'e', '.', 'c', 'o', 'm']
}

/// A character allowed in the tunnel hostname label.
pub open spec fn is_host_char(c: char) -> bool {
    ('a' <= c && c <= 'z') || ('0' <= c && c <= '9') || c == '-'
}

/// The length of the host-character run starting at `k`.
pub open spec fn host_run(s: Seq<char>, k: int) -> nat
    decreases s.len() - k,
{
    if 0 <= k < s.len() && is_host_char(s[k]) {
        1 + host_run(s, k + 1)
    } else {
        0
    }
}

/// Where the scheme starting at `i` ends, if one starts there.
pub open spec fn scheme_end(s: Seq<char>, i: int) -> Option<int> {
    if i + 8 <= s.len() && s.subrange(i, i + 8) == lit_https() {
        Some(i + 8)
    } else if i + 7 <= s.len() && s.subrange(i, i + 7) == lit_http() {
        Some(i + 7)
    } else {
        None
    }
}

/// Where the tunnel URL starting at `i` ends, if one starts there: a
/// scheme, a non-empty host label, and the provider suffix.
pub open spec fn url_end_at(s: Seq<char>, i: int) -> Option<int> {
    match scheme_end(s, i) {
        Some(k) => {
            let h = host_run(s, k);
            if h > 0 && k + h + 18 <= s.len() && s.subrange(k + h, k + h + 18)
                == lit_tunnel_suffix() {
                Some(k + h + 18)
            } else {
                None
            }
        },
        None => None,
    }
}

/// The first tunnel URL in the text at or after `i`: its start and end.
pub open spec fn first_url_from(s: Seq<char>, i: int) -> Option<(int, int)>
    decreases s.len() - i,
{
    if i >= s.len() {
        None
    } else {
        match url_end_at(s, i) {
            Some(e) => Some((i, e)),
            None => first_url_from(s, i + 1),
        }
    }
}

/// Whether a scheme starts at `i`; matches `scheme_end`.
fn scheme_end_exec(chars: &Vec<char>, i: usize) -> (r: Option<usize>)
    requires
        i <= chars@.len(),
    ensures
        match r {
            Some(k) => scheme_end(chars@, i as int) == Some(k as int) && i < k <= chars@.len(),
            None => scheme_end(chars@, i as int) is None,
        },
{
    let n = chars.len();
    if n - i >= 8 && chars[i] == 'h' && chars[i + 1] == 't' && chars[i + 2] == 't' && chars[i + 3]
        == 'p' && chars[i + 4] == 's' && chars[i + 5] == ':' && chars[i + 6] == '/' && chars[i + 7]
        == '/' {
        proof {
            assert(chars@.subrange(i as int, i + 8 as int) =~= lit_https());
        }
        Some(i + 8)
    } else if n - i >= 7 && chars[i] == 'h' && chars[i + 1] == 't' && chars[i + 2] == 't' && chars[i
        + 3] == 'p' && chars[i + 4] == ':' && chars[i + 5] == '/' && chars[i + 6] == '/' {
        proof {
            assert(chars@.subrange(i as int, i + 7 as int) =~= lit_http());
            if i + 8 <= chars@.len() && chars@.subrange(i as int, i + 8 as int) == lit_https() {
                assert(chars@.subrange(i as int, i + 8 as int)[4] == chars@[i + 4 as int]);
            }
        }
        Some(i + 7)
    } else {
        proof {
            if i + 8 <= chars@.len() && chars@.subrange(i as int, i + 8 as int) == lit_https() {
                assert(forall|j: int|
                    0 <= j < 8 ==> #[trigger] chars@.subrange(i as int, i + 8 as int)[j] == chars@[i + j]);
            }
            if i + 7 <= chars@.len() && chars@.subrange(i as int, i + 7 as int) == lit_http() {
                assert(forall|j: int|
                    0 <= j < 7 ==> #[trigger] chars@.subrange(i as int, i + 7 as int)[j] == chars@[i + j]);
            }
        }
        None
    }
}

/// The host-character run length starting at `k`; matches `host_run`.
fn host_run_exec(chars: &Vec<char>, k: usize) -> (r: usize)
    requires
        k <= chars@.len(),
    ensures
        r == host_run(chars@, k as int),
        k + r <= chars@.len(),
{
    let n = chars.len();
    let mut j = k;
    while j < n && ((chars[j] >= 'a' && chars[j] <= 'z') || (chars[j] >= '0' && chars[j] <= '9')
        || chars[j] == '-')
        invariant
            k <= j <= n,
            n == chars@.len(),
            host_run(chars@, k as int) == j - k + host_run(chars@, j as int),
        decreases n - j,
    {
        j = j + 1;
    }
    j - k
}

/// Whether the provider suffix starts at `e`.
fn suffix_at_exec(chars: &Vec<char>, e: usize) -> (r: bool)
    requires
        e <= chars@.len(),
    ensures
        r == (e + 18 <= chars@.len() && chars@.subrange(e as int, e + 18 as int)
            == lit_tunnel_suffix()),
{
    let n = chars.len();
    if n - e < 18 {
        return false;
    }
    let ok = chars[e] == '.' && chars[e + 1] == 't' && chars[e + 2] == 'r' && chars[e + 3] == 'y'
        && chars[e + 4] == 'c' && chars[e + 5] == 'l' && chars[e + 6] == 'o' && chars[e + 7] == 'u'
        && chars[e + 8] == 'd' && chars[e + 9] == 'f' && chars[e + 10] == 'l' && chars[e + 11]
        == 'a' && chars[e + 12] == 'r' && chars[e + 13] == 'e' && chars[e + 14] == '.' && chars[e
        + 15] == 'c' && chars[e + 16] == 'o' && chars[e + 17] == 'm';
    proof {
        if ok {
            assert(chars@.subrange(e as int, e + 18 as int) =~= lit_tunnel_suffix());
        } else {
            if chars@.subrange(e as int, e + 18 as int) == lit_tunnel_suffix() {
                assert(forall|j: int|
                    0 <= j < 18 ==> #[trigger] chars@.subrange(e as int, e + 18 as int)[j] == chars@[e + j]);
            }
        }
    }
    ok
}

/// Find the first public tunnel URL in one line of subprocess output.
/// Returns exactly the text of the first place where a scheme, a
/// non-empty host label and the provider suffix line up.
pub fn find_tunnel_url(line: &str) -> (r: Option<String>)
    ensures
        match r {
            Some(u) => exists|i: int, e: int|
                first_url_from(line@, 0) == Some((i, e)) && u@ == line@.subrange(i, e),
            None => first_url_from(line@, 0) is None,
        },
{
    let chars = crate::strutil::str_chars(line);
    let n = chars.len();
    let mut i: usize = 0;
    while i < n
        invariant
            i <= n,
            n == chars@.len(),
            chars@ == line@,
            first_url_from(chars@, 0) == first_url_from(chars@, i as int),
        decreases n - i,
    {
        match scheme_end_exec(&chars, i) {
            Some(k) => {
                let h = host_run_exec(&chars, k);
                if h > 0 && suffix_at_exec(&chars, k + h) {
                    let e = k + h + 18;
                    let mut out: Vec<char> = Vec::new();
                    let mut j = i;
                    while j < e
                        invariant
                            i <= j <= e,
                            e <= chars@.len(),
                            chars@ == line@,
                            out@ == chars@.subrange(i as int, j as int),
                        decreases e - j,
                    {
                        out.push(chars[j]);
                        proof {
                            assert(chars@.subrange(i as int, j + 1 as int) =~= chars@.subrange(
                                i as int,
                                j as int,
                            ).push(chars@[j as int]));
                        }
                        j = j + 1;
                    }
                    proof {
                        assert(url_end_at(chars@, i as int) == Some(e as int));
                    }
                    return Some(chars_to_string(&out));
                }
                proof {
                    assert(url_end_at(chars@, i as int) is None);
                }
            },
            None => {
                proof {
                    assert(url_end_at(chars@, i as int) is None);
                }
            },
        }
        i = i + 1;
    }
    None
}

/// Classify how the startup of the tunnel ended: a URL means success;
/// otherwise the startup window ran out, or the process ended first.
pub fn startup_result(url: Option<String>, timed_out: bool) -> (r: Result<String, TunnelError>)
    ensures
        match url {
            Some(u) => r matches Ok(v) && v@ == u@,
            None => if timed_out {
                r matches Err(e) && e is Timeout
            } else {
                r matches Err(e) && e is UrlNotFound
            },
        },
{
    match url {
        Some(u) => Ok(u),
        None => {
            if timed_out {
                Err(TunnelError::Timeout)
            } else {
                Err(TunnelError::UrlNotFound)
            }
        },
    }
}

/// The fixed command-line arguments the tunnel subprocess is started
/// with, forwarding the given local port.
pub fn build_cloudflared_args(ws_port: u16) -> (r: Vec<String>)
    ensures
        r@.len() == 6,
        r@[0]@ == "tunnel"@,
        r@[1]@ == "--url"@,
        r@[2]@ == "http://127.0.0.1:"@ + dec_digits(ws_port as nat),
        r@[3]@ == "--no-autoupdate"@,
        r@[4]@ == "--compression-quality"@,
        r@[5]@ == "0"@,
    {
    let mut url_chars: Vec<char> = Vec::new();
    append_str(&mut url_chars, "http://127.0.0.1:");
    push_dec_u64(&mut url_chars, ws_port as u64);
    let url = chars_to_string(&url_chars);
    let mut args: Vec<String> = Vec::new();
    args.push(String::from_str("tunnel"));
    args.push(String::from_str("--url"));
    args.push(url);
    args.push(String::from_str("--no-autoupdate"));
    args.push(String::from_str("--compression-quality"));
    args.push(String::from_str("0"));
    args
}

} // verus!
