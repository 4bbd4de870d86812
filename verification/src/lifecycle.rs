//! Server lifecycle: start and stop, status reporting, settings.
//!
//! The manager owns the process-wide "is the server running" state and
//! moves it between `Stopped`, `Starting` and `Running` explicitly.
//! Binding sockets, spawning the tunnel and persisting the session
//! happen outside; their outcomes are fed back in.  Every status
//! snapshot the outside world sees is computed here.

use vstd::prelude::*;
use vstd::string::*;
use crate::history::Session;
use crate::strutil::chars_to_string;
use crate::encode::{append_str, push_dec_u64};
use crate::wire::dec_digits;
use crate::tunnel::lit_https;
use crate::wallet::valid_wallet_address;

verus! {

/// The reported state of the tunnel.
#[derive(Clone, Copy, PartialEq, Eq, Structural, Debug)]
pub enum TunnelStatus {
    /// No tunnel is wanted.
    Stopped,
    /// The tunnel is being brought up.
    Starting,
    /// The tunnel is up and has a public URL.
    Running,
    /// The tunnel was given up after its restart budget ran out.
    Failed,
}

/// The tunnel's state as the lifecycle manager tracks it.
#[derive(Debug)]
pub enum TunnelState {
    /// No tunnel is wanted.
    Stopped,
    /// The tunnel is being brought up.
    Starting,
    /// The tunnel is up, with its public https URL.
    Running(String),
    /// The tunnel failed, with the reported reason.
    Failed(String),
}

/// Errors the lifecycle operations return to their caller.
#[derive(Debug)]
pub enum LifecycleError {
    /// `start` was called while the server runs.
    AlreadyRunning,
    /// `stop` was called while the server does not run.
    NotRunning,
    /// A listener could not be bound.
    BindFailed(String),
}

impl LifecycleError {
    /// A human-readable description.
    pub fn message(&self) -> (r: String)
        ensures
            match self {
                LifecycleError::AlreadyRunning => r@ == "WebSocket server is already running."@,
                LifecycleError::NotRunning => r@ == "WebSocket server is not running."@,
                LifecycleError::BindFailed(d) => r@ == "Failed to bind server: "@ + d@,
            },
    {
        match self {
            LifecycleError::AlreadyRunning => String::from_str(
                "WebSocket server is already running.",
            ),
            LifecycleError::NotRunning => String::from_str("WebSocket server is not running."),
            LifecycleError::BindFailed(d) => String::from_str("Failed to bind server: ").concat(
                d.as_str(),
            ),
        }
    }
}

/// Where the server stands.
pub enum RunState {
    /// No listeners are bound.
    Stopped,
    /// A session id is assigned and the listeners are being bound.
    Starting {
        /// The id of the stream session being started.
        session_id: String,
    },
    /// The listeners accept connections.
    Running {
        /// The current stream session's id.
        session_id: String,
        /// The host the listeners are bound to.
        host: String,
        /// The viewer (WebSocket) port.
        ws_port: u16,
        /// The overlay (static files) port.
        obs_port: u16,
    },
}

/// A point-in-time snapshot of the server, for external observers.
pub struct ServerStatus {
    /// Whether the listeners accept connections.
    pub is_running: bool,
    /// The URL viewers connect to, when running.
    pub ws_url: Option<String>,
    /// The URL of the overlay page, when running.
    pub obs_url: Option<String>,
    /// The public-IP probe failed.
    pub global_ip_fetch_failed: bool,
    /// Carrier-grade NAT was detected or must be assumed.
    pub cgnat_detected: bool,
    /// The tunnel's public https URL, when it runs.
    pub cloudflare_http_url: Option<String>,
    /// The tunnel's state, as text.
    pub tunnel_status: String,
    /// Why the tunnel failed, if it did.
    pub tunnel_error: Option<String>,
}

/// `ws://`
pub open spec fn lit_ws_scheme() -> Seq<char> {
    seq!['w', 's', ':', '/', '/']
}

/// `wss://`
pub open spec fn lit_wss_scheme() -> Seq<char> {
    seq!['w', 's', 's', ':', '/', '/']
}

/// The viewer URL derived from the tunnel's https URL: the scheme
/// turns into `wss` and the WebSocket path is appended.
pub open spec fn wss_url_of(u: Seq<char>) -> Seq<char> {
    if u.len() >= 8 && u.subrange(0, 8) == lit_https() {
        lit_wss_scheme() + u.skip(8) + seq!['/', 'w', 's']
    } else {
        u + seq!['/', 'w', 's']
    }
}

/// The local viewer URL: `ws://<host>:<port>/ws`.
pub open spec fn local_ws_url(host: Seq<char>, port: u16) -> Seq<char> {
    lit_ws_scheme() + host + seq![':'] + dec_digits(port as nat) + seq!['/', 'w', 's']
}

/// The overlay URL: `http://<host>:<port>/obs/`.
pub open spec fn obs_url_of(host: Seq<char>, port: u16) -> Seq<char> {
    seq!['h', 't', 't', 'p', ':', '/', '/'] + host + seq![':'] + dec_digits(port as nat) + seq![
        '/',
        'o',
        'b',
        's',
        '/',
    ]
}

impl TunnelStatus {
    /// The reported text of this state.
    pub fn as_text(&self) -> (r: String)
        ensures
            match self {
                TunnelStatus::Stopped => r@ == "Stopped"@,
                TunnelStatus::Starting => r@ == "Starting"@,
                TunnelStatus::Running => r@ == "Running"@,
                TunnelStatus::Failed => r@ == "Failed"@,
            },
    {
        match self {
            TunnelStatus::Stopped => String::from_str("Stopped"),
            TunnelStatus::Starting => String::from_str("Starting"),
            TunnelStatus::Running => String::from_str("Running"),
            TunnelStatus::Failed => String::from_str("Failed"),
        }
    }
}

/// Relies on `uuid::Uuid::new_v4` and its `Display` rendering: a
/// freshly generated version-4 id in the canonical hyphenated form.
/// Nothing is promised of the value, since it is random.
#[verifier::external_body]
fn new_session_id() -> String {
    uuid::Uuid::new_v4().to_string()
}

/// Relies on `chrono::Utc::now` and `DateTime::to_rfc3339`: the
/// current time in RFC 3339 form.  Nothing is promised of the value,
/// since it depends on the clock.
#[verifier::external_body]
fn now_rfc3339() -> String {
    chrono::Utc::now().to_rfc3339()
}

/// The process-wide server state.
pub struct LifecycleManager {
    /// Where the server stands.
    pub run: RunState,
    /// Where the tunnel stands.
    pub tunnel: TunnelState,
    /// Carrier-grade NAT was detected or must be assumed.
    pub cgnat_detected: bool,
    /// The public-IP probe failed.
    pub global_ip_fetch_failed: bool,
    /// The streamer's payout wallet address, once configured.
    pub wallet_address: Option<String>,
    /// The linked video id, once configured.
    pub youtube_video_id: Option<String>,
}

impl LifecycleManager {
    /// A stopped server with no settings.
    pub fn new() -> (r: LifecycleManager)
        ensures
            r.run is Stopped,
            r.tunnel is Stopped,
            r.cgnat_detected == false,
            r.global_ip_fetch_failed == false,
            r.wallet_address is None,
            r.youtube_video_id is None,
    {
        LifecycleManager {
            run: RunState::Stopped,
            tunnel: TunnelState::Stopped,
            cgnat_detected: false,
            global_ip_fetch_failed: false,
            wallet_address: None,
            youtube_video_id: None,
        }
    }

    /// Begin starting the server: assign a fresh stream session and
    /// hand back its record for persistence.  Fails with
    /// `AlreadyRunning`, leaving everything untouched, unless the
    /// server is stopped — so a second `start` never disturbs the
    /// session of the first.
    pub fn begin_start(&mut self) -> (r: Result<Session, LifecycleError>)
        ensures
            match old(self).run {
                RunState::Stopped => {
                    &&& r matches Ok(s)
                    &&& final(self).run matches RunState::Starting { session_id } && session_id@
                        == s.id@
                    &&& s.ended_at is None
                    &&& s.started_at@ == s.created_at@
                    &&& s.created_at@ == s.updated_at@
                    &&& final(self).tunnel is Starting
                    &&& final(self).cgnat_detected == old(self).cgnat_detected
                    &&& final(self).global_ip_fetch_failed == old(self).global_ip_fetch_failed
                    &&& final(self).wallet_address == old(self).wallet_address
                    &&& final(self).youtube_video_id == old(self).youtube_video_id
                },
                _ => r matches Err(e) && e is AlreadyRunning && *final(self) == *old(self),
            },
    {
        match self.run {
            RunState::Stopped => {
                let id = new_session_id();
                let now = now_rfc3339();
                let session = Session {
                    id: id.clone(),
                    started_at: now.clone(),
                    ended_at: None,
                    created_at: now.clone(),
                    updated_at: now,
                };
                self.run = RunState::Starting { session_id: id };
                self.tunnel = TunnelState::Starting;
                Ok(session)
            },
            _ => Err(LifecycleError::AlreadyRunning),
        }
    }

    /// Both listeners were bound: the server is running.  Fails with
    /// `NotRunning` unless a start was under way.
    pub fn on_bound(&mut self, host: String, ws_port: u16, obs_port: u16) -> (r: Result<
        (),
        LifecycleError,
    >)
        ensures
            match old(self).run {
                RunState::Starting { session_id } => {
                    &&& r is Ok
                    &&& final(self).run matches RunState::Running {
                        session_id: sid,
                        host: h,
                        ws_port: wp,
                        obs_port: op,
                    } && sid == session_id && h == host && wp == ws_port && op == obs_port
                    &&& final(self).tunnel == old(self).tunnel
                    &&& final(self).cgnat_detected == old(self).cgnat_detected
                    &&& final(self).global_ip_fetch_failed == old(self).global_ip_fetch_failed
                    &&& final(self).wallet_address == old(self).wallet_address
                    &&& final(self).youtube_video_id == old(self).youtube_video_id
                },
                _ => r matches Err(e) && e is NotRunning && *final(self) == *old(self),
            },
    {
        match &self.run {
            RunState::Starting { session_id } => {
                let sid = session_id.clone();
                self.run = RunState::Running { session_id: sid, host, ws_port, obs_port };
                Ok(())
            },
            _ => Err(LifecycleError::NotRunning),
        }
    }

    /// A listener could not be bound: the start is abandoned with no
    /// partial state left running, and the error to report is handed
    /// back.
    pub fn on_bind_failed(&mut self, reason: String) -> (r: LifecycleError)
        ensures
            r matches LifecycleError::BindFailed(m) && m@ == reason@,
            final(self).run is Stopped,
            final(self).tunnel is Stopped,
            final(self).cgnat_detected == old(self).cgnat_detected,
            final(self).global_ip_fetch_failed == old(self).global_ip_fetch_failed,
            final(self).wallet_address == old(self).wallet_address,
            final(self).youtube_video_id == old(self).youtube_video_id,
    {
        self.run = RunState::Stopped;
        self.tunnel = TunnelState::Stopped;
        LifecycleError::BindFailed(reason)
    }

    /// The tunnel came up with a public URL.
    pub fn on_tunnel_running(&mut self, url: String)
        ensures
            final(self).tunnel matches TunnelState::Running(u) && u@ == url@,
            final(self).run == old(self).run,
            final(self).cgnat_detected == old(self).cgnat_detected,
            final(self).global_ip_fetch_failed == old(self).global_ip_fetch_failed,
            final(self).wallet_address == old(self).wallet_address,
            final(self).youtube_video_id == old(self).youtube_video_id,
    {
        self.tunnel = TunnelState::Running(url);
    }

    /// The tunnel was given up.
    pub fn on_tunnel_failed(&mut self, error: String)
        ensures
            final(self).tunnel matches TunnelState::Failed(e) && e@ == error@,
            final(self).run == old(self).run,
            final(self).cgnat_detected == old(self).cgnat_detected,
            final(self).global_ip_fetch_failed == old(self).global_ip_fetch_failed,
            final(self).wallet_address == old(self).wallet_address,
            final(self).youtube_video_id == old(self).youtube_video_id,
    {
        self.tunnel = TunnelState::Failed(error);
    }

    /// Record the outcome of the NAT probe.
    pub fn set_probe_results(&mut self, cgnat_detected: bool, global_ip_fetch_failed: bool)
        ensures
            final(self).cgnat_detected == cgnat_detected,
            final(self).global_ip_fetch_failed == global_ip_fetch_failed,
            final(self).run == old(self).run,
            final(self).tunnel == old(self).tunnel,
            final(self).wallet_address == old(self).wallet_address,
            final(self).youtube_video_id == old(self).youtube_video_id,
    {
        self.cgnat_detected = cgnat_detected;
        self.global_ip_fetch_failed = global_ip_fetch_failed;
    }

    /// The id of the current stream session, if a server start
    /// assigned one.
    pub fn current_session_id(&self) -> (r: Option<String>)
        ensures
            match self.run {
                RunState::Stopped => r is None,
                RunState::Starting { ref session_id } => r matches Some(s) && s@ == session_id@,
                RunState::Running { ref session_id, .. } => r matches Some(s) && s@
                    == session_id@,
            },
    {
        match &self.run {
            RunState::Stopped => None,
            RunState::Starting { session_id } => Some(session_id.clone()),
            RunState::Running { session_id, .. } => Some(session_id.clone()),
        }
    }

    /// Stop the server.  When it was not running the result is
    /// `NotRunning`, but the state still ends up stopped either way:
    /// observers always receive a final "not running" status.  The
    /// ended session's id, if any, is handed back so its end can be
    /// persisted.
    pub fn stop(&mut self) -> (r: (Result<Option<String>, LifecycleError>, ServerStatus))
        ensures
            final(self).run is Stopped,
            final(self).tunnel is Stopped,
            final(self).cgnat_detected == old(self).cgnat_detected,
            final(self).global_ip_fetch_failed == old(self).global_ip_fetch_failed,
            final(self).wallet_address == old(self).wallet_address,
            final(self).youtube_video_id == old(self).youtube_video_id,
            match old(self).run {
                RunState::Running { ref session_id, .. } => r.0 matches Ok(s) && s matches Some(
                    sid,
                ) && sid@ == session_id@,
                _ => r.0 matches Err(e) && e is NotRunning,
            },
            r.1.is_running == false,
            r.1.ws_url is None,
            r.1.obs_url is None,
            r.1.cloudflare_http_url is None,
            r.1.tunnel_status@ == "Stopped"@,
            r.1.tunnel_error is None,
            r.1.cgnat_detected == old(self).cgnat_detected,
            r.1.global_ip_fetch_failed == old(self).global_ip_fetch_failed,
    {
        let result = match &self.run {
            RunState::Running { session_id, .. } => Ok(Some(session_id.clone())),
            _ => Err(LifecycleError::NotRunning),
        };
        self.run = RunState::Stopped;
        self.tunnel = TunnelState::Stopped;
        let status = self.status();
        (result, status)
    }

    /// A point-in-time status snapshot: the viewer URL comes from the
    /// tunnel when it runs and from the local listener otherwise, and
    /// the tunnel state is reported as text.
    pub fn status(&self) -> (r: ServerStatus)
        ensures
            r.is_running == (self.run is Running),
            r.cgnat_detected == self.cgnat_detected,
            r.global_ip_fetch_failed == self.global_ip_fetch_failed,
            match self.run {
                RunState::Running { ref session_id, ref host, ws_port, obs_port } => {
                    &&& (match self.tunnel {
                        TunnelState::Running(ref u) => {
                            &&& r.ws_url matches Some(w) && w@ == wss_url_of(u@)
                            &&& r.cloudflare_http_url matches Some(c) && c@ == u@
                            &&& r.tunnel_status@ == "Running"@
                            &&& r.tunnel_error is None
                        },
                        TunnelState::Failed(ref e) => {
                            &&& r.ws_url matches Some(w) && w@ == local_ws_url(host@, ws_port)
                            &&& r.cloudflare_http_url is None
                            &&& r.tunnel_status@ == "Failed"@
                            &&& r.tunnel_error matches Some(t) && t@ == e@
                        },
                        _ => {
                            &&& r.ws_url matches Some(w) && w@ == local_ws_url(host@, ws_port)
                            &&& r.cloudflare_http_url is None
                            &&& r.tunnel_status@ == "Starting"@
                            &&& r.tunnel_error is None
                        },
                    })
                    &&& r.obs_url matches Some(o) && o@ == obs_url_of(host@, obs_port)
                },
                _ => {
                    &&& r.ws_url is None
                    &&& r.obs_url is None
                    &&& r.cloudflare_http_url is None
                    &&& r.tunnel_status@ == "Stopped"@
                    &&& r.tunnel_error is None
                },
            },
    {
        match &self.run {
            RunState::Running { session_id: _, host, ws_port, obs_port } => {
                let obs_url = build_obs_url(host.as_str(), *obs_port);
                match &self.tunnel {
                    TunnelState::Running(u) => ServerStatus {
                        is_running: true,
                        ws_url: Some(build_wss_url(u.as_str())),
                        obs_url: Some(obs_url),
                        global_ip_fetch_failed: self.global_ip_fetch_failed,
                        cgnat_detected: self.cgnat_detected,
                        cloudflare_http_url: Some(u.clone()),
                        tunnel_status: TunnelStatus::Running.as_text(),
                        tunnel_error: None,
                    },
                    TunnelState::Failed(e) => ServerStatus {
                        is_running: true,
                        ws_url: Some(build_local_ws_url(host.as_str(), *ws_port)),
                        obs_url: Some(obs_url),
                        global_ip_fetch_failed: self.global_ip_fetch_failed,
                        cgnat_detected: self.cgnat_detected,
                        cloudflare_http_url: None,
                        tunnel_status: TunnelStatus::Failed.as_text(),
                        tunnel_error: Some(e.clone()),
                    },
                    _ => ServerStatus {
                        is_running: true,
                        ws_url: Some(build_local_ws_url(host.as_str(), *ws_port)),
                        obs_url: Some(obs_url),
                        global_ip_fetch_failed: self.global_ip_fetch_failed,
                        cgnat_detected: self.cgnat_detected,
                        cloudflare_http_url: None,
                        tunnel_status: TunnelStatus::Starting.as_text(),
                        tunnel_error: None,
                    },
                }
            },
            _ => ServerStatus {
                is_running: false,
                ws_url: None,
                obs_url: None,
                global_ip_fetch_failed: self.global_ip_fetch_failed,
                cgnat_detected: self.cgnat_detected,
                cloudflare_http_url: None,
                tunnel_status: TunnelStatus::Stopped.as_text(),
                tunnel_error: None,
            },
        }
    }
}

/// A well-formed video id: ten to twelve characters, each a letter, a
/// digit, a hyphen or an underscore.
pub open spec fn valid_youtube_id(s: Seq<char>) -> bool {
    &&& 10 <= s.len() <= 12
    &&& forall|i: int| 0 <= i < s.len() ==> is_id_char(#[trigger] s[i])
}

/// A character allowed in a video id.
pub open spec fn is_id_char(c: char) -> bool {
    ('a' <= c && c <= 'z') || ('A' <= c && c <= 'Z') || ('0' <= c && c <= '9') || c == '-' || c
        == '_'
}

fn is_id_char_exec(c: char) -> (r: bool)
    ensures
        r == is_id_char(c),
{
    (c >= 'a' && c <= 'z') || (c >= 'A' && c <= 'Z') || (c >= '0' && c <= '9') || c == '-' || c
        == '_'
}

/// Streamer-facing connection and payment data.
pub struct StreamerInfo {
    /// The URL viewers connect to.
    pub ws_url: String,
    /// The URL of the overlay page.
    pub obs_url: String,
    /// The streamer's payout wallet address.
    pub wallet_address: String,
    /// The linked video id, if one is set.
    pub youtube_video_id: Option<String>,
}

impl LifecycleManager {
    /// Store the payout wallet address.  The address is trimmed and
    /// accepted exactly when it is `0x` followed by 64 hex digits;
    /// each malformation draws its own error text and changes nothing.
    pub fn set_wallet_address(&mut self, address: &str) -> (r: Result<(), String>)
        ensures
            final(self).run == old(self).run,
            final(self).tunnel == old(self).tunnel,
            final(self).cgnat_detected == old(self).cgnat_detected,
            final(self).global_ip_fetch_failed == old(self).global_ip_fetch_failed,
            final(self).youtube_video_id == old(self).youtube_video_id,
            r is Ok <==> valid_wallet_address(crate::strutil::trim_spaces(address@)),
            ({
                let t = crate::strutil::trim_spaces(address@);
                if !(t.len() >= 2 && t[0] == '0' && t[1] == 'x') {
                    r matches Err(e) && e@ == "Invalid SUI wallet address: Must start with '0x'."@
                        && final(self).wallet_address == old(self).wallet_address
                } else if t.len() != 66 {
                    r matches Err(e) && e@ == "Invalid SUI wallet address: Expected length 66, got "@
                        + dec_digits(t.len()) + seq!['.'] && final(self).wallet_address == old(self).wallet_address
                } else if !(forall|i: int|
                    2 <= i < 66 ==> crate::wallet::is_hex_digit(#[trigger] t[i])) {
                    r matches Err(e) && e@
                        == "Invalid SUI wallet address: Contains non-hexadecimal characters after '0x'."@
                        && final(self).wallet_address == old(self).wallet_address
                } else {
                    r is Ok && (final(self).wallet_address matches Some(w) && w@ == t)
                }
            }),
    {
        let trimmed = crate::strutil::trim_str(address);
        let n = trimmed.as_str().unicode_len();
        if !(n >= 2 && trimmed.as_str().get_char(0) == '0' && trimmed.as_str().get_char(1) == 'x') {
            return Err(String::from_str("Invalid SUI wallet address: Must start with '0x'."));
        }
        if n != 66 {
            let mut msg: Vec<char> = Vec::new();
            append_str(&mut msg, "Invalid SUI wallet address: Expected length 66, got ");
            push_dec_u64(&mut msg, n as u64);
            msg.push('.');
            proof {
                reveal_strlit("Invalid SUI wallet address: Expected length 66, got ");
                assert(msg@ =~= ("Invalid SUI wallet address: Expected length 66, got "@)
                    + dec_digits(trimmed@.len()) + seq!['.']);
            }
            return Err(chars_to_string(&msg));
        }
        let mut i: usize = 2;
        while i < 66
            invariant
                2 <= i <= 66,
                trimmed@.len() == 66,
                trimmed@ == crate::strutil::trim_spaces(address@),
                trimmed@[0] == '0' && trimmed@[1] == 'x',
                *self == *old(self),
                forall|j: int| 2 <= j < i ==> crate::wallet::is_hex_digit(#[trigger] trimmed@[j]),
            decreases 66 - i,
        {
            let c = trimmed.as_str().get_char(i);
            if !((c >= '0' && c <= '9') || (c >= 'a' && c <= 'f') || (c >= 'A' && c <= 'F')) {
                proof {
                    assert(!crate::wallet::is_hex_digit(
                        crate::strutil::trim_spaces(address@)[i as int],
                    ));
                }
                return Err(
                    String::from_str(
                        "Invalid SUI wallet address: Contains non-hexadecimal characters after '0x'.",
                    ),
                );
            }
            i = i + 1;
        }
        self.wallet_address = Some(trimmed);
        Ok(())
    }

    /// The stored wallet address, if one was configured.
    pub fn get_wallet_address(&self) -> (r: Option<String>)
        ensures
            match (r, self.wallet_address) {
                (Some(a), Some(ref b)) => a@ == b@,
                (None, None) => true,
                _ => false,
            },
    {
        match &self.wallet_address {
            Some(w) => Some(w.clone()),
            None => None,
        }
    }

    /// Store the linked video id.  The id is trimmed and accepted
    /// exactly when it is ten to twelve characters of letters, digits,
    /// hyphens and underscores.
    pub fn set_youtube_video_id(&mut self, video_id: &str) -> (r: Result<(), String>)
        ensures
            final(self).run == old(self).run,
            final(self).tunnel == old(self).tunnel,
            final(self).cgnat_detected == old(self).cgnat_detected,
            final(self).global_ip_fetch_failed == old(self).global_ip_fetch_failed,
            final(self).wallet_address == old(self).wallet_address,
            r is Ok <==> valid_youtube_id(crate::strutil::trim_spaces(video_id@)),
            ({
                let t = crate::strutil::trim_spaces(video_id@);
                if t.len() == 0 {
                    r matches Err(e) && e@ == "YouTube video ID cannot be empty."@ && final(self).youtube_video_id == old(self).youtube_video_id
                } else if t.len() < 10 || t.len() > 12 {
                    r matches Err(e) && e@
                        == "Invalid YouTube video ID length: Expected around 11 characters, got "@
                        + dec_digits(t.len()) + seq!['.'] && final(self).youtube_video_id == old(self).youtube_video_id
                } else if !(forall|i: int| 0 <= i < t.len() ==> is_id_char(#[trigger] t[i])) {
                    r matches Err(e) && e@
                        == "Invalid YouTube video ID: Contains invalid characters."@ && final(self).youtube_video_id == old(self).youtube_video_id
                } else {
                    r is Ok && (final(self).youtube_video_id matches Some(v) && v@ == t)
                }
            }),
    {
        let trimmed = crate::strutil::trim_str(video_id);
        let n = trimmed.as_str().unicode_len();
        if n == 0 {
            return Err(String::from_str("YouTube video ID cannot be empty."));
        }
        if n < 10 || n > 12 {
            let mut msg: Vec<char> = Vec::new();
            append_str(&mut msg, "Invalid YouTube video ID length: Expected around 11 characters, got ");
            push_dec_u64(&mut msg, n as u64);
            msg.push('.');
            proof {
                reveal_strlit(
                    "Invalid YouTube video ID length: Expected around 11 characters, got ",
                );
                assert(msg@ =~= (
                "Invalid YouTube video ID length: Expected around 11 characters, got "@)
                    + dec_digits(trimmed@.len()) + seq!['.']);
            }
            return Err(chars_to_string(&msg));
        }
        let mut i: usize = 0;
        while i < n
            invariant
                i <= n,
                n == trimmed@.len(),
                trimmed@ == crate::strutil::trim_spaces(video_id@),
                10 <= n <= 12,
                *self == *old(self),
                forall|j: int| 0 <= j < i ==> is_id_char(#[trigger] trimmed@[j]),
            decreases n - i,
        {
            if !is_id_char_exec(trimmed.as_str().get_char(i)) {
                proof {
                    assert(!is_id_char(crate::strutil::trim_spaces(video_id@)[i as int]));
                }
                return Err(
                    String::from_str("Invalid YouTube video ID: Contains invalid characters."),
                );
            }
            i = i + 1;
        }
        self.youtube_video_id = Some(trimmed);
        Ok(())
    }

    /// The stored video id, if one was configured.
    pub fn get_youtube_video_id(&self) -> (r: Option<String>)
        ensures
            match (r, self.youtube_video_id) {
                (Some(a), Some(ref b)) => a@ == b@,
                (None, None) => true,
                _ => false,
            },
    {
        match &self.youtube_video_id {
            Some(v) => Some(v.clone()),
            None => None,
        }
    }

    /// The streamer's connection data: needs a configured wallet and a
    /// running server, and names what is missing otherwise.
    pub fn get_streamer_info(&self) -> (r: Result<StreamerInfo, String>)
        ensures
            match self.wallet_address {
                None => r matches Err(e) && e@
                    == "Wallet address is not set. Please configure it first."@,
                Some(ref w) => match self.run {
                    RunState::Running { session_id: _, ref host, ws_port, obs_port } => {
                        &&& r matches Ok(info)
                        &&& info.ws_url@ == local_ws_url(host@, ws_port)
                        &&& info.obs_url@ == obs_url_of(host@, obs_port)
                        &&& info.wallet_address@ == w@
                        &&& match (info.youtube_video_id, self.youtube_video_id) {
                            (Some(a), Some(ref b)) => a@ == b@,
                            (None, None) => true,
                            _ => false,
                        }
                    },
                    _ => r matches Err(e) && e@
                        == "WebSocket server host is not available (server not running?)."@,
                },
            },
    {
        let wallet = match &self.wallet_address {
            Some(w) => w.clone(),
            None => {
                return Err(
                    String::from_str("Wallet address is not set. Please configure it first."),
                );
            },
        };
        match &self.run {
            RunState::Running { session_id: _, host, ws_port, obs_port } => Ok(
                StreamerInfo {
                    ws_url: build_local_ws_url(host.as_str(), *ws_port),
                    obs_url: build_obs_url(host.as_str(), *obs_port),
                    wallet_address: wallet,
                    youtube_video_id: match &self.youtube_video_id {
                        Some(v) => Some(v.clone()),
                        None => None,
                    },
                },
            ),
            _ => Err(
                String::from_str("WebSocket server host is not available (server not running?)."),
            ),
        }
    }
}

/// Build `wss://<rest>/ws` from the tunnel's https URL.
fn build_wss_url(https_url: &str) -> (r: String)
    ensures
        r@ == wss_url_of(https_url@),
{
    let chars = crate::strutil::str_chars(https_url);
    let n = chars.len();
    let mut out: Vec<char> = Vec::new();
    let is_https = n >= 8 && chars[0] == 'h' && chars[1] == 't' && chars[2] == 't' && chars[3]
        == 'p' && chars[4] == 's' && chars[5] == ':' && chars[6] == '/' && chars[7] == '/';
    proof {
        if is_https {
            assert(chars@.subrange(0, 8) =~= lit_https());
        } else {
            if chars@.len() >= 8 && chars@.subrange(0, 8) == lit_https() {
                assert(forall|j: int|
                    0 <= j < 8 ==> #[trigger] chars@.subrange(0, 8)[j] == chars@[j]);
            }
        }
    }
    let start: usize = if is_https {
        append_str(&mut out, "wss://");
        proof {
            reveal_strlit("wss://");
            assert(("wss://"@) =~= lit_wss_scheme());
        }
        8
    } else {
        0
    };
    let mut i = start;
    while i < n
        invariant
            start <= i <= n,
            n == chars@.len(),
            chars@ == https_url@,
            out@ == if start == 8 {
                lit_wss_scheme() + chars@.subrange(8, i as int)
            } else {
                chars@.subrange(0, i as int)
            },
        decreases n - i,
    {
        out.push(chars[i]);
        proof {
            assert(chars@.subrange(start as int, i + 1 as int) =~= chars@.subrange(
                start as int,
                i as int,
            ).push(chars@[i as int]));
        }
        i = i + 1;
    }
    append_str(&mut out, "/ws");
    proof {
        reveal_strlit("/ws");
        assert(("/ws"@) =~= seq!['/', 'w', 's']);
        if is_https {
            assert(chars@.subrange(8, n as int) =~= chars@.skip(8));
        } else {
            assert(chars@.subrange(0, n as int) =~= chars@);
        }
        assert(out@ =~= wss_url_of(https_url@));
    }
    chars_to_string(&out)
}

/// Build `ws://<host>:<port>/ws`.
fn build_local_ws_url(host: &str, port: u16) -> (r: String)
    ensures
        r@ == local_ws_url(host@, port),
{
    let mut out: Vec<char> = Vec::new();
    append_str(&mut out, "ws://");
    proof {
        reveal_strlit("ws://");
        assert(("ws://"@) =~= lit_ws_scheme());
    }
    append_str(&mut out, host);
    out.push(':');
    push_dec_u64(&mut out, port as u64);
    append_str(&mut out, "/ws");
    proof {
        reveal_strlit("/ws");
        assert(("/ws"@) =~= seq!['/', 'w', 's']);
        assert(out@ =~= local_ws_url(host@, port));
    }
    chars_to_string(&out)
}

/// Build `http://<host>:<port>/obs/`.
fn build_obs_url(host: &str, port: u16) -> (r: String)
    ensures
        r@ == obs_url_of(host@, port),
{
    let mut out: Vec<char> = Vec::new();
    append_str(&mut out, "http://");
    proof {
        reveal_strlit("http://");
        assert(("http://"@) =~= seq!['h', 't', 't', 'p', ':', '/', '/']);
    }
    append_str(&mut out, host);
    out.push(':');
    push_dec_u64(&mut out, port as u64);
    append_str(&mut out, "/obs/");
    proof {
        reveal_strlit("/obs/");
        assert(("/obs/"@) =~= seq!['/', 'o', 'b', 's', '/']);
        assert(out@ =~= obs_url_of(host@, port));
    }
    chars_to_string(&out)
}

} // verus!
