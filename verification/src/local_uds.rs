//! A local sandbox backend communicating over a Unix domain socket.
//!
//! The decision logic of this backend is here: the configuration and its
//! builder, the socket and runtime strategies, the instance's health
//! bookkeeping, the watch-session state machine, and the exact command lines
//! each runtime kind runs.  The surrounding runtime performs the spawns,
//! container calls and socket I/O these decisions call for.

use vstd::prelude::*;
use vstd::string::StringExecFns;

use rand::Rng;

verus! {

/// Failures of the local Unix-domain-socket backend's verified logic.
#[derive(Debug)]
pub enum LocalUdsInstanceError {
    /// The one-time micro-VM setup script exited unsuccessfully; the payload
    /// carries what it wrote to its error stream.
    FirecrackerSetupRun(String),
    /// The instance has exhausted its predefined request count.
    NoRemainingRequests,
    /// The watch session reported an error on its stream.
    Watch,
    /// The initial watch-session connection timed out after its retries.
    WatchInitTimeout,
    /// The server closed the watch session before the first liveness ping.
    WatchClosed,
    /// The watch session has shut down; the server is considered unhealthy.
    WatchShutDown,
}

impl LocalUdsInstanceError {
    /// A short description of the error, one per variant.
    pub fn message(&self) -> (r: &'static str)
        ensures
            (*self is NoRemainingRequests) ==> r@
                == "no remaining requests, server is considered unhealthy"@,
            (*self is WatchInitTimeout) ==> r@
                == "timeout while retrying to start a client watch session"@,
            (*self is WatchClosed) ==> r@ == "server closed watch session before expected"@,
            (*self is WatchShutDown) ==> r@
                == "watch session is shut down, server is considered unhealthy"@,
            (*self is Watch) ==> r@ == "error on the watch session stream"@,
            (*self is FirecrackerSetupRun) ==> r@ == "failed to run firecracker-setup"@,
    {
        match self {
            LocalUdsInstanceError::FirecrackerSetupRun(_) => "failed to run firecracker-setup",
            LocalUdsInstanceError::NoRemainingRequests => {
                "no remaining requests, server is considered unhealthy"
            },
            LocalUdsInstanceError::Watch => "error on the watch session stream",
            LocalUdsInstanceError::WatchInitTimeout => {
                "timeout while retrying to start a client watch session"
            },
            LocalUdsInstanceError::WatchClosed => "server closed watch session before expected",
            LocalUdsInstanceError::WatchShutDown => {
                "watch session is shut down, server is considered unhealthy"
            },
        }
    }
}

/// Socket strategy when spawning instances over a local Unix domain socket.
#[derive(Clone, Debug)]
pub enum LocalUdsSocketStrategy {
    /// Use the given path as the socket location.
    Custom(String),
    /// Randomly assign a socket from a temp file.
    Random,
    /// Randomly assign a socket from a temp file in the given parent
    /// directory.
    RandomIn(String),
}

impl Default for LocalUdsSocketStrategy {
    /// Defaults to a random temp-file socket.
    fn default() -> (r: Self)
        ensures
            r is Random,
    {
        LocalUdsSocketStrategy::Random
    }
}

impl LocalUdsSocketStrategy {
    /// Creates a random socket strategy.
    pub fn random() -> (r: Self)
        ensures
            r is Random,
    {
        LocalUdsSocketStrategy::Random
    }

    /// Creates a random socket strategy in the given parent directory.
    pub fn random_in(path: String) -> (r: Self)
        ensures
            r == LocalUdsSocketStrategy::RandomIn(path),
    {
        LocalUdsSocketStrategy::RandomIn(path)
    }

    /// Creates a custom socket strategy for the given socket location.
    pub fn custom(path: String) -> (r: Self)
        ensures
            r == LocalUdsSocketStrategy::Custom(path),
    {
        LocalUdsSocketStrategy::Custom(path)
    }

    /// An equal copy, written by hand so its contract can say so.
    pub fn duplicate(&self) -> (r: Self)
        ensures
            r == *self,
    {
        match self {
            LocalUdsSocketStrategy::Custom(p) => LocalUdsSocketStrategy::Custom(p.clone()),
            LocalUdsSocketStrategy::Random => LocalUdsSocketStrategy::Random,
            LocalUdsSocketStrategy::RandomIn(p) => LocalUdsSocketStrategy::RandomIn(p.clone()),
        }
    }
}

/// Runtime strategy when spawning instances.
#[derive(Clone, Copy, Debug)]
pub enum LocalUdsRuntimeStrategy {
    /// Run containers on the local machine.
    LocalDocker,
    /// Run processes in local micro-VM jails.
    LocalFirecracker,
    /// Run processes on the local machine.
    LocalProcess,
}

impl Default for LocalUdsRuntimeStrategy {
    /// Defaults to plain local processes.
    fn default() -> (r: Self)
        ensures
            r is LocalProcess,
    {
        LocalUdsRuntimeStrategy::LocalProcess
    }
}

/// Configuration for one local Unix-domain-socket backend.
pub struct LocalUdsInstanceSpec {
    /// Canonical path to the sandbox server program.
    pub cyclone_cmd_path: String,
    /// Canonical path to the server's secret key file.
    pub cyclone_decryption_key_path: String,
    /// Canonical path to the language server program.
    pub lang_server_cmd_path: String,
    /// Socket strategy for a spawned server.
    pub socket_strategy: LocalUdsSocketStrategy,
    /// Runtime strategy for a spawned server.
    pub runtime_strategy: LocalUdsRuntimeStrategy,
    /// Watch timeout, in seconds, for a spawned server.
    pub watch_timeout_secs: Option<u64>,
    /// How many requests a spawned server accepts before it is recycled;
    /// `None` means unlimited.
    pub limit_requests: Option<u32>,
    /// Enable the `ping` execution endpoint.
    pub ping: bool,
    /// Enable the `resolver` execution endpoint.
    pub resolver: bool,
    /// Enable the `action` execution endpoint.
    pub action: bool,
    /// Size of the pool this spec will serve.
    pub pool_size: u16,
    /// Connect timeout, in milliseconds, for the socket client.
    pub connect_timeout_millis: u64,
}

/// Builder for [`LocalUdsInstanceSpec`]: every field has a default, so
/// building never fails.
pub struct LocalUdsInstanceSpecBuilder {
    /// Chosen path to the sandbox server program, if any.
    pub cyclone_cmd_path: Option<String>,
    /// Chosen path to the server's secret key file, if any.
    pub cyclone_decryption_key_path: Option<String>,
    /// Chosen path to the language server program, if any.
    pub lang_server_cmd_path: Option<String>,
    /// Chosen socket strategy, if any.
    pub socket_strategy: Option<LocalUdsSocketStrategy>,
    /// Chosen runtime strategy, if any.
    pub runtime_strategy: Option<LocalUdsRuntimeStrategy>,
    /// Chosen watch timeout, if any.
    pub watch_timeout_secs: Option<Option<u64>>,
    /// Chosen request limit, if any.
    pub limit_requests: Option<Option<u32>>,
    /// Whether the `ping` endpoint was chosen.
    pub ping: Option<bool>,
    /// Whether the `resolver` endpoint was chosen.
    pub resolver: Option<bool>,
    /// Whether the `action` endpoint was chosen.
    pub action: Option<bool>,
    /// Chosen pool size, if any.
    pub pool_size: Option<u16>,
    /// Chosen connect timeout, if any.
    pub connect_timeout_millis: Option<u64>,
}

impl Default for LocalUdsInstanceSpecBuilder {
    /// A builder with no field chosen yet.
    fn default() -> (r: Self)
        ensures
            r == LocalUdsInstanceSpecBuilder::empty_builder(),
    {
        LocalUdsInstanceSpecBuilder {
            cyclone_cmd_path: None,
            cyclone_decryption_key_path: None,
            lang_server_cmd_path: None,
            socket_strategy: None,
            runtime_strategy: None,
            watch_timeout_secs: None,
            limit_requests: None,
            ping: None,
            resolver: None,
            action: None,
            pool_size: None,
            connect_timeout_millis: None,
        }
    }
}

impl LocalUdsInstanceSpecBuilder {
    /// The builder value with no field chosen.
    pub open spec fn empty_builder() -> LocalUdsInstanceSpecBuilder {
        LocalUdsInstanceSpecBuilder {
            cyclone_cmd_path: None,
            cyclone_decryption_key_path: None,
            lang_server_cmd_path: None,
            socket_strategy: None,
            runtime_strategy: None,
            watch_timeout_secs: None,
            limit_requests: None,
            ping: None,
            resolver: None,
            action: None,
            pool_size: None,
            connect_timeout_millis: None,
        }
    }

    /// A builder with no field chosen yet.
    pub fn new() -> (r: Self)
        ensures
            r == Self::empty_builder(),
    {
        Self::default()
    }

    /// Sets the path to the sandbox server program.
    pub fn cyclone_cmd_path(&mut self, value: String)
        ensures
            *final(self) == (LocalUdsInstanceSpecBuilder {
                cyclone_cmd_path: Some(value),
                ..*old(self)
            }),
    {
        self.cyclone_cmd_path = Some(value);
    }

    /// Sets the path to the server's secret key file.
    pub fn cyclone_decryption_key_path(&mut self, value: String)
        ensures
            *final(self) == (LocalUdsInstanceSpecBuilder {
                cyclone_decryption_key_path: Some(value),
                ..*old(self)
            }),
    {
        self.cyclone_decryption_key_path = Some(value);
    }

    /// Sets the path to the language server program.
    pub fn lang_server_cmd_path(&mut self, value: String)
        ensures
            *final(self) == (LocalUdsInstanceSpecBuilder {
                lang_server_cmd_path: Some(value),
                ..*old(self)
            }),
    {
        self.lang_server_cmd_path = Some(value);
    }

    /// Sets the socket strategy for a spawned server.
    pub fn socket_strategy(&mut self, value: LocalUdsSocketStrategy)
        ensures
            *final(self) == (LocalUdsInstanceSpecBuilder {
                socket_strategy: Some(value),
                ..*old(self)
            }),
    {
        self.socket_strategy = Some(value);
    }

    /// Sets the runtime strategy for a spawned server.
    pub fn runtime_strategy(&mut self, value: LocalUdsRuntimeStrategy)
        ensures
            *final(self) == (LocalUdsInstanceSpecBuilder {
                runtime_strategy: Some(value),
                ..*old(self)
            }),
    {
        self.runtime_strategy = Some(value);
    }

    /// Sets the watch timeout, in seconds, for a spawned server.
    pub fn watch_timeout_secs(&mut self, value: u64)
        ensures
            *final(self) == (LocalUdsInstanceSpecBuilder {
                watch_timeout_secs: Some(Some(value)),
                ..*old(self)
            }),
    {
        self.watch_timeout_secs = Some(Some(value));
    }

    /// Sets the limit-requests strategy for a spawned server.
    pub fn limit_requests(&mut self, value: Option<u32>)
        ensures
            *final(self) == (LocalUdsInstanceSpecBuilder {
                limit_requests: Some(value),
                ..*old(self)
            }),
    {
        self.limit_requests = Some(value);
    }

    /// Sets the pool size this spec will serve.
    pub fn pool_size(&mut self, value: u16)
        ensures
            *final(self) == (LocalUdsInstanceSpecBuilder { pool_size: Some(value), ..*old(self) }),
    {
        self.pool_size = Some(value);
    }

    /// Sets the connect timeout, in milliseconds, for the socket client.
    pub fn connect_timeout_millis(&mut self, value: u64)
        ensures
            *final(self) == (LocalUdsInstanceSpecBuilder {
                connect_timeout_millis: Some(value),
                ..*old(self)
            }),
    {
        self.connect_timeout_millis = Some(value);
    }

    fn set_ping(&mut self, value: bool)
        ensures
            *final(self) == (LocalUdsInstanceSpecBuilder { ping: Some(value), ..*old(self) }),
    {
        self.ping = Some(value);
    }

    fn set_resolver(&mut self, value: bool)
        ensures
            *final(self) == (LocalUdsInstanceSpecBuilder { resolver: Some(value), ..*old(self) }),
    {
        self.resolver = Some(value);
    }

    fn set_action(&mut self, value: bool)
        ensures
            *final(self) == (LocalUdsInstanceSpecBuilder { action: Some(value), ..*old(self) }),
    {
        self.action = Some(value);
    }

    /// Sets the limit-requests strategy to one request per instance.
    pub fn oneshot(&mut self)
        ensures
            *final(self) == (LocalUdsInstanceSpecBuilder {
                limit_requests: Some(Some(1u32)),
                ..*old(self)
            }),
    {
        self.limit_requests(Some(1));
    }

    /// Enables the `ping` execution endpoint for a spawned server.
    pub fn ping(&mut self)
        ensures
            *final(self) == (LocalUdsInstanceSpecBuilder { ping: Some(true), ..*old(self) }),
    {
        self.set_ping(true);
    }

    /// Enables the `resolver` execution endpoint for a spawned server.
    pub fn resolver(&mut self)
        ensures
            *final(self) == (LocalUdsInstanceSpecBuilder { resolver: Some(true), ..*old(self) }),
    {
        self.set_resolver(true);
    }

    /// Enables the `action` execution endpoint for a spawned server.
    pub fn action(&mut self)
        ensures
            *final(self) == (LocalUdsInstanceSpecBuilder { action: Some(true), ..*old(self) }),
    {
        self.set_action(true);
    }

    /// Enables all available execution endpoints for a spawned server.
    pub fn all_endpoints(&mut self)
        ensures
            *final(self) == (LocalUdsInstanceSpecBuilder {
                action: Some(true),
                resolver: Some(true),
                ..*old(self)
            }),
    {
        self.action();
        self.resolver();
    }

    /// Builds the spec.  Every field has a default, so building always
    /// succeeds: the paths default to empty, the socket strategy to
    /// `Random`, the runtime to `LocalProcess`, the request limit to one
    /// request per instance, the pool size to ten slots, and the connect
    /// timeout to ten milliseconds.
    pub fn build(&self) -> (r: Result<LocalUdsInstanceSpec, LocalUdsInstanceError>)
        ensures
            r matches Ok(s) && {
                &&& (self.cyclone_cmd_path matches Some(v) ==> s.cyclone_cmd_path == v)
                &&& (self.cyclone_cmd_path is None ==> s.cyclone_cmd_path@ == Seq::<char>::empty())
                &&& (self.cyclone_decryption_key_path matches Some(v)
                    ==> s.cyclone_decryption_key_path == v)
                &&& (self.cyclone_decryption_key_path is None ==> s.cyclone_decryption_key_path@
                    == Seq::<char>::empty())
                &&& (self.lang_server_cmd_path matches Some(v) ==> s.lang_server_cmd_path == v)
                &&& (self.lang_server_cmd_path is None ==> s.lang_server_cmd_path@
                    == Seq::<char>::empty())
                &&& s.socket_strategy == (match self.socket_strategy {
                    Some(v) => v,
                    None => LocalUdsSocketStrategy::Random,
                })
                &&& s.runtime_strategy == (match self.runtime_strategy {
                    Some(v) => v,
                    None => LocalUdsRuntimeStrategy::LocalProcess,
                })
                &&& s.watch_timeout_secs == (match self.watch_timeout_secs {
                    Some(v) => v,
                    None => None::<u64>,
                })
                &&& s.limit_requests == (match self.limit_requests {
                    Some(v) => v,
                    None => Some(1u32),
                })
                &&& s.ping == (match self.ping {
                    Some(v) => v,
                    None => false,
                })
                &&& s.resolver == (match self.resolver {
                    Some(v) => v,
                    None => false,
                })
                &&& s.action == (match self.action {
                    Some(v) => v,
                    None => false,
                })
                &&& s.pool_size == (match self.pool_size {
                    Some(v) => v,
                    None => 10u16,
                })
                &&& s.connect_timeout_millis == (match self.connect_timeout_millis {
                    Some(v) => v,
                    None => 10u64,
                })
            },
    {
        Ok(
            LocalUdsInstanceSpec {
                cyclone_cmd_path: match &self.cyclone_cmd_path {
                    Some(v) => v.clone(),
                    None => String::new(),
                },
                cyclone_decryption_key_path: match &self.cyclone_decryption_key_path {
                    Some(v) => v.clone(),
                    None => String::new(),
                },
                lang_server_cmd_path: match &self.lang_server_cmd_path {
                    Some(v) => v.clone(),
                    None => String::new(),
                },
                socket_strategy: match &self.socket_strategy {
                    Some(v) => v.duplicate(),
                    None => LocalUdsSocketStrategy::Random,
                },
                runtime_strategy: match &self.runtime_strategy {
                    Some(v) => *v,
                    None => LocalUdsRuntimeStrategy::LocalProcess,
                },
                watch_timeout_secs: match &self.watch_timeout_secs {
                    Some(v) => *v,
                    None => None,
                },
                limit_requests: match &self.limit_requests {
                    Some(v) => *v,
                    None => Some(1),
                },
                ping: match &self.ping {
                    Some(v) => *v,
                    None => false,
                },
                resolver: match &self.resolver {
                    Some(v) => *v,
                    None => false,
                },
                action: match &self.action {
                    Some(v) => *v,
                    None => false,
                },
                pool_size: match &self.pool_size {
                    Some(v) => *v,
                    None => 10,
                },
                connect_timeout_millis: match &self.connect_timeout_millis {
                    Some(v) => *v,
                    None => 10,
                },
            },
        )
    }
}


/// Number of attempts to open the initial watch session after a spawn.
pub const WATCH_INIT_RETRIES: u32 = 30;

/// Milliseconds between two initial watch-session attempts.
pub const WATCH_INIT_RETRY_DELAY_MS: u64 = 64;

/// The health bookkeeping of one live instance: its remaining-request budget
/// and whether the background watch session is still listening.
pub struct LocalUdsInstanceHealth {
    /// Remaining requests the instance may serve; `None` means unlimited.
    pub limit_requests: Option<u32>,
    /// Whether the background watch session is still open.
    pub watch_open: bool,
}

impl LocalUdsInstanceHealth {
    /// Fresh bookkeeping for a just-spawned instance: the configured request
    /// budget, watch session open.
    pub fn new(limit_requests: Option<u32>) -> (h: Self)
        ensures
            h == (LocalUdsInstanceHealth { limit_requests, watch_open: true }),
    {
        LocalUdsInstanceHealth { limit_requests, watch_open: true }
    }

    /// Whether the request budget still allows a request: only an exhausted
    /// budget of zero refuses; an unset budget is unlimited.
    pub fn has_remaining_requests(&self) -> (r: bool)
        ensures
            r <==> self.limit_requests != Some(0u32),
    {
        match self.limit_requests {
            Some(0u32) => false,
            Some(_) => true,
            None => true,
        }
    }

    /// Whether the background watch session is still open.
    pub fn is_watch_shutdown_open(&self) -> (r: bool)
        ensures
            r == self.watch_open,
    {
        self.watch_open
    }

    /// Records that the background watch session has ended.
    pub fn set_watch_closed(&mut self)
        ensures
            *final(self) == (LocalUdsInstanceHealth { watch_open: false, ..*old(self) }),
    {
        self.watch_open = false;
    }

    /// The health check: a dead watch session is reported first, then an
    /// exhausted request budget; otherwise the instance is healthy.
    pub fn ensure_healthy_client(&self) -> (r: Result<(), LocalUdsInstanceError>)
        ensures
            !self.watch_open ==> (r matches Err(e) && e is WatchShutDown),
            (self.watch_open && self.limit_requests == Some(0u32)) ==> (r matches Err(e)
                && e is NoRemainingRequests),
            r is Ok <==> (self.watch_open && self.limit_requests != Some(0u32)),
    {
        if !self.is_watch_shutdown_open() {
            return Err(LocalUdsInstanceError::WatchShutDown);
        }
        if !self.has_remaining_requests() {
            return Err(LocalUdsInstanceError::NoRemainingRequests);
        }
        Ok(())
    }

    /// Spends one request of the budget, saturating at zero; an unlimited
    /// budget stays unlimited.
    pub fn count_request(&mut self)
        ensures
            final(self).watch_open == old(self).watch_open,
            old(self).limit_requests matches Some(n) ==> final(self).limit_requests == Some(
                (if n > 0 {
                    (n - 1) as u32
                } else {
                    0u32
                }),
            ),
            old(self).limit_requests is None ==> final(self).limit_requests is None,
    {
        match self.limit_requests {
            Some(n) => {
                if n > 0 {
                    self.limit_requests = Some(n - 1);
                } else {
                    self.limit_requests = Some(0);
                }
            },
            None => {},
        }
    }
}

/// Counts down the bounded retries of the initial watch-session connection.
pub struct WatchInitRetries {
    /// Connection attempts left before giving up.
    pub retries: u32,
}

impl WatchInitRetries {
    /// The full retry budget for one spawn.
    pub fn new() -> (r: Self)
        ensures
            r.retries == WATCH_INIT_RETRIES,
    {
        WatchInitRetries { retries: WATCH_INIT_RETRIES }
    }

    /// Records one failed connection attempt.  An exhausted budget is the
    /// fatal handshake timeout; otherwise one credit is spent and the caller
    /// waits [`WATCH_INIT_RETRY_DELAY_MS`] before trying again.
    pub fn attempt_failed(&mut self) -> (r: Result<(), LocalUdsInstanceError>)
        ensures
            old(self).retries < 1 ==> (r matches Err(e) && e is WatchInitTimeout) && *final(self)
                == *old(self),
            old(self).retries >= 1 ==> r is Ok && final(self).retries == old(self).retries - 1,
    {
        if self.retries < 1 {
            return Err(LocalUdsInstanceError::WatchInitTimeout);
        }
        self.retries = self.retries - 1;
        Ok(())
    }
}

/// Checks the first liveness ping of a fresh watch session: the stream
/// closing before a ping is the fatal handshake-closed error, and an error
/// on the stream is fatal too.
pub fn first_watch_event<EW>(event: Option<Result<(), EW>>) -> (r: Result<
    (),
    LocalUdsInstanceError,
>)
    ensures
        event is None ==> (r matches Err(e) && e is WatchClosed),
        event matches Some(Err(w)) ==> (r matches Err(e) && e is Watch),
        r is Ok <==> (event matches Some(x) && x is Ok),
{
    match event {
        None => Err(LocalUdsInstanceError::WatchClosed),
        Some(Err(_)) => Err(LocalUdsInstanceError::Watch),
        Some(Ok(())) => Ok(()),
    }
}

/// One event observed by the background watch loop.
pub enum WatchEvent {
    /// The external stop signal arrived.
    ShutdownRequested,
    /// A liveness ping arrived on the stream.
    Ping,
    /// The stream reported an error: the sandbox is presumed unhealthy.
    StreamError,
    /// The stream ended.
    StreamClosed,
}

/// What the background watch loop does with an event.
pub enum WatchAction {
    /// Close the watch session cleanly, then exit the loop.
    StopAndExit,
    /// Keep draining liveness pings.
    Continue,
    /// Exit the loop; the stream is already gone.
    Exit,
}

/// The background watch loop's reaction to each event: a stop signal and a
/// stream error both close the session and end the loop (the loop never
/// restarts on error — the sandbox is presumed unhealthy thereafter); a ping
/// continues; a closed stream just ends the loop.
pub fn watch_loop_action(event: &WatchEvent) -> (r: WatchAction)
    ensures
        *event is ShutdownRequested ==> r is StopAndExit,
        *event is Ping ==> r is Continue,
        *event is StreamError ==> r is StopAndExit,
        *event is StreamClosed ==> r is Exit,
{
    match event {
        WatchEvent::ShutdownRequested => WatchAction::StopAndExit,
        WatchEvent::Ping => WatchAction::Continue,
        WatchEvent::StreamError => WatchAction::StopAndExit,
        WatchEvent::StreamClosed => WatchAction::Exit,
    }
}


/// The decimal digit character for `d`.
pub open spec fn dec_digit(d: nat) -> char {
    if d == 0 {
        '0'
    } else if d == 1 {
        '1'
    } else if d == 2 {
        '2'
    } else if d == 3 {
        '3'
    } else if d == 4 {
        '4'
    } else if d == 5 {
        '5'
    } else if d == 6 {
        '6'
    } else if d == 7 {
        '7'
    } else if d == 8 {
        '8'
    } else {
        '9'
    }
}

/// The decimal rendering of `n`: most significant digit first, no sign, no
/// leading zeros.
pub open spec fn dec_rep(n: nat) -> Seq<char>
    decreases n,
{
    if n < 10 {
        seq![dec_digit(n)]
    } else {
        dec_rep(n / 10).push(dec_digit(n % 10))
    }
}

/// Relies on `u64::to_string` (`ToString` over `Display` for `u64`): the
/// decimal digits of the value, most significant first, without sign or
/// leading zeros.
#[verifier::external_body]
fn u64_to_string(n: u64) -> (r: String)
    ensures
        r@ == dec_rep(n as nat),
{
    n.to_string()
}

/// Whether `c` is an ASCII alphanumeric character.
pub open spec fn is_alphanumeric_char(c: char) -> bool {
    ('0' <= c && c <= '9') || ('a' <= c && c <= 'z') || ('A' <= c && c <= 'Z')
}

/// Relies on rand's `Alphanumeric` distribution over `thread_rng`: each
/// sampled value is one ASCII alphanumeric character.
#[verifier::external_body]
fn random_suffix() -> (r: String)
    ensures
        r@.len() == 10,
        forall|i: int| 0 <= i < r@.len() ==> is_alphanumeric_char(#[trigger] r@[i]),
{
    rand::thread_rng().sample_iter(&rand::distributions::Alphanumeric).take(10).map(
        char::from,
    ).collect()
}

/// The name for a fresh container: a fixed prefix followed by ten random
/// alphanumeric characters.
pub fn generate_container_name() -> (r: String)
    ensures
        r@.len() == "cyclone-container-"@.len() + 10,
        r@.subrange(0, "cyclone-container-"@.len() as int) == "cyclone-container-"@,
        forall|i: int|
            "cyclone-container-"@.len() <= i < r@.len() ==> is_alphanumeric_char(#[trigger] r@[i]),
{
    let mut name = "cyclone-container-".to_owned();
    let suffix = random_suffix();
    name.append(suffix.as_str());
    proof {
        assert(name@.subrange(0, "cyclone-container-"@.len() as int) =~= "cyclone-container-"@);
    }
    name
}

/// One command for the surrounding runtime to execute: a program and its
/// arguments, in order.
pub struct CommandLine {
    /// The program to run.
    pub program: String,
    /// Its arguments, in order.
    pub args: Vec<String>,
}

impl CommandLine {
    /// The argument list as character sequences, in order.
    pub open spec fn args_model(&self) -> Seq<Seq<char>> {
        self.args@.map_values(|a: String| a@)
    }
}

/// The argument list a spawned sandbox server process is given: where to
/// bind, how to decrypt, which language server to use, and which execution
/// endpoints to enable.
pub open spec fn process_args_model(spec: LocalUdsInstanceSpec, socket: Seq<char>) -> Seq<
    Seq<char>,
> {
    let base = seq![
        "--bind-uds"@,
        socket,
        "--decryption-key"@,
        spec.cyclone_decryption_key_path@,
        "--lang-server"@,
        spec.lang_server_cmd_path@,
        "--enable-watch"@,
    ];
    let with_limit = match spec.limit_requests {
        Some(l) => base.push("--limit-requests"@).push(dec_rep(l as nat)),
        None => base,
    };
    let with_watch = match spec.watch_timeout_secs {
        Some(t) => with_limit.push("--watch-timeout"@).push(dec_rep(t as nat)),
        None => with_limit,
    };
    let with_ping = if spec.ping {
        with_watch.push("--enable-ping"@)
    } else {
        with_watch
    };
    let with_resolver = if spec.resolver {
        with_ping.push("--enable-resolver"@)
    } else {
        with_ping
    };
    if spec.action {
        with_resolver.push("--enable-action-run"@)
    } else {
        with_resolver
    }
}

/// The command that spawns a sandbox server as a plain local process.
pub fn process_spawn_command(spec: &LocalUdsInstanceSpec, socket: &String) -> (c: CommandLine)
    ensures
        c.program == spec.cyclone_cmd_path,
        c.args_model() == process_args_model(*spec, socket@),
{
    let mut args: Vec<String> = Vec::new();
    args.push("--bind-uds".to_owned());
    args.push(socket.clone());
    args.push("--decryption-key".to_owned());
    args.push(spec.cyclone_decryption_key_path.clone());
    args.push("--lang-server".to_owned());
    args.push(spec.lang_server_cmd_path.clone());
    args.push("--enable-watch".to_owned());
    match spec.limit_requests {
        Some(l) => {
            args.push("--limit-requests".to_owned());
            args.push(u64_to_string(l as u64));
        },
        None => {},
    }
    match spec.watch_timeout_secs {
        Some(t) => {
            args.push("--watch-timeout".to_owned());
            args.push(u64_to_string(t));
        },
        None => {},
    }
    if spec.ping {
        args.push("--enable-ping".to_owned());
    }
    if spec.resolver {
        args.push("--enable-resolver".to_owned());
    }
    if spec.action {
        args.push("--enable-action-run".to_owned());
    }
    let c = CommandLine { program: spec.cyclone_cmd_path.clone(), args };
    proof {
        assert(c.args_model() =~~= process_args_model(*spec, socket@));
    }
    c
}

/// The argument list a containerized sandbox server is given: as for a
/// process, with the key and language server at their fixed in-container
/// paths.
pub open spec fn docker_args_model(spec: LocalUdsInstanceSpec, socket: Seq<char>) -> Seq<
    Seq<char>,
> {
    let base = seq![
        "--bind-uds"@,
        socket,
        "--decryption-key"@,
        "/tmp/key"@,
        "--lang-server"@,
        "/usr/local/bin/lang-js"@,
        "--enable-watch"@,
    ];
    let with_limit = match spec.limit_requests {
        Some(l) => base.push("--limit-requests"@).push(dec_rep(l as nat)),
        None => base,
    };
    let with_watch = match spec.watch_timeout_secs {
        Some(t) => with_limit.push("--watch-timeout"@).push(dec_rep(t as nat)),
        None => with_limit,
    };
    let with_ping = if spec.ping {
        with_watch.push("--enable-ping"@)
    } else {
        with_watch
    };
    let with_resolver = if spec.resolver {
        with_ping.push("--enable-resolver"@)
    } else {
        with_ping
    };
    if spec.action {
        with_resolver.push("--enable-action-run"@)
    } else {
        with_resolver
    }
}

/// The command a fresh container runs.
pub fn docker_cmd_args(spec: &LocalUdsInstanceSpec, socket: &String) -> (args: Vec<String>)
    ensures
        args@.map_values(|a: String| a@) == docker_args_model(*spec, socket@),
{
    let mut args: Vec<String> = Vec::new();
    args.push("--bind-uds".to_owned());
    args.push(socket.clone());
    args.push("--decryption-key".to_owned());
    args.push("/tmp/key".to_owned());
    args.push("--lang-server".to_owned());
    args.push("/usr/local/bin/lang-js".to_owned());
    args.push("--enable-watch".to_owned());
    match spec.limit_requests {
        Some(l) => {
            args.push("--limit-requests".to_owned());
            args.push(u64_to_string(l as u64));
        },
        None => {},
    }
    match spec.watch_timeout_secs {
        Some(t) => {
            args.push("--watch-timeout".to_owned());
            args.push(u64_to_string(t));
        },
        None => {},
    }
    if spec.ping {
        args.push("--enable-ping".to_owned());
    }
    if spec.resolver {
        args.push("--enable-resolver".to_owned());
    }
    if spec.action {
        args.push("--enable-action-run".to_owned());
    }
    proof {
        assert(args@.map_values(|a: String| a@) =~~= docker_args_model(*spec, socket@));
    }
    args
}

/// The two bind mounts a container gets, as `(source, target)` pairs: the
/// socket directory onto itself, and the decryption key file onto the fixed
/// in-container key path.
pub fn docker_mounts(spec: &LocalUdsInstanceSpec, socket_dir: &String) -> (m: Vec<
    (String, String),
>)
    ensures
        m@.len() == 2,
        m@[0].0 == socket_dir && m@[0].1 == socket_dir,
        m@[1].0 == spec.cyclone_decryption_key_path && m@[1].1@ == "/tmp/key"@,
{
    let mut m: Vec<(String, String)> = Vec::new();
    m.push((socket_dir.clone(), socket_dir.clone()));
    m.push((spec.cyclone_decryption_key_path.clone(), "/tmp/key".to_owned()));
    m
}

/// The jailer arguments for spawning one micro-VM: a dedicated id, uid,
/// network namespace and cgroup, then the VM configuration.
pub open spec fn firecracker_spawn_args_model(id: u32) -> Seq<Seq<char>> {
    seq![
        "--cgroup-version"@,
        "2"@,
        "--id"@,
        dec_rep(id as nat),
        "--exec-file"@,
        "/usr/bin/firecracker"@,
        "--uid"@,
        "500"@ + dec_rep(id as nat),
        "--gid"@,
        "10000"@,
        "--netns"@,
        "/var/run/netns/jailer-"@ + dec_rep(id as nat),
        "--"@,
        "--config-file"@,
        "./firecracker.conf"@,
    ]
}

/// The command that spawns one micro-VM through the privileged jailer.
pub fn firecracker_spawn_command(id: u32) -> (c: CommandLine)
    ensures
        c.program@ == "/usr/bin/jailer"@,
        c.args_model() == firecracker_spawn_args_model(id),
{
    let mut uid = "500".to_owned();
    uid.append(u64_to_string(id as u64).as_str());
    let mut netns = "/var/run/netns/jailer-".to_owned();
    netns.append(u64_to_string(id as u64).as_str());
    let mut args: Vec<String> = Vec::new();
    args.push("--cgroup-version".to_owned());
    args.push("2".to_owned());
    args.push("--id".to_owned());
    args.push(u64_to_string(id as u64));
    args.push("--exec-file".to_owned());
    args.push("/usr/bin/firecracker".to_owned());
    args.push("--uid".to_owned());
    args.push(uid);
    args.push("--gid".to_owned());
    args.push("10000".to_owned());
    args.push("--netns".to_owned());
    args.push(netns);
    args.push("--".to_owned());
    args.push("--config-file".to_owned());
    args.push("./firecracker.conf".to_owned());
    let c = CommandLine { program: "/usr/bin/jailer".to_owned(), args };
    proof {
        assert(c.args_model() =~~= firecracker_spawn_args_model(id));
    }
    c
}

/// The socket path of the micro-VM with the given id.
pub fn firecracker_socket_path(id: u32) -> (p: String)
    ensures
        p@ == "/srv/jailer/firecracker/"@ + dec_rep(id as nat) + "/root/v.sock"@,
{
    let mut p = "/srv/jailer/firecracker/".to_owned();
    p.append(u64_to_string(id as u64).as_str());
    p.append("/root/v.sock");
    p
}

/// The privileged command that tears down the micro-VM jail for a slot.
pub fn firecracker_clean_command(id: u32) -> (c: CommandLine)
    ensures
        c.program@ == "sudo"@,
        c.args_model() == seq!["/firecracker-data/stop.sh"@, dec_rep(id as nat)],
{
    let mut args: Vec<String> = Vec::new();
    args.push("/firecracker-data/stop.sh".to_owned());
    args.push(u64_to_string(id as u64));
    let c = CommandLine { program: "sudo".to_owned(), args };
    proof {
        assert(c.args_model() =~~= seq!["/firecracker-data/stop.sh"@, dec_rep(id as nat)]);
    }
    c
}

/// The privileged command that pre-provisions the micro-VM jail for a slot.
pub fn firecracker_prepare_command(id: u32) -> (c: CommandLine)
    ensures
        c.program@ == "sudo"@,
        c.args_model() == seq!["/firecracker-data/prepare_jailer.sh"@, dec_rep(id as nat)],
{
    let mut args: Vec<String> = Vec::new();
    args.push("/firecracker-data/prepare_jailer.sh".to_owned());
    args.push(u64_to_string(id as u64));
    let c = CommandLine { program: "sudo".to_owned(), args };
    proof {
        assert(c.args_model() =~~= seq![
            "/firecracker-data/prepare_jailer.sh"@,
            dec_rep(id as nat),
        ]);
    }
    c
}

/// The privileged one-time setup command, sized to the pool capacity.
pub fn firecracker_setup_command(pool_size: u16) -> (c: CommandLine)
    ensures
        c.program@ == "sudo"@,
        c.args_model() == seq![
            "/firecracker-data/firecracker-setup.sh"@,
            "-j"@,
            dec_rep(pool_size as nat),
            "-rk"@,
        ],
{
    let mut args: Vec<String> = Vec::new();
    args.push("/firecracker-data/firecracker-setup.sh".to_owned());
    args.push("-j".to_owned());
    args.push(u64_to_string(pool_size as u64));
    args.push("-rk".to_owned());
    let c = CommandLine { program: "sudo".to_owned(), args };
    proof {
        assert(c.args_model() =~~= seq![
            "/firecracker-data/firecracker-setup.sh"@,
            "-j"@,
            dec_rep(pool_size as nat),
            "-rk"@,
        ]);
    }
    c
}

/// Judges a finished one-time setup command: an unsuccessful exit is the
/// fatal setup failure, carrying the script's error output; per the error
/// policy it aborts pool construction and is never retried.
pub fn firecracker_setup_outcome(exit_success: bool, stderr: String) -> (r: Result<
    (),
    LocalUdsInstanceError,
>)
    ensures
        r is Ok <==> exit_success,
        r matches Err(e) ==> e == LocalUdsInstanceError::FirecrackerSetupRun(stderr),
{
    if exit_success {
        Ok(())
    } else {
        Err(LocalUdsInstanceError::FirecrackerSetupRun(stderr))
    }
}

/// Where the socket for a fresh instance comes from.  Creating an actual
/// temp file is the surrounding runtime's part.
pub enum SocketPlan {
    /// Use this path as the socket.
    UsePath(String),
    /// Create a fresh temp file and use its path.
    CreateTempFile,
    /// Create a fresh temp file in this parent directory and use its path.
    CreateTempFileIn(String),
}

/// The socket decision for each strategy: a custom strategy fixes the path,
/// the random ones ask for a temp file.
pub fn socket_plan(strategy: &LocalUdsSocketStrategy) -> (p: SocketPlan)
    ensures
        match *strategy {
            LocalUdsSocketStrategy::Custom(path) => p == SocketPlan::UsePath(path),
            LocalUdsSocketStrategy::Random => p is CreateTempFile,
            LocalUdsSocketStrategy::RandomIn(dir) => p == SocketPlan::CreateTempFileIn(dir),
        },
{
    match strategy {
        LocalUdsSocketStrategy::Custom(path) => SocketPlan::UsePath(path.clone()),
        LocalUdsSocketStrategy::Random => SocketPlan::CreateTempFile,
        LocalUdsSocketStrategy::RandomIn(dir) => SocketPlan::CreateTempFileIn(dir.clone()),
    }
}

/// Whether the socket client must add the micro-VM connection detail: only
/// the micro-VM runtime needs it.
pub fn firecracker_connect_flag(spec: &LocalUdsInstanceSpec) -> (r: bool)
    ensures
        r <==> spec.runtime_strategy is LocalFirecracker,
{
    match spec.runtime_strategy {
        LocalUdsRuntimeStrategy::LocalFirecracker => true,
        LocalUdsRuntimeStrategy::LocalDocker => false,
        LocalUdsRuntimeStrategy::LocalProcess => false,
    }
}

} // verus!


