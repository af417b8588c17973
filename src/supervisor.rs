//! The gateway's process supervisor: how the federation router is launched,
//! and what the program does when the router fails to start or goes away.
use vstd::prelude::*;

verus! {

/// Where the router listens unless the environment says otherwise.
pub const DEFAULT_LISTEN: &'static str = "127.0.0.1:4000";

/// The router configuration document unless the environment says otherwise.
pub const DEFAULT_CONFIG: &'static str = "./router.yaml";

/// The supergraph schema document unless the environment says otherwise.
pub const DEFAULT_SUPERGRAPH: &'static str = "./supergraph.graphql";

/// The flag that opts the router out of telemetry.
pub const TELEMETRY_OFF: &'static str = "--anonymous-telemetry-disabled";

pub const LISTEN_FLAG: &'static str = "--listen=";

pub const CONFIG_FLAG: &'static str = "--config=";

pub const SUPERGRAPH_FLAG: &'static str = "--supergraph=";

/// The scheme of the router's loopback address.
pub const HTTP_SCHEME: &'static str = "http://";

/// The four settings that the environment may give, each unset or a value.
pub struct RouterSettings {
    /// Path of an external router binary; unset means the embedded router.
    pub binary: Option<String>,
    pub listen: Option<String>,
    pub config: Option<String>,
    pub supergraph: Option<String>,
}

/// How the router is to be started.
pub enum Launch {
    /// Spawn this program with these arguments.
    Binary { program: String, args: Vec<String> },
    /// Start the router inside this program from the embedded documents.
    Embedded,
}

/// A setting's value, or the default where it is unset.
pub open spec fn setting_or(v: Option<String>, default: Seq<char>) -> Seq<char> {
    match v {
        Some(s) => s@,
        None => default,
    }
}

/// The router's fixed argument list for a listen address, a configuration
/// path and a supergraph path.
pub open spec fn router_args(listen: Seq<char>, config: Seq<char>, supergraph: Seq<char>) -> Seq<
    Seq<char>,
> {
    seq![
        TELEMETRY_OFF@,
        LISTEN_FLAG@ + listen,
        CONFIG_FLAG@ + config,
        SUPERGRAPH_FLAG@ + supergraph,
    ]
}

/// The view of a list of strings as a sequence of character sequences.
pub open spec fn strings_view(v: Seq<String>) -> Seq<Seq<char>> {
    v.map_values(|s: String| s@)
}

fn setting_value(v: &Option<String>, default: &str) -> (r: String)
    ensures
        r@ == setting_or(*v, default@),
{
    match v {
        Some(s) => s.clone(),
        None => String::from_str(default),
    }
}

fn flag_with(flag: &str, value: &String) -> (r: String)
    ensures
        r@ == flag@ + value@,
{
    String::from_str(flag).concat(value.as_str())
}

impl RouterSettings {
    /// Where invocations are forwarded: the root path of the address the
    /// router listens on.
    pub fn forward_url(&self) -> (r: String)
        ensures
            r@ == HTTP_SCHEME@ + setting_or(self.listen, DEFAULT_LISTEN@) + "/"@,
    {
        let listen = setting_value(&self.listen, DEFAULT_LISTEN);
        String::from_str(HTTP_SCHEME).concat(listen.as_str()).concat("/")
    }

    /// How to start the router: the configured binary with the fixed
    /// arguments, each path or address taken from its setting or its
    /// default; the embedded router when no binary is configured.
    pub fn launch(&self) -> (r: Launch)
        ensures
            self.binary is None ==> r is Embedded,
            self.binary matches Some(b) ==> (r matches Launch::Binary { program, args } && program
                == b && strings_view(args@) == router_args(
                setting_or(self.listen, DEFAULT_LISTEN@),
                setting_or(self.config, DEFAULT_CONFIG@),
                setting_or(self.supergraph, DEFAULT_SUPERGRAPH@),
            )),
    {
        match &self.binary {
            None => Launch::Embedded,
            Some(b) => {
                let listen = setting_value(&self.listen, DEFAULT_LISTEN);
                let config = setting_value(&self.config, DEFAULT_CONFIG);
                let supergraph = setting_value(&self.supergraph, DEFAULT_SUPERGRAPH);
                let mut args: Vec<String> = Vec::new();
                args.push(String::from_str(TELEMETRY_OFF));
                args.push(flag_with(LISTEN_FLAG, &listen));
                args.push(flag_with(CONFIG_FLAG, &config));
                args.push(flag_with(SUPERGRAPH_FLAG, &supergraph));
                assert(strings_view(args@) =~= router_args(listen@, config@, supergraph@));
                Launch::Binary { program: b.clone(), args }
            },
        }
    }
}

/// What happened to the supervised router.
pub enum RouterEvent {
    /// It was started and has not stopped.
    Started,
    /// It could not be started (missing executable, no permission).
    SpawnFailed { error: String },
    /// It stopped, cleanly or not, while the program was still running.
    Exited { code: Option<i32> },
}

/// What the program does about a router event.
pub enum Directive {
    /// Keep serving invocations.
    KeepServing,
    /// Terminate the whole program: a gateway without its router has nothing
    /// useful to offer.
    Terminate,
}

/// The fail-fast policy: any failure to start the router, and any exit of
/// it, ends the program; nothing is restarted.
pub fn supervise(event: &RouterEvent) -> (r: Directive)
    ensures
        r is Terminate <==> !(event is Started),
{
    match event {
        RouterEvent::Started => Directive::KeepServing,
        RouterEvent::SpawnFailed { .. } => Directive::Terminate,
        RouterEvent::Exited { .. } => Directive::Terminate,
    }
}

} // verus!
