//! How Chrome processes are started, reached, and watched.
use vstd::prelude::*;
use vstd::string::*;
use crate::config::Config;
use crate::error::{PoolError, PoolFault};
use crate::json::{JsonValue, get_str};
use crate::browser::pool::new_uuid;
use crate::text::{decimal, decimal_spec, opt_view};

verus! {

/// The flags Chrome is started with: headless when configured, DevTools on
/// `port` at the loopback address, its own profile directory, no GPU and no
/// shared-memory file system, no first-run or background work, a 1920x1080
/// window, no sandbox when configured, and the configured user agent.
pub open spec fn chrome_args_spec(
    headless: bool,
    disable_sandbox: bool,
    user_agent: Option<Seq<char>>,
    port: u16,
    user_data_dir: Seq<char>,
) -> Seq<Seq<char>> {
    let head: Seq<Seq<char>> = if headless {
        seq!["--headless=new"@]
    } else {
        Seq::empty()
    };
    let common: Seq<Seq<char>> = seq![
        "--remote-debugging-port="@ + decimal_spec(port as nat),
        "--remote-debugging-address=127.0.0.1"@,
        "--user-data-dir="@ + user_data_dir,
        "--disable-gpu"@,
        "--disable-dev-shm-usage"@,
        "--no-first-run"@,
        "--no-default-browser-check"@,
        "--disable-default-apps"@,
        "--disable-background-networking"@,
        "--disable-backgrounding-occluded-windows"@,
        "--disable-renderer-backgrounding"@,
        "--window-size=1920,1080"@,
    ];
    let sandbox: Seq<Seq<char>> = if disable_sandbox {
        seq!["--no-sandbox"@]
    } else {
        Seq::empty()
    };
    let agent: Seq<Seq<char>> = match user_agent {
        Some(ua) => seq!["--user-agent="@ + ua],
        None => Seq::empty(),
    };
    head + common + sandbox + agent
}

pub open spec fn strings_view(v: Seq<String>) -> Seq<Seq<char>> {
    Seq::new(v.len(), |i: int| v[i]@)
}

fn push_arg(args: &mut Vec<String>, arg: String)
    ensures
        strings_view(final(args)@) == strings_view(old(args)@).push(arg@),
{
    let ghost a = arg@;
    args.push(arg);
    assert(strings_view(args@) =~= strings_view(old(args)@).push(a));
}

/// The command-line flags for the process listening on `port` with its profile
/// in `user_data_dir`.
pub fn chrome_args(config: &Config, port: u16, user_data_dir: &str) -> (r: Vec<String>)
    ensures
        strings_view(r@) == chrome_args_spec(
            config.headless,
            config.disable_sandbox,
            opt_view(config.user_agent),
            port,
            user_data_dir@,
        ),
{
    let mut args: Vec<String> = Vec::new();
    let ghost start = strings_view(args@);
    assert(start =~= Seq::<Seq<char>>::empty());
    if config.headless {
        push_arg(&mut args, String::from_str("--headless=new"));
    }
    let ghost head = strings_view(args@);
    let mut port_arg = String::from_str("--remote-debugging-port=");
    let port_text = decimal(port as u64);
    port_arg.append(port_text.as_str());
    push_arg(&mut args, port_arg);
    push_arg(&mut args, String::from_str("--remote-debugging-address=127.0.0.1"));
    let mut dir_arg = String::from_str("--user-data-dir=");
    dir_arg.append(user_data_dir);
    push_arg(&mut args, dir_arg);
    push_arg(&mut args, String::from_str("--disable-gpu"));
    push_arg(&mut args, String::from_str("--disable-dev-shm-usage"));
    push_arg(&mut args, String::from_str("--no-first-run"));
    push_arg(&mut args, String::from_str("--no-default-browser-check"));
    push_arg(&mut args, String::from_str("--disable-default-apps"));
    push_arg(&mut args, String::from_str("--disable-background-networking"));
    push_arg(&mut args, String::from_str("--disable-backgrounding-occluded-windows"));
    push_arg(&mut args, String::from_str("--disable-renderer-backgrounding"));
    push_arg(&mut args, String::from_str("--window-size=1920,1080"));
    let ghost common_end = strings_view(args@);
    if config.disable_sandbox {
        push_arg(&mut args, String::from_str("--no-sandbox"));
    }
    let ghost sandbox_end = strings_view(args@);
    match &config.user_agent {
        Some(ua) => {
            let mut agent_arg = String::from_str("--user-agent=");
            agent_arg.append(ua.as_str());
            push_arg(&mut args, agent_arg);
        },
        None => {},
    }
    proof {
        let spec = chrome_args_spec(
            config.headless,
            config.disable_sandbox,
            opt_view(config.user_agent),
            port,
            user_data_dir@,
        );
        assert(strings_view(args@) =~= spec);
    }
    args
}

/// The name of a process's profile directory: `capsolver-chrome-`, the process
/// index, `-`, and a fresh random identifier.
pub fn profile_dir_name(index: usize) -> (r: String)
    ensures
        exists|id: Seq<char>|
            id.len() == 36 && r@ == "capsolver-chrome-"@ + decimal_spec(index as nat) + "-"@ + id,
{
    let mut name = String::from_str("capsolver-chrome-");
    let number = decimal(index as u64);
    name.append(number.as_str());
    name.append("-");
    let id = new_uuid();
    name.append(id.as_str());
    assert(name@ == "capsolver-chrome-"@ + decimal_spec(index as nat) + "-"@ + id@);
    name
}

/// The DevTools address that reports the browser's WebSocket URL.
pub fn devtools_version_url(port: u16) -> (r: String)
    ensures
        r@ == "http://127.0.0.1:"@ + decimal_spec(port as nat) + "/json/version"@,
{
    let mut url = String::from_str("http://127.0.0.1:");
    let number = decimal(port as u64);
    url.append(number.as_str());
    url.append("/json/version");
    url
}

/// The browser's WebSocket URL from the DevTools version report, or why it is missing.
pub fn devtools_ws_url(body: &JsonValue) -> (r: Result<String, String>)
    ensures
        match r {
            Ok(u) => get_str(Some(body@), "webSocketDebuggerUrl"@) == Some(u@),
            Err(m) => get_str(Some(body@), "webSocketDebuggerUrl"@) is None
                && m@ == "devtools response had no webSocketDebuggerUrl"@,
        },
{
    match body.get("webSocketDebuggerUrl") {
        Some(v) => match v.as_str() {
            Some(u) => Ok(String::from_str(u)),
            None => Err(String::from_str("devtools response had no webSocketDebuggerUrl")),
        },
        None => Err(String::from_str("devtools response had no webSocketDebuggerUrl")),
    }
}

/// The error for a process whose DevTools endpoint never answered in time.
pub fn devtools_timeout_error(port: u16, last_error: &str) -> (r: PoolError)
    ensures
        r@ == PoolFault::ProcessSpawnError("port "@ + decimal_spec(port as nat) + ": "@ + last_error@),
{
    let mut text = String::from_str("port ");
    let number = decimal(port as u64);
    text.append(number.as_str());
    text.append(": ");
    text.append(last_error);
    PoolError::ProcessSpawnError(text)
}

/// The error for a Chrome binary that could not be started.
pub fn spawn_error(chrome_path: &str, detail: &str) -> (r: PoolError)
    ensures
        r@ == PoolFault::ProcessSpawnError(chrome_path@ + ": "@ + detail@),
{
    PoolError::ProcessSpawnError(crate::browser::cdp::joined(chrome_path, ": ", detail))
}

/// What the health monitor learned of one process.
pub struct ProcessProbe {
    pub index: usize,
    pub port: u16,
    /// A child process was started for this entry.
    pub has_child: bool,
    /// The child had not exited when checked.
    pub alive: bool,
}

/// The processes to restart, in order: those started and since exited.
pub open spec fn dead_spec(probes: Seq<ProcessProbe>) -> Seq<(usize, u16)>
    decreases probes.len(),
{
    if probes.len() == 0 {
        Seq::empty()
    } else {
        let p = probes.last();
        let rest = dead_spec(probes.drop_last());
        if p.has_child && !p.alive {
            rest.push((p.index, p.port))
        } else {
            rest
        }
    }
}

/// Picks the processes to restart.
pub fn dead_processes(probes: &Vec<ProcessProbe>) -> (r: Vec<(usize, u16)>)
    ensures
        r@ == dead_spec(probes@),
{
    let mut dead: Vec<(usize, u16)> = Vec::new();
    let mut i: usize = 0;
    while i < probes.len()
        invariant
            i <= probes@.len(),
            dead@ == dead_spec(probes@.subrange(0, i as int)),
        decreases probes@.len() - i,
    {
        let p = &probes[i];
        assert(probes@.subrange(0, i + 1).drop_last() =~= probes@.subrange(0, i as int));
        if p.has_child && !p.alive {
            dead.push((p.index, p.port));
        }
        i = i + 1;
    }
    assert(probes@.subrange(0, probes@.len() as int) =~= probes@);
    dead
}

} // verus!
