//! Application configuration: the fixed constants of the deployment and the
//! derived pieces of the runtime configuration. Reading the environment is
//! the surrounding process's concern; what is computed from the values read
//! is here.

use vstd::prelude::*;
use vstd::string::{StrSliceExecFns, StringExecFns};

verus! {

/// Where uploaded dataset files are stored.
pub const UPLOAD_DIR: &'static str = "./uploads";

/// The completion model an agent is initialized with.
pub const INIT_AGENT_MODEL: &'static str = "gemini-2.5-flash";

/// The completion model that routes a prompt to agents.
pub const ROUTER_AGENT_MODEL: &'static str = "gemini-2.0-flash-lite";

/// The completion model that drafts a dataset's details.
pub const DATASET_DETAILS_GEN_AGENT_MODEL: &'static str = "gemini-2.0-flash-lite";

/// The marketplace contract whose events this core consumes.
pub const ENCLAVA_CONTRACT_ADDRESS: &'static str = "0x015C507e3E79D5049b003C3bE5b2E208A4Bb7e56";

/// How many agents one answer request may address.
pub const MAX_ALLOWED_SELECTED_AGENTS: usize = 3;

/// The largest dataset file an upload may carry, in bytes (10 MiB).
pub const MAX_FILE_SIZE: u64 = 10 * 1024 * 1024;

/// The runtime configuration.
pub struct AppConfig {
    pub database_url: String,
    pub alchemy_rpc_url: String,
    pub alchemy_ws_url: String,
    pub port: u16,
}

/// The websocket form of a ledger RPC URL: an `https://` scheme becomes
/// `wss://`; any other string is kept as it is.
pub open spec fn ws_url_view(s: Seq<char>) -> Seq<char> {
    if s.len() >= 8 && s.subrange(0, 8) == "https://"@ {
        "wss://"@ + s.skip(8)
    } else {
        s
    }
}

/// Derives the websocket URL from the HTTP RPC URL.
pub fn ws_url_of(s: &String) -> (r: String)
    ensures
        r@ == ws_url_view(s@),
{
    let n = s.as_str().unicode_len();
    if n < 8 {
        return s.clone();
    }
    let head = s.as_str().substring_char(0, 8);
    if head.to_owned() == "https://".to_owned() {
        let mut out = "wss://".to_owned();
        let tail = s.as_str().substring_char(8, n);
        out.append(tail);
        proof {
            assert(out@ =~= ws_url_view(s@));
        }
        out
    } else {
        s.clone()
    }
}

impl AppConfig {
    /// Assembles the configuration from the values the environment
    /// supplied; the websocket URL is derived from the HTTP one.
    pub fn from_parts(database_url: String, alchemy_rpc_url: String, port: u16) -> (r: AppConfig)
        ensures
            r.database_url@ == database_url@,
            r.alchemy_rpc_url@ == alchemy_rpc_url@,
            r.alchemy_ws_url@ == ws_url_view(alchemy_rpc_url@),
            r.port == port,
    {
        let ws = ws_url_of(&alchemy_rpc_url);
        AppConfig { database_url, alchemy_rpc_url, alchemy_ws_url: ws, port }
    }
}

} // verus!
