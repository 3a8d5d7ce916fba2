//! The report on the state of accounts, media, rate limits and the sidecar.
use vstd::prelude::*;

use crate::json;
use crate::json::{Json, JsonNumber, JsonView, NumberView};
use crate::storage::internal::entities::AccountDto;
use crate::sync_executor;
use crate::sync_executor::SessionProbe;
use crate::text;

verus! {

/// A rate limit gate as it is reported.
#[derive(Debug, PartialEq, Eq)]
pub struct RateLimitGateDto {
    pub account_id: i64,
    pub endpoint_key: String,
    pub next_allowed_epoch: i64,
    pub backoff_level: i64,
}

/// What came of the attempt to greet the sidecar.
#[derive(Debug)]
pub enum SidecarProbe {
    /// There is no sidecar program.
    Missing,
    /// The sidecar could not be greeted.
    Unhealthy,
    /// The sidecar introduced itself, and was told to shut down.
    Greeted { ready: Json, capabilities: Json, shut_down: bool },
}

pub open spec fn int_value(n: int) -> JsonView {
    JsonView::Number(NumberView::Integer(n))
}

/// The first value under a key, in the order given, or `null`.
pub open spec fn first_field(a: JsonView, b: JsonView, key: Seq<char>) -> JsonView {
    match json::field(a, key) {
        Some(v) => v,
        None => match json::field(b, key) {
            Some(v) => v,
            None => JsonView::Null,
        },
    }
}

/// The report on the sidecar.
pub open spec fn sidecar_report(
    healthy: bool,
    status: Seq<char>,
    version: JsonView,
    protocol_version: JsonView,
) -> JsonView {
    JsonView::Object(
        Map::empty().insert("healthy"@, JsonView::Bool(healthy)).insert(
            "status"@,
            JsonView::Text(status),
        ).insert("version"@, version).insert("protocol_version"@, protocol_version),
    )
}

/// The report on the browser.
pub open spec fn browser_report(installed: bool, version: JsonView, status: Seq<char>) -> JsonView {
    JsonView::Object(
        Map::empty().insert("installed"@, JsonView::Bool(installed)).insert(
            "version"@,
            version,
        ).insert("status"@, JsonView::Text(status)),
    )
}

/// Whether the sidecar says that its browser is installed.
pub open spec fn browser_installed(capabilities: JsonView) -> bool {
    json::bool_field(capabilities, "browser_installed"@) == Some(true)
}

/// The report on the sidecar by what came of greeting it.
pub open spec fn sidecar_of(probe: SidecarProbe) -> JsonView {
    match probe {
        SidecarProbe::Missing => sidecar_report(
            false,
            "missing"@,
            JsonView::Null,
            JsonView::Null,
        ),
        SidecarProbe::Unhealthy => sidecar_report(
            false,
            "unhealthy"@,
            JsonView::Null,
            JsonView::Null,
        ),
        SidecarProbe::Greeted { ready, capabilities, shut_down } => sidecar_report(
            shut_down,
            if shut_down {
                "ok"@
            } else {
                "degraded"@
            },
            first_field(ready@, capabilities@, "sidecar_version"@),
            first_field(ready@, capabilities@, "protocol_version"@),
        ),
    }
}

/// The report on the browser by what came of greeting the sidecar.
pub open spec fn browser_of(probe: SidecarProbe) -> JsonView {
    match probe {
        SidecarProbe::Missing => browser_report(false, JsonView::Null, "unavailable"@),
        SidecarProbe::Unhealthy => browser_report(false, JsonView::Null, "unknown"@),
        SidecarProbe::Greeted { ready, capabilities, shut_down } => browser_report(
            browser_installed(capabilities@),
            first_field(capabilities@, JsonView::Null, "browser_version"@),
            if browser_installed(capabilities@) {
                "ok"@
            } else {
                "missing"@
            },
        ),
    }
}

fn copy_field(a: &Json, b: &Json, key: &str) -> (r: Json)
    ensures
        r@ == first_field(a@, b@, key@),
{
    match a.get(key) {
        Some(v) => v.clone(),
        None => match b.get(key) {
            Some(v) => v.clone(),
            None => Json::Null,
        },
    }
}

fn sidecar_json(healthy: bool, status: &str, version: Json, protocol_version: Json) -> (r: Json)
    ensures
        r@ == sidecar_report(healthy, status@, version@, protocol_version@),
{
    let mut r = Json::empty_object();
    r.insert("healthy", Json::Bool(healthy));
    r.insert("status", Json::Text(status.to_owned()));
    r.insert("version", version);
    r.insert("protocol_version", protocol_version);
    r
}

fn browser_json(installed: bool, version: Json, status: &str) -> (r: Json)
    ensures
        r@ == browser_report(installed, version@, status@),
{
    let mut r = Json::empty_object();
    r.insert("installed", Json::Bool(installed));
    r.insert("version", version);
    r.insert("status", Json::Text(status.to_owned()));
    r
}

/// The reports on the sidecar and on its browser.
pub fn sidecar_diagnostics(probe: &SidecarProbe) -> (r: (Json, Json))
    ensures
        r.0@ == sidecar_of(*probe),
        r.1@ == browser_of(*probe),
{
    match probe {
        SidecarProbe::Missing => (
            sidecar_json(false, "missing", Json::Null, Json::Null),
            browser_json(false, Json::Null, "unavailable"),
        ),
        SidecarProbe::Unhealthy => (
            sidecar_json(false, "unhealthy", Json::Null, Json::Null),
            browser_json(false, Json::Null, "unknown"),
        ),
        SidecarProbe::Greeted { ready, capabilities, shut_down } => {
            let installed = match capabilities.bool_field("browser_installed") {
                Some(b) => b,
                None => false,
            };
            let none = Json::Null;
            let sidecar = sidecar_json(
                *shut_down,
                if *shut_down {
                    "ok"
                } else {
                    "degraded"
                },
                copy_field(ready, capabilities, "sidecar_version"),
                copy_field(ready, capabilities, "protocol_version"),
            );
            let browser = browser_json(
                installed,
                copy_field(capabilities, &none, "browser_version"),
                if installed {
                    "ok"
                } else {
                    "missing"
                },
            );
            (sidecar, browser)
        },
    }
}

/// The count of a status: that of the first row with it, or zero.
pub open spec fn count_of(counts: Seq<(String, i64)>, status: Seq<char>) -> i64
    decreases counts.len(),
{
    if counts.len() == 0 {
        0
    } else if counts[0].0@ == status {
        counts[0].1
    } else {
        count_of(counts.subrange(1, counts.len() as int), status)
    }
}

fn media_count(counts: &Vec<(String, i64)>, status: &str) -> (r: i64)
    ensures
        r == count_of(counts@, status@),
{
    assert(counts@.subrange(0, counts@.len() as int) == counts@);
    let mut i: usize = 0;
    while i < counts.len()
        invariant
            i <= counts@.len(),
            count_of(counts@, status@) == count_of(
                counts@.subrange(i as int, counts@.len() as int),
                status@,
            ),
        decreases counts@.len() - i,
    {
        let ghost rest = counts@.subrange(i as int, counts@.len() as int);
        assert(rest.subrange(1, rest.len() as int) == counts@.subrange(
            i + 1,
            counts@.len() as int,
        ));
        if text::same_text(counts[i].0.as_str(), status) {
            return counts[i].1;
        }
        i = i + 1;
    }
    0
}

/// The report on the media queue: how many rows have each status.
pub open spec fn media_report(counts: Seq<(String, i64)>) -> JsonView {
    JsonView::Object(
        Map::empty().insert(
            "pending"@,
            int_value(count_of(counts, "pending"@) as int),
        ).insert("downloading"@, int_value(count_of(counts, "downloading"@) as int)).insert(
            "failed"@,
            int_value(count_of(counts, "failed"@) as int),
        ).insert("downloaded"@, int_value(count_of(counts, "downloaded"@) as int)),
    )
}

/// The report on a gate.
pub open spec fn gate_report(gate: RateLimitGateDto) -> JsonView {
    JsonView::Object(
        Map::empty().insert(
            "account_id"@,
            JsonView::Text(text::signed_decimal(gate.account_id as int)),
        ).insert("endpoint"@, JsonView::Text(gate.endpoint_key@)).insert(
            "next_allowed"@,
            int_value(gate.next_allowed_epoch as int),
        ).insert("backoff"@, int_value(gate.backoff_level as int)),
    )
}

/// The reports on the gates, in order.
pub open spec fn gates_report(gates: Seq<RateLimitGateDto>) -> JsonView {
    JsonView::Array(Seq::new(gates.len(), |i: int| gate_report(gates[i])))
}

fn media_json(counts: &Vec<(String, i64)>) -> (r: Json)
    ensures
        r@ == media_report(counts@),
{
    let mut r = Json::empty_object();
    r.insert("pending", Json::integer(media_count(counts, "pending")));
    r.insert("downloading", Json::integer(media_count(counts, "downloading")));
    r.insert("failed", Json::integer(media_count(counts, "failed")));
    r.insert("downloaded", Json::integer(media_count(counts, "downloaded")));
    r
}

fn gate_json(gate: &RateLimitGateDto) -> (r: Json)
    ensures
        r@ == gate_report(*gate),
{
    let mut r = Json::empty_object();
    r.insert("account_id", Json::Text(text::i64_text(gate.account_id)));
    r.insert("endpoint", Json::Text(gate.endpoint_key.clone()));
    r.insert("next_allowed", Json::integer(gate.next_allowed_epoch));
    r.insert("backoff", Json::integer(gate.backoff_level));
    r
}

fn gates_json(gates: &Vec<RateLimitGateDto>) -> (r: Json)
    ensures
        r@ == gates_report(gates@),
{
    let mut items: Vec<Json> = Vec::new();
    let ghost reports = Seq::new(gates@.len(), |i: int| gate_report(gates@[i]));
    let mut i: usize = 0;
    assert(json::array_view(items@) == reports.subrange(0, 0));
    while i < gates.len()
        invariant
            i <= gates@.len(),
            reports == Seq::new(gates@.len(), |i: int| gate_report(gates@[i])),
            json::array_view(items@) == reports.subrange(0, i as int),
        decreases gates@.len() - i,
    {
        let ghost before = items@;
        items.push(gate_json(&gates[i]));
        assert(items@.drop_last() == before);
        assert(reports.subrange(0, i + 1) == reports.subrange(0, i as int).push(reports[i as int]));
        i = i + 1;
    }
    assert(reports.subrange(0, i as int) == reports);
    Json::Array(items)
}

/// Whether an account can be used: it is enabled, and its reference leads to a file within the
/// session root.
pub open spec fn account_ready(account: AccountDto, session: SessionProbe) -> bool {
    account.enabled && sync_executor::session_fault(account.session_ref@, session) is None
}

/// How many of the first `n` accounts are enabled.
pub open spec fn enabled_accounts(accounts: Seq<AccountDto>, n: int) -> int
    decreases n,
{
    if n <= 0 {
        0
    } else {
        enabled_accounts(accounts, n - 1) + if accounts[n - 1].enabled {
            1int
        } else {
            0int
        }
    }
}

/// How many of the first `n` accounts can be used.
pub open spec fn ready_accounts(accounts: Seq<AccountDto>, sessions: Seq<SessionProbe>, n: int) -> int
    decreases n,
{
    if n <= 0 {
        0
    } else {
        ready_accounts(accounts, sessions, n - 1) + if account_ready(accounts[n - 1], sessions[n - 1]) {
            1int
        } else {
            0int
        }
    }
}

/// The report on the accounts.
pub open spec fn accounts_report(accounts: Seq<AccountDto>, sessions: Seq<SessionProbe>) -> JsonView {
    JsonView::Object(
        Map::empty().insert("total"@, int_value(accounts.len() as int)).insert(
            "enabled"@,
            int_value(enabled_accounts(accounts, accounts.len() as int)),
        ).insert(
            "session_ready"@,
            int_value(ready_accounts(accounts, sessions, accounts.len() as int)),
        ),
    )
}

fn accounts_json(accounts: &Vec<AccountDto>, sessions: &Vec<SessionProbe>) -> (r: Json)
    requires
        accounts@.len() == sessions@.len(),
    ensures
        r@ == accounts_report(accounts@, sessions@),
{
    let mut enabled: u64 = 0;
    let mut ready: u64 = 0;
    let mut i: usize = 0;
    while i < accounts.len()
        invariant
            i <= accounts@.len() == sessions@.len(),
            enabled <= i,
            ready <= i,
            enabled == enabled_accounts(accounts@, i as int),
            ready == ready_accounts(accounts@, sessions@, i as int),
        decreases accounts@.len() - i,
    {
        let account = &accounts[i];
        if account.enabled {
            enabled = enabled + 1;
            if sync_executor::validate_account_session(account, &sessions[i]).is_ok() {
                ready = ready + 1;
            }
        }
        i = i + 1;
    }
    let mut r = Json::empty_object();
    r.insert("total", Json::Number(JsonNumber::Unsigned(accounts.len() as u64)));
    r.insert("enabled", Json::Number(JsonNumber::Unsigned(enabled)));
    r.insert("session_ready", Json::Number(JsonNumber::Unsigned(ready)));
    r
}

/// The report on the application.
pub open spec fn app_report(version: Seq<char>) -> JsonView {
    JsonView::Object(
        Map::empty().insert("version"@, JsonView::Text(version)).insert(
            "health"@,
            JsonView::Text("ok"@),
        ),
    )
}

/// The report on the login.
pub open spec fn auth_report(authenticated: bool) -> JsonView {
    JsonView::Object(
        Map::empty().insert(
            "ready"@,
            int_value(
                if authenticated {
                    1
                } else {
                    0
                },
            ),
        ).insert(
            "not_ready"@,
            int_value(
                if authenticated {
                    0
                } else {
                    1
                },
            ),
        ),
    )
}

/// The whole report. Nothing in it names a session or a path.
pub open spec fn diagnostics_report(
    version: Seq<char>,
    accounts: Seq<AccountDto>,
    sessions: Seq<SessionProbe>,
    counts: Seq<(String, i64)>,
    gates: Seq<RateLimitGateDto>,
    probe: SidecarProbe,
    authenticated: bool,
) -> JsonView {
    JsonView::Object(
        Map::empty().insert("app"@, app_report(version)).insert(
            "sidecar"@,
            sidecar_of(probe),
        ).insert("chromium"@, browser_of(probe)).insert("browser"@, browser_of(probe)).insert(
            "accounts"@,
            accounts_report(accounts, sessions),
        ).insert("media"@, media_report(counts)).insert("rate_gates"@, gates_report(gates)).insert(
            "auth"@,
            auth_report(authenticated),
        ),
    )
}

/// The whole report. For each account `sessions` tells where its session was found.
pub fn get_sync_diagnostics(
    version: &str,
    accounts: &Vec<AccountDto>,
    sessions: &Vec<SessionProbe>,
    media_counts: &Vec<(String, i64)>,
    gates: &Vec<RateLimitGateDto>,
    probe: &SidecarProbe,
    authenticated: bool,
) -> (r: Json)
    requires
        accounts@.len() == sessions@.len(),
    ensures
        r@ == diagnostics_report(
            version@,
            accounts@,
            sessions@,
            media_counts@,
            gates@,
            *probe,
            authenticated,
        ),
{
    let mut app = Json::empty_object();
    app.insert("version", Json::Text(version.to_owned()));
    app.insert("health", Json::Text("ok".to_owned()));
    let (sidecar, browser) = sidecar_diagnostics(probe);
    let chromium = browser.clone();
    let mut auth = Json::empty_object();
    auth.insert("ready", Json::integer(if authenticated { 1 } else { 0 }));
    auth.insert("not_ready", Json::integer(if authenticated { 0 } else { 1 }));
    let mut r = Json::empty_object();
    r.insert("app", app);
    r.insert("sidecar", sidecar);
    r.insert("chromium", chromium);
    r.insert("browser", browser);
    r.insert("accounts", accounts_json(accounts, sessions));
    r.insert("media", media_json(media_counts));
    r.insert("rate_gates", gates_json(gates));
    r.insert("auth", auth);
    r
}

} // verus!
