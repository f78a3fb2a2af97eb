//! Configuration: the shared token, the daemon's listen address and the
//! table of peers, validated from what the configuration file holds.
use vstd::prelude::*;
use crate::devices::{DeviceTable, entries_text, lists};
use crate::error::{AppError, AppResult};
use crate::text::{is_blank, is_blank_str, is_whitespace_char, chars_of, join3, join5};
use crate::types::DeviceEntry;

verus! {

/// Name of the configuration file inside the configuration directory.
pub const CONFIG_FILE_NAME: &'static str = "tailsnip.toml";

/// Name of the application's directory inside the configuration root.
pub const APP_NAME: &'static str = "tailsnip";

/// Address the daemon listens on when the file names none.
pub const DEFAULT_DAEMON_LISTEN: &'static str = "127.0.0.1:3947";

/// A socket address as the file writes it, with the text of the address it
/// parses to (as `SocketAddr` displays it), or `None` where it does not parse.
#[derive(Debug, Clone)]
pub struct WrittenAddress {
    pub written: String,
    pub parsed: Option<String>,
}

/// The views of a written address.
pub open spec fn written_text(a: &WrittenAddress) -> (Seq<char>, Option<Seq<char>>) {
    (
        a.written@,
        match a.parsed {
            Some(p) => Some(p@),
            None => None,
        },
    )
}

/// The file's contents before validation. `listen` is the `[daemon]`
/// table's `listen` value, or the default one where the file names none
/// (see `listen_text`); `devices` holds the `[devices]` table's pairs in the
/// order the table lists them.
#[derive(Debug, Clone)]
pub struct RawConfig {
    pub token: Option<String>,
    pub listen: WrittenAddress,
    pub devices: Option<Vec<(String, WrittenAddress)>>,
}

/// The daemon's settings.
#[derive(Debug, Clone)]
pub struct DaemonConfig {
    /// The listen address, as `SocketAddr` displays it.
    pub listen: String,
}

/// A validated configuration.
#[derive(Debug)]
pub struct Config {
    pub token: String,
    pub daemon: DaemonConfig,
    pub devices: DeviceTable,
}

/// A character allowed in a device alias.
pub open spec fn is_alias_char(c: char) -> bool {
    ('a' <= c && c <= 'z') || ('0' <= c && c <= '9') || c == '-' || c == '_'
}

/// Every character of `s` is allowed in a device alias.
pub open spec fn alias_chars_allowed(s: Seq<char>) -> bool {
    forall|i: int| 0 <= i < s.len() ==> is_alias_char(#[trigger] s[i])
}

/// The token, or the message refusing it.
pub open spec fn token_outcome(token: Option<Seq<char>>) -> Result<Seq<char>, Seq<char>> {
    match token {
        Some(t) => if is_blank(t) {
            Err("token cannot be empty"@)
        } else {
            Ok(t)
        },
        None => Err("missing required field: token"@),
    }
}

/// The listen address the file asks for, or the default one.
pub open spec fn listen_request(listen: Option<Seq<char>>) -> Seq<char> {
    match listen {
        Some(l) => l,
        None => DEFAULT_DAEMON_LISTEN@,
    }
}

/// The `listen` value of the `[daemon]` table, or the default address where
/// the file has no such value.
pub fn listen_text(listen: Option<String>) -> (r: String)
    ensures
        r@ == listen_request(
            match listen {
                Some(l) => Some(l@),
                None => None,
            },
        ),
{
    match listen {
        Some(l) => l,
        None => String::from_str(DEFAULT_DAEMON_LISTEN),
    }
}

/// The daemon's listen address, or the message refusing it.
pub open spec fn listen_outcome(listen: (Seq<char>, Option<Seq<char>>)) -> Result<Seq<char>, Seq<char>> {
    match listen.1 {
        Some(a) => Ok(a),
        None => Err("daemon.listen has invalid address '"@ + listen.0 + "' (expected IP:PORT)"@),
    }
}

/// The address of one `[devices]` pair, or the message refusing the pair.
pub open spec fn device_outcome(alias: Seq<char>, address: (Seq<char>, Option<Seq<char>>)) -> Result<Seq<char>, Seq<char>> {
    let raw = address.0;
    if is_blank(alias) {
        Err("devices alias cannot be empty"@)
    } else if !alias_chars_allowed(alias) {
        Err("invalid device alias '"@ + alias
            + "' (allowed: lowercase letters, digits, '-' and '_')"@)
    } else if is_blank(raw) {
        Err("device '"@ + alias + "' has an empty address"@)
    } else {
        match address.1 {
            Some(a) => Ok(a),
            None => Err("device '"@ + alias + "' has invalid address '"@ + raw
                + "' (expected HOST:PORT with a valid IP address)"@),
        }
    }
}

/// The table of the given pairs, taken in order (a later pair with the same
/// alias replaces an earlier one), or the message refusing the first pair
/// that is refused.
pub open spec fn devices_outcome(pairs: Seq<(Seq<char>, (Seq<char>, Option<Seq<char>>))>) -> Result<
    Map<Seq<char>, Seq<char>>,
    Seq<char>,
>
    decreases pairs.len(),
{
    if pairs.len() == 0 {
        Ok(Map::empty())
    } else {
        match devices_outcome(pairs.drop_last()) {
            Err(m) => Err(m),
            Ok(table) => match device_outcome(pairs.last().0, pairs.last().1) {
                Err(m) => Err(m),
                Ok(a) => Ok(table.insert(pairs.last().0, a)),
            },
        }
    }
}

/// The views of the `[devices]` pairs.
pub open spec fn pairs_text(pairs: Seq<(String, WrittenAddress)>) -> Seq<(Seq<char>, (Seq<char>, Option<Seq<char>>))> {
    pairs.map_values(|p: (String, WrittenAddress)| (p.0@, written_text(&p.1)))
}

/// The `[devices]` table, or the message refusing it: an absent table is
/// empty, a present one must not be.
pub open spec fn device_table_outcome(devices: Option<Seq<(Seq<char>, (Seq<char>, Option<Seq<char>>))>>) -> Result<
    Map<Seq<char>, Seq<char>>,
    Seq<char>,
> {
    match devices {
        None => Ok(Map::empty()),
        Some(pairs) => if pairs.len() == 0 {
            Err("devices must contain at least one entry"@)
        } else {
            devices_outcome(pairs)
        },
    }
}

pub open spec fn raw_token(raw: &RawConfig) -> Option<Seq<char>> {
    match raw.token {
        Some(t) => Some(t@),
        None => None,
    }
}

pub open spec fn raw_devices(raw: &RawConfig) -> Option<Seq<(Seq<char>, (Seq<char>, Option<Seq<char>>))>> {
    match raw.devices {
        Some(v) => Some(pairs_text(v@)),
        None => None,
    }
}

/// The validated token, listen address and peer table, or the message of
/// the first check that fails (token, then daemon, then devices).
pub open spec fn config_outcome(raw: &RawConfig) -> Result<
    (Seq<char>, Seq<char>, Map<Seq<char>, Seq<char>>),
    Seq<char>,
> {
    match token_outcome(raw_token(raw)) {
        Err(m) => Err(m),
        Ok(t) => match listen_outcome(written_text(&raw.listen)) {
            Err(m) => Err(m),
            Ok(l) => match device_table_outcome(raw_devices(raw)) {
                Err(m) => Err(m),
                Ok(d) => Ok((t, l, d)),
            },
        },
    }
}

/// `config` is the validated form of `raw`, or `err` is the refusal of it.
pub open spec fn validates_to(raw: &RawConfig, r: AppResult<Config>) -> bool {
    match config_outcome(raw) {
        Ok((t, l, d)) => r matches Ok(c) && c.token@ == t && c.daemon.listen@ == l && c.devices@
            == d,
        Err(m) => r matches Err(AppError::ConfigValidation(e)) && e@ == m,
    }
}

/// Decides `alias_chars_allowed`.
fn alias_chars_ok(alias: &str) -> (r: bool)
    ensures
        r == alias_chars_allowed(alias@),
{
    let cs = chars_of(alias);
    let mut i: usize = 0;
    while i < cs.len()
        invariant
            cs@ == alias@,
            i <= cs.len(),
            forall|j: int| 0 <= j < i ==> is_alias_char(#[trigger] alias@[j]),
        decreases cs.len() - i,
    {
        let c = cs[i];
        if !(('a' <= c && c <= 'z') || ('0' <= c && c <= '9') || c == '-' || c == '_') {
            return false;
        }
        i += 1;
    }
    true
}

/// Checks one `[devices]` pair and gives its address.
pub fn validate_device(alias: &str, address: &WrittenAddress) -> (r: Result<String, String>)
    ensures
        match device_outcome(alias@, written_text(address)) {
            Ok(a) => r matches Ok(x) && x@ == a,
            Err(m) => r matches Err(x) && x@ == m,
        },
{
    if is_blank_str(alias) {
        return Err(String::from_str("devices alias cannot be empty"));
    }
    if !alias_chars_ok(alias) {
        return Err(
            join3(
                "invalid device alias '",
                alias,
                "' (allowed: lowercase letters, digits, '-' and '_')",
            ),
        );
    }
    let raw = address.written.as_str();
    if is_blank_str(raw) {
        return Err(join3("device '", alias, "' has an empty address"));
    }
    match &address.parsed {
        Some(a) => Ok(a.clone()),
        None => Err(
            join5(
                "device '",
                alias,
                "' has invalid address '",
                raw,
                "' (expected HOST:PORT with a valid IP address)",
            ),
        ),
    }
}

/// Checks the daemon's listen address.
pub fn validate_daemon_config(listen: &WrittenAddress) -> (r: AppResult<DaemonConfig>)
    ensures
        match listen_outcome(written_text(listen)) {
            Ok(a) => r matches Ok(c) && c.listen@ == a,
            Err(m) => r matches Err(AppError::ConfigValidation(e)) && e@ == m,
        },
{
    match &listen.parsed {
        Some(a) => Ok(DaemonConfig { listen: a.clone() }),
        None => Err(
            AppError::ConfigValidation(
                join3(
                    "daemon.listen has invalid address '",
                    listen.written.as_str(),
                    "' (expected IP:PORT)",
                ),
            ),
        ),
    }
}

impl Config {
    /// Validates what the configuration file holds.
    pub fn validate(raw: RawConfig) -> (r: AppResult<Config>)
        ensures
            validates_to(&raw, r),
    {
        let ghost raw_copy = raw;
        let ghost outcome = config_outcome(&raw);
        let ghost devices_view = raw_devices(&raw);
        let token = match raw.token {
            Some(t) => {
                if is_blank_str(t.as_str()) {
                    return Err(AppError::ConfigValidation(String::from_str("token cannot be empty")));
                }
                t
            },
            None => {
                return Err(
                    AppError::ConfigValidation(String::from_str("missing required field: token")),
                );
            },
        };
        let daemon = validate_daemon_config(&raw.listen)?;
        let devices = match raw.devices {
            None => DeviceTable::new(),
            Some(pairs) => {
                if pairs.len() == 0 {
                    return Err(
                        AppError::ConfigValidation(
                            String::from_str("devices must contain at least one entry"),
                        ),
                    );
                }
                let ghost all = pairs_text(pairs@);
                assert(devices_view == Some(all));
                assert(outcome == match devices_outcome(all) {
                    Err(m) => Err(m),
                    Ok(d) => Ok((token@, daemon.listen@, d)),
                });
                let mut table = DeviceTable::new();
                let mut i: usize = 0;
                while i < pairs.len()
                    invariant
                        outcome == config_outcome(&raw_copy),
                        raw_copy == raw,
                        all == pairs_text(pairs@),
                        outcome == match devices_outcome(all) {
                            Err(m) => Err(m),
                            Ok(d) => Ok((token@, daemon.listen@, d)),
                        },
                        i <= pairs.len(),
                        devices_outcome(all.take(i as int)) == Ok::<
                            Map<Seq<char>, Seq<char>>,
                            Seq<char>,
                        >(table@),
                    decreases pairs.len() - i,
                {
                    proof {
                        assert(all.take(i + 1).drop_last() =~= all.take(i as int));
                        assert(all[i as int] == (pairs@[i as int].0@, written_text(&pairs@[i as int].1)));
                    }
                    let alias = &pairs[i].0;
                    let written = &pairs[i].1;
                    match validate_device(alias.as_str(), written) {
                        Ok(address) => {
                            table.insert(alias.clone(), address);
                        },
                        Err(m) => {
                            proof {
                                assert(devices_outcome(all.take(i + 1)) is Err);
                                lemma_devices_outcome_err_persists(all, i + 1);
                                assert(all.take(all.len() as int) =~= all);
                            }
                            return Err(AppError::ConfigValidation(m));
                        },
                    }
                    i += 1;
                }
                proof {
                    assert(all.take(pairs.len() as int) =~= all);
                }
                table
            },
        };
        Ok(Config { token, daemon, devices })
    }

    /// Validates the outcome of reading and parsing the file at `path`:
    /// a parse failure, carried as its message, is reported against the path.
    pub fn from_parse_result(path: &str, parsed: Result<RawConfig, String>) -> (r: AppResult<Config>)
        ensures
            match parsed {
                Err(m) => r matches Err(AppError::ConfigParse { path: p, source: s }) && p@ == path@
                    && s@ == m@,
                Ok(raw) => validates_to(&raw, r),
            },
    {
        match parsed {
            Err(m) => Err(AppError::ConfigParse { path: String::from_str(path), source: m }),
            Ok(raw) => Config::validate(raw),
        }
    }

    /// A copy of the configuration.
    pub fn duplicate(&self) -> (r: Config)
        ensures
            r.token@ == self.token@,
            r.daemon.listen@ == self.daemon.listen@,
            r.devices@ == self.devices@,
    {
        Config {
            token: self.token.clone(),
            daemon: DaemonConfig { listen: self.daemon.listen.clone() },
            devices: self.devices.duplicate(),
        }
    }

    /// The peers in ascending alias order.
    pub fn device_entries(&self) -> (r: Vec<DeviceEntry>)
        ensures
            lists(entries_text(r@), self.devices@),
            r@.len() == self.devices@.dom().len(),
    {
        self.devices.entries()
    }

    /// The address of the peer called `alias`.
    pub fn resolve_device(&self, alias: &str) -> (r: AppResult<String>)
        ensures
            self.devices@.contains_key(alias@) ==> (r matches Ok(a) && a@ == self.devices@[alias@]),
            !self.devices@.contains_key(alias@) ==> (r matches Err(AppError::DeviceNotFound(x))
                && x@ == alias@),
    {
        match self.devices.get(alias) {
            Some(a) => Ok(a),
            None => Err(AppError::DeviceNotFound(String::from_str(alias))),
        }
    }
}

/// Once a prefix of the pairs is refused, every longer prefix is refused
/// with the same message.
pub proof fn lemma_devices_outcome_err_persists(pairs: Seq<(Seq<char>, (Seq<char>, Option<Seq<char>>))>, i: int)
    requires
        0 <= i <= pairs.len(),
        devices_outcome(pairs.take(i)) is Err,
    ensures
        devices_outcome(pairs.take(pairs.len() as int)) == devices_outcome(pairs.take(i)),
    decreases pairs.len() - i,
{
    if i < pairs.len() {
        assert(pairs.take(i + 1).drop_last() =~= pairs.take(i));
        lemma_devices_outcome_err_persists(pairs, i + 1);
    }
}

/// The error for a failed read of the configuration file: a missing file
/// points at the `init` command, any other failure carries its message.
pub fn read_failure(path: &str, not_found: bool, detail: String) -> (r: AppError)
    ensures
        not_found ==> (r matches AppError::ConfigMissing { path: p, hint: h } && p@ == path@ && h@
            == "run 'tailsnip init' to create a template config"@),
        !not_found ==> (r matches AppError::ConfigIo { path: p, source: s } && p@ == path@ && s@
            == detail@),
{
    if not_found {
        AppError::ConfigMissing {
            path: String::from_str(path),
            hint: String::from_str("run 'tailsnip init' to create a template config"),
        }
    } else {
        AppError::ConfigIo { path: String::from_str(path), source: detail }
    }
}

/// The error for a failed creation of the template file: an existing file is
/// reported as such, any other failure carries its message.
pub fn template_create_failure(path: &str, already_exists: bool, detail: String) -> (r: AppError)
    ensures
        already_exists ==> (r matches AppError::ConfigAlreadyExists(p) && p@ == path@),
        !already_exists ==> (r matches AppError::ConfigIo { path: p, source: s } && p@ == path@
            && s@ == detail@),
{
    if already_exists {
        AppError::ConfigAlreadyExists(String::from_str(path))
    } else {
        AppError::ConfigIo { path: String::from_str(path), source: detail }
    }
}

/// Where the configuration directory lives.
#[derive(Debug, Clone, Copy, PartialEq, Eq)]
pub enum ConfigRoot {
    /// `$XDG_CONFIG_HOME/tailsnip`
    XdgConfigHome,
    /// `$HOME/.config/tailsnip`
    Home,
}

/// `XDG_CONFIG_HOME` wins over `HOME`; without either there is no directory.
pub fn config_root(xdg_config_home_set: bool, home_set: bool) -> (r: AppResult<ConfigRoot>)
    ensures
        xdg_config_home_set ==> r == Ok::<ConfigRoot, AppError>(ConfigRoot::XdgConfigHome),
        !xdg_config_home_set && home_set ==> r == Ok::<ConfigRoot, AppError>(ConfigRoot::Home),
        !xdg_config_home_set && !home_set ==> (r matches Err(AppError::ConfigHomeMissing(m)) && m@
            == "HOME is not set and XDG_CONFIG_HOME is not available"@),
{
    if xdg_config_home_set {
        Ok(ConfigRoot::XdgConfigHome)
    } else if home_set {
        Ok(ConfigRoot::Home)
    } else {
        Err(
            AppError::ConfigHomeMissing(
                String::from_str("HOME is not set and XDG_CONFIG_HOME is not available"),
            ),
        )
    }
}

/// The text of the template configuration file.
pub open spec fn template_text() -> Seq<char> {
    "# Replace the token with your real value.\n\ntoken = \"change-me\"\n\n[daemon]\nlisten = \""@
        + DEFAULT_DAEMON_LISTEN@ + "\"\n"@
}

/// The template written by `init`: a placeholder token and the default
/// listen address, and no `[devices]` table.
pub fn template_config() -> (r: String)
    ensures
        r@ == template_text(),
{
    join3(
        "# Replace the token with your real value.\n\ntoken = \"change-me\"\n\n[daemon]\nlisten = \"",
        DEFAULT_DAEMON_LISTEN,
        "\"\n",
    )
}

} // verus!

verus! {

/// Every peer of an accepted `[devices]` table has an allowed, non-blank
/// alias and the address its written address parsed to; a non-empty list
/// of pairs gives a non-empty table.
pub proof fn lemma_devices_outcome_shape(pairs: Seq<(Seq<char>, (Seq<char>, Option<Seq<char>>))>)
    requires
        devices_outcome(pairs) is Ok,
    ensures
        forall|k: Seq<char>| #[trigger]
            devices_outcome(pairs)->Ok_0.contains_key(k) ==> !is_blank(k) && alias_chars_allowed(k)
                && exists|i: int|
                0 <= i < pairs.len() && pairs[i].0 == k && pairs[i].1.1 == Some(
                    devices_outcome(pairs)->Ok_0[k],
                ),
        pairs.len() > 0 ==> devices_outcome(pairs)->Ok_0.contains_key(pairs.last().0),
    decreases pairs.len(),
{
    if pairs.len() > 0 {
        let front = pairs.drop_last();
        lemma_devices_outcome_shape(front);
        let m = devices_outcome(pairs)->Ok_0;
        let m0 = devices_outcome(front)->Ok_0;
        let last = pairs.last();
        assert forall|k: Seq<char>| #[trigger] m.contains_key(k) implies !is_blank(k)
            && alias_chars_allowed(k) && exists|i: int|
            0 <= i < pairs.len() && pairs[i].0 == k && pairs[i].1.1 == Some(m[k]) by {
            if k == last.0 {
                assert(pairs[pairs.len() - 1].0 == k);
            } else {
                assert(m0.contains_key(k));
                let i = choose|i: int|
                    0 <= i < front.len() && front[i].0 == k && front[i].1.1 == Some(m0[k]);
                assert(pairs[i] == front[i]);
            }
        }
    }
}

/// An accepted configuration has a non-blank token, peers with allowed
/// aliases whose addresses are the parsed forms of what the file wrote, a
/// non-empty peer table whenever the file has a `[devices]` table, and the
/// parsed listen address.
pub proof fn lemma_accepted_config_shape(raw: &RawConfig)
    requires
        config_outcome(raw) is Ok,
    ensures
        !is_blank(config_outcome(raw)->Ok_0.0),
        written_text(&raw.listen).1 == Some(config_outcome(raw)->Ok_0.1),
        forall|k: Seq<char>| #[trigger]
            config_outcome(raw)->Ok_0.2.contains_key(k) ==> !is_blank(k) && alias_chars_allowed(k),
        forall|k: Seq<char>| #[trigger]
            config_outcome(raw)->Ok_0.2.contains_key(k) ==> exists|i: int|
                0 <= i < raw_devices(raw)->Some_0.len() && raw_devices(raw)->Some_0[i].0 == k
                    && raw_devices(raw)->Some_0[i].1.1 == Some(config_outcome(raw)->Ok_0.2[k]),
        raw_devices(raw) is Some ==> exists|k: Seq<char>|
            config_outcome(raw)->Ok_0.2.contains_key(k),
{
    match raw_devices(raw) {
        Some(pairs) => {
            lemma_devices_outcome_shape(pairs);
            assert(config_outcome(raw)->Ok_0.2.contains_key(pairs.last().0));
        },
        None => {
        },
    }
}

} // verus!

verus! {

/// The address a pair's alias ends up with: the one of the last pair that
/// names it.
pub open spec fn last_naming(pairs: Seq<(Seq<char>, (Seq<char>, Option<Seq<char>>))>, i: int) -> bool {
    forall|j: int| i < j < pairs.len() ==> #[trigger] pairs[j].0 != pairs[i].0
}

/// A `[devices]` list is accepted exactly when every pair is; the accepted
/// table's aliases are those of the pairs, and each alias has the address
/// of the last pair that names it.
pub proof fn lemma_devices_outcome_ok_iff(pairs: Seq<(Seq<char>, (Seq<char>, Option<Seq<char>>))>)
    ensures
        devices_outcome(pairs) is Ok <==> forall|i: int|
            0 <= i < pairs.len() ==> #[trigger] device_outcome(pairs[i].0, pairs[i].1) is Ok,
        devices_outcome(pairs) is Ok ==> forall|k: Seq<char>|
            #[trigger] devices_outcome(pairs)->Ok_0.contains_key(k) <==> exists|i: int|
                0 <= i < pairs.len() && pairs[i].0 == k,
        devices_outcome(pairs) is Ok ==> forall|i: int|
            0 <= i < pairs.len() && #[trigger] last_naming(pairs, i) ==> devices_outcome(pairs)->Ok_0[pairs[i].0]
                == device_outcome(pairs[i].0, pairs[i].1)->Ok_0,
    decreases pairs.len(),
{
    if pairs.len() > 0 {
        let front = pairs.drop_last();
        let n = pairs.len() - 1;
        lemma_devices_outcome_ok_iff(front);
        if devices_outcome(pairs) is Ok {
            let m = devices_outcome(pairs)->Ok_0;
            let m0 = devices_outcome(front)->Ok_0;
            assert forall|i: int| 0 <= i < pairs.len() implies #[trigger] device_outcome(
                pairs[i].0,
                pairs[i].1,
            ) is Ok by {
                if i < n {
                    assert(pairs[i] == front[i]);
                }
            }
            assert forall|k: Seq<char>| #[trigger] m.contains_key(k) <==> exists|i: int|
                0 <= i < pairs.len() && pairs[i].0 == k by {
                if m.contains_key(k) {
                    if k == pairs[n].0 {
                    } else {
                        assert(m0.contains_key(k));
                        let i = choose|i: int| 0 <= i < front.len() && front[i].0 == k;
                        assert(pairs[i] == front[i]);
                    }
                }
                if exists|i: int| 0 <= i < pairs.len() && pairs[i].0 == k {
                    let i = choose|i: int| 0 <= i < pairs.len() && pairs[i].0 == k;
                    if i < n {
                        assert(front[i].0 == k);
                        assert(m0.contains_key(k));
                    }
                }
            }
            assert forall|i: int| 0 <= i < pairs.len() && #[trigger] last_naming(pairs, i) implies m[pairs[i].0]
                == device_outcome(pairs[i].0, pairs[i].1)->Ok_0 by {
                if i < n {
                    assert(pairs[n].0 != pairs[i].0);
                    assert(front[i] == pairs[i]);
                    assert forall|j: int| i < j < front.len() implies #[trigger] front[j].0 != front[i].0 by {
                        assert(pairs[j].0 != pairs[i].0);
                    }
                    assert(last_naming(front, i));
                }
            }
        } else {
            if devices_outcome(front) is Ok {
                assert(!(device_outcome(pairs[n].0, pairs[n].1) is Ok));
            } else {
                let i = choose|i: int|
                    0 <= i < front.len() && !(#[trigger] device_outcome(front[i].0, front[i].1) is Ok);
                assert(pairs[i] == front[i]);
                assert(!(device_outcome(pairs[i].0, pairs[i].1) is Ok));
            }
        }
    }
}

/// A configuration is accepted exactly when its token is present and not
/// blank, its listen address parses, and it has either no `[devices]` table
/// or a non-empty one whose every pair has a non-blank allowed alias and a
/// non-blank address that parses. The accepted configuration keeps the token
/// as written, the parsed listen address, and exactly the aliases of the
/// pairs, each with the parsed address of the last pair naming it.
pub proof fn lemma_config_accepted_iff(raw: &RawConfig)
    ensures
        config_outcome(raw) is Ok <==> {
            &&& raw_token(raw) matches Some(t) && !is_blank(t)
            &&& written_text(&raw.listen).1 is Some
            &&& raw_devices(raw) matches Some(p) ==> p.len() > 0 && forall|i: int|
                0 <= i < p.len() ==> #[trigger] device_outcome(p[i].0, p[i].1) is Ok
        },
        config_outcome(raw) is Ok ==> {
            &&& raw_token(raw) == Some(config_outcome(raw)->Ok_0.0)
            &&& written_text(&raw.listen).1 == Some(config_outcome(raw)->Ok_0.1)
        },
        config_outcome(raw) is Ok && raw_devices(raw) is None ==> config_outcome(raw)->Ok_0.2
            == Map::<Seq<char>, Seq<char>>::empty(),
        config_outcome(raw) is Ok && raw_devices(raw) is Some ==> forall|k: Seq<char>|
            #[trigger] config_outcome(raw)->Ok_0.2.contains_key(k) <==> exists|i: int|
                0 <= i < raw_devices(raw)->Some_0.len() && raw_devices(raw)->Some_0[i].0 == k,
        config_outcome(raw) is Ok && raw_devices(raw) is Some ==> forall|i: int|
            0 <= i < raw_devices(raw)->Some_0.len() && #[trigger] last_naming(raw_devices(raw)->Some_0, i)
                ==> config_outcome(raw)->Ok_0.2[raw_devices(raw)->Some_0[i].0] == device_outcome(
                raw_devices(raw)->Some_0[i].0,
                raw_devices(raw)->Some_0[i].1,
            )->Ok_0,
{
    match raw_devices(raw) {
        Some(p) => {
            lemma_devices_outcome_ok_iff(p);
        },
        None => {},
    }
}

/// No alias is named by two pairs, as in a TOML table, which names each key
/// once.
pub open spec fn aliases_distinct(pairs: Seq<(Seq<char>, (Seq<char>, Option<Seq<char>>))>) -> bool {
    forall|i: int, j: int|
        #![trigger pairs[i], pairs[j]]
        0 <= i < j < pairs.len() ==> pairs[i].0 != pairs[j].0
}

/// A written address whose text is blank did not parse: a socket address is
/// never blank.
pub open spec fn parse_consistent(address: (Seq<char>, Option<Seq<char>>)) -> bool {
    is_blank(address.0) ==> address.1 is None
}

/// What the file's contents hold of their own accord: the `[devices]` pairs
/// come from a table, and each address was parsed from its text.
pub open spec fn raw_from_file(raw: &RawConfig) -> bool {
    match raw_devices(raw) {
        Some(p) => aliases_distinct(p) && forall|i: int|
            0 <= i < p.len() ==> #[trigger] parse_consistent(p[i].1),
        None => true,
    }
}

/// A device alias is accepted: it is not empty and every character is a
/// lowercase letter, a digit, `-` or `_`.
pub open spec fn alias_accepted(alias: Seq<char>) -> bool {
    alias.len() > 0 && alias_chars_allowed(alias)
}

/// A character allowed in an alias is not white space, so an accepted alias
/// is never blank.
pub proof fn lemma_alias_accepted_iff(alias: Seq<char>)
    ensures
        alias_accepted(alias) <==> !is_blank(alias) && alias_chars_allowed(alias),
{
    if alias_accepted(alias) {
        let c = alias[0];
        assert(is_alias_char(c));
        assert(!is_whitespace_char(c));
    }
}

/// Validation, read over a file's contents: a configuration is accepted
/// exactly when the token is there and not blank, the listen address (the
/// default one where the file names none) parses, and either there is no
/// `[devices]` table or the table is not empty and every peer has an accepted
/// alias and an address that parses. An accepted configuration keeps the
/// token as written and the parsed listen address; its peers are exactly the
/// table's aliases, each with its parsed address, and there are none without
/// a table.
pub proof fn lemma_config_law(raw: &RawConfig)
    requires
        raw_from_file(raw),
    ensures
        config_outcome(raw) is Ok <==> {
            &&& raw_token(raw) matches Some(t) && !is_blank(t)
            &&& written_text(&raw.listen).1 is Some
            &&& raw_devices(raw) matches Some(p) ==> p.len() > 0 && forall|i: int|
                0 <= i < p.len() ==> alias_accepted(#[trigger] p[i].0) && p[i].1.1 is Some
        },
        config_outcome(raw) is Ok ==> {
            &&& raw_token(raw) == Some(config_outcome(raw)->Ok_0.0)
            &&& written_text(&raw.listen).1 == Some(config_outcome(raw)->Ok_0.1)
        },
        config_outcome(raw) is Ok && raw_devices(raw) is None ==> config_outcome(raw)->Ok_0.2
            == Map::<Seq<char>, Seq<char>>::empty(),
        config_outcome(raw) is Ok && raw_devices(raw) is Some ==> {
            let p = raw_devices(raw)->Some_0;
            let table = config_outcome(raw)->Ok_0.2;
            &&& forall|k: Seq<char>| #[trigger]
                table.contains_key(k) <==> exists|i: int| 0 <= i < p.len() && p[i].0 == k
            &&& forall|i: int| 0 <= i < p.len() ==> Some(table[#[trigger] p[i].0]) == p[i].1.1
        },
{
    lemma_config_accepted_iff(raw);
    if let Some(p) = raw_devices(raw) {
        assert forall|i: int| 0 <= i < p.len() implies (#[trigger] device_outcome(
            p[i].0,
            p[i].1,
        ) is Ok <==> alias_accepted(p[i].0) && p[i].1.1 is Some) by {
            lemma_alias_accepted_iff(p[i].0);
            assert(parse_consistent(p[i].1));
        }
        assert((forall|i: int| 0 <= i < p.len() ==> #[trigger] device_outcome(p[i].0, p[i].1) is Ok)
            <==> (forall|i: int| 0 <= i < p.len() ==> alias_accepted(#[trigger] p[i].0)
            && p[i].1.1 is Some)) by {
            if forall|i: int| 0 <= i < p.len() ==> #[trigger] device_outcome(p[i].0, p[i].1) is Ok {
                assert forall|i: int| 0 <= i < p.len() implies alias_accepted(#[trigger] p[i].0)
                    && p[i].1.1 is Some by {
                    assert(device_outcome(p[i].0, p[i].1) is Ok);
                }
            }
            if forall|i: int| 0 <= i < p.len() ==> alias_accepted(#[trigger] p[i].0)
                && p[i].1.1 is Some {
                assert forall|i: int| 0 <= i < p.len() implies #[trigger] device_outcome(
                    p[i].0,
                    p[i].1,
                ) is Ok by {
                    assert(alias_accepted(p[i].0));
                }
            }
        }
        if config_outcome(raw) is Ok {
            assert forall|i: int| 0 <= i < p.len() implies #[trigger] last_naming(p, i) by {
                assert forall|j: int| i < j < p.len() implies #[trigger] p[j].0 != p[i].0 by {
                    assert(p[i].0 != p[j].0);
                }
            }
            assert forall|i: int| 0 <= i < p.len() implies Some(
                config_outcome(raw)->Ok_0.2[#[trigger] p[i].0],
            ) == p[i].1.1 by {
                assert(last_naming(p, i));
                assert(device_outcome(p[i].0, p[i].1) is Ok);
            }
        }
    }
}

/// A peer is accepted on its alias's characters alone: an alias that is not
/// empty and is made of lowercase ASCII letters, ASCII digits, `-` and `_`,
/// with a written address that parsed, gives the parsed address; an alias
/// that is not blank but holds any other character is refused as invalid,
/// whatever its address.
pub proof fn lemma_alias_rule(alias: Seq<char>, address: (Seq<char>, Option<Seq<char>>))
    ensures
        alias.len() > 0 && (forall|i: int|
            0 <= i < alias.len() ==> ('a' <= #[trigger] alias[i] && alias[i] <= 'z') || ('0'
                <= alias[i] && alias[i] <= '9') || alias[i] == '-' || alias[i] == '_')
            && !is_blank(address.0) && address.1 is Some ==> device_outcome(alias, address)
            == Ok::<Seq<char>, Seq<char>>(address.1->Some_0),
        !is_blank(alias) && (exists|i: int|
            0 <= i < alias.len() && !(('a' <= #[trigger] alias[i] && alias[i] <= 'z') || ('0'
                <= alias[i] && alias[i] <= '9') || alias[i] == '-' || alias[i] == '_'))
            ==> device_outcome(alias, address) == Err::<Seq<char>, Seq<char>>(
            "invalid device alias '"@ + alias + "' (allowed: lowercase letters, digits, '-' and '_')"@,
        ),
{
    lemma_alias_accepted_iff(alias);
    if exists|i: int|
        0 <= i < alias.len() && !(('a' <= #[trigger] alias[i] && alias[i] <= 'z') || ('0'
            <= alias[i] && alias[i] <= '9') || alias[i] == '-' || alias[i] == '_') {
        let i = choose|i: int|
            0 <= i < alias.len() && !(('a' <= #[trigger] alias[i] && alias[i] <= 'z') || ('0'
                <= alias[i] && alias[i] <= '9') || alias[i] == '-' || alias[i] == '_');
        assert(!is_alias_char(alias[i]));
    }
}

} // verus!
