use vstd::prelude::*;

verus! {

/// Where the control-plane server is reached.
#[derive(Debug, Clone)]
pub struct ServerConfig {
    pub host: String,
    pub port: String,
}

/// The local client's identity and preferences.
#[derive(Debug, Clone)]
pub struct ClientConfig {
    pub name: String,
    pub auto_register: bool,
    pub requested_scopes: Vec<String>,
}

/// Presentation preferences; this library only stores them.
#[derive(Debug, Clone)]
pub struct TrayConfig {
    pub enabled: bool,
    pub minimize_to_tray: bool,
    pub show_notification: bool,
}

/// The whole persisted configuration.
///
/// An empty `api_key` means that the client has not registered yet.
#[derive(Debug, Clone)]
pub struct PrizmConfig {
    pub server: ServerConfig,
    pub client: ClientConfig,
    pub api_key: String,
    pub tray: TrayConfig,
}

/// The mathematical value of a configuration.
pub ghost struct ConfigView {
    pub host: Seq<char>,
    pub port: Seq<char>,
    pub name: Seq<char>,
    pub auto_register: bool,
    pub requested_scopes: Seq<Seq<char>>,
    pub api_key: Seq<char>,
    pub tray_enabled: bool,
    pub minimize_to_tray: bool,
    pub show_notification: bool,
}

impl View for PrizmConfig {
    type V = ConfigView;

    open spec fn view(&self) -> ConfigView {
        ConfigView {
            host: self.server.host@,
            port: self.server.port@,
            name: self.client.name@,
            auto_register: self.client.auto_register,
            requested_scopes: self.client.requested_scopes.deep_view(),
            api_key: self.api_key@,
            tray_enabled: self.tray.enabled,
            minimize_to_tray: self.tray.minimize_to_tray,
            show_notification: self.tray.show_notification,
        }
    }
}

pub open spec fn default_host() -> Seq<char> {
    seq!['1', '2', '7', '.', '0', '.', '0', '.', '1']
}

pub open spec fn default_port() -> Seq<char> {
    seq!['4', '1', '2', '7']
}

pub open spec fn default_name() -> Seq<char> {
    seq!['P', 'r', 'i', 'z', 'm', ' ', 'T', 'a', 'u', 'r', 'i', ' ', 'C', 'l', 'i', 'e', 'n', 't']
}

pub open spec fn default_scope() -> Seq<char> {
    seq!['d', 'e', 'f', 'a', 'u', 'l', 't']
}

pub open spec fn default_scopes() -> Seq<Seq<char>> {
    seq![default_scope()]
}

/// The configuration used when nothing has been stored.
pub open spec fn default_config() -> ConfigView {
    ConfigView {
        host: default_host(),
        port: default_port(),
        name: default_name(),
        auto_register: true,
        requested_scopes: default_scopes(),
        api_key: Seq::empty(),
        tray_enabled: true,
        minimize_to_tray: true,
        show_notification: true,
    }
}

impl Default for ServerConfig {
    fn default() -> (r: Self)
        ensures
            r.host@ == default_host(),
            r.port@ == default_port(),
    {
        proof {
            reveal_strlit("127.0.0.1");
            reveal_strlit("4127");
        }
        assert("127.0.0.1"@ =~= default_host());
        assert("4127"@ =~= default_port());
        ServerConfig { host: String::from_str("127.0.0.1"), port: String::from_str("4127") }
    }
}

impl Default for ClientConfig {
    fn default() -> (r: Self)
        ensures
            r.name@ == default_name(),
            r.auto_register,
            r.requested_scopes.deep_view() == default_scopes(),
    {
        proof {
            reveal_strlit("Prizm Tauri Client");
            reveal_strlit("default");
        }
        assert("Prizm Tauri Client"@ =~= default_name());
        assert("default"@ =~= default_scope());
        let mut scopes: Vec<String> = Vec::new();
        scopes.push(String::from_str("default"));
        assert(scopes.deep_view() =~= default_scopes());
        ClientConfig {
            name: String::from_str("Prizm Tauri Client"),
            auto_register: true,
            requested_scopes: scopes,
        }
    }
}

impl Default for TrayConfig {
    fn default() -> (r: Self)
        ensures
            r.enabled,
            r.minimize_to_tray,
            r.show_notification,
    {
        TrayConfig { enabled: true, minimize_to_tray: true, show_notification: true }
    }
}

impl Default for PrizmConfig {
    fn default() -> (r: Self)
        ensures
            r@ == default_config(),
    {
        let r = PrizmConfig {
            server: ServerConfig::default(),
            client: ClientConfig::default(),
            api_key: String::new(),
            tray: TrayConfig::default(),
        };
        assert(r@.api_key =~= Seq::<char>::empty());
        r
    }
}

impl PrizmConfig {
    /// `host:port`, with no scheme.
    pub fn get_server_url(&self) -> (r: String)
        ensures
            r@ == self.server.host@ + seq![':'] + self.server.port@,
    {
        let mut r = self.server.host.clone();
        proof {
            reveal_strlit(":");
        }
        r.append(":");
        r.append(self.server.port.as_str());
        r
    }
}

/// A server section as found in a stored document: each field may be absent.
#[derive(Debug, Clone)]
pub struct StoredServer {
    pub host: Option<String>,
    pub port: Option<String>,
}

/// A client section as found in a stored document.
#[derive(Debug, Clone)]
pub struct StoredClient {
    pub name: Option<String>,
    pub auto_register: Option<bool>,
    pub requested_scopes: Option<Vec<String>>,
}

/// A tray section as found in a stored document.
#[derive(Debug, Clone)]
pub struct StoredTray {
    pub enabled: Option<bool>,
    pub minimize_to_tray: Option<bool>,
    pub show_notification: Option<bool>,
}

/// A configuration document as read from storage, before defaults are
/// applied: any section, and any field of a section, may be missing.
#[derive(Debug, Clone)]
pub struct StoredConfig {
    pub server: Option<StoredServer>,
    pub client: Option<StoredClient>,
    pub api_key: Option<String>,
    pub tray: Option<StoredTray>,
}

pub open spec fn or_default<T>(o: Option<T>, d: T) -> T {
    match o {
        Some(v) => v,
        None => d,
    }
}

pub open spec fn opt_view(o: Option<String>) -> Option<Seq<char>> {
    match o {
        Some(s) => Some(s@),
        None => None,
    }
}

pub open spec fn opt_scopes_view(o: Option<Vec<String>>) -> Option<Seq<Seq<char>>> {
    match o {
        Some(v) => Some(v.deep_view()),
        None => None,
    }
}

/// The configuration that a stored document stands for: every absent
/// section or field takes its default value.
pub open spec fn resolved(d: StoredConfig) -> ConfigView {
    let dc = default_config();
    let (host, port) = match d.server {
        Some(s) => (or_default(opt_view(s.host), dc.host), or_default(opt_view(s.port), dc.port)),
        None => (dc.host, dc.port),
    };
    let (name, auto_register, scopes) = match d.client {
        Some(c) => (
            or_default(opt_view(c.name), dc.name),
            or_default(c.auto_register, dc.auto_register),
            or_default(opt_scopes_view(c.requested_scopes), dc.requested_scopes),
        ),
        None => (dc.name, dc.auto_register, dc.requested_scopes),
    };
    let (enabled, minimize, notify) = match d.tray {
        Some(t) => (
            or_default(t.enabled, dc.tray_enabled),
            or_default(t.minimize_to_tray, dc.minimize_to_tray),
            or_default(t.show_notification, dc.show_notification),
        ),
        None => (dc.tray_enabled, dc.minimize_to_tray, dc.show_notification),
    };
    ConfigView {
        host,
        port,
        name,
        auto_register,
        requested_scopes: scopes,
        api_key: or_default(opt_view(d.api_key), dc.api_key),
        tray_enabled: enabled,
        minimize_to_tray: minimize,
        show_notification: notify,
    }
}

/// The document that saving a configuration writes: every field present.
pub open spec fn is_full_document_of(d: StoredConfig, c: ConfigView) -> bool {
    &&& d.server matches Some(s) && opt_view(s.host) == Some(c.host) && opt_view(s.port) == Some(
        c.port,
    )
    &&& d.client matches Some(cl) && opt_view(cl.name) == Some(c.name) && cl.auto_register == Some(
        c.auto_register,
    ) && opt_scopes_view(cl.requested_scopes) == Some(c.requested_scopes)
    &&& opt_view(d.api_key) == Some(c.api_key)
    &&& d.tray matches Some(t) && t.enabled == Some(c.tray_enabled) && t.minimize_to_tray == Some(
        c.minimize_to_tray,
    ) && t.show_notification == Some(c.show_notification)
}

fn string_or(o: Option<String>, d: String) -> (r: String)
    ensures
        r@ == or_default(opt_view(o), d@),
{
    match o {
        Some(s) => s,
        None => d,
    }
}

impl StoredServer {
    fn into_server(self) -> (r: ServerConfig)
        ensures
            r.host@ == or_default(opt_view(self.host), default_host()),
            r.port@ == or_default(opt_view(self.port), default_port()),
    {
        let d = ServerConfig::default();
        ServerConfig { host: string_or(self.host, d.host), port: string_or(self.port, d.port) }
    }
}

impl StoredClient {
    fn into_client(self) -> (r: ClientConfig)
        ensures
            r.name@ == or_default(opt_view(self.name), default_name()),
            r.auto_register == or_default(self.auto_register, true),
            r.requested_scopes.deep_view() == or_default(
                opt_scopes_view(self.requested_scopes),
                default_scopes(),
            ),
    {
        let d = ClientConfig::default();
        let auto_register = match self.auto_register {
            Some(b) => b,
            None => d.auto_register,
        };
        let requested_scopes = match self.requested_scopes {
            Some(v) => v,
            None => d.requested_scopes,
        };
        ClientConfig { name: string_or(self.name, d.name), auto_register, requested_scopes }
    }
}

impl StoredTray {
    fn into_tray(self) -> (r: TrayConfig)
        ensures
            r.enabled == or_default(self.enabled, true),
            r.minimize_to_tray == or_default(self.minimize_to_tray, true),
            r.show_notification == or_default(self.show_notification, true),
    {
        TrayConfig {
            enabled: match self.enabled {
                Some(b) => b,
                None => true,
            },
            minimize_to_tray: match self.minimize_to_tray {
                Some(b) => b,
                None => true,
            },
            show_notification: match self.show_notification {
                Some(b) => b,
                None => true,
            },
        }
    }
}

impl StoredConfig {
    /// Fills every absent section or field of a stored document with its
    /// default value. A present value is kept as it is, even if empty.
    pub fn with_defaults(self) -> (r: PrizmConfig)
        ensures
            r@ == resolved(self),
    {
        let server = match self.server {
            Some(s) => s.into_server(),
            None => ServerConfig::default(),
        };
        let client = match self.client {
            Some(c) => c.into_client(),
            None => ClientConfig::default(),
        };
        let api_key = string_or(self.api_key, String::new());
        let tray = match self.tray {
            Some(t) => t.into_tray(),
            None => TrayConfig::default(),
        };
        PrizmConfig { server, client, api_key, tray }
    }
}

impl PrizmConfig {
    /// The configuration that loading yields: defaults where nothing is
    /// stored, else the stored document with its gaps filled.
    pub fn from_stored(stored: Option<StoredConfig>) -> (r: PrizmConfig)
        ensures
            stored is None ==> r@ == default_config(),
            stored matches Some(d) ==> r@ == resolved(d),
    {
        match stored {
            Some(d) => d.with_defaults(),
            None => PrizmConfig::default(),
        }
    }

    /// The document that saving writes: the configuration with every field
    /// present.
    pub fn to_stored(self) -> (r: StoredConfig)
        ensures
            is_full_document_of(r, self@),
    {
        StoredConfig {
            server: Some(StoredServer { host: Some(self.server.host), port: Some(self.server.port) }),
            client: Some(
                StoredClient {
                    name: Some(self.client.name),
                    auto_register: Some(self.client.auto_register),
                    requested_scopes: Some(self.client.requested_scopes),
                },
            ),
            api_key: Some(self.api_key),
            tray: Some(
                StoredTray {
                    enabled: Some(self.tray.enabled),
                    minimize_to_tray: Some(self.tray.minimize_to_tray),
                    show_notification: Some(self.tray.show_notification),
                },
            ),
        }
    }
}

/// Saving a configuration and loading the saved document gives the same
/// configuration back, for every configuration, empty scopes and an empty
/// key included.
pub proof fn lemma_save_load_round_trip(c: ConfigView, d: StoredConfig)
    requires
        is_full_document_of(d, c),
    ensures
        resolved(d) == c,
{
}

/// A field missing from a stored document is loaded as its default value,
/// never as an empty value: after loading, host and port are never empty.
pub proof fn lemma_missing_fields_take_defaults(d: StoredConfig)
    ensures
        (d.server is None || d.server->0.host is None) ==> resolved(d).host == default_host(),
        (d.server is None || d.server->0.port is None) ==> resolved(d).port == default_port(),
        (d.client is None || d.client->0.name is None) ==> resolved(d).name == default_name(),
        (d.client is None || d.client->0.requested_scopes is None) ==> resolved(d).requested_scopes
            == default_scopes(),
        (d.client is None || d.client->0.auto_register is None) ==> resolved(d).auto_register,
        d.api_key is None ==> resolved(d).api_key.len() == 0,
        (d.tray is None || d.tray->0.enabled is None) ==> resolved(d).tray_enabled,
        (d.tray is None || d.tray->0.minimize_to_tray is None) ==> resolved(d).minimize_to_tray,
        (d.tray is None || d.tray->0.show_notification is None) ==> resolved(d).show_notification,
{
}

} // verus!
