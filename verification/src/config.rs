//! The agent's configuration and the settings form that edits it.

use vstd::prelude::*;
use vstd::string::*;
use crate::text::{clone_opt, opt_view, owned, str_eq, trim, trimmed};

verus! {

/// Smallest accepted image limit, in KiB.
pub const MIN_IMAGE_KB: u64 = 1;

/// Largest accepted image limit, in KiB.
pub const MAX_IMAGE_KB: u64 = 524288;

/// `kb` brought into the accepted range of image limits.
pub open spec fn clamped_image_kb(kb: int) -> int {
    if kb < MIN_IMAGE_KB {
        MIN_IMAGE_KB as int
    } else if kb > MAX_IMAGE_KB {
        MAX_IMAGE_KB as int
    } else {
        kb
    }
}

/// Brings an image limit into the accepted range.
pub fn clamp_image_kb(kb: u64) -> (r: u64)
    ensures
        r == clamped_image_kb(kb as int),
        MIN_IMAGE_KB <= r <= MAX_IMAGE_KB,
{
    if kb < MIN_IMAGE_KB {
        MIN_IMAGE_KB
    } else if kb > MAX_IMAGE_KB {
        MAX_IMAGE_KB
    } else {
        kb
    }
}

/// Image limit of a fresh installation, in KiB.
pub fn default_max_image_kb() -> (r: u64)
    ensures
        r == 512,
{
    512
}

/// Backdrop material of a fresh installation.
pub fn default_material_effect() -> (r: String)
    ensures
        r@ == "acrylic"@,
{
    owned("acrylic")
}

/// Theme of a fresh installation.
pub fn default_theme_mode() -> (r: String)
    ensures
        r@ == "system"@,
{
    owned("system")
}

/// Language of a fresh installation.
pub fn default_language() -> (r: String)
    ensures
        r@ == "en"@,
{
    owned("en")
}

/// Transport of a fresh installation.
pub fn default_connection_mode() -> (r: String)
    ensures
        r@ == "server"@,
{
    owned("server")
}

/// LAN device name of a fresh installation: empty, for the host name.
pub fn default_lan_device_name() -> (r: String)
    ensures
        r@ == Seq::<char>::empty(),
{
    String::new()
}

/// What closing the window does in a fresh installation.
pub fn default_close_behavior() -> (r: String)
    ensures
        r@ == "minimize_to_tray"@,
{
    owned("minimize_to_tray")
}

/// Seconds between two periodic synchronisations.
pub fn default_sync_interval() -> (r: u64)
    ensures
        r == 5,
{
    5
}

/// What the agent is started with.
#[derive(Debug, Clone, PartialEq, Eq)]
pub struct Config {
    pub server_url: String,
    pub token: Option<String>,
    pub username: Option<String>,
    pub password: Option<String>,
    pub max_image_kb: u64,
    pub material_effect: String,
    pub theme_mode: String,
    pub language: String,
    /// `"server"` or `"lan"`.
    pub connection_mode: String,
    /// Name shown to LAN peers; empty to use the host name.
    pub lan_device_name: String,
    /// `"minimize_to_tray"`, `"minimize"` or `"quit"`.
    pub close_behavior: String,
    /// Accept any TLS certificate on `wss` connections.
    pub trust_insecure_cert: bool,
}

pub struct ConfigView {
    pub server_url: Seq<char>,
    pub token: Option<Seq<char>>,
    pub username: Option<Seq<char>>,
    pub password: Option<Seq<char>>,
    pub max_image_kb: u64,
    pub material_effect: Seq<char>,
    pub theme_mode: Seq<char>,
    pub language: Seq<char>,
    pub connection_mode: Seq<char>,
    pub lan_device_name: Seq<char>,
    pub close_behavior: Seq<char>,
    pub trust_insecure_cert: bool,
}

impl View for Config {
    type V = ConfigView;

    open spec fn view(&self) -> ConfigView {
        ConfigView {
            server_url: self.server_url@,
            token: opt_view(self.token),
            username: opt_view(self.username),
            password: opt_view(self.password),
            max_image_kb: self.max_image_kb,
            material_effect: self.material_effect@,
            theme_mode: self.theme_mode@,
            language: self.language@,
            connection_mode: self.connection_mode@,
            lan_device_name: self.lan_device_name@,
            close_behavior: self.close_behavior@,
            trust_insecure_cert: self.trust_insecure_cert,
        }
    }
}

/// The configuration of a fresh installation.
pub open spec fn default_config() -> ConfigView {
    ConfigView {
        server_url: "wss://example.com/ws"@,
        token: None,
        username: None,
        password: None,
        max_image_kb: 512,
        material_effect: "acrylic"@,
        theme_mode: "system"@,
        language: "en"@,
        connection_mode: "server"@,
        lan_device_name: Seq::<char>::empty(),
        close_behavior: "minimize_to_tray"@,
        trust_insecure_cert: false,
    }
}

impl Default for Config {
    fn default() -> (r: Config)
        ensures
            r@ == default_config(),
    {
        Config {
            server_url: owned("wss://example.com/ws"),
            token: None,
            username: None,
            password: None,
            max_image_kb: default_max_image_kb(),
            material_effect: default_material_effect(),
            theme_mode: default_theme_mode(),
            language: default_language(),
            connection_mode: default_connection_mode(),
            lan_device_name: default_lan_device_name(),
            close_behavior: default_close_behavior(),
            trust_insecure_cert: false,
        }
    }
}

impl Config {
    /// Whether the serverless LAN transport is selected.
    pub fn is_lan_mode(&self) -> (r: bool)
        ensures
            r == (self.connection_mode@ == "lan"@),
    {
        str_eq(self.connection_mode.as_str(), "lan")
    }

    /// A copy of this configuration.
    pub fn duplicate(&self) -> (r: Config)
        ensures
            r@ == self@,
    {
        Config {
            server_url: self.server_url.clone(),
            token: clone_opt(&self.token),
            username: clone_opt(&self.username),
            password: clone_opt(&self.password),
            max_image_kb: self.max_image_kb,
            material_effect: self.material_effect.clone(),
            theme_mode: self.theme_mode.clone(),
            language: self.language.clone(),
            connection_mode: self.connection_mode.clone(),
            lan_device_name: self.lan_device_name.clone(),
            close_behavior: self.close_behavior.clone(),
            trust_insecure_cert: self.trust_insecure_cert,
        }
    }
}

/// The settings as the user edits them.
#[derive(Debug, Clone, PartialEq, Eq)]
pub struct SettingsForm {
    pub server_url: String,
    pub token: String,
    pub username: String,
    pub password: String,
    pub max_image_kb: i32,
    pub material_effect: String,
    pub theme_mode: String,
    pub language: String,
    /// `"server"` or `"lan"`.
    pub connection_mode: String,
    pub lan_device_name: String,
    /// `"minimize_to_tray"`, `"minimize"` or `"quit"`.
    pub close_behavior: String,
}

pub struct SettingsFormView {
    pub server_url: Seq<char>,
    pub token: Seq<char>,
    pub username: Seq<char>,
    pub password: Seq<char>,
    pub max_image_kb: i32,
    pub material_effect: Seq<char>,
    pub theme_mode: Seq<char>,
    pub language: Seq<char>,
    pub connection_mode: Seq<char>,
    pub lan_device_name: Seq<char>,
    pub close_behavior: Seq<char>,
}

impl View for SettingsForm {
    type V = SettingsFormView;

    open spec fn view(&self) -> SettingsFormView {
        SettingsFormView {
            server_url: self.server_url@,
            token: self.token@,
            username: self.username@,
            password: self.password@,
            max_image_kb: self.max_image_kb,
            material_effect: self.material_effect@,
            theme_mode: self.theme_mode@,
            language: self.language@,
            connection_mode: self.connection_mode@,
            lan_device_name: self.lan_device_name@,
            close_behavior: self.close_behavior@,
        }
    }
}

/// The empty form: no text anywhere, the image limit zero.
pub open spec fn empty_form() -> SettingsFormView {
    SettingsFormView {
        server_url: Seq::empty(),
        token: Seq::empty(),
        username: Seq::empty(),
        password: Seq::empty(),
        max_image_kb: 0,
        material_effect: Seq::empty(),
        theme_mode: Seq::empty(),
        language: Seq::empty(),
        connection_mode: Seq::empty(),
        lan_device_name: Seq::empty(),
        close_behavior: Seq::empty(),
    }
}

impl Default for SettingsForm {
    fn default() -> (r: SettingsForm)
        ensures
            r@ == empty_form(),
    {
        SettingsForm {
            server_url: String::new(),
            token: String::new(),
            username: String::new(),
            password: String::new(),
            max_image_kb: 0,
            material_effect: String::new(),
            theme_mode: String::new(),
            language: String::new(),
            connection_mode: String::new(),
            lan_device_name: String::new(),
            close_behavior: String::new(),
        }
    }
}

/// The text of an optional setting; empty where it is not set.
pub open spec fn or_empty(s: Option<Seq<char>>) -> Seq<char> {
    match s {
        Some(t) => t,
        None => Seq::empty(),
    }
}

/// The form that shows a configuration: unset credentials are empty, the
/// image limit is brought into its range.
pub open spec fn form_of(c: ConfigView) -> SettingsFormView {
    SettingsFormView {
        server_url: c.server_url,
        token: or_empty(c.token),
        username: or_empty(c.username),
        password: or_empty(c.password),
        max_image_kb: clamped_image_kb(c.max_image_kb as int) as i32,
        material_effect: c.material_effect,
        theme_mode: c.theme_mode,
        language: c.language,
        connection_mode: c.connection_mode,
        lan_device_name: c.lan_device_name,
        close_behavior: c.close_behavior,
    }
}

fn text_or_empty(s: &Option<String>) -> (r: String)
    ensures
        r@ == or_empty(opt_view(*s)),
{
    match s {
        Some(t) => t.clone(),
        None => String::new(),
    }
}

/// Fills the settings form from a configuration.
pub fn settings_form_from_config(cfg: &Config) -> (r: SettingsForm)
    ensures
        r@ == form_of(cfg@),
{
    SettingsForm {
        server_url: cfg.server_url.clone(),
        token: text_or_empty(&cfg.token),
        username: text_or_empty(&cfg.username),
        password: text_or_empty(&cfg.password),
        max_image_kb: clamp_image_kb(cfg.max_image_kb) as i32,
        material_effect: cfg.material_effect.clone(),
        theme_mode: cfg.theme_mode.clone(),
        language: cfg.language.clone(),
        connection_mode: cfg.connection_mode.clone(),
        lan_device_name: cfg.lan_device_name.clone(),
        close_behavior: cfg.close_behavior.clone(),
    }
}

/// Why a form is not accepted.
#[derive(Debug, Clone, Copy, PartialEq, Eq, Structural)]
pub enum SettingsError {
    /// Server mode without a server address.
    EmptyServerUrl,
    /// Server mode without a token and without both user name and password.
    MissingCredentials,
}

/// The text that describes a refused form.
pub open spec fn settings_error_text(e: SettingsError) -> Seq<char> {
    match e {
        SettingsError::EmptyServerUrl => "Server URL cannot be empty"@,
        SettingsError::MissingCredentials => "Please provide either Token or Username/Password"@,
    }
}

impl SettingsError {
    /// Describes why the form was refused.
    pub fn message(&self) -> (r: String)
        ensures
            r@ == settings_error_text(*self),
    {
        match self {
            SettingsError::EmptyServerUrl => owned("Server URL cannot be empty"),
            SettingsError::MissingCredentials => owned(
                "Please provide either Token or Username/Password",
            ),
        }
    }
}

/// A setting that counts only where it is not empty.
pub open spec fn unless_empty(t: Seq<char>) -> Option<Seq<char>> {
    if t.len() == 0 {
        None
    } else {
        Some(t)
    }
}

/// The close behaviour of a form; anything unknown means `minimize_to_tray`.
pub open spec fn close_behavior_of(t: Seq<char>) -> Seq<char> {
    if t == "minimize"@ || t == "quit"@ || t == "minimize_to_tray"@ {
        t
    } else {
        "minimize_to_tray"@
    }
}

/// An image limit of a form, brought into the accepted range.
pub open spec fn form_image_kb(kb: i32) -> u64 {
    clamped_image_kb(kb as int) as u64
}

/// The configuration of a form with the given address and credentials.
pub open spec fn config_with(
    f: SettingsFormView,
    lan: bool,
    server_url: Seq<char>,
    token: Option<Seq<char>>,
    username: Option<Seq<char>>,
    password: Option<Seq<char>>,
) -> ConfigView {
    ConfigView {
        server_url,
        token,
        username,
        password,
        max_image_kb: form_image_kb(f.max_image_kb),
        material_effect: f.material_effect,
        theme_mode: f.theme_mode,
        language: f.language,
        connection_mode: if lan {
            "lan"@
        } else {
            "server"@
        },
        lan_device_name: trimmed(f.lan_device_name),
        close_behavior: close_behavior_of(f.close_behavior),
        trust_insecure_cert: false,
    }
}

/// The configuration that a form stands for. Address and credentials count
/// without the white space around them. In LAN mode they are kept as they
/// are; in server mode the address must not be empty, a token rules out user
/// name and password, and without a token both of these must be there.
pub open spec fn config_of_form(f: SettingsFormView) -> Result<ConfigView, SettingsError> {
    let server_url = trimmed(f.server_url);
    let token = trimmed(f.token);
    let username = trimmed(f.username);
    let password = trimmed(f.password);
    if trimmed(f.connection_mode) == "lan"@ {
        Ok(
            config_with(
                f,
                true,
                server_url,
                unless_empty(token),
                unless_empty(username),
                unless_empty(password),
            ),
        )
    } else if server_url.len() == 0 {
        Err(SettingsError::EmptyServerUrl)
    } else if token.len() > 0 {
        Ok(config_with(f, false, server_url, Some(token), None, None))
    } else if username.len() == 0 || password.len() == 0 {
        Err(SettingsError::MissingCredentials)
    } else {
        Ok(config_with(f, false, server_url, None, Some(username), Some(password)))
    }
}

fn owned_unless_empty(t: &str) -> (r: Option<String>)
    ensures
        opt_view(r) == unless_empty(t@),
{
    if t.is_empty() {
        None
    } else {
        Some(owned(t))
    }
}

fn clamp_form_kb(kb: i32) -> (r: u64)
    ensures
        r == form_image_kb(kb),
{
    if kb < 1 {
        MIN_IMAGE_KB
    } else if kb > 524288 {
        MAX_IMAGE_KB
    } else {
        kb as u64
    }
}

fn close_behavior_text(t: &str) -> (r: String)
    ensures
        r@ == close_behavior_of(t@),
{
    if str_eq(t, "minimize") || str_eq(t, "quit") || str_eq(t, "minimize_to_tray") {
        owned(t)
    } else {
        owned("minimize_to_tray")
    }
}

fn build_config(
    form: &SettingsForm,
    lan: bool,
    server_url: &str,
    token: Option<String>,
    username: Option<String>,
    password: Option<String>,
) -> (r: Config)
    ensures
        r@ == config_with(
            form@,
            lan,
            server_url@,
            opt_view(token),
            opt_view(username),
            opt_view(password),
        ),
{
    Config {
        server_url: owned(server_url),
        token,
        username,
        password,
        max_image_kb: clamp_form_kb(form.max_image_kb),
        material_effect: form.material_effect.clone(),
        theme_mode: form.theme_mode.clone(),
        language: form.language.clone(),
        connection_mode: if lan {
            owned("lan")
        } else {
            owned("server")
        },
        lan_device_name: owned(trim(form.lan_device_name.as_str())),
        close_behavior: close_behavior_text(form.close_behavior.as_str()),
        trust_insecure_cert: false,
    }
}

/// Checks a form and turns it into the configuration to store and to run
/// with.
pub fn validate_settings(form: &SettingsForm) -> (r: Result<Config, SettingsError>)
    ensures
        match r {
            Ok(c) => config_of_form(form@) == Ok::<ConfigView, SettingsError>(c@),
            Err(e) => config_of_form(form@) == Err::<ConfigView, SettingsError>(e),
        },
{
    let server_url = trim(form.server_url.as_str());
    let token = trim(form.token.as_str());
    let username = trim(form.username.as_str());
    let password = trim(form.password.as_str());
    if str_eq(trim(form.connection_mode.as_str()), "lan") {
        Ok(
            build_config(
                form,
                true,
                server_url,
                owned_unless_empty(token),
                owned_unless_empty(username),
                owned_unless_empty(password),
            ),
        )
    } else if server_url.is_empty() {
        Err(SettingsError::EmptyServerUrl)
    } else if !token.is_empty() {
        Ok(build_config(form, false, server_url, Some(owned(token)), None, None))
    } else if username.is_empty() || password.is_empty() {
        Err(SettingsError::MissingCredentials)
    } else {
        Ok(
            build_config(
                form,
                false,
                server_url,
                None,
                Some(owned(username)),
                Some(owned(password)),
            ),
        )
    }
}

} // verus!
