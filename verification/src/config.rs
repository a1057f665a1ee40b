//! Runtime configuration, from environment variables. All values have defaults.
//!
//! | Variable              | Default                          |
//! |-----------------------|----------------------------------|
//! | `WCS_BIND`            | `0.0.0.0`                        |
//! | `WCS_PORT`            | `8090`                           |
//! | `WCS_STUN`            | `stun://stun.l.google.com:19302` |
//! | `WCS_EMULATOR_LAN_IP` | (unset: workaround disabled)     |
//! | `WCS_STATIC_DIR`      | `templates`                      |
//! | `WCS_TEST_SOURCE`     | (unset: camera)                  |

use vstd::prelude::*;

use crate::text::{blank, debug_text, decimal, is_blank, law_decimal_reads_back, opt_text};
use crate::text::{parse_u16, parsed_u16, quoted, same_text, white_space};
use crate::video::VideoSource;

verus! {

/// An IP address.
#[derive(Debug, Clone, Copy, PartialEq, Eq)]
pub enum IpAddress {
    V4([u8; 4]),
    V6([u8; 16]),
}

/// The value of an environment variable.
#[derive(Debug)]
pub enum EnvVar {
    Unset,
    Text(String),
    /// Set to something that is not valid Unicode.
    NotUnicode,
}

impl EnvVar {
    /// The text of the variable, where it is set to one.
    pub open spec fn text(self) -> Option<Seq<char>> {
        match self {
            EnvVar::Text(t) => Some(t@),
            EnvVar::Unset | EnvVar::NotUnicode => None,
        }
    }
}

/// The variable `WCS_BIND`.
#[derive(Debug)]
pub enum BindVar {
    Unset,
    /// Set to this text, which writes this address, if it writes one.
    Text { text: String, address: Option<IpAddress> },
    /// Set to something that is not valid Unicode.
    NotUnicode,
}

/// The environment variables that configure the server.
#[derive(Debug)]
pub struct EnvVars {
    /// `WCS_BIND`.
    pub bind: BindVar,
    /// `WCS_PORT`.
    pub port: EnvVar,
    /// `WCS_STUN`.
    pub stun: EnvVar,
    /// `WCS_EMULATOR_LAN_IP`.
    pub emulator_lan_ip: EnvVar,
    /// `WCS_STATIC_DIR`.
    pub static_dir: EnvVar,
    /// `WCS_TEST_SOURCE`.
    pub test_source: EnvVar,
}

/// Names an environment variable that configures the server.
#[derive(Debug, Clone, Copy, PartialEq, Eq, Structural)]
pub enum Variable {
    Bind,
    Port,
    Stun,
    EmulatorLanIp,
    StaticDir,
    TestSource,
}

impl Variable {
    /// The name of the variable.
    pub open spec fn name_text(self) -> Seq<char> {
        match self {
            Variable::Bind => "WCS_BIND"@,
            Variable::Port => "WCS_PORT"@,
            Variable::Stun => "WCS_STUN"@,
            Variable::EmulatorLanIp => "WCS_EMULATOR_LAN_IP"@,
            Variable::StaticDir => "WCS_STATIC_DIR"@,
            Variable::TestSource => "WCS_TEST_SOURCE"@,
        }
    }

    /// The name of the variable.
    pub fn name(self) -> (r: &'static str)
        ensures
            r@ == self.name_text(),
    {
        match self {
            Variable::Bind => "WCS_BIND",
            Variable::Port => "WCS_PORT",
            Variable::Stun => "WCS_STUN",
            Variable::EmulatorLanIp => "WCS_EMULATOR_LAN_IP",
            Variable::StaticDir => "WCS_STATIC_DIR",
            Variable::TestSource => "WCS_TEST_SOURCE",
        }
    }
}

/// The configuration of the server.
#[derive(Debug, Clone)]
pub struct Config {
    /// Address to bind the server to.
    pub bind: IpAddress,
    /// TCP port to listen on.
    pub port: u16,
    /// STUN server of each peer.
    pub stun_server: String,
    /// When set, candidates that hold this address are repeated with the address of
    /// the Android emulator's host in its place. `None` disables that.
    pub emulator_lan_ip: Option<String>,
    /// Directory served as static files.
    pub static_dir: String,
    /// Where the pictures come from.
    pub source: VideoSource,
}

/// What a `Config` holds.
pub struct ConfigView {
    pub bind: IpAddress,
    pub port: u16,
    pub stun_server: Seq<char>,
    pub emulator_lan_ip: Option<Seq<char>>,
    pub static_dir: Seq<char>,
    pub source: VideoSource,
}

impl View for Config {
    type V = ConfigView;

    open spec fn view(&self) -> ConfigView {
        ConfigView {
            bind: self.bind,
            port: self.port,
            stun_server: self.stun_server@,
            emulator_lan_ip: opt_text(self.emulator_lan_ip),
            static_dir: self.static_dir@,
            source: self.source,
        }
    }
}

/// A variable that is set to something that cannot be read.
#[derive(Debug, PartialEq, Eq)]
pub enum ConfigError {
    /// `WCS_BIND` writes no address. This holds its text.
    Bind(String),
    /// `WCS_PORT` writes no port. This holds its text.
    Port(String),
    /// This variable is not valid Unicode.
    NotUnicode(Variable),
}

/// What a `ConfigError` holds.
pub enum ConfigErrorView {
    Bind(Seq<char>),
    Port(Seq<char>),
    NotUnicode(Variable),
}

impl View for ConfigError {
    type V = ConfigErrorView;

    open spec fn view(&self) -> ConfigErrorView {
        match *self {
            ConfigError::Bind(t) => ConfigErrorView::Bind(t@),
            ConfigError::Port(t) => ConfigErrorView::Port(t@),
            ConfigError::NotUnicode(v) => ConfigErrorView::NotUnicode(v),
        }
    }
}

/// The message for a bad `WCS_BIND`, given its quoted text.
pub fn bind_message(quoted: &str) -> (r: String)
    ensures
        r@ == "WCS_BIND is not a valid IP address: "@ + quoted@,
{
    let mut s = "WCS_BIND is not a valid IP address: ".to_owned();
    s.append(quoted);
    s
}

/// The message for a bad `WCS_PORT`, given its quoted text.
pub fn port_message(quoted: &str) -> (r: String)
    ensures
        r@ == "WCS_PORT is not a valid port: "@ + quoted@,
{
    let mut s = "WCS_PORT is not a valid port: ".to_owned();
    s.append(quoted);
    s
}

/// The message for a variable that cannot be read.
pub open spec fn config_error_text(e: ConfigErrorView) -> Seq<char> {
    match e {
        ConfigErrorView::Bind(t) => "WCS_BIND is not a valid IP address: "@ + debug_text(t),
        ConfigErrorView::Port(t) => "WCS_PORT is not a valid port: "@ + debug_text(t),
        ConfigErrorView::NotUnicode(v) => v.name_text() + " is not valid Unicode"@,
    }
}

impl ConfigError {
    /// The message for this variable.
    pub fn message(&self) -> (r: String)
        ensures
            r@ == config_error_text(self@),
    {
        match self {
            ConfigError::Bind(t) => bind_message(quoted(t.as_str()).as_str()),
            ConfigError::Port(t) => port_message(quoted(t.as_str()).as_str()),
            ConfigError::NotUnicode(v) => {
                let mut s = v.name().to_owned();
                s.append(" is not valid Unicode");
                s
            },
        }
    }
}

/// Which variable cannot be read, or `None` if the server can be configured. The
/// first in this order is named. A variable that is not set never fails.
pub open spec fn env_refusal(vars: EnvVars) -> Option<ConfigErrorView> {
    if vars.bind is NotUnicode {
        Some(ConfigErrorView::NotUnicode(Variable::Bind))
    } else if vars.bind is Text && vars.bind->address is None {
        Some(ConfigErrorView::Bind(vars.bind->text@))
    } else if vars.port is NotUnicode {
        Some(ConfigErrorView::NotUnicode(Variable::Port))
    } else if vars.port is Text && parsed_u16(vars.port->0@) is None {
        Some(ConfigErrorView::Port(vars.port->0@))
    } else if vars.stun is NotUnicode {
        Some(ConfigErrorView::NotUnicode(Variable::Stun))
    } else if vars.emulator_lan_ip is NotUnicode {
        Some(ConfigErrorView::NotUnicode(Variable::EmulatorLanIp))
    } else if vars.static_dir is NotUnicode {
        Some(ConfigErrorView::NotUnicode(Variable::StaticDir))
    } else if vars.test_source is NotUnicode {
        Some(ConfigErrorView::NotUnicode(Variable::TestSource))
    } else {
        None
    }
}

/// The address to bind to.
pub open spec fn bind_of(bind: BindVar) -> IpAddress {
    match bind {
        BindVar::Text { text, address } => address->0,
        _ => IpAddress::V4([0, 0, 0, 0]),
    }
}

/// The text of a variable, or `default` where it is not set.
pub open spec fn text_of(var: Option<Seq<char>>, default: Seq<char>) -> Seq<char> {
    match var {
        Some(t) => t,
        None => default,
    }
}

/// The address of the emulator workaround. A blank one counts as not set.
pub open spec fn lan_ip_of(var: Option<Seq<char>>) -> Option<Seq<char>> {
    match var {
        Some(t) => if blank(t) {
            None
        } else {
            Some(t)
        },
        None => None,
    }
}

/// Where the pictures come from: the test pattern if the variable is `1`.
pub open spec fn source_of(var: Option<Seq<char>>) -> VideoSource {
    if var == Some("1"@) {
        VideoSource::TestPattern
    } else {
        VideoSource::Camera
    }
}

/// What comes of configuring the server.
pub open spec fn configured(vars: EnvVars) -> Result<ConfigView, ConfigErrorView> {
    match env_refusal(vars) {
        Some(e) => Err(e),
        None => Ok(
            ConfigView {
                bind: bind_of(vars.bind),
                port: match vars.port.text() {
                    Some(t) => parsed_u16(t)->0,
                    None => 8090u16,
                },
                stun_server: text_of(vars.stun.text(), "stun://stun.l.google.com:19302"@),
                emulator_lan_ip: lan_ip_of(vars.emulator_lan_ip.text()),
                static_dir: text_of(vars.static_dir.text(), "templates"@),
                source: source_of(vars.test_source.text()),
            },
        ),
    }
}

/// The text of a variable, `None` where it is not set.
fn read_text(var: EnvVar, name: Variable) -> (r: Result<Option<String>, ConfigError>)
    ensures
        match r {
            Ok(t) => !(var is NotUnicode) && opt_text(t) == var.text(),
            Err(e) => var is NotUnicode && e@ == ConfigErrorView::NotUnicode(name),
        },
{
    match var {
        EnvVar::Unset => Ok(None),
        EnvVar::Text(t) => Ok(Some(t)),
        EnvVar::NotUnicode => Err(ConfigError::NotUnicode(name)),
    }
}

impl Config {
    /// The configuration that the environment variables ask for. Fails only on a
    /// variable that is set to something that cannot be read, so that a typo is
    /// caught at startup rather than silently ignored.
    pub fn from_env(vars: EnvVars) -> (r: Result<Config, ConfigError>)
        ensures
            match r {
                Ok(c) => {
                    &&& env_refusal(vars) is None
                    &&& c.bind == bind_of(vars.bind)
                    &&& c.port == (match vars.port.text() {
                        Some(t) => parsed_u16(t)->0,
                        None => 8090u16,
                    })
                    &&& c.stun_server@ == text_of(
                        vars.stun.text(),
                        "stun://stun.l.google.com:19302"@,
                    )
                    &&& opt_text(c.emulator_lan_ip) == lan_ip_of(vars.emulator_lan_ip.text())
                    &&& c.static_dir@ == text_of(vars.static_dir.text(), "templates"@)
                    &&& c.source == source_of(vars.test_source.text())
                },
                Err(e) => env_refusal(vars) == Some(e@),
            },
            match r {
                Ok(c) => configured(vars) == Ok::<ConfigView, ConfigErrorView>(c@),
                Err(e) => configured(vars) == Err::<ConfigView, ConfigErrorView>(e@),
            },
    {
        let bind = match vars.bind {
            BindVar::Unset => IpAddress::V4([0, 0, 0, 0]),
            BindVar::Text { text, address } => match address {
                Some(address) => address,
                None => {
                    return Err(ConfigError::Bind(text));
                },
            },
            BindVar::NotUnicode => {
                return Err(ConfigError::NotUnicode(Variable::Bind));
            },
        };
        let port: u16 = match read_text(vars.port, Variable::Port)? {
            Some(t) => match parse_u16(t.as_str()) {
                Some(port) => port,
                None => {
                    return Err(ConfigError::Port(t));
                },
            },
            None => 8090,
        };
        let stun_server = match read_text(vars.stun, Variable::Stun)? {
            Some(t) => t,
            None => "stun://stun.l.google.com:19302".to_owned(),
        };
        let emulator_lan_ip = match read_text(vars.emulator_lan_ip, Variable::EmulatorLanIp)? {
            Some(t) => if is_blank(t.as_str()) {
                None
            } else {
                Some(t)
            },
            None => None,
        };
        let static_dir = match read_text(vars.static_dir, Variable::StaticDir)? {
            Some(t) => t,
            None => "templates".to_owned(),
        };
        let source = match read_text(vars.test_source, Variable::TestSource)? {
            Some(t) => if same_text(t.as_str(), "1") {
                VideoSource::TestPattern
            } else {
                VideoSource::Camera
            },
            None => VideoSource::Camera,
        };
        Ok(Config { bind, port, stun_server, emulator_lan_ip, static_dir, source })
    }
}

/// Whether a variable is set to something that cannot be read: to no valid Unicode,
/// or, for the address and the port, to a text that writes none.
pub open spec fn is_unreadable(vars: EnvVars, v: Variable) -> bool {
    match v {
        Variable::Bind => vars.bind is NotUnicode || (vars.bind is Text && vars.bind->address
            is None),
        Variable::Port => vars.port is NotUnicode || (vars.port is Text && parsed_u16(
            vars.port->0@,
        ) is None),
        Variable::Stun => vars.stun is NotUnicode,
        Variable::EmulatorLanIp => vars.emulator_lan_ip is NotUnicode,
        Variable::StaticDir => vars.static_dir is NotUnicode,
        Variable::TestSource => vars.test_source is NotUnicode,
    }
}

/// Configuring fails if and only if some variable is set to something that cannot be
/// read.
pub proof fn law_fails_exactly_on_unreadable_variables(vars: EnvVars)
    ensures
        env_refusal(vars) is Some <==> exists|v: Variable| is_unreadable(vars, v),
{
    assert(is_unreadable(vars, Variable::Bind) || is_unreadable(vars, Variable::Port)
        || is_unreadable(vars, Variable::Stun) || is_unreadable(vars, Variable::EmulatorLanIp)
        || is_unreadable(vars, Variable::StaticDir) || is_unreadable(vars, Variable::TestSource)
        <==> env_refusal(vars) is Some);
}

/// Where no variable is set, configuring cannot fail.
pub proof fn law_unset_variables_never_fail(vars: EnvVars)
    requires
        vars.bind is Unset,
        vars.port is Unset,
        vars.stun is Unset,
        vars.emulator_lan_ip is Unset,
        vars.static_dir is Unset,
        vars.test_source is Unset,
    ensures
        env_refusal(vars) is None,
{
}

/// Every port, written in decimal, is read as itself.
pub proof fn law_every_port_can_be_set(vars: EnvVars, port: u16)
    requires
        vars.port is Text,
        vars.port->0@ == decimal(port as nat),
    ensures
        !is_unreadable(vars, Variable::Port),
        parsed_u16(vars.port->0@) == Some(port),
{
    law_decimal_reads_back(port);
}

/// The configuration holds what each variable is set to, and the default where it is not
/// set: the server listens on all addresses, on port 8090, and takes pictures from a
/// camera. A LAN address that is nothing but white space counts as not set, any other
/// is taken as it is; and only `1` selects the test pattern.
pub proof fn law_configuration_is_what_is_set(vars: EnvVars)
    requires
        configured(vars) is Ok,
    ensures
        ({
            let c = configured(vars)->Ok_0;
            &&& match vars.bind {
                BindVar::Text { text, address } => address == Some(c.bind),
                _ => c.bind == IpAddress::V4([0, 0, 0, 0]),
            }
            &&& match vars.port {
                EnvVar::Text(t) => parsed_u16(t@) == Some(c.port),
                _ => c.port == 8090,
            }
            &&& match vars.stun {
                EnvVar::Text(t) => c.stun_server == t@,
                _ => c.stun_server == "stun://stun.l.google.com:19302"@,
            }
            &&& match vars.emulator_lan_ip {
                EnvVar::Text(t) => c.emulator_lan_ip == (if forall|i: int|
                    0 <= i < t@.len() ==> white_space(#[trigger] t@[i]) {
                    None
                } else {
                    Some(t@)
                }),
                _ => c.emulator_lan_ip is None,
            }
            &&& match vars.static_dir {
                EnvVar::Text(t) => c.static_dir == t@,
                _ => c.static_dir == "templates"@,
            }
            &&& c.source == VideoSource::TestPattern <==> vars.test_source is Text
                && vars.test_source->0@ == "1"@
        }),
{
}

/// Configuring fails if and only if a variable is set to what is no valid Unicode, or
/// the address or the port to a text that writes none.
pub proof fn law_fails_exactly_where_something_cannot_be_read(vars: EnvVars)
    ensures
        configured(vars) is Err <==> {
            ||| vars.bind is NotUnicode
            ||| vars.bind is Text && vars.bind->address is None
            ||| vars.port is NotUnicode
            ||| vars.port is Text && parsed_u16(vars.port->0@) is None
            ||| vars.stun is NotUnicode
            ||| vars.emulator_lan_ip is NotUnicode
            ||| vars.static_dir is NotUnicode
            ||| vars.test_source is NotUnicode
        },
{
}

/// A failure names a variable that cannot be read, with its text where it has one. What
/// is wrong with the address is named before what is wrong with the port, and that
/// before the rest.
pub proof fn law_failure_names_the_variable(vars: EnvVars)
    ensures
        match configured(vars) {
            Ok(_) => true,
            Err(ConfigErrorView::Bind(t)) => vars.bind is Text && vars.bind->text@ == t
                && vars.bind->address is None,
            Err(ConfigErrorView::Port(t)) => vars.port is Text && vars.port->0@ == t
                && parsed_u16(t) is None,
            Err(ConfigErrorView::NotUnicode(v)) => match v {
                Variable::Bind => vars.bind is NotUnicode,
                Variable::Port => vars.port is NotUnicode,
                Variable::Stun => vars.stun is NotUnicode,
                Variable::EmulatorLanIp => vars.emulator_lan_ip is NotUnicode,
                Variable::StaticDir => vars.static_dir is NotUnicode,
                Variable::TestSource => vars.test_source is NotUnicode,
            },
        },
        vars.bind is NotUnicode ==> configured(vars) == Err::<ConfigView, ConfigErrorView>(
            ConfigErrorView::NotUnicode(Variable::Bind),
        ),
        vars.bind is Text && vars.bind->address is None ==> configured(vars) == Err::<
            ConfigView,
            ConfigErrorView,
        >(ConfigErrorView::Bind(vars.bind->text@)),
        (vars.bind is Unset || (vars.bind is Text && vars.bind->address is Some)) && vars.port
            is Text && parsed_u16(vars.port->0@) is None ==> configured(vars) == Err::<
            ConfigView,
            ConfigErrorView,
        >(ConfigErrorView::Port(vars.port->0@)),
{
}

/// The message for an address or a port that cannot be read ends with its quoted text,
/// and the one for a variable that is no valid Unicode starts with its name.
pub proof fn law_messages_name_the_variable(t: Seq<char>, v: Variable)
    ensures
        config_error_text(ConfigErrorView::Bind(t)) == "WCS_BIND is not a valid IP address: "@
            + debug_text(t),
        config_error_text(ConfigErrorView::Port(t)) == "WCS_PORT is not a valid port: "@
            + debug_text(t),
        config_error_text(ConfigErrorView::NotUnicode(v)) == v.name_text()
            + " is not valid Unicode"@,
{
}

} // verus!
