//! The connection values of a run, resolved once from the settings: every
//! value that is absent or unreadable has its default.

use vstd::prelude::*;
pub use crate::apps::{Application, Protocol};
use crate::apps::{
    endpoint_text, fields_view, number_or, protocol_or_default, setting_number_or, setting_or,
    setting_protocol, text_or, Settings, HOST_DEFAULT, PASSWORD_DEFAULT,
    PORT_FORWARD_PATH_DEFAULT, USER_DEFAULT,
};
use crate::apps::qbittorrent::login_fields;
use crate::qbittorrent::{
    qb_login_endpoint, qb_login_parameters, qb_set_preference_endpoint, QB_LOGIN_ENDPOINT,
    QB_SET_PREFERENCES_ENDPOINT,
};

verus! {

/// The seconds between two polls unless the settings say otherwise.
pub const CHECK_INTERVAL_DEFAULT: u64 = 20;

/// The connection values of a run.
#[derive(Debug)]
pub struct Configuration {
    application: Application,
    protocol: Protocol,
    hostname: String,
    port: u16,
    username: String,
    password: String,
    port_forward_path: String,
    interval: u64,
}

/// The mathematical value of a [`Configuration`].
pub struct ConfigurationView {
    pub application: Application,
    pub protocol: Protocol,
    pub hostname: Seq<char>,
    pub port: u16,
    pub username: Seq<char>,
    pub password: Seq<char>,
    pub port_forward_path: Seq<char>,
    /// The seconds between two polls.
    pub interval: u64,
}

impl View for Configuration {
    type V = ConfigurationView;

    closed spec fn view(&self) -> ConfigurationView {
        ConfigurationView {
            application: self.application,
            protocol: self.protocol,
            hostname: self.hostname@,
            port: self.port,
            username: self.username@,
            password: self.password@,
            port_forward_path: self.port_forward_path@,
            interval: self.interval,
        }
    }
}

/// The application that the settings name, or qBittorrent where they name
/// none.
pub open spec fn application_or_default(settings: &Settings) -> Application {
    match settings.chosen() {
        Some(application) => application,
        None => Application::QBittorrent,
    }
}

/// The configuration that settings resolve to: every value as it was set,
/// and its default where it was not set or cannot be read.
pub open spec fn configured(settings: &Settings) -> ConfigurationView {
    let application = application_or_default(settings);
    ConfigurationView {
        application,
        protocol: protocol_or_default(settings.protocol),
        hostname: text_or(settings.host, HOST_DEFAULT@),
        port: settings.port_for(application),
        username: text_or(settings.user, USER_DEFAULT@),
        password: text_or(settings.password, PASSWORD_DEFAULT@),
        port_forward_path: text_or(settings.port_forward_path, PORT_FORWARD_PATH_DEFAULT@),
        interval: number_or(
            settings.check_interval,
            u64::MAX as nat,
            CHECK_INTERVAL_DEFAULT as nat,
        ) as u64,
    }
}

impl Configuration {
    /// Resolves the settings. This never fails: there is a default for
    /// every value.
    pub fn new(settings: &Settings) -> (r: Configuration)
        ensures
            r@ == configured(settings),
    {
        let name = setting_or(&settings.application, "");
        proof {
            reveal_strlit("");
            assert(""@ =~= Seq::<char>::empty());
        }
        let application = match Application::parse(name.as_str()) {
            Some(application) => application,
            None => Application::default(),
        };
        let port = setting_number_or(&settings.port, 0xffff, application.default_port() as u64);
        Configuration {
            application,
            protocol: setting_protocol(&settings.protocol),
            hostname: setting_or(&settings.host, HOST_DEFAULT),
            port: port as u16,
            username: setting_or(&settings.user, USER_DEFAULT),
            password: setting_or(&settings.password, PASSWORD_DEFAULT),
            port_forward_path: setting_or(&settings.port_forward_path, PORT_FORWARD_PATH_DEFAULT),
            interval: setting_number_or(
                &settings.check_interval,
                0xffff_ffff_ffff_ffff,
                CHECK_INTERVAL_DEFAULT,
            ),
        }
    }

    /// The application to talk to.
    pub fn application(&self) -> (r: Application)
        ensures
            r == self@.application,
    {
        self.application
    }

    /// The seconds between two polls.
    pub fn interval(&self) -> (r: u64)
        ensures
            r == self@.interval,
    {
        self.interval
    }

    /// The form fields of a login. Only qBittorrent has a login form.
    pub fn login_parameters(&self) -> (params: Vec<(String, String)>)
        requires
            self@.application == Application::QBittorrent,
        ensures
            fields_view(params@) == login_fields(self@.username, self@.password),
    {
        qb_login_parameters(self.username.as_str(), self.password.as_str())
    }

    /// The address that a login is posted to. Only qBittorrent has one.
    pub fn login_endpoint(&self) -> (url: String)
        requires
            self@.application == Application::QBittorrent,
        ensures
            url@ == endpoint_text(
                self@.protocol,
                self@.hostname,
                self@.port,
                QB_LOGIN_ENDPOINT@,
            ),
    {
        qb_login_endpoint(self.protocol, self.hostname.as_str(), self.port)
    }

    /// The address that new preferences are posted to. Only qBittorrent has
    /// one.
    pub fn set_preference_endpoint(&self) -> (url: String)
        requires
            self@.application == Application::QBittorrent,
        ensures
            url@ == endpoint_text(
                self@.protocol,
                self@.hostname,
                self@.port,
                QB_SET_PREFERENCES_ENDPOINT@,
            ),
    {
        qb_set_preference_endpoint(self.protocol, self.hostname.as_str(), self.port)
    }

    /// The path of the file that publishes the forwarded port.
    pub fn port_forward_path(&self) -> (path: &str)
        ensures
            path@ == self@.port_forward_path,
    {
        self.port_forward_path.as_str()
    }
}

} // verus!
