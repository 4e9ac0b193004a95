//! Application configuration: the settings record, its defaults, and its
//! field updates.
//!
//! The surrounding process owns loading and saving the record as JSON on
//! disk; this module owns the record itself.  Each setter states exactly
//! which field changes and that every other field keeps its value.

use vstd::prelude::*;
use vstd::string::*;
use crate::decimal::dec_chars;

verus! {

/// The persisted application settings.
pub struct Config {
    pub app_log_level: String,
    pub web_server_enable: bool,
    pub web_server_host: String,
    pub web_server_port: u32,
    pub ray_enable: bool,
    pub ray_host: String,
    pub ray_socks_port: u32,
    pub ray_http_port: u32,
    pub auto_setup_pac: bool,
    pub auto_setup_socks: bool,
    pub auto_setup_http: bool,
    pub auto_setup_https: bool,
}

impl Clone for Config {
    fn clone(&self) -> (r: Config)
        ensures
            r.app_log_level@ == self.app_log_level@,
            r.web_server_enable == self.web_server_enable,
            r.web_server_host@ == self.web_server_host@,
            r.web_server_port == self.web_server_port,
            r.ray_enable == self.ray_enable,
            r.ray_host@ == self.ray_host@,
            r.ray_socks_port == self.ray_socks_port,
            r.ray_http_port == self.ray_http_port,
            r.auto_setup_pac == self.auto_setup_pac,
            r.auto_setup_socks == self.auto_setup_socks,
            r.auto_setup_http == self.auto_setup_http,
            r.auto_setup_https == self.auto_setup_https,
    {
        Config {
            app_log_level: self.app_log_level.clone(),
            web_server_enable: self.web_server_enable,
            web_server_host: self.web_server_host.clone(),
            web_server_port: self.web_server_port,
            ray_enable: self.ray_enable,
            ray_host: self.ray_host.clone(),
            ray_socks_port: self.ray_socks_port,
            ray_http_port: self.ray_http_port,
            auto_setup_pac: self.auto_setup_pac,
            auto_setup_socks: self.auto_setup_socks,
            auto_setup_http: self.auto_setup_http,
            auto_setup_https: self.auto_setup_https,
        }
    }
}

impl Default for Config {
    /// The configuration a fresh installation starts from.
    fn default() -> (r: Config)
        ensures
            r.app_log_level@ == "info"@,
            r.web_server_enable == true,
            r.web_server_host@ == "127.0.0.1"@,
            r.web_server_port == 18687,
            r.ray_enable == false,
            r.ray_host@ == "127.0.0.1"@,
            r.ray_socks_port == 1086,
            r.ray_http_port == 1089,
            r.auto_setup_pac == false,
            r.auto_setup_socks == true,
            r.auto_setup_http == false,
            r.auto_setup_https == false,
    {
        Config {
            app_log_level: String::from_str("info"),
            web_server_enable: true,
            web_server_host: String::from_str("127.0.0.1"),
            web_server_port: 18687,
            ray_enable: false,
            ray_host: String::from_str("127.0.0.1"),
            ray_socks_port: 1086,
            ray_http_port: 1089,
            auto_setup_pac: false,
            auto_setup_socks: true,
            auto_setup_http: false,
            auto_setup_https: false,
        }
    }
}

impl Config {
    /// A snapshot of the current settings.
    pub fn get_config(&self) -> (r: Config)
        ensures
            r.app_log_level@ == self.app_log_level@,
            r.web_server_enable == self.web_server_enable,
            r.web_server_host@ == self.web_server_host@,
            r.web_server_port == self.web_server_port,
            r.ray_enable == self.ray_enable,
            r.ray_host@ == self.ray_host@,
            r.ray_socks_port == self.ray_socks_port,
            r.ray_http_port == self.ray_http_port,
            r.auto_setup_pac == self.auto_setup_pac,
            r.auto_setup_socks == self.auto_setup_socks,
            r.auto_setup_http == self.auto_setup_http,
            r.auto_setup_https == self.auto_setup_https,
    {
        self.clone()
    }

    pub fn set_app_log_level(&mut self, value: String)
        ensures
            *final(self) == (Config { app_log_level: value, ..*old(self) }),
    {
        self.app_log_level = value;
    }

    pub fn set_web_server_enable(&mut self, value: bool)
        ensures
            *final(self) == (Config { web_server_enable: value, ..*old(self) }),
    {
        self.web_server_enable = value;
    }

    pub fn set_web_server_host(&mut self, value: String)
        ensures
            *final(self) == (Config { web_server_host: value, ..*old(self) }),
    {
        self.web_server_host = value;
    }

    pub fn set_web_server_port(&mut self, value: u32)
        ensures
            *final(self) == (Config { web_server_port: value, ..*old(self) }),
    {
        self.web_server_port = value;
    }

    pub fn set_ray_enable(&mut self, value: bool)
        ensures
            *final(self) == (Config { ray_enable: value, ..*old(self) }),
    {
        self.ray_enable = value;
    }

    pub fn set_ray_host(&mut self, value: String)
        ensures
            *final(self) == (Config { ray_host: value, ..*old(self) }),
    {
        self.ray_host = value;
    }

    pub fn set_ray_socks_port(&mut self, value: u32)
        ensures
            *final(self) == (Config { ray_socks_port: value, ..*old(self) }),
    {
        self.ray_socks_port = value;
    }

    pub fn set_ray_http_port(&mut self, value: u32)
        ensures
            *final(self) == (Config { ray_http_port: value, ..*old(self) }),
    {
        self.ray_http_port = value;
    }

    pub fn set_auto_setup_pac(&mut self, value: bool)
        ensures
            *final(self) == (Config { auto_setup_pac: value, ..*old(self) }),
    {
        self.auto_setup_pac = value;
    }

    pub fn set_auto_setup_socks(&mut self, value: bool)
        ensures
            *final(self) == (Config { auto_setup_socks: value, ..*old(self) }),
    {
        self.auto_setup_socks = value;
    }

    pub fn set_auto_setup_http(&mut self, value: bool)
        ensures
            *final(self) == (Config { auto_setup_http: value, ..*old(self) }),
    {
        self.auto_setup_http = value;
    }

    pub fn set_auto_setup_https(&mut self, value: bool)
        ensures
            *final(self) == (Config { auto_setup_https: value, ..*old(self) }),
    {
        self.auto_setup_https = value;
    }

    /// The SOCKS proxy URL derived from the configured ray host and port.
    pub fn get_default_proxy_url(&self) -> (r: Option<String>)
        ensures
            r matches Some(u) && u@ == "socks5://"@ + self.ray_host@ + seq![':'] + dec_chars(
                self.ray_socks_port as nat,
            ),
    {
        proof {
            reveal_strlit(":");
        }
        let mut url = String::from_str("socks5://");
        url.append(self.ray_host.as_str());
        url.append(":");
        let digits = crate::decimal::u64_dec_string(self.ray_socks_port as u64);
        url.append(digits.as_str());
        proof {
            assert(url@ =~= "socks5://"@ + self.ray_host@ + seq![':'] + dec_chars(
                self.ray_socks_port as nat,
            ));
        }
        Some(url)
    }
}

} // verus!
