//! The directories the application works in.
//!
//! The four base paths come from the environment and are handed in by the
//! surrounding process as plain strings; everything derived from them —
//! the configuration, log, web-server and ray directories, and the paths
//! of individual files inside them — is computed and specified here.

use vstd::prelude::*;
use vstd::string::*;
use crate::text::{clone_opt_string, opt_text, str_equal};

verus! {

/// The configuration files a caller may read or write by name.
pub open spec fn allowed_conf_file(name: Seq<char>) -> bool {
    ||| name == "ray_common_config.json"@
    ||| name == "server.json"@
    ||| name == "subscription.json"@
    ||| name == "rule_config.json"@
    ||| name == "rule_domain.json"@
    ||| name == "rule_mode_list.json"@
    ||| name == "dns_config.json"@
    ||| name == "dns_mode_list.json"@
    ||| name == "dns_table_list.json"@
}

/// The base directories of the running process, captured once at startup.
/// Any of them may be unavailable in an unusual environment.
pub struct Dirs {
    pub executable_path: Option<String>,
    pub current_dir: Option<String>,
    pub home_dir: Option<String>,
    pub data_dir: Option<String>,
}

impl Dirs {
    pub fn new(
        executable_path: Option<String>,
        current_dir: Option<String>,
        home_dir: Option<String>,
        data_dir: Option<String>,
    ) -> (r: Dirs)
        ensures
            r.executable_path == executable_path,
            r.current_dir == current_dir,
            r.home_dir == home_dir,
            r.data_dir == data_dir,
    {
        Dirs { executable_path, current_dir, home_dir, data_dir }
    }

    pub fn get_executable_path(&self) -> (r: Option<String>)
        ensures
            opt_text(r) == opt_text(self.executable_path),
    {
        clone_opt_string(&self.executable_path)
    }

    pub fn get_current_dir(&self) -> (r: Option<String>)
        ensures
            opt_text(r) == opt_text(self.current_dir),
    {
        clone_opt_string(&self.current_dir)
    }

    pub fn get_home_dir(&self) -> (r: Option<String>)
        ensures
            opt_text(r) == opt_text(self.home_dir),
    {
        clone_opt_string(&self.home_dir)
    }

    pub fn get_data_dir(&self) -> (r: Option<String>)
        ensures
            opt_text(r) == opt_text(self.data_dir),
    {
        clone_opt_string(&self.data_dir)
    }

    /// The application directory under the home directory, with the given
    /// final component.
    fn dray_subdir(&self, leaf: &str) -> (r: Option<String>)
        ensures
            self.home_dir is None ==> r is None,
            self.home_dir matches Some(h) ==> r matches Some(p) && p@ == h@ + "/dray/"@ + leaf@,
    {
        match &self.home_dir {
            None => None,
            Some(h) => {
                let mut p = h.clone();
                p.append("/dray/");
                p.append(leaf);
                Some(p)
            },
        }
    }

    pub fn get_dray_conf_dir(&self) -> (r: Option<String>)
        ensures
            self.home_dir is None ==> r is None,
            self.home_dir matches Some(h) ==> r matches Some(p) && p@ == h@ + "/dray/"@
                + "conf"@,
    {
        self.dray_subdir("conf")
    }

    pub fn get_dray_logs_dir(&self) -> (r: Option<String>)
        ensures
            self.home_dir is None ==> r is None,
            self.home_dir matches Some(h) ==> r matches Some(p) && p@ == h@ + "/dray/"@
                + "logs"@,
    {
        self.dray_subdir("logs")
    }

    pub fn get_dray_web_server_dir(&self) -> (r: Option<String>)
        ensures
            self.home_dir is None ==> r is None,
            self.home_dir matches Some(h) ==> r matches Some(p) && p@ == h@ + "/dray/"@
                + "web_server"@,
    {
        self.dray_subdir("web_server")
    }

    pub fn get_dray_ray_dir(&self) -> (r: Option<String>)
        ensures
            self.home_dir is None ==> r is None,
            self.home_dir matches Some(h) ==> r matches Some(p) && p@ == h@ + "/dray/"@
                + "ray-core"@,
    {
        self.dray_subdir("ray-core")
    }

    /// The log directory as a plain string; empty when the home directory
    /// is unavailable.
    pub fn get_dray_logs_dir_str(&self) -> (r: String)
        ensures
            self.home_dir is None ==> r@ == Seq::<char>::empty(),
            self.home_dir matches Some(h) ==> r@ == h@ + "/dray/"@ + "logs"@,
    {
        match self.get_dray_logs_dir() {
            None => String::new(),
            Some(p) => p,
        }
    }

    /// The path of one file inside the log directory.
    pub fn get_log_path(&self, filename: &str) -> (r: Option<String>)
        ensures
            self.home_dir is None ==> r is None,
            self.home_dir matches Some(h) ==> r matches Some(p) && p@ == h@ + "/dray/"@ + "logs"@
                + "/"@ + filename@,
    {
        match self.get_dray_logs_dir() {
            None => None,
            Some(mut p) => {
                p.append("/");
                p.append(filename);
                Some(p)
            },
        }
    }

    /// The path of one named configuration file, for the allowed names
    /// only; any other name is rejected with a message naming it.
    pub fn get_conf_path(&self, filename: &str) -> (r: Result<String, String>)
        requires
            self.home_dir is Some,
        ensures
            r is Ok <==> allowed_conf_file(filename@),
            r matches Ok(p) ==> self.home_dir matches Some(h) && p@ == h@ + "/dray/"@ + "conf"@
                + "/"@ + filename@,
            r matches Err(m) ==> m@ == "Filename '"@ + filename@ + "' is not allowed"@,
    {
        let allowed = str_equal(filename, "ray_common_config.json") || str_equal(
            filename,
            "server.json",
        ) || str_equal(filename, "subscription.json") || str_equal(filename, "rule_config.json")
            || str_equal(filename, "rule_domain.json") || str_equal(filename, "rule_mode_list.json")
            || str_equal(filename, "dns_config.json") || str_equal(filename, "dns_mode_list.json")
            || str_equal(filename, "dns_table_list.json");
        if !allowed {
            let mut m = String::from_str("Filename '");
            m.append(filename);
            m.append("' is not allowed");
            return Err(m);
        }
        match self.get_dray_conf_dir() {
            None => Err(String::new()),
            Some(mut p) => {
                p.append("/");
                p.append(filename);
                Ok(p)
            },
        }
    }
}

} // verus!
