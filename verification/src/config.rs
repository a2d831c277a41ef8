//! Service configuration and the paths derived from it.
//!
//! The configuration is plain data: where user files and service data live,
//! and which interfaces the SSH and web frontends bind. Loading it from disk
//! is I/O and happens outside this crate; the path derivations here are pure
//! text, stated exactly. A returned path is as absolute or as relative as
//! the configured directory it starts from; the caller resolves a relative
//! one against its working directory.

use vstd::prelude::*;

verus! {

use crate::validate::{is_valid_project_path, is_valid_username, valid_project_path, valid_username};
use vstd::string::StringExecFns;

/// Where the service keeps its files.
pub struct FileSystemConfig {
    /// The directory for all database files, SSH keys, and other service
    /// data.
    pub data_dir: String,
    /// The directory for all user files.
    pub user_dir: String,
}

/// Where the SSH frontend listens.
pub struct SSHConfig {
    pub port: u16,
    pub interface: String,
}

/// Where the web frontend listens.
pub struct WebConfig {
    pub port: u16,
    pub interface: String,
}

/// How to reach the game-server administration endpoint.
pub struct MinecraftConfig {
    pub restadmin_url: String,
    pub restadmin_token: String,
}

/// The service configuration.
pub struct Config {
    pub fs: FileSystemConfig,
    pub ssh: SSHConfig,
    pub web: WebConfig,
    pub minecraft: MinecraftConfig,
    pub create_admin_user: Option<(String, String)>,
}

/// `base` and `component`, joined with one path separator.
pub open spec fn joined(base: Seq<char>, component: Seq<char>) -> Seq<char> {
    base + seq!['/'] + component
}

/// Joins `base` and `component` with one path separator.
fn join_path(base: &str, component: &str) -> (r: String)
    ensures
        r@ == joined(base@, component@),
{
    proof {
        reveal_strlit("/");
    }
    let mut s = String::from_str(base);
    s.append("/");
    s.append(component);
    proof {
        assert(s@ =~= joined(base@, component@));
    }
    s
}

impl Config {
    /// The directory of shared binaries mounted into every container.
    pub fn user_bin_dir(&self) -> (r: String)
        ensures
            r@ == joined(self.fs.user_dir@, "bin"@),
    {
        join_path(self.fs.user_dir.as_str(), "bin")
    }

    /// The template home directory copied for a new user.
    pub fn default_user_home(&self) -> (r: String)
        ensures
            r@ == joined(self.fs.user_dir@, "default-home"@),
    {
        join_path(self.fs.user_dir.as_str(), "default-home")
    }

    /// The home directory of `username`, for a valid username only. A valid
    /// username is already lower-case, so it is used as given.
    pub fn user_home(&self, username: &str) -> (r: Option<String>)
        ensures
            match r {
                Some(p) => valid_username(username@) && p@ == joined(
                    joined(self.fs.user_dir@, "home"@),
                    username@,
                ),
                None => !valid_username(username@),
            },
    {
        if !is_valid_username(username) {
            return None;
        }
        let home = join_path(self.fs.user_dir.as_str(), "home");
        Some(join_path(home.as_str(), username))
    }

    /// The public web directory inside the user's home.
    pub fn user_public_path(&self, username: &str) -> (r: Option<String>)
        ensures
            match r {
                Some(p) => valid_username(username@) && p@ == joined(
                    joined(joined(self.fs.user_dir@, "home"@), username@),
                    "public"@,
                ),
                None => !valid_username(username@),
            },
    {
        match self.user_home(username) {
            Some(home) => Some(join_path(home.as_str(), "public")),
            None => None,
        }
    }

    /// The database file below the data directory.
    pub fn db_path(&self) -> (r: String)
        ensures
            r@ == joined(joined(self.fs.data_dir@, "database"@), "db.sqlite"@),
    {
        let dir = join_path(self.fs.data_dir.as_str(), "database");
        join_path(dir.as_str(), "db.sqlite")
    }

    /// The server's SSH host key file below the data directory.
    pub fn ssh_key_path(&self) -> (r: String)
        ensures
            r@ == joined(joined(self.fs.data_dir@, "ssh"@), "id_ed25519"@),
    {
        let dir = join_path(self.fs.data_dir.as_str(), "ssh");
        join_path(dir.as_str(), "id_ed25519")
    }

    /// The path of a project below the user's home, for a valid username and
    /// a valid relative project path only.
    pub fn project_path(&self, username: &str, project_path: &str) -> (r: Option<String>)
        ensures
            match r {
                Some(p) => valid_username(username@) && valid_project_path(project_path@) && p@
                    == joined(
                    joined(joined(self.fs.user_dir@, "home"@), username@),
                    project_path@,
                ),
                None => !(valid_username(username@) && valid_project_path(project_path@)),
            },
    {
        if !is_valid_username(username) || !is_valid_project_path(project_path) {
            return None;
        }
        match self.user_home(username) {
            Some(home) => Some(join_path(home.as_str(), project_path)),
            None => None,
        }
    }
}

} // verus!
