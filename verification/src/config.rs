use vstd::prelude::*;

verus! {

/// Server-level settings, read once at process start and treated as
/// immutable afterwards.
pub struct ServerConfig {
    pub host: String,
    pub port: u32,
    pub heartbeat_interval: i64,
    pub use_tls: bool,
    pub time_offset: i64,
    pub ocpp_auth_password: String,
}

/// The whole configuration: server settings plus the allow-list of
/// operator login ids.
pub struct Config {
    pub server: ServerConfig,
    pub users: Vec<String>,
}

/// `name` is one of the allowed operator login ids.
pub open spec fn spec_user_allowed(users: Seq<Seq<char>>, name: Seq<char>) -> bool {
    exists|i: int| 0 <= i < users.len() && users[i] == name
}

impl Config {
    /// Membership test against the allow-list of operator login ids.
    pub fn user_allowed(&self, user: &String) -> (r: bool)
        ensures
            r == spec_user_allowed(self.users.deep_view(), user@),
    {
        let mut i: usize = 0;
        while i < self.users.len()
            invariant
                0 <= i <= self.users.len(),
                forall|j: int| 0 <= j < i ==> self.users@[j]@ != user@,
            decreases self.users.len() - i,
        {
            if self.users[i].eq(user) {
                assert(self.users.deep_view()[i as int] == user@);
                return true;
            }
            i += 1;
        }
        return false;
    }
}

impl Default for Config {
    fn default() -> (r: Config)
        ensures
            r.server.host@ == Seq::<char>::empty(),
            r.server.port == 0,
            r.server.heartbeat_interval == 0,
            r.server.use_tls == false,
            r.server.time_offset == 0,
            r.server.ocpp_auth_password@ == Seq::<char>::empty(),
            r.users@ == Seq::<String>::empty(),
    {
        Config {
            server: ServerConfig {
                host: String::new(),
                port: 0,
                heartbeat_interval: 0,
                use_tls: false,
                time_offset: 0,
                ocpp_auth_password: String::new(),
            },
            users: Vec::new(),
        }
    }
}

} // verus!
