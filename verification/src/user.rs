use vstd::prelude::*;

use crate::config::{spec_user_allowed, Config};
use crate::strutil::{dequoted, remove_quotes};

verus! {

/// The body of a login request.
#[derive(Clone, Debug)]
pub struct Entry {
    pub login_id: String,
}

/// The body of a login reply: the id as the server normalized it, and
/// whether the allow-list admits it.
#[derive(Clone, Debug)]
pub struct User {
    pub id: String,
    pub allowed: bool,
}

/// The login decision: the login id is normalized by removing quote
/// characters, and admission is membership in the configured
/// allow-list.
pub fn login_decision(config: &Config, entry: &Entry) -> (r: User)
    ensures
        r.id@ == dequoted(entry.login_id@),
        r.allowed == spec_user_allowed(config.users.deep_view(), dequoted(entry.login_id@)),
{
    let id = remove_quotes(entry.login_id.as_str());
    let allowed = config.user_allowed(&id);
    User { id, allowed }
}

} // verus!
