use vstd::prelude::*;

verus! {

/// Settings for reaching the store, as read once per connection.
#[derive(Debug)]
pub struct ConnConfig {
    /// A full connection string; where present it is used as it stands.
    pub conn: Option<String>,
    /// The user to connect as on the local default database.
    pub user: Option<String>,
}

/// The user name written into the default connection string when none is set.
pub open spec fn user_placeholder() -> Seq<char> {
    "<<HOME_USER>>"@
}

/// The connection string for the local host and the `home` database, as `user`.
pub open spec fn default_conn_of(user: Seq<char>) -> Seq<char> {
    "host='localhost' dbname='home' user='"@ + user + "'"@
}

/// The connection string that a configuration resolves to: the explicit one,
/// else the default one for the configured user, else for the placeholder.
pub open spec fn conn_string_of(cfg: ConnConfig) -> Seq<char> {
    match cfg.conn {
        Some(c) => c@,
        None => match cfg.user {
            Some(u) => default_conn_of(u@),
            None => default_conn_of(user_placeholder()),
        },
    }
}

/// Resolves the connection string that a session is opened with.
pub fn conn_string(cfg: &ConnConfig) -> (r: String)
    ensures
        r@ == conn_string_of(*cfg),
{
    match &cfg.conn {
        Some(c) => c.clone(),
        None => {
            let mut s = String::from_str("host='localhost' dbname='home' user='");
            match &cfg.user {
                Some(u) => s.append(u.as_str()),
                None => s.append("<<HOME_USER>>"),
            }
            s.append("'");
            s
        },
    }
}

} // verus!
