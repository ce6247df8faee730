//! Verified core of the authentication server: OAuth configuration,
//! login tokens, the Discord callback and Steam login flows, and the
//! replies that the HTTP layer sends back.
use vstd::prelude::*;

pub mod api;
pub mod callback;
pub mod discord;
pub mod steam;
pub mod text;

verus! {

/// What the server binary has been asked to do.
#[derive(Clone, Copy, Debug, PartialEq, Eq, Structural)]
pub enum Action {
    /// Run the webserver handling auth.
    Server,
}

impl Default for Action {
    fn default() -> (a: Action)
        ensures
            a == Action::Server,
    {
        Action::Server
    }
}

/// Runtime configuration of the server.
#[derive(Clone, Debug)]
pub struct Config {
    pub port: u16,
    pub database_url: String,
    pub discord_client_id: String,
    pub discord_client_secret: String,
    pub discord_redirect_uri: String,
    /// Do not actually run api requests.
    pub dry_run: bool,
    pub action: Action,
}

impl Default for Config {
    fn default() -> (c: Config)
        ensures
            c.port == 0,
            c.database_url@ == Seq::<char>::empty(),
            c.discord_client_id@ == Seq::<char>::empty(),
            c.discord_client_secret@ == Seq::<char>::empty(),
            c.discord_redirect_uri@ == Seq::<char>::empty(),
            !c.dry_run,
            c.action == Action::Server,
    {
        Config {
            port: 0,
            database_url: String::new(),
            discord_client_id: String::new(),
            discord_client_secret: String::new(),
            discord_redirect_uri: String::new(),
            dry_run: false,
            action: Action::Server,
        }
    }
}

} // verus!
