use vstd::prelude::*;

use crate::commands;
use crate::hasura::client::{is_absolute_url, Client, ClientError};

verus! {

/// The command line: where the API is, its admin secret, and what to do.
pub struct Cli {
    pub endpoint: String,
    pub admin_secret: Option<String>,
    pub command: Commands,
}

/// What to track.
pub enum Commands {
    Tables(commands::tables::Cmd),
    Relationships(commands::relationships::Cmd),
}

impl Cli {
    /// A client for the endpoint and secret given, refused unless the endpoint
    /// is an absolute URL.
    pub fn client(&self) -> (r: Result<Client, ClientError>)
        ensures
            r is Ok <==> is_absolute_url(self.endpoint@),
            r is Ok ==> r->Ok_0.secret() == self.admin_secret,
            r is Err ==> r->Err_0 is Config,
    {
        let secret = match &self.admin_secret {
            Some(s) => Some(s.clone()),
            None => None,
        };
        Client::new(self.endpoint.clone(), secret)
    }
}

} // verus!
