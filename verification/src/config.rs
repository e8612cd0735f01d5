//! The user's configuration: the server address, the optional context name,
//! and the login token, with the address arithmetic that every client
//! shares.

use vstd::prelude::*;
use vstd::string::*;

use crate::strutil::{i16_dec_string, int_str};
use crate::timeutil::{parse_timestamp, timestamp_of};
use crate::validation::Token;

verus! {

/// A server address as host and port.
#[derive(Debug)]
pub struct NetworkAddress {
    pub host: String,
    pub port: i16,
}

/// The textual form of an address: `host:port`.
pub open spec fn address_text(host: Seq<char>, port: i16) -> Seq<char> {
    host + ":"@ + int_str(port as int)
}

/// The API root under an address: `host:port/api/`.
pub open spec fn api_address_text(host: Seq<char>, port: i16) -> Seq<char> {
    address_text(host, port) + "/api/"@
}

/// The API root under any address text: the address with `/api/` appended.
pub fn api_path(address: String) -> (r: String)
    ensures
        r@ == address@ + "/api/"@,
{
    let mut s = address;
    s.append("/api/");
    s
}

impl Clone for NetworkAddress {
    fn clone(&self) -> (r: Self)
        ensures
            r == *self,
    {
        NetworkAddress { host: self.host.clone(), port: self.port }
    }
}

impl NetworkAddress {
    /// Replaces the host.
    pub fn set_host(&mut self, host: String)
        ensures
            final(self).host == host,
            final(self).port == old(self).port,
    {
        self.host = host;
    }

    /// Replaces the port.
    pub fn set_port(&mut self, port: i16)
        ensures
            final(self).port == port,
            final(self).host == old(self).host,
    {
        self.port = port;
    }

    /// The address as `host:port`.
    pub fn get_address(&self) -> (r: String)
        ensures
            r@ == address_text(self.host@, self.port),
    {
        let mut s = self.host.clone();
        s.append(":");
        s.append(i16_dec_string(self.port).as_str());
        s
    }

    /// The API root under this address.
    pub fn get_api_address(&self) -> (r: String)
        ensures
            r@ == api_address_text(self.host@, self.port),
    {
        api_path(self.get_address())
    }
}

/// Everything one invocation knows about the user: address, context and
/// token.
#[derive(Debug)]
pub struct UserConfig {
    pub address: NetworkAddress,
    pub context: Option<String>,
    pub usertoken: Option<Token>,
}

impl Clone for UserConfig {
    fn clone(&self) -> (r: Self)
        ensures
            r == *self,
    {
        UserConfig {
            address: self.address.clone(),
            context: match &self.context {
                Some(c) => Some(c.clone()),
                None => None,
            },
            usertoken: match &self.usertoken {
                Some(t) => Some(t.clone()),
                None => None,
            },
        }
    }
}

impl UserConfig {
    /// The out-of-the-box configuration: a local server, no context, no
    /// token.
    pub fn new() -> (r: Self)
        ensures
            r.address.host@ == "http://localhost"@,
            r.address.port == 8080,
            r.context is None,
            r.usertoken is None,
    {
        UserConfig {
            address: NetworkAddress { host: String::from_str("http://localhost"), port: 8080 },
            context: None,
            usertoken: None,
        }
    }

    /// Installs a token.
    pub fn set_token(&mut self, t: Token)
        ensures
            final(self).usertoken == Some(t),
            final(self).address == old(self).address,
            final(self).context == old(self).context,
    {
        self.usertoken = Some(t);
    }

    /// Installs a token and hands it back; persisting it is the caller's
    /// business.
    pub fn store_token(&mut self, t: Token) -> (r: Token)
        ensures
            final(self).usertoken == Some(t),
            final(self).address == old(self).address,
            final(self).context == old(self).context,
            r == t,
    {
        let r = t.clone();
        self.usertoken = Some(t);
        r
    }

    /// Replaces the host.
    pub fn set_host(&mut self, host: String)
        ensures
            final(self).address.host == host,
            final(self).address.port == old(self).address.port,
            final(self).context == old(self).context,
            final(self).usertoken == old(self).usertoken,
    {
        self.address.set_host(host);
    }

    /// Replaces the port.
    pub fn set_port(&mut self, port: i16)
        ensures
            final(self).address.port == port,
            final(self).address.host == old(self).address.host,
            final(self).context == old(self).context,
            final(self).usertoken == old(self).usertoken,
    {
        self.address.set_port(port);
    }

    /// The address as `host:port`.
    pub fn get_address(&self) -> (r: String)
        ensures
            r@ == address_text(self.address.host@, self.address.port),
    {
        self.address.get_address()
    }

    /// The API root under the configured address.
    pub fn get_api_address(&self) -> (r: String)
        ensures
            r@ == api_address_text(self.address.host@, self.address.port),
    {
        self.address.get_api_address()
    }

    /// A copy of the whole configuration.
    pub fn get_config(&self) -> (r: Self)
        ensures
            r == *self,
    {
        self.clone()
    }

    /// The logged-in user's id; callers must have a token installed.
    pub fn get_base_id(&self) -> (r: String)
        requires
            self.usertoken is Some,
        ensures
            r == self.usertoken->Some_0.id,
    {
        match &self.usertoken {
            Some(t) => t.id.clone(),
            None => String::new(),
        }
    }

    /// The installed token; callers must have one installed.
    pub fn get_usertoken(&self) -> (r: Token)
        requires
            self.usertoken is Some,
        ensures
            r == self.usertoken->Some_0,
    {
        match &self.usertoken {
            Some(t) => t.clone(),
            None => Token { id: String::new(), token: String::new(), token_expires: String::new() },
        }
    }

    /// The bearer token itself; callers must have one installed.
    pub fn get_token(&self) -> (r: String)
        requires
            self.usertoken is Some,
        ensures
            r == self.usertoken->Some_0.token,
    {
        match &self.usertoken {
            Some(t) => t.token.clone(),
            None => String::new(),
        }
    }
}

/// Whether a token must be renewed at `now`: an empty or unreadable expiry
/// stamp forces a renewal, and so does one that has passed.
pub fn needs_renewal(token_expires: &str, now: i64) -> (r: bool)
    ensures
        token_expires@.len() == 0 ==> r,
        token_expires@.len() > 0 ==> match timestamp_of(token_expires@) {
            Some(t) => r == (t < now as int),
            None => r,
        },
{
    if token_expires.is_empty() {
        return true;
    }
    match parse_timestamp(token_expires) {
        Some(t) => t < now,
        None => true,
    }
}

impl Default for UserConfig {
    fn default() -> (r: Self)
        ensures
            r.address.host@ == "http://localhost"@,
            r.address.port == 8080,
            r.context is None,
            r.usertoken is None,
    {
        UserConfig::new()
    }
}

} // verus!
