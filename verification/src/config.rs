//! The bot's configuration, and the connection addresses made from it.
use vstd::prelude::*;
use crate::text::{parse_unsigned, parse_u16};

verus! {

/// The settings the bot reads from its environment at start.
#[derive(Clone, Debug)]
pub struct Configuration {
    pub bot_token: String,
    pub database_name: String,
    pub database_ip: String,
    pub database_user: String,
    pub database_password: String,
    pub tg_log_chatid: String,
    pub ts_ip: String,
    pub ts_query_port: String,
    pub ts_server_port: u16,
    pub ts_user: String,
    pub ts_password: String,
    pub surprise_target: String,
    pub log_randomnum_exception: String,
}

/// Reads the TeamSpeak server port as `str::parse::<u16>` does; `None` when
/// the text is not a valid port number.
pub fn parse_port(text: &str) -> (r: Option<u16>)
    ensures
        match parse_unsigned(text@, u16::MAX as nat) {
            Some(n) => r == Some(n as u16),
            None => r is None,
        },
{
    parse_u16(text)
}

impl Configuration {
    /// The MySQL connection URL, `mysql://user:password@ip/name`.
    pub fn database_url(&self) -> (s: String)
        ensures
            s@ == "mysql://"@ + self.database_user@ + ":"@ + self.database_password@ + "@"@
                + self.database_ip@ + "/"@ + self.database_name@,
    {
        let mut s = "mysql://".to_owned();
        s.append(self.database_user.as_str());
        s.append(":");
        s.append(self.database_password.as_str());
        s.append("@");
        s.append(self.database_ip.as_str());
        s.append("/");
        s.append(self.database_name.as_str());
        s
    }

    /// The address of the TeamSpeak query interface, `ip:port`.
    pub fn ts_query_address(&self) -> (s: String)
        ensures
            s@ == self.ts_ip@ + ":"@ + self.ts_query_port@,
    {
        let mut s = self.ts_ip.clone();
        s.append(":");
        s.append(self.ts_query_port.as_str());
        s
    }
}

} // verus!
