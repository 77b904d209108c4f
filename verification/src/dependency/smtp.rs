//! SMTP dependencies: the TLS mode a configuration selects.
use vstd::prelude::*;
use vstd::string::*;

use crate::text::{str_eq, string_of};

verus! {

/// An SMTP dependency as configured.
#[derive(Debug)]
pub struct SmtpDependencyConfig {
    pub identifier: String,
    pub image_name: Option<String>,
    pub image: Option<String>,
    pub port: Option<u16>,
    pub ui_port: Option<u16>,
    pub container_name: Option<String>,
    pub tls_mode: Option<String>,
}

/// How the SMTP server speaks TLS.
#[derive(Clone, Copy, Debug, PartialEq, Eq, Structural)]
pub enum SmtpTls {
    /// No TLS was asked for; the server's default applies.
    Default,
    StartTls,
    Implicit,
}

/// The TLS mode a configured mode names: none given, `starttls` or `implicit`.
pub open spec fn tls_of(mode: Option<Seq<char>>) -> Option<SmtpTls> {
    match mode {
        None => Some(SmtpTls::Default),
        Some(m) => if m == "starttls"@ {
            Some(SmtpTls::StartTls)
        } else if m == "implicit"@ {
            Some(SmtpTls::Implicit)
        } else {
            None
        },
    }
}

/// The TLS mode "starttls" selects STARTTLS, "implicit" implicit TLS, no
/// mode the server's default, and every other mode is refused.
pub proof fn lemma_tls_mode_names(mode: Option<Seq<char>>)
    ensures
        tls_of(mode) == Some(SmtpTls::StartTls) <==> mode == Some("starttls"@),
        tls_of(mode) == Some(SmtpTls::Implicit) <==> mode == Some("implicit"@),
        tls_of(mode) == Some(SmtpTls::Default) <==> mode is None,
        tls_of(mode) is None <==> (mode matches Some(m) && m != "starttls"@ && m != "implicit"@),
{
    reveal_strlit("starttls");
    reveal_strlit("implicit");
    assert("starttls"@[0] != "implicit"@[0]);
}

/// Where the configured mode names no TLS mode.
pub open spec fn unknown_tls_message(mode: Seq<char>) -> Seq<char> {
    "unknown smtp tls_mode: "@ + mode
}

/// The TLS mode that `config` selects, or the message that refuses it.
pub fn smtp_tls_mode(config: &SmtpDependencyConfig) -> (r: Result<SmtpTls, String>)
    ensures
        match config.tls_mode {
            None => r == Ok::<SmtpTls, String>(SmtpTls::Default),
            Some(m) => match r {
                Ok(t) => tls_of(Some(m@)) == Some(t),
                Err(e) => tls_of(Some(m@)) is None && e@ == unknown_tls_message(m@),
            },
        },
{
    match &config.tls_mode {
        None => Ok(SmtpTls::Default),
        Some(m) => {
            if str_eq(m.as_str(), "starttls") {
                Ok(SmtpTls::StartTls)
            } else if str_eq(m.as_str(), "implicit") {
                Ok(SmtpTls::Implicit)
            } else {
                let mut e = string_of("unknown smtp tls_mode: ");
                e.append(m.as_str());
                Err(e)
            }
        },
    }
}

} // verus!
