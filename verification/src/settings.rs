//! What the user configured.
use vstd::prelude::*;

verus! {

#[derive(Clone, Copy, Debug, PartialEq, Eq, Structural)]
pub enum ProxyType {
    Http,
    Socks5,
}

/// The proxy screen, field by field, as the user left it.
#[derive(Debug, PartialEq, Eq)]
pub struct ProxySettings {
    pub enabled: bool,
    pub proxy_type: ProxyType,
    pub host: String,
    pub port: u16,
    pub username: Option<String>,
    pub password: Option<String>,
}

#[verifier::ext_equal]
pub struct ProxySettingsView {
    pub enabled: bool,
    pub proxy_type: ProxyType,
    pub host: Seq<char>,
    pub port: u16,
    pub username: Option<Seq<char>>,
    pub password: Option<Seq<char>>,
}

/// The characters of an optional string.
pub open spec fn opt_text(o: Option<String>) -> Option<Seq<char>> {
    match o {
        Some(s) => Some(s@),
        None => None,
    }
}

/// The characters of an optional string, nothing counting as empty.
pub open spec fn text_or_empty(o: Option<Seq<char>>) -> Seq<char> {
    match o {
        Some(s) => s,
        None => Seq::empty(),
    }
}

impl View for ProxySettings {
    type V = ProxySettingsView;

    open spec fn view(&self) -> ProxySettingsView {
        ProxySettingsView {
            enabled: self.enabled,
            proxy_type: self.proxy_type,
            host: self.host@,
            port: self.port,
            username: opt_text(self.username),
            password: opt_text(self.password),
        }
    }
}

pub fn clone_text(o: &Option<String>) -> (r: Option<String>)
    ensures
        r == *o,
{
    match o {
        Some(s) => Some(s.clone()),
        None => None,
    }
}

impl Clone for ProxySettings {
    fn clone(&self) -> (r: Self)
        ensures
            r == *self,
    {
        ProxySettings {
            enabled: self.enabled,
            proxy_type: self.proxy_type,
            host: self.host.clone(),
            port: self.port,
            username: clone_text(&self.username),
            password: clone_text(&self.password),
        }
    }
}

impl Default for ProxySettings {
    /// No proxy.
    fn default() -> (r: Self)
        ensures
            r@ == (ProxySettingsView {
                enabled: false,
                proxy_type: ProxyType::Http,
                host: Seq::empty(),
                port: 0,
                username: None,
                password: None,
            }),
    {
        ProxySettings {
            enabled: false,
            proxy_type: ProxyType::Http,
            host: String::new(),
            port: 0,
            username: None,
            password: None,
        }
    }
}

} // verus!
