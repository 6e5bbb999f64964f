//! Names that have been checked where they entered: hostnames, tunnels, agents.

use vstd::prelude::*;
use vstd::string::*;
use vstd::utf8::encode_utf8;

use crate::text::same_text;

verus! {

/// A public hostname in canonical form: lower case, without a trailing dot.
#[derive(Debug, PartialEq, Eq)]
pub struct HttpHostname {
    pub text: String,
}

/// The durable name of a tunnel.
#[derive(Debug, PartialEq, Eq)]
pub struct TunnelId {
    pub text: String,
}

/// The durable name of an agent.
#[derive(Debug, PartialEq, Eq)]
pub struct AgentId {
    pub text: String,
}

impl View for HttpHostname {
    type V = Seq<char>;

    open spec fn view(&self) -> Seq<char> {
        self.text@
    }
}

impl View for TunnelId {
    type V = Seq<char>;

    open spec fn view(&self) -> Seq<char> {
        self.text@
    }
}

impl View for AgentId {
    type V = Seq<char>;

    open spec fn view(&self) -> Seq<char> {
        self.text@
    }
}

impl Clone for HttpHostname {
    fn clone(&self) -> (copy: HttpHostname)
        ensures
            copy == *self,
    {
        HttpHostname { text: self.text.clone() }
    }
}

impl Clone for TunnelId {
    fn clone(&self) -> (copy: TunnelId)
        ensures
            copy == *self,
    {
        TunnelId { text: self.text.clone() }
    }
}

impl Clone for AgentId {
    fn clone(&self) -> (copy: AgentId)
        ensures
            copy == *self,
    {
        AgentId { text: self.text.clone() }
    }
}

impl HttpHostname {
    /// The bytes of the hostname's text.
    pub open spec fn bytes(self) -> Seq<u8> {
        encode_utf8(self.text@)
    }

    /// The bytes of the hostname's text.
    pub fn as_bytes(&self) -> (bytes: &[u8])
        ensures
            bytes@ == self.bytes(),
    {
        self.text.as_str().as_bytes()
    }

    /// The hostname that a canonical text names.
    pub fn from_canonical(text: String) -> (hostname: HttpHostname)
        ensures
            hostname.text == text,
    {
        HttpHostname { text }
    }

    /// The hostname's text.
    pub fn as_str(&self) -> (text: &str)
        ensures
            text@ == self@,
    {
        self.text.as_str()
    }

    /// Whether two hostnames are the same.
    pub fn same(&self, other: &HttpHostname) -> (same: bool)
        ensures
            same == (self@ == other@),
    {
        same_text(self.text.as_str(), other.text.as_str())
    }
}

impl TunnelId {
    /// The tunnel that a checked text names.
    pub fn from_checked(text: String) -> (tunnel: TunnelId)
        ensures
            tunnel.text == text,
    {
        TunnelId { text }
    }

    /// The tunnel's name.
    pub fn as_str(&self) -> (text: &str)
        ensures
            text@ == self@,
    {
        self.text.as_str()
    }

    /// Whether two tunnels are the same.
    pub fn same(&self, other: &TunnelId) -> (same: bool)
        ensures
            same == (self@ == other@),
    {
        same_text(self.text.as_str(), other.text.as_str())
    }
}

impl AgentId {
    /// The agent that a checked text names.
    pub fn from_checked(text: String) -> (agent: AgentId)
        ensures
            agent.text == text,
    {
        AgentId { text }
    }

    /// The agent's name.
    pub fn as_str(&self) -> (text: &str)
        ensures
            text@ == self@,
    {
        self.text.as_str()
    }
}

} // verus!
