//! Errors reported by providers and groups.
use vstd::prelude::*;
use vstd::string::StringExecFns;

verus! {

/// What can go wrong when building or querying providers and groups.
#[derive(Debug, PartialEq, Eq)]
pub enum ProxyError {
    /// The configuration cannot be activated; the text says why.
    InvalidConfig(String),
    /// A group was asked for a proxy while none of its members is live.
    NoLiveProxy,
    /// A manual choice named something that is not a member of the group.
    UnknownMember(String),
    /// A provider's handle list could not be fetched; the text says why. The
    /// provider goes on with the list it had.
    RefreshFailed(String),
}

impl Clone for ProxyError {
    fn clone(&self) -> (copy: Self)
        ensures
            copy == *self,
    {
        match self {
            ProxyError::InvalidConfig(why) => ProxyError::InvalidConfig(why.clone()),
            ProxyError::NoLiveProxy => ProxyError::NoLiveProxy,
            ProxyError::UnknownMember(name) => ProxyError::UnknownMember(name.clone()),
            ProxyError::RefreshFailed(why) => ProxyError::RefreshFailed(why.clone()),
        }
    }
}

impl ProxyError {
    /// The message shown to the user.
    pub open spec fn text(&self) -> Seq<char> {
        match self {
            ProxyError::InvalidConfig(why) => "invalid config: "@ + why@,
            ProxyError::NoLiveProxy => "no live proxy"@,
            ProxyError::UnknownMember(name) => "unknown member: "@ + name@,
            ProxyError::RefreshFailed(why) => "refresh failed: "@ + why@,
        }
    }

    /// Renders the message shown to the user.
    pub fn to_string(&self) -> (s: String)
        ensures
            s@ == self.text(),
    {
        match self {
            ProxyError::InvalidConfig(why) => {
                String::from_str("invalid config: ").concat(why.as_str())
            },
            ProxyError::NoLiveProxy => String::from_str("no live proxy"),
            ProxyError::UnknownMember(name) => {
                String::from_str("unknown member: ").concat(name.as_str())
            },
            ProxyError::RefreshFailed(why) => {
                String::from_str("refresh failed: ").concat(why.as_str())
            },
        }
    }
}

} // verus!
