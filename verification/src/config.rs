//! The proxy and proxy-group records of a configuration.
use std::collections::HashMap;
use vstd::prelude::*;
use vstd::string::StringExecFns;
use crate::error::ProxyError;
use crate::text::same_text;

verus! {

/// Name of the built-in proxy that connects directly.
pub const PROXY_DIRECT: &'static str = "DIRECT";

/// Name of the built-in proxy that refuses every connection.
pub const PROXY_REJECT: &'static str = "REJECT";

/// Name of the built-in group that holds every proxy.
pub const PROXY_GLOBAL: &'static str = "GLOBAL";

/// One outbound of a configuration: a proxy server or a group of outbounds.
pub enum OutboundProxy {
    ProxyServer(OutboundProxyProtocol),
    ProxyGroup(OutboundGroupProtocol),
}

impl OutboundProxy {
    /// The name under which rules and groups refer to this outbound.
    pub open spec fn name_view(&self) -> Seq<char> {
        match self {
            OutboundProxy::ProxyServer(s) => s.name_view(),
            OutboundProxy::ProxyGroup(g) => g.name_view(),
        }
    }

    /// The name under which rules and groups refer to this outbound.
    pub fn name(&self) -> (name: String)
        ensures
            name@ == self.name_view(),
    {
        match self {
            OutboundProxy::ProxyServer(s) => String::from_str(s.name()),
            OutboundProxy::ProxyGroup(g) => String::from_str(g.name()),
        }
    }
}

/// A proxy server, by protocol.
#[derive(Debug)]
pub enum OutboundProxyProtocol {
    Direct,
    Reject,
    Ss(OutboundShadowsocks),
    Socks5(OutboundSocks5),
    Trojan(OutboundTrojan),
}

impl OutboundProxyProtocol {
    /// The proxy's name: the fixed name of a built-in proxy, the configured
    /// name of any other.
    pub open spec fn name_view(&self) -> Seq<char> {
        match self {
            OutboundProxyProtocol::Direct => PROXY_DIRECT@,
            OutboundProxyProtocol::Reject => PROXY_REJECT@,
            OutboundProxyProtocol::Ss(ss) => ss.name@,
            OutboundProxyProtocol::Socks5(socks5) => socks5.name@,
            OutboundProxyProtocol::Trojan(trojan) => trojan.name@,
        }
    }

    /// The proxy's name.
    pub fn name(&self) -> (name: &str)
        ensures
            name@ == self.name_view(),
    {
        match self {
            OutboundProxyProtocol::Direct => PROXY_DIRECT,
            OutboundProxyProtocol::Reject => PROXY_REJECT,
            OutboundProxyProtocol::Ss(ss) => ss.name.as_str(),
            OutboundProxyProtocol::Socks5(socks5) => socks5.name.as_str(),
            OutboundProxyProtocol::Trojan(trojan) => trojan.name.as_str(),
        }
    }

    /// How the protocol is shown to the user.
    pub open spec fn label(&self) -> Seq<char> {
        match self {
            OutboundProxyProtocol::Ss(_) => "Shadowsocks"@,
            OutboundProxyProtocol::Socks5(_) => "Socks5"@,
            OutboundProxyProtocol::Direct => PROXY_DIRECT@,
            OutboundProxyProtocol::Reject => PROXY_REJECT@,
            OutboundProxyProtocol::Trojan(_) => "Trojan"@,
        }
    }

    /// Shows the protocol to the user.
    pub fn to_string(&self) -> (shown: String)
        ensures
            shown@ == self.label(),
    {
        match self {
            OutboundProxyProtocol::Ss(_) => String::from_str("Shadowsocks"),
            OutboundProxyProtocol::Socks5(_) => String::from_str("Socks5"),
            OutboundProxyProtocol::Direct => String::from_str(PROXY_DIRECT),
            OutboundProxyProtocol::Reject => String::from_str(PROXY_REJECT),
            OutboundProxyProtocol::Trojan(_) => String::from_str("Trojan"),
        }
    }
}

#[derive(Debug, Default)]
pub struct OutboundShadowsocks {
    pub name: String,
    pub server: String,
    pub port: u16,
    pub cipher: String,
    pub password: String,
    pub udp: bool,
    pub plugin: Option<String>,
    pub plugin_opts: Option<HashMap<String, serde_yaml::Value>>,
}

#[derive(Debug, Default)]
pub struct OutboundSocks5 {
    pub name: String,
    pub server: String,
    pub port: u16,
    pub username: Option<String>,
    pub password: Option<String>,
    pub tls: bool,
    pub skip_cert_verity: bool,
    pub udp: bool,
}

#[derive(Debug, Default)]
pub struct WsOpt {
    pub path: Option<String>,
    pub headers: Option<HashMap<String, String>>,
    pub max_early_data: Option<i32>,
    pub early_data_header_name: Option<String>,
}

#[derive(Debug, Default)]
pub struct GrpcOpt {
    pub grpc_service_name: Option<String>,
}

#[derive(Debug, Default)]
pub struct OutboundTrojan {
    pub name: String,
    pub server: String,
    pub port: u16,
    pub password: String,
    pub alpn: Option<Vec<String>>,
    pub sni: Option<String>,
    pub skip_cert_verify: Option<bool>,
    pub udp: Option<bool>,
    pub network: Option<String>,
    pub grpc_opts: Option<GrpcOpt>,
    pub ws_opts: Option<WsOpt>,
}

/// A proxy group, by selection strategy.
#[derive(Debug)]
pub enum OutboundGroupProtocol {
    Relay(OutboundGroupRelay),
    UrlTest(OutboundGroupUrlTest),
    Fallback(OutboundGroupFallback),
    LoadBalance(OutboundGroupLoadBalance),
    Select(OutboundGroupSelect),
}

impl OutboundGroupProtocol {
    /// The group's configured name.
    pub open spec fn name_view(&self) -> Seq<char> {
        match self {
            OutboundGroupProtocol::Relay(g) => g.name@,
            OutboundGroupProtocol::UrlTest(g) => g.name@,
            OutboundGroupProtocol::Fallback(g) => g.name@,
            OutboundGroupProtocol::LoadBalance(g) => g.name@,
            OutboundGroupProtocol::Select(g) => g.name@,
        }
    }

    /// The group's configured name.
    pub fn name(&self) -> (name: &str)
        ensures
            name@ == self.name_view(),
    {
        match self {
            OutboundGroupProtocol::Relay(g) => g.name.as_str(),
            OutboundGroupProtocol::UrlTest(g) => g.name.as_str(),
            OutboundGroupProtocol::Fallback(g) => g.name.as_str(),
            OutboundGroupProtocol::LoadBalance(g) => g.name.as_str(),
            OutboundGroupProtocol::Select(g) => g.name.as_str(),
        }
    }

    /// Shows the group to the user: by its name.
    pub fn to_string(&self) -> (shown: String)
        ensures
            shown@ == self.name_view(),
    {
        String::from_str(self.name())
    }
}

#[derive(Debug, Default)]
pub struct OutboundGroupRelay {
    pub name: String,
    pub proxies: Option<Vec<String>>,
    pub use_provider: Option<Vec<String>>,
}

#[derive(Debug)]
pub struct OutboundGroupUrlTest {
    pub name: String,
    pub proxies: Option<Vec<String>>,
    pub use_provider: Option<Vec<String>>,
    pub url: String,
    pub interval: u64,
    pub tolerance: Option<i32>,
    pub lazy: Option<bool>,
}

#[derive(Debug)]
pub struct OutboundGroupFallback {
    pub name: String,
    pub proxies: Option<Vec<String>>,
    pub use_provider: Option<Vec<String>>,
    pub url: String,
    pub interval: u64,
}

#[derive(Debug)]
pub struct OutboundGroupLoadBalance {
    pub name: String,
    pub proxies: Option<Vec<String>>,
    pub use_provider: Option<Vec<String>>,
    pub url: String,
    pub interval: u64,
    pub strategy: Option<LoadBalanceStrategy>,
}

/// How a load-balancing group spreads requests over its live members.
#[derive(Debug, Clone, Copy, PartialEq, Eq, Structural)]
pub enum LoadBalanceStrategy {
    ConsistentHashing,
    RoundRobin,
}

#[derive(Debug)]
pub struct OutboundGroupSelect {
    pub name: String,
    pub proxies: Option<Vec<String>>,
    pub use_provider: Option<Vec<String>>,
}

impl LoadBalanceStrategy {
    /// How the strategy is written in a configuration.
    pub open spec fn tag(self) -> Seq<char> {
        match self {
            LoadBalanceStrategy::ConsistentHashing => "consistent-hashing"@,
            LoadBalanceStrategy::RoundRobin => "round-robin"@,
        }
    }

    /// The strategy that a configuration's text stands for, if any.
    pub open spec fn of_tag(tag: Seq<char>) -> Option<LoadBalanceStrategy> {
        if tag == "consistent-hashing"@ {
            Some(LoadBalanceStrategy::ConsistentHashing)
        } else if tag == "round-robin"@ {
            Some(LoadBalanceStrategy::RoundRobin)
        } else {
            None
        }
    }

    /// Writes the strategy as a configuration does.
    pub fn as_tag(&self) -> (tag: &'static str)
        ensures
            tag@ == self.tag(),
    {
        match self {
            LoadBalanceStrategy::ConsistentHashing => "consistent-hashing",
            LoadBalanceStrategy::RoundRobin => "round-robin",
        }
    }

    /// Reads a strategy from a configuration's text.
    pub fn from_tag(tag: &str) -> (strategy: Option<LoadBalanceStrategy>)
        ensures
            strategy == LoadBalanceStrategy::of_tag(tag@),
    {
        if same_text(tag, "consistent-hashing") {
            Some(LoadBalanceStrategy::ConsistentHashing)
        } else if same_text(tag, "round-robin") {
            Some(LoadBalanceStrategy::RoundRobin)
        } else {
            None
        }
    }
}

/// The kinds of group.
#[derive(Debug, Clone, Copy, PartialEq, Eq, Structural)]
pub enum GroupKind {
    Relay,
    UrlTest,
    Fallback,
    LoadBalance,
    Select,
}

impl GroupKind {
    /// How the kind is written in the `type` field of a configuration.
    pub open spec fn tag(self) -> Seq<char> {
        match self {
            GroupKind::Relay => "relay"@,
            GroupKind::UrlTest => "url-test"@,
            GroupKind::Fallback => "fallback"@,
            GroupKind::LoadBalance => "load-balance"@,
            GroupKind::Select => "select"@,
        }
    }

    /// The kind that a `type` field stands for, if any.
    pub open spec fn of_tag(tag: Seq<char>) -> Option<GroupKind> {
        if tag == "relay"@ {
            Some(GroupKind::Relay)
        } else if tag == "url-test"@ {
            Some(GroupKind::UrlTest)
        } else if tag == "fallback"@ {
            Some(GroupKind::Fallback)
        } else if tag == "load-balance"@ {
            Some(GroupKind::LoadBalance)
        } else if tag == "select"@ {
            Some(GroupKind::Select)
        } else {
            None
        }
    }

    /// Whether groups of this kind have their members probed, and so need a
    /// URL and an interval.
    pub open spec fn probes(self) -> bool {
        self is UrlTest || self is Fallback || self is LoadBalance
    }

    /// Whether groups of this kind have their members probed.
    pub fn is_probing(&self) -> (probing: bool)
        ensures
            probing == self.probes(),
    {
        match self {
            GroupKind::UrlTest => true,
            GroupKind::Fallback => true,
            GroupKind::LoadBalance => true,
            _ => false,
        }
    }

    /// Writes the kind as the `type` field does.
    pub fn as_tag(&self) -> (tag: &'static str)
        ensures
            tag@ == self.tag(),
    {
        match self {
            GroupKind::Relay => "relay",
            GroupKind::UrlTest => "url-test",
            GroupKind::Fallback => "fallback",
            GroupKind::LoadBalance => "load-balance",
            GroupKind::Select => "select",
        }
    }

    /// Reads a kind from a `type` field.
    pub fn from_tag(tag: &str) -> (kind: Option<GroupKind>)
        ensures
            kind == GroupKind::of_tag(tag@),
    {
        if same_text(tag, "relay") {
            Some(GroupKind::Relay)
        } else if same_text(tag, "url-test") {
            Some(GroupKind::UrlTest)
        } else if same_text(tag, "fallback") {
            Some(GroupKind::Fallback)
        } else if same_text(tag, "load-balance") {
            Some(GroupKind::LoadBalance)
        } else if same_text(tag, "select") {
            Some(GroupKind::Select)
        } else {
            None
        }
    }
}

/// Every kind is read back from the tag it is written as.
pub proof fn kind_tag_reads_back(kind: GroupKind)
    ensures
        GroupKind::of_tag(kind.tag()) == Some(kind),
{
    reveal_strlit("relay");
    reveal_strlit("url-test");
    reveal_strlit("fallback");
    reveal_strlit("load-balance");
    reveal_strlit("select");
    assert("relay"@.len() == 5);
    assert("url-test"@.len() == 8);
    assert("fallback"@.len() == 8);
    assert("load-balance"@.len() == 12);
    assert("select"@.len() == 6);
    assert("url-test"@[0] == 'u');
    assert("fallback"@[0] == 'f');
}

/// Every strategy is read back from the tag it is written as.
pub proof fn strategy_tag_reads_back(strategy: LoadBalanceStrategy)
    ensures
        LoadBalanceStrategy::of_tag(strategy.tag()) == Some(strategy),
{
    reveal_strlit("consistent-hashing");
    reveal_strlit("round-robin");
    assert("consistent-hashing"@.len() == 18);
    assert("round-robin"@.len() == 11);
}

/// One group of a configuration as it is read, before its kind is known:
/// the `type` field and whatever else the record holds.
#[derive(Debug, Clone, Default)]
pub struct GroupRecord {
    pub kind: String,
    pub name: Option<String>,
    pub proxies: Option<Vec<String>>,
    pub use_provider: Option<Vec<String>>,
    pub url: Option<String>,
    pub interval: Option<u64>,
    pub tolerance: Option<i32>,
    pub lazy: Option<bool>,
    pub strategy: Option<String>,
}

impl GroupRecord {
    /// What is wrong with the record, if anything: the first of an unknown
    /// kind, a missing name, a probing group without URL or interval, an
    /// unknown strategy. Members are not looked at here: a group may name
    /// proxies, use providers, or both, and whether it ends up with any member
    /// is seen when the members are resolved.
    pub open spec fn fault(&self) -> Option<Seq<char>> {
        match GroupKind::of_tag(self.kind@) {
            None => Some("unknown group type: "@ + self.kind@),
            Some(kind) => if self.name is None {
                Some("missing field: name"@)
            } else if kind.probes() && self.url is None {
                Some("missing field: url"@)
            } else if kind.probes() && self.interval is None {
                Some("missing field: interval"@)
            } else if kind is LoadBalance && self.strategy is Some && LoadBalanceStrategy::of_tag(
                self.strategy->0@,
            ) is None {
                Some("unknown strategy: "@ + self.strategy->0@)
            } else {
                None
            },
        }
    }

    /// The strategy the record asks for, if it names one that exists.
    pub open spec fn wanted_strategy(&self) -> Option<LoadBalanceStrategy> {
        match self.strategy {
            Some(s) => LoadBalanceStrategy::of_tag(s@),
            None => None,
        }
    }
}

impl OutboundGroupProtocol {
    /// The group's kind.
    pub open spec fn kind_of(&self) -> GroupKind {
        match self {
            OutboundGroupProtocol::Relay(_) => GroupKind::Relay,
            OutboundGroupProtocol::UrlTest(_) => GroupKind::UrlTest,
            OutboundGroupProtocol::Fallback(_) => GroupKind::Fallback,
            OutboundGroupProtocol::LoadBalance(_) => GroupKind::LoadBalance,
            OutboundGroupProtocol::Select(_) => GroupKind::Select,
        }
    }

    /// The group's kind.
    pub fn kind(&self) -> (kind: GroupKind)
        ensures
            kind == self.kind_of(),
    {
        match self {
            OutboundGroupProtocol::Relay(_) => GroupKind::Relay,
            OutboundGroupProtocol::UrlTest(_) => GroupKind::UrlTest,
            OutboundGroupProtocol::Fallback(_) => GroupKind::Fallback,
            OutboundGroupProtocol::LoadBalance(_) => GroupKind::LoadBalance,
            OutboundGroupProtocol::Select(_) => GroupKind::Select,
        }
    }

    /// The group that a record without fault describes. Each kind takes the
    /// fields it has a use for and ignores the others.
    pub open spec fn of_record(r: GroupRecord) -> OutboundGroupProtocol {
        match GroupKind::of_tag(r.kind@) {
            Some(GroupKind::UrlTest) => OutboundGroupProtocol::UrlTest(
                OutboundGroupUrlTest {
                    name: r.name->0,
                    proxies: r.proxies,
                    use_provider: r.use_provider,
                    url: r.url->0,
                    interval: r.interval->0,
                    tolerance: r.tolerance,
                    lazy: r.lazy,
                },
            ),
            Some(GroupKind::Fallback) => OutboundGroupProtocol::Fallback(
                OutboundGroupFallback {
                    name: r.name->0,
                    proxies: r.proxies,
                    use_provider: r.use_provider,
                    url: r.url->0,
                    interval: r.interval->0,
                },
            ),
            Some(GroupKind::LoadBalance) => OutboundGroupProtocol::LoadBalance(
                OutboundGroupLoadBalance {
                    name: r.name->0,
                    proxies: r.proxies,
                    use_provider: r.use_provider,
                    url: r.url->0,
                    interval: r.interval->0,
                    strategy: r.wanted_strategy(),
                },
            ),
            Some(GroupKind::Select) => OutboundGroupProtocol::Select(
                OutboundGroupSelect {
                    name: r.name->0,
                    proxies: r.proxies,
                    use_provider: r.use_provider,
                },
            ),
            _ => OutboundGroupProtocol::Relay(
                OutboundGroupRelay {
                    name: r.name->0,
                    proxies: r.proxies,
                    use_provider: r.use_provider,
                },
            ),
        }
    }

    /// Builds the group that a record describes, or says what is wrong with
    /// the record. The record's kind must be one of the five; every group
    /// needs a name; a group that probes needs a URL and an interval; a load
    /// balancer's strategy, if given, must exist. The lists of proxies and of
    /// providers are both optional for every kind and are handed on as they
    /// are.
    pub fn from_record(r: GroupRecord) -> (made: Result<OutboundGroupProtocol, ProxyError>)
        ensures
            match made {
                Ok(group) => r.fault() is None && group == OutboundGroupProtocol::of_record(r),
                Err(e) => e matches ProxyError::InvalidConfig(why) && r.fault() == Some(why@),
            },
    {
        let GroupRecord {
            kind: tag,
            name,
            proxies,
            use_provider,
            url,
            interval,
            tolerance,
            lazy,
            strategy,
        } = r;
        let kind: GroupKind = match GroupKind::from_tag(tag.as_str()) {
            Some(k) => k,
            None => {
                return Err(
                    ProxyError::InvalidConfig(
                        String::from_str("unknown group type: ").concat(tag.as_str()),
                    ),
                );
            },
        };
        let name: String = match name {
            Some(n) => n,
            None => {
                return Err(ProxyError::InvalidConfig(String::from_str("missing field: name")));
            },
        };
        match kind {
            GroupKind::Relay => Ok(
                OutboundGroupProtocol::Relay(OutboundGroupRelay { name, proxies, use_provider }),
            ),
            GroupKind::Select => Ok(
                OutboundGroupProtocol::Select(OutboundGroupSelect { name, proxies, use_provider }),
            ),
            _ => {
                let url: String = match url {
                    Some(u) => u,
                    None => {
                        return Err(
                            ProxyError::InvalidConfig(String::from_str("missing field: url")),
                        );
                    },
                };
                let interval: u64 = match interval {
                    Some(i) => i,
                    None => {
                        return Err(
                            ProxyError::InvalidConfig(String::from_str("missing field: interval")),
                        );
                    },
                };
                match kind {
                    GroupKind::UrlTest => Ok(
                        OutboundGroupProtocol::UrlTest(
                            OutboundGroupUrlTest {
                                name,
                                proxies,
                                use_provider,
                                url,
                                interval,
                                tolerance,
                                lazy,
                            },
                        ),
                    ),
                    GroupKind::Fallback => Ok(
                        OutboundGroupProtocol::Fallback(
                            OutboundGroupFallback { name, proxies, use_provider, url, interval },
                        ),
                    ),
                    _ => {
                        let strategy: Option<LoadBalanceStrategy> = match strategy {
                            Some(s) => match LoadBalanceStrategy::from_tag(s.as_str()) {
                                Some(known) => Some(known),
                                None => {
                                    return Err(
                                        ProxyError::InvalidConfig(
                                            String::from_str("unknown strategy: ").concat(
                                                s.as_str(),
                                            ),
                                        ),
                                    );
                                },
                            },
                            None => None,
                        };
                        Ok(
                            OutboundGroupProtocol::LoadBalance(
                                OutboundGroupLoadBalance {
                                    name,
                                    proxies,
                                    use_provider,
                                    url,
                                    interval,
                                    strategy,
                                },
                            ),
                        )
                    },
                }
            },
        }
    }
}

} // verus!
