//! Providers: owners of a set of outbound handles and of the health-check
//! engine that watches them.
use vstd::prelude::*;
use vstd::string::StringExecFns;
use crate::health::{EngineState, HealthCheck};
use crate::member::Member;
use crate::text::same_text;

pub mod plain_provider;
pub mod proxy_set_provider;

verus! {

/// What a provider provides.
#[derive(Debug, Clone, Copy, PartialEq, Eq, Structural)]
pub enum ProviderType {
    Proxy,
    Rule,
}

impl ProviderType {
    /// How the kind is written in status reports.
    pub open spec fn label(self) -> Seq<char> {
        match self {
            ProviderType::Proxy => "Proxy"@,
            ProviderType::Rule => "Rule"@,
        }
    }

    /// The kind that a status report's text stands for, if any.
    pub open spec fn of_label(text: Seq<char>) -> Option<ProviderType> {
        if text == "Proxy"@ {
            Some(ProviderType::Proxy)
        } else if text == "Rule"@ {
            Some(ProviderType::Rule)
        } else {
            None
        }
    }

    /// Writes the kind as status reports show it.
    pub fn to_string(&self) -> (shown: String)
        ensures
            shown@ == self.label(),
    {
        match self {
            ProviderType::Proxy => String::from_str("Proxy"),
            ProviderType::Rule => String::from_str("Rule"),
        }
    }

    /// Reads a kind back from a status report.
    pub fn from_label(text: &str) -> (kind: Option<ProviderType>)
        ensures
            kind == ProviderType::of_label(text@),
    {
        if same_text(text, "Proxy") {
            Some(ProviderType::Proxy)
        } else if same_text(text, "Rule") {
            Some(ProviderType::Rule)
        } else {
            None
        }
    }
}

/// Where a provider's handle list comes from.
#[derive(Debug, Clone, Copy, PartialEq, Eq, Structural)]
pub enum ProviderVehicleType {
    /// A file on disk.
    File,
    /// A subscription URL.
    Http,
    /// The configuration itself: the list is fixed.
    Compatible,
}

impl ProviderVehicleType {
    /// How the source is written in status reports.
    pub open spec fn label(self) -> Seq<char> {
        match self {
            ProviderVehicleType::File => "File"@,
            ProviderVehicleType::Http => "HTTP"@,
            ProviderVehicleType::Compatible => "Compatible"@,
        }
    }

    /// The source that a status report's text stands for, if any.
    pub open spec fn of_label(text: Seq<char>) -> Option<ProviderVehicleType> {
        if text == "File"@ {
            Some(ProviderVehicleType::File)
        } else if text == "HTTP"@ {
            Some(ProviderVehicleType::Http)
        } else if text == "Compatible"@ {
            Some(ProviderVehicleType::Compatible)
        } else {
            None
        }
    }

    /// Writes the source as status reports show it.
    pub fn to_string(&self) -> (shown: String)
        ensures
            shown@ == self.label(),
    {
        match self {
            ProviderVehicleType::File => String::from_str("File"),
            ProviderVehicleType::Http => String::from_str("HTTP"),
            ProviderVehicleType::Compatible => String::from_str("Compatible"),
        }
    }

    /// Reads a source back from a status report.
    pub fn from_label(text: &str) -> (vehicle: Option<ProviderVehicleType>)
        ensures
            vehicle == ProviderVehicleType::of_label(text@),
    {
        if same_text(text, "File") {
            Some(ProviderVehicleType::File)
        } else if same_text(text, "HTTP") {
            Some(ProviderVehicleType::Http)
        } else if same_text(text, "Compatible") {
            Some(ProviderVehicleType::Compatible)
        } else {
            None
        }
    }
}

/// One configured outbound proxy, as far as providers and groups look at it:
/// by its name.
#[derive(Debug, PartialEq, Eq)]
pub struct OutboundHandle {
    name: String,
}

impl View for OutboundHandle {
    type V = Seq<char>;

    /// A handle is seen as its name.
    closed spec fn view(&self) -> Seq<char> {
        self.name@
    }
}

impl Clone for OutboundHandle {
    fn clone(&self) -> (copy: Self)
        ensures
            copy == *self,
    {
        OutboundHandle { name: self.name.clone() }
    }
}

impl OutboundHandle {
    /// The handle of the proxy called `name`.
    pub fn new(name: String) -> (h: OutboundHandle)
        ensures
            h@ == name@,
    {
        OutboundHandle { name }
    }

    /// The proxy's name.
    pub fn name(&self) -> (name: &str)
        ensures
            name@ == self@,
    {
        self.name.as_str()
    }
}

/// The names of the handles in `handles`, in order.
pub open spec fn names_of(handles: Seq<OutboundHandle>) -> Seq<Seq<char>> {
    handles.map_values(|h: OutboundHandle| h@)
}

/// A status report on a provider. It is made from what the provider holds,
/// without probing anything.
#[derive(Debug, Clone, PartialEq, Eq)]
pub struct ProviderSummary {
    pub name: String,
    pub typ: String,
    pub vehicle_type: String,
    pub proxies: Vec<String>,
}

/// A status report as contracts see it.
pub struct SummaryView {
    pub name: Seq<char>,
    pub typ: Seq<char>,
    pub vehicle_type: Seq<char>,
    pub proxies: Seq<Seq<char>>,
}

impl SummaryView {
    /// The text filed under `key`: the report has `name`, `type` and
    /// `vehicleType`.
    pub open spec fn field(self, key: Seq<char>) -> Option<Seq<char>> {
        if key == "name"@ {
            Some(self.name)
        } else if key == "type"@ {
            Some(self.typ)
        } else if key == "vehicleType"@ {
            Some(self.vehicle_type)
        } else {
            None
        }
    }
}

impl View for ProviderSummary {
    type V = SummaryView;

    open spec fn view(&self) -> SummaryView {
        SummaryView {
            name: self.name@,
            typ: self.typ@,
            vehicle_type: self.vehicle_type@,
            proxies: self.proxies@.map_values(|s: String| s@),
        }
    }
}

impl ProviderSummary {
    /// Reads the text filed under `key`.
    pub fn get(&self, key: &str) -> (text: Option<&str>)
        ensures
            match text {
                Some(t) => self@.field(key@) == Some(t@),
                None => self@.field(key@) is None,
            },
    {
        if same_text(key, "name") {
            Some(self.name.as_str())
        } else if same_text(key, "type") {
            Some(self.typ.as_str())
        } else if same_text(key, "vehicleType") {
            Some(self.vehicle_type.as_str())
        } else {
            None
        }
    }
}

/// The report on a provider called `name`, of kind `typ`, fed by `vehicle`,
/// that holds `handles`.
pub open spec fn summary_of(
    name: Seq<char>,
    typ: ProviderType,
    vehicle: ProviderVehicleType,
    handles: Seq<OutboundHandle>,
) -> SummaryView {
    SummaryView {
        name,
        typ: typ.label(),
        vehicle_type: vehicle.label(),
        proxies: names_of(handles),
    }
}

/// Copies a handle list.
pub fn copy_handles(handles: &Vec<OutboundHandle>) -> (copy: Vec<OutboundHandle>)
    ensures
        copy@ == handles@,
{
    let mut copy: Vec<OutboundHandle> = Vec::new();
    let mut i: usize = 0;
    while i < handles.len()
        invariant
            i <= handles.len(),
            copy@.len() == i,
            forall|j: int| 0 <= j < i ==> copy@[j] == handles@[j],
        decreases handles.len() - i,
    {
        copy.push(handles[i].clone());
        i += 1;
    }
    assert(copy@ =~= handles@);
    copy
}

/// Writes the report on a provider.
pub fn summarize(
    name: &String,
    typ: ProviderType,
    vehicle: ProviderVehicleType,
    handles: &Vec<OutboundHandle>,
) -> (report: ProviderSummary)
    ensures
        report@ == summary_of(name@, typ, vehicle, handles@),
{
    let mut names: Vec<String> = Vec::new();
    let mut i: usize = 0;
    while i < handles.len()
        invariant
            i <= handles.len(),
            names@.len() == i,
            forall|j: int| 0 <= j < i ==> names@[j]@ == handles@[j]@,
        decreases handles.len() - i,
    {
        names.push(handles[i].name.clone());
        i += 1;
    }
    let report = ProviderSummary {
        name: name.clone(),
        typ: typ.to_string(),
        vehicle_type: vehicle.to_string(),
        proxies: names,
    };
    assert(report@.proxies =~= names_of(handles@));
    report
}

/// Whether `seen` shows the handles, in order, each with what the engine
/// knows about the handle at its position.
pub open spec fn shows(seen: Seq<Member>, handles: Seq<OutboundHandle>, engine: EngineState) -> bool {
    &&& seen.len() == handles.len()
    &&& forall|i: int|
        0 <= i < seen.len() ==> (#[trigger] seen[i]).name@ == handles[i]@ && seen[i].health
            == engine.health_of(i)
}

/// Lists the handles as a group sees them.
pub fn snapshot(handles: &Vec<OutboundHandle>, hc: &HealthCheck) -> (seen: Vec<Member>)
    ensures
        shows(seen@, handles@, hc@),
{
    let mut seen: Vec<Member> = Vec::new();
    let mut i: usize = 0;
    while i < handles.len()
        invariant
            i <= handles.len(),
            seen@.len() == i,
            forall|j: int|
                0 <= j < i ==> (#[trigger] seen@[j]).name@ == handles@[j]@ && seen@[j].health
                    == hc@.health_of(j),
        decreases handles.len() - i,
    {
        seen.push(Member { name: handles[i].name.clone(), health: hc.health(i) });
        i += 1;
    }
    seen
}

/// What a provider reports of itself is what it was built with: the name
/// comes back letter for letter, and the kind and the source are read back
/// from their labels.
pub proof fn summary_reads_back(
    name: Seq<char>,
    typ: ProviderType,
    vehicle: ProviderVehicleType,
    handles: Seq<OutboundHandle>,
)
    ensures
        summary_of(name, typ, vehicle, handles).field("name"@) == Some(name),
        summary_of(name, typ, vehicle, handles).field("type"@) == Some(typ.label()),
        summary_of(name, typ, vehicle, handles).field("vehicleType"@) == Some(vehicle.label()),
        ProviderType::of_label(typ.label()) == Some(typ),
        ProviderVehicleType::of_label(vehicle.label()) == Some(vehicle),
        summary_of(name, typ, vehicle, handles).proxies == names_of(handles),
{
    reveal_strlit("name");
    reveal_strlit("type");
    reveal_strlit("vehicleType");
    reveal_strlit("Proxy");
    reveal_strlit("Rule");
    reveal_strlit("File");
    reveal_strlit("HTTP");
    reveal_strlit("Compatible");
    assert("name"@.len() == 4);
    assert("type"@.len() == 4);
    assert("vehicleType"@.len() == 11);
    assert("name"@[0] == 'n');
    assert("type"@[0] == 't');
    assert("Proxy"@.len() == 5);
    assert("Rule"@.len() == 4);
    assert("File"@.len() == 4);
    assert("HTTP"@.len() == 4);
    assert("Compatible"@.len() == 10);
    assert("File"@[0] == 'F');
    assert("HTTP"@[0] == 'H');
}

} // verus!
