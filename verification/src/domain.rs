//! Domain types: DNS providers, operations, operation results and states.

use vstd::prelude::*;

verus! {

/// A DNS provider with its two server addresses.
#[derive(Debug, PartialEq)]
pub enum DnsProvider {
    Electro { primary: String, secondary: String },
    Radar { primary: String, secondary: String },
    Shekan { primary: String, secondary: String },
    Bogzar { primary: String, secondary: String },
    Quad9 { primary: String, secondary: String },
    Custom { primary: String, secondary: String },
}

/// The kinds of provider, in the order in which they are offered.
#[derive(Debug, Clone, Copy, PartialEq, Eq, Structural)]
pub enum ProviderKind {
    Electro,
    Radar,
    Shekan,
    Bogzar,
    Quad9,
    Custom,
}

impl ProviderKind {
    /// Position of the kind in the list of offered providers.
    pub open spec fn index(self) -> nat {
        match self {
            ProviderKind::Electro => 0,
            ProviderKind::Radar => 1,
            ProviderKind::Shekan => 2,
            ProviderKind::Bogzar => 3,
            ProviderKind::Quad9 => 4,
            ProviderKind::Custom => 5,
        }
    }

    /// The name shown for the kind.
    pub open spec fn name(self) -> Seq<char> {
        match self {
            ProviderKind::Electro => "Electro"@,
            ProviderKind::Radar => "Radar"@,
            ProviderKind::Shekan => "Shekan"@,
            ProviderKind::Bogzar => "Bogzar"@,
            ProviderKind::Quad9 => "Quad9"@,
            ProviderKind::Custom => "Custom"@,
        }
    }
}

/// The servers of each built-in provider; a custom provider has none of
/// its own.
pub open spec fn preset_servers(kind: ProviderKind) -> (Seq<char>, Seq<char>) {
    match kind {
        ProviderKind::Electro => ("78.157.42.100"@, "78.157.42.101"@),
        ProviderKind::Radar => ("10.202.10.10"@, "10.202.10.11"@),
        ProviderKind::Shekan => ("178.22.122.100"@, "185.51.200.2"@),
        ProviderKind::Bogzar => ("185.55.226.26"@, "185.55.225.25"@),
        ProviderKind::Quad9 => ("9.9.9.9"@, "149.112.112.112"@),
        ProviderKind::Custom => (Seq::empty(), Seq::empty()),
    }
}

impl DnsProvider {
    /// The kind of the provider.
    pub open spec fn kind(self) -> ProviderKind {
        match self {
            DnsProvider::Electro { .. } => ProviderKind::Electro,
            DnsProvider::Radar { .. } => ProviderKind::Radar,
            DnsProvider::Shekan { .. } => ProviderKind::Shekan,
            DnsProvider::Bogzar { .. } => ProviderKind::Bogzar,
            DnsProvider::Quad9 { .. } => ProviderKind::Quad9,
            DnsProvider::Custom { .. } => ProviderKind::Custom,
        }
    }

    /// The primary and the secondary server, as text.
    pub open spec fn servers(self) -> (Seq<char>, Seq<char>) {
        match self {
            DnsProvider::Electro { primary, secondary }
            | DnsProvider::Radar { primary, secondary }
            | DnsProvider::Shekan { primary, secondary }
            | DnsProvider::Bogzar { primary, secondary }
            | DnsProvider::Quad9 { primary, secondary }
            | DnsProvider::Custom { primary, secondary } => (primary@, secondary@),
        }
    }

    /// Create Electro DNS provider.
    pub fn electro() -> (p: Self)
        ensures
            p.kind() == ProviderKind::Electro,
            p.servers() == preset_servers(ProviderKind::Electro),
    {
        DnsProvider::Electro {
            primary: String::from_str("78.157.42.100"),
            secondary: String::from_str("78.157.42.101"),
        }
    }

    /// Create Radar DNS provider.
    pub fn radar() -> (p: Self)
        ensures
            p.kind() == ProviderKind::Radar,
            p.servers() == preset_servers(ProviderKind::Radar),
    {
        DnsProvider::Radar {
            primary: String::from_str("10.202.10.10"),
            secondary: String::from_str("10.202.10.11"),
        }
    }

    /// Create Shekan DNS provider.
    pub fn shekan() -> (p: Self)
        ensures
            p.kind() == ProviderKind::Shekan,
            p.servers() == preset_servers(ProviderKind::Shekan),
    {
        DnsProvider::Shekan {
            primary: String::from_str("178.22.122.100"),
            secondary: String::from_str("185.51.200.2"),
        }
    }

    /// Create Bogzar DNS provider.
    pub fn bogzar() -> (p: Self)
        ensures
            p.kind() == ProviderKind::Bogzar,
            p.servers() == preset_servers(ProviderKind::Bogzar),
    {
        DnsProvider::Bogzar {
            primary: String::from_str("185.55.226.26"),
            secondary: String::from_str("185.55.225.25"),
        }
    }

    /// Create Quad9 DNS provider.
    pub fn quad9() -> (p: Self)
        ensures
            p.kind() == ProviderKind::Quad9,
            p.servers() == preset_servers(ProviderKind::Quad9),
    {
        DnsProvider::Quad9 {
            primary: String::from_str("9.9.9.9"),
            secondary: String::from_str("149.112.112.112"),
        }
    }

    /// Create custom DNS provider.
    pub fn custom(primary: String, secondary: String) -> (p: Self)
        ensures
            p.kind() == ProviderKind::Custom,
            p.servers() == (primary@, secondary@),
    {
        DnsProvider::Custom { primary, secondary }
    }

    /// Get DNS servers as tuple.
    pub fn get_servers(&self) -> (res: (String, String))
        ensures
            (res.0@, res.1@) == self.servers(),
    {
        match self {
            DnsProvider::Electro { primary, secondary }
            | DnsProvider::Radar { primary, secondary }
            | DnsProvider::Shekan { primary, secondary }
            | DnsProvider::Bogzar { primary, secondary }
            | DnsProvider::Quad9 { primary, secondary }
            | DnsProvider::Custom { primary, secondary } => (primary.clone(), secondary.clone()),
        }
    }

    /// Get display name for UI.
    pub fn display_name(&self) -> (name: &'static str)
        ensures
            name@ == self.kind().name(),
    {
        match self {
            DnsProvider::Electro { .. } => "Electro",
            DnsProvider::Radar { .. } => "Radar",
            DnsProvider::Shekan { .. } => "Shekan",
            DnsProvider::Bogzar { .. } => "Bogzar",
            DnsProvider::Quad9 { .. } => "Quad9",
            DnsProvider::Custom { .. } => "Custom",
        }
    }

    /// The kind of the provider.
    pub fn provider_kind(&self) -> (k: ProviderKind)
        ensures
            k == self.kind(),
    {
        match self {
            DnsProvider::Electro { .. } => ProviderKind::Electro,
            DnsProvider::Radar { .. } => ProviderKind::Radar,
            DnsProvider::Shekan { .. } => ProviderKind::Shekan,
            DnsProvider::Bogzar { .. } => ProviderKind::Bogzar,
            DnsProvider::Quad9 { .. } => ProviderKind::Quad9,
            DnsProvider::Custom { .. } => ProviderKind::Custom,
        }
    }
}

impl Clone for DnsProvider {
    fn clone(&self) -> (p: Self)
        ensures
            p == *self,
    {
        match self {
            DnsProvider::Electro { primary, secondary } => DnsProvider::Electro {
                primary: primary.clone(),
                secondary: secondary.clone(),
            },
            DnsProvider::Radar { primary, secondary } => DnsProvider::Radar {
                primary: primary.clone(),
                secondary: secondary.clone(),
            },
            DnsProvider::Shekan { primary, secondary } => DnsProvider::Shekan {
                primary: primary.clone(),
                secondary: secondary.clone(),
            },
            DnsProvider::Bogzar { primary, secondary } => DnsProvider::Bogzar {
                primary: primary.clone(),
                secondary: secondary.clone(),
            },
            DnsProvider::Quad9 { primary, secondary } => DnsProvider::Quad9 {
                primary: primary.clone(),
                secondary: secondary.clone(),
            },
            DnsProvider::Custom { primary, secondary } => DnsProvider::Custom {
                primary: primary.clone(),
                secondary: secondary.clone(),
            },
        }
    }
}

impl Default for DnsProvider {
    fn default() -> (p: Self)
        ensures
            p.kind() == ProviderKind::Electro,
            p.servers() == preset_servers(ProviderKind::Electro),
    {
        DnsProvider::electro()
    }
}

/// Represents different DNS operations.
#[derive(Debug, PartialEq)]
pub enum DnsOperation {
    SetDns(DnsProvider),
    Clear,
    Test,
}

/// Represents the result of a DNS operation.
#[derive(Debug, PartialEq)]
pub enum OperationResult {
    Success(String),
    Error(String),
    Warning(String),
}

/// The text of an operation result.
pub enum OperationResultView {
    Success(Seq<char>),
    Error(Seq<char>),
    Warning(Seq<char>),
}

impl View for OperationResult {
    type V = OperationResultView;

    open spec fn view(&self) -> OperationResultView {
        match self {
            OperationResult::Success(m) => OperationResultView::Success(m@),
            OperationResult::Error(m) => OperationResultView::Error(m@),
            OperationResult::Warning(m) => OperationResultView::Warning(m@),
        }
    }
}

/// Represents the current state of the application.
#[derive(Debug, PartialEq)]
pub enum AppState {
    Idle,
    Processing,
    Success(String),
    Error(String),
    Warning(String),
}

/// The text of an application state.
pub enum AppStateView {
    Idle,
    Processing,
    Success(Seq<char>),
    Error(Seq<char>),
    Warning(Seq<char>),
}

impl View for AppState {
    type V = AppStateView;

    open spec fn view(&self) -> AppStateView {
        match self {
            AppState::Idle => AppStateView::Idle,
            AppState::Processing => AppStateView::Processing,
            AppState::Success(m) => AppStateView::Success(m@),
            AppState::Error(m) => AppStateView::Error(m@),
            AppState::Warning(m) => AppStateView::Warning(m@),
        }
    }
}

impl Default for AppState {
    fn default() -> (s: Self)
        ensures
            s == AppState::Idle,
    {
        AppState::Idle
    }
}

/// Represents DNS configuration states.
#[derive(Debug, PartialEq)]
pub enum DnsState {
    Static(Vec<String>),
    Dhcp,
    NoDns,
}

/// The text of a DNS configuration state.
pub enum DnsStateView {
    Static(Seq<Seq<char>>),
    Dhcp,
    NoDns,
}

impl View for DnsState {
    type V = DnsStateView;

    open spec fn view(&self) -> DnsStateView {
        match self {
            DnsState::Static(servers) => DnsStateView::Static(servers.deep_view()),
            DnsState::Dhcp => DnsStateView::Dhcp,
            DnsState::NoDns => DnsStateView::NoDns,
        }
    }
}

impl Default for DnsState {
    fn default() -> (s: Self)
        ensures
            s == DnsState::NoDns,
    {
        DnsState::NoDns
    }
}

} // verus!
