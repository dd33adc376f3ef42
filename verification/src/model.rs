//! The state of the DNS setter window and what each user action or
//! finished operation does to it.

use std::collections::VecDeque;

use vstd::prelude::*;

use crate::domain::{
    AppState, AppStateView, DnsOperation, DnsProvider, DnsState, DnsStateView, OperationResult,
    OperationResultView, ProviderKind, preset_servers,
};
use crate::ping_monitor::{bounded_push, push_bounded};
use crate::netsh::optional_text;
use crate::text::{contains_text, decimal, str_contains, u64_to_string};

verus! {

/// How many readings the ping monitor chart keeps.
pub const MONITOR_HISTORY_CAPACITY: usize = 15;

/// The colour in which a line of status is shown.
#[derive(Debug, Clone, Copy, PartialEq, Eq, Structural)]
pub enum Tone {
    Good,
    Caution,
    Bad,
    Neutral,
}

/// The colour band of the ping monitor: grey for no reply, then green,
/// yellow and red.
#[derive(Debug, Clone, Copy, PartialEq, Eq, Structural)]
pub enum MonitorLevel {
    NoReply,
    Good,
    Fair,
    Poor,
}

/// The band of a reading of `ms` milliseconds; 0 stands for no reply.
pub open spec fn monitor_level_of(ms: nat) -> MonitorLevel {
    if ms == 0 {
        MonitorLevel::NoReply
    } else if ms < 100 {
        MonitorLevel::Good
    } else if ms < 200 {
        MonitorLevel::Fair
    } else {
        MonitorLevel::Poor
    }
}

/// The bands of the ping monitor: no reply for 0 ms, good under 100 ms,
/// poor from 200 ms on, fair between; a slower reply never falls in a
/// better band than a faster one.
pub proof fn law_monitor_bands(ms: nat, slower: nat)
    ensures
        monitor_level_of(ms) == MonitorLevel::NoReply <==> ms == 0,
        monitor_level_of(ms) == MonitorLevel::Good <==> 0 < ms < 100,
        monitor_level_of(ms) == MonitorLevel::Fair <==> 100 <= ms < 200,
        monitor_level_of(ms) == MonitorLevel::Poor <==> ms >= 200,
        0 < ms <= slower && monitor_level_of(slower) == MonitorLevel::Good ==> monitor_level_of(ms)
            == MonitorLevel::Good,
        0 < ms <= slower && monitor_level_of(ms) == MonitorLevel::Poor ==> monitor_level_of(slower)
            == MonitorLevel::Poor,
{
}

/// The kind of provider offered at position `i` of the provider list.
pub open spec fn option_kind(i: int) -> ProviderKind {
    if i == 0 {
        ProviderKind::Electro
    } else if i == 1 {
        ProviderKind::Radar
    } else if i == 2 {
        ProviderKind::Shekan
    } else if i == 3 {
        ProviderKind::Bogzar
    } else if i == 4 {
        ProviderKind::Quad9
    } else {
        ProviderKind::Custom
    }
}

/// The DNS configuration that a list of servers shows: none when the list is
/// empty, DHCP when its only entry mentions `dhcp`, else static.
pub open spec fn dns_state_of(dns: Seq<Seq<char>>) -> DnsStateView {
    if dns.len() == 0 {
        DnsStateView::NoDns
    } else if dns.len() == 1 && contains_text(dns[0], "dhcp"@) {
        DnsStateView::Dhcp
    } else {
        DnsStateView::Static(dns)
    }
}

/// The application state that a finished operation leaves.
pub open spec fn state_after(result: OperationResultView) -> AppStateView {
    match result {
        OperationResultView::Success(m) => AppStateView::Success(m),
        OperationResultView::Error(m) => AppStateView::Error(m),
        OperationResultView::Warning(m) => AppStateView::Warning(m),
    }
}

/// The DNS configuration shown for a list of servers.
pub fn dns_state_from_servers(dns: &Vec<String>) -> (state: DnsState)
    ensures
        state@ == dns_state_of(dns.deep_view()),
{
    if dns.len() == 0 {
        DnsState::NoDns
    } else if dns.len() == 1 && str_contains(dns[0].as_str(), "dhcp") {
        DnsState::Dhcp
    } else {
        let copy = dns.clone();
        assert(copy.deep_view() =~= dns.deep_view());
        DnsState::Static(copy)
    }
}

/// What the DNS setter window holds besides its textures and channels.
pub struct DnsSetterModel {
    pub adapter: Option<String>,
    pub dns: Vec<String>,
    pub app_state: AppState,
    pub selected_provider: DnsProvider,
    pub dns_state: DnsState,
    pub custom_primary: String,
    pub custom_secondary: String,
    pub show_second_window: bool,
    pub show_clear_confirmation: bool,
    pub show_custom_dns_window: bool,
    pub ping_value: u64,
    pub ping_history: VecDeque<u64>,
}

impl DnsSetterModel {
    /// The ping history never holds more readings than the chart keeps.
    pub open spec fn wf(&self) -> bool {
        self.ping_history@.len() <= MONITOR_HISTORY_CAPACITY
    }

    /// A window with nothing selected but the Electro provider, no adapter,
    /// no DNS servers known, no window open and no ping readings.
    pub fn new() -> (m: Self)
        ensures
            m.wf(),
            m.adapter is None,
            m.dns@.len() == 0,
            m.app_state == AppState::Idle,
            m.selected_provider.kind() == ProviderKind::Electro,
            m.selected_provider.servers() == preset_servers(ProviderKind::Electro),
            m.dns_state == DnsState::NoDns,
            m.custom_primary@.len() == 0,
            m.custom_secondary@.len() == 0,
            !m.show_second_window,
            !m.show_clear_confirmation,
            !m.show_custom_dns_window,
            m.ping_value == 0,
            m.ping_history@.len() == 0,
    {
        DnsSetterModel {
            adapter: None,
            dns: Vec::new(),
            app_state: AppState::Idle,
            selected_provider: DnsProvider::electro(),
            dns_state: DnsState::NoDns,
            custom_primary: String::new(),
            custom_secondary: String::new(),
            show_second_window: false,
            show_clear_confirmation: false,
            show_custom_dns_window: false,
            ping_value: 0,
            ping_history: VecDeque::new(),
        }
    }

    /// An operation starts on `adapter`: the window shows that it is busy.
    pub fn begin_operation(&mut self, adapter: Option<String>)
        ensures
            *final(self) == (DnsSetterModel {
                app_state: AppState::Processing,
                adapter: adapter,
                ..*old(self)
            }),
    {
        self.app_state = AppState::Processing;
        self.adapter = adapter;
    }

    /// An operation finished with `result`. Answers whether the DNS
    /// servers of the adapter must be read again (a success on a known
    /// adapter), after which `update_dns` takes them.
    pub fn handle_operation_result(&mut self, result: OperationResult) -> (refresh: bool)
        ensures
            final(self).app_state@ == state_after(result@),
            refresh == (result is Success && old(self).adapter is Some),
            *final(self) == (DnsSetterModel { app_state: final(self).app_state, ..*old(self) }),
    {
        let success = match &result {
            OperationResult::Success(_) => true,
            _ => false,
        };
        self.app_state = match result {
            OperationResult::Success(m) => AppState::Success(m),
            OperationResult::Error(m) => AppState::Error(m),
            OperationResult::Warning(m) => AppState::Warning(m),
        };
        success && self.adapter.is_some()
    }

    /// Classify the DNS servers held.
    pub fn update_dns_state(&mut self)
        ensures
            final(self).dns_state@ == dns_state_of(old(self).dns.deep_view()),
            *final(self) == (DnsSetterModel { dns_state: final(self).dns_state, ..*old(self) }),
    {
        self.dns_state = dns_state_from_servers(&self.dns);
    }

    /// Take the DNS servers just read and classify them.
    pub fn update_dns(&mut self, dns: Vec<String>)
        ensures
            final(self).dns == dns,
            final(self).dns_state@ == dns_state_of(dns.deep_view()),
            *final(self) == (DnsSetterModel {
                dns: final(self).dns,
                dns_state: final(self).dns_state,
                ..*old(self)
            }),
    {
        self.dns = dns;
        self.update_dns_state();
    }

    /// A new ping reading of `ms` milliseconds (0 when no reply came).
    pub fn record_ping(&mut self, ms: u64)
        requires
            old(self).wf(),
        ensures
            final(self).wf(),
            final(self).ping_value == ms,
            final(self).ping_history@ == bounded_push(
                old(self).ping_history@,
                ms,
                MONITOR_HISTORY_CAPACITY as nat,
            ),
            *final(self) == (DnsSetterModel {
                ping_value: ms,
                ping_history: final(self).ping_history,
                ..*old(self)
            }),
    {
        self.ping_value = ms;
        push_bounded(&mut self.ping_history, ms, MONITOR_HISTORY_CAPACITY);
    }

    /// Open or close the ping monitor; closing it forgets the readings.
    pub fn set_ping_monitor_open(&mut self, open: bool)
        requires
            old(self).wf(),
        ensures
            final(self).wf(),
            final(self).show_second_window == open,
            open ==> *final(self) == (DnsSetterModel { show_second_window: true, ..*old(self) }),
            !open ==> final(self).ping_value == 0 && final(self).ping_history@.len() == 0,
            !open ==> *final(self) == (DnsSetterModel {
                show_second_window: false,
                ping_value: 0,
                ping_history: final(self).ping_history,
                ..*old(self)
            }),
    {
        self.show_second_window = open;
        if !open {
            self.ping_value = 0;
            self.ping_history.clear();
        }
    }

    /// The band of the latest ping reading.
    pub fn ping_monitor_level(&self) -> (l: MonitorLevel)
        ensures
            l == monitor_level_of(self.ping_value as nat),
    {
        let ms = self.ping_value;
        if ms == 0 {
            MonitorLevel::NoReply
        } else if ms < 100 {
            MonitorLevel::Good
        } else if ms < 200 {
            MonitorLevel::Fair
        } else {
            MonitorLevel::Poor
        }
    }

    /// The text of the latest ping reading: `"<ms> ms"`.
    pub fn ping_text(&self) -> (t: String)
        ensures
            t@ == decimal(self.ping_value as nat) + " ms"@,
    {
        u64_to_string(self.ping_value).concat(" ms")
    }
}

impl DnsSetterModel {
    /// The providers offered, in order: the five built-in ones, then a
    /// custom one with the addresses typed in.
    pub fn provider_options(&self) -> (options: Vec<DnsProvider>)
        ensures
            options@.len() == 6,
            forall|i: int| 0 <= i < 6 ==> (#[trigger] options@[i]).kind() == option_kind(i),
            forall|i: int| 0 <= i < 5 ==> (#[trigger] options@[i]).servers() == preset_servers(
                option_kind(i),
            ),
            options@[5].servers() == (self.custom_primary@, self.custom_secondary@),
    {
        let mut options: Vec<DnsProvider> = Vec::new();
        options.push(DnsProvider::electro());
        options.push(DnsProvider::radar());
        options.push(DnsProvider::shekan());
        options.push(DnsProvider::bogzar());
        options.push(DnsProvider::quad9());
        options.push(DnsProvider::custom(self.custom_primary.clone(), self.custom_secondary.clone()));
        options
    }

    /// The position of the selected provider in the list of options.
    pub fn selected_index(&self) -> (i: usize)
        ensures
            i as nat == self.selected_provider.kind().index(),
            option_kind(i as int) == self.selected_provider.kind(),
    {
        match self.selected_provider.provider_kind() {
            ProviderKind::Electro => 0,
            ProviderKind::Radar => 1,
            ProviderKind::Shekan => 2,
            ProviderKind::Bogzar => 3,
            ProviderKind::Quad9 => 4,
            ProviderKind::Custom => 5,
        }
    }

    /// Whether the option at `index` is shown as selected: it is of the
    /// same kind as the selected provider.
    pub fn is_option_selected(&self, index: usize) -> (b: bool)
        ensures
            b == (self.selected_provider.kind().index() == index),
    {
        self.selected_index() == index
    }

    /// The user picked the option at `index`: it becomes the selected
    /// provider, and the custom address window is open exactly when the
    /// custom option was picked.
    pub fn select_provider(&mut self, index: usize)
        requires
            index < 6,
        ensures
            final(self).selected_provider.kind() == option_kind(index as int),
            index < 5 ==> final(self).selected_provider.servers() == preset_servers(
                option_kind(index as int),
            ),
            index == 5 ==> final(self).selected_provider.servers() == (
                old(self).custom_primary@,
                old(self).custom_secondary@,
            ),
            final(self).show_custom_dns_window == (index == 5),
            *final(self) == (DnsSetterModel {
                selected_provider: final(self).selected_provider,
                show_custom_dns_window: index == 5,
                ..*old(self)
            }),
    {
        let mut options = self.provider_options();
        let picked = options.remove(index);
        self.selected_provider = picked;
        self.show_custom_dns_window = index == 5;
    }

    /// A selected custom provider takes the addresses typed in.
    pub fn sync_custom_provider(&mut self)
        ensures
            old(self).selected_provider.kind() == ProviderKind::Custom ==> (final(self).selected_provider.kind()
                == ProviderKind::Custom && final(self).selected_provider.servers() == (
                old(self).custom_primary@,
                old(self).custom_secondary@,
            )),
            old(self).selected_provider.kind() != ProviderKind::Custom ==> final(self).selected_provider
                == old(self).selected_provider,
            *final(self) == (DnsSetterModel {
                selected_provider: final(self).selected_provider,
                ..*old(self)
            }),
    {
        if self.selected_provider.provider_kind() == ProviderKind::Custom {
            self.selected_provider = DnsProvider::custom(
                self.custom_primary.clone(),
                self.custom_secondary.clone(),
            );
        }
    }

    /// The custom address window was drawn and is now open or closed; a
    /// selected custom provider takes the addresses typed in.
    pub fn set_custom_window_open(&mut self, open: bool)
        ensures
            final(self).show_custom_dns_window == open,
            old(self).selected_provider.kind() == ProviderKind::Custom ==> (final(self).selected_provider.kind()
                == ProviderKind::Custom && final(self).selected_provider.servers() == (
                old(self).custom_primary@,
                old(self).custom_secondary@,
            )),
            old(self).selected_provider.kind() != ProviderKind::Custom ==> final(self).selected_provider
                == old(self).selected_provider,
            *final(self) == (DnsSetterModel {
                selected_provider: final(self).selected_provider,
                show_custom_dns_window: open,
                ..*old(self)
            }),
    {
        self.show_custom_dns_window = open;
        self.sync_custom_provider();
    }

    /// Empty both custom address fields.
    pub fn clear_custom_inputs(&mut self)
        ensures
            final(self).custom_primary@.len() == 0,
            final(self).custom_secondary@.len() == 0,
            *final(self) == (DnsSetterModel {
                custom_primary: final(self).custom_primary,
                custom_secondary: final(self).custom_secondary,
                ..*old(self)
            }),
    {
        self.custom_primary = String::new();
        self.custom_secondary = String::new();
    }

    /// The operation that the set button starts: set the selected provider.
    pub fn set_operation(&self) -> (op: DnsOperation)
        ensures
            op == DnsOperation::SetDns(self.selected_provider),
    {
        DnsOperation::SetDns(self.selected_provider.clone())
    }

    /// The clear button asks for confirmation first.
    pub fn request_clear(&mut self)
        ensures
            *final(self) == (DnsSetterModel { show_clear_confirmation: true, ..*old(self) }),
    {
        self.show_clear_confirmation = true;
    }

    /// The confirmation was cancelled.
    pub fn cancel_clear(&mut self)
        ensures
            *final(self) == (DnsSetterModel { show_clear_confirmation: false, ..*old(self) }),
    {
        self.show_clear_confirmation = false;
    }

    /// The confirmation was accepted: the clear operation starts.
    pub fn confirm_clear(&mut self) -> (op: DnsOperation)
        ensures
            op == DnsOperation::Clear,
            *final(self) == (DnsSetterModel { show_clear_confirmation: false, ..*old(self) }),
    {
        self.show_clear_confirmation = false;
        DnsOperation::Clear
    }

    /// The label of the set button: `"Set <provider> DNS"`.
    pub fn set_button_label(&self) -> (label: String)
        ensures
            label@ == "Set "@ + self.selected_provider.kind().name() + " DNS"@,
    {
        String::from_str("Set ").concat(self.selected_provider.display_name()).concat(" DNS")
    }
}

/// The headline and server lines of the status card.
pub struct StatusReport {
    pub tone: Tone,
    pub headline: String,
    pub primary: Option<String>,
    pub secondary: Option<String>,
}

/// The headline shown for each DNS configuration.
pub open spec fn status_headline(state: DnsStateView) -> Seq<char> {
    match state {
        DnsStateView::Static(_) => "Static DNS Configuration 🔒"@,
        DnsStateView::Dhcp => "🔄 DHCP DNS Configuration"@,
        DnsStateView::NoDns => "❌ No DNS Configuration"@,
    }
}

/// The colour of the headline for each DNS configuration.
pub open spec fn status_tone(state: DnsStateView) -> Tone {
    match state {
        DnsStateView::Static(_) => Tone::Good,
        DnsStateView::Dhcp => Tone::Caution,
        DnsStateView::NoDns => Tone::Bad,
    }
}

/// The line that names the primary server of a static configuration.
pub open spec fn primary_line(state: DnsStateView) -> Option<Seq<char>> {
    match state {
        DnsStateView::Static(servers) => Some(
            "Primary: "@ + if servers.len() > 0 {
                servers[0]
            } else {
                "None"@
            },
        ),
        _ => None,
    }
}

/// The line that names the secondary server of a static configuration
/// with more than one server.
pub open spec fn secondary_line(state: DnsStateView) -> Option<Seq<char>> {
    match state {
        DnsStateView::Static(servers) => if servers.len() > 1 {
            Some("Secondary: "@ + servers[1])
        } else {
            None
        },
        _ => None,
    }
}

/// The line that tells how the last operation went, with its colour.
pub open spec fn state_line(state: AppStateView) -> Option<(Tone, Seq<char>)> {
    match state {
        AppStateView::Idle => None,
        AppStateView::Processing => Some((Tone::Neutral, "Processing DNS operation..."@)),
        AppStateView::Success(m) => Some((Tone::Good, "✅ "@ + m)),
        AppStateView::Error(m) => Some((Tone::Bad, "❌ "@ + m)),
        AppStateView::Warning(m) => Some((Tone::Caution, "⚠️ "@ + m)),
    }
}

/// Scale of the ping chart: the lowest reading, the highest reading but at
/// least 100, and the distance between them but at least 1.
pub struct ChartBounds {
    pub min: u64,
    pub max: u64,
    pub range: u64,
}

/// The lowest of a non-empty list of readings.
pub open spec fn min_of(s: Seq<u64>) -> nat
    decreases s.len(),
{
    if s.len() <= 1 {
        s[0] as nat
    } else {
        let m = min_of(s.drop_last());
        if s.last() < m {
            s.last() as nat
        } else {
            m
        }
    }
}

/// The highest of a non-empty list of readings.
pub open spec fn max_of(s: Seq<u64>) -> nat
    decreases s.len(),
{
    if s.len() <= 1 {
        s[0] as nat
    } else {
        let m = max_of(s.drop_last());
        if s.last() > m {
            s.last() as nat
        } else {
            m
        }
    }
}

/// The lowest and the highest of a non-empty list of readings are readings
/// of the list, and every reading lies between them.
pub proof fn law_min_max_are_extremes(s: Seq<u64>)
    requires
        s.len() > 0,
    ensures
        forall|i: int| 0 <= i < s.len() ==> min_of(s) <= #[trigger] s[i] && s[i] <= max_of(s),
        exists|i: int| 0 <= i < s.len() && #[trigger] s[i] == min_of(s),
        exists|j: int| 0 <= j < s.len() && #[trigger] s[j] == max_of(s),
    decreases s.len(),
{
    if s.len() == 1 {
        assert(s[0] == min_of(s));
        assert(s[0] == max_of(s));
    } else {
        let init = s.drop_last();
        law_min_max_are_extremes(init);
        let lo = choose|i: int| 0 <= i < init.len() && #[trigger] init[i] == min_of(init);
        let hi = choose|j: int| 0 <= j < init.len() && #[trigger] init[j] == max_of(init);
        assert forall|i: int| 0 <= i < s.len() implies min_of(s) <= #[trigger] s[i] && s[i]
            <= max_of(s) by {
            if i < s.len() - 1 {
                assert(s[i] == init[i]);
            }
        }
        if s.last() < min_of(init) {
            assert(s[s.len() - 1] == min_of(s));
        } else {
            assert(s[lo] == init[lo]);
        }
        if s.last() > max_of(init) {
            assert(s[s.len() - 1] == max_of(s));
        } else {
            assert(s[hi] == init[hi]);
        }
    }
}

impl DnsSetterModel {
    /// The status card for the DNS configuration held.
    pub fn status_report(&self) -> (r: StatusReport)
        ensures
            r.tone == status_tone(self.dns_state@),
            r.headline@ == status_headline(self.dns_state@),
            optional_text(r.primary) == primary_line(self.dns_state@),
            optional_text(r.secondary) == secondary_line(self.dns_state@),
            r.primary is Some <==> self.dns_state@ is Static,
            r.secondary is Some <==> match self.dns_state@ {
                DnsStateView::Static(servers) => servers.len() > 1,
                _ => false,
            },
    {
        match &self.dns_state {
            DnsState::Static(servers) => {
                let first = if servers.len() > 0 {
                    String::from_str("Primary: ").concat(servers[0].as_str())
                } else {
                    String::from_str("Primary: None")
                };
                proof {
                    reveal_strlit("Primary: ");
                    reveal_strlit("None");
                    reveal_strlit("Primary: None");
                    assert(servers.len() == 0 ==> first@ =~= "Primary: "@ + "None"@);
                }
                let second = if servers.len() > 1 {
                    Some(String::from_str("Secondary: ").concat(servers[1].as_str()))
                } else {
                    None
                };
                StatusReport {
                    tone: Tone::Good,
                    headline: String::from_str("Static DNS Configuration 🔒"),
                    primary: Some(first),
                    secondary: second,
                }
            },
            DnsState::Dhcp => StatusReport {
                tone: Tone::Caution,
                headline: String::from_str("🔄 DHCP DNS Configuration"),
                primary: None,
                secondary: None,
            },
            DnsState::NoDns => StatusReport {
                tone: Tone::Bad,
                headline: String::from_str("❌ No DNS Configuration"),
                primary: None,
                secondary: None,
            },
        }
    }

    /// The line that tells how the last operation went.
    pub fn app_state_line(&self) -> (line: Option<(Tone, String)>)
        ensures
            match line {
                Some((t, text)) => state_line(self.app_state@) == Some((t, text@)),
                None => state_line(self.app_state@) is None,
            },
    {
        match &self.app_state {
            AppState::Idle => None,
            AppState::Processing => Some(
                (Tone::Neutral, String::from_str("Processing DNS operation...")),
            ),
            AppState::Success(m) => Some((Tone::Good, String::from_str("✅ ").concat(m.as_str()))),
            AppState::Error(m) => Some((Tone::Bad, String::from_str("❌ ").concat(m.as_str()))),
            AppState::Warning(m) => Some(
                (Tone::Caution, String::from_str("⚠️ ").concat(m.as_str())),
            ),
        }
    }

    /// The scale of the ping chart, or `None` while there is no reading.
    pub fn chart_bounds(&self) -> (b: Option<ChartBounds>)
        ensures
            match b {
                Some(c) => {
                    &&& self.ping_history@.len() > 0
                    &&& c.min == min_of(self.ping_history@)
                    &&& c.max == if max_of(self.ping_history@) < 100 {
                        100
                    } else {
                        max_of(self.ping_history@)
                    }
                    &&& c.range == if c.max - c.min < 1 {
                        1
                    } else {
                        c.max - c.min
                    }
                },
                None => self.ping_history@.len() == 0,
            },
            b matches Some(c) ==> {
                &&& forall|i: int|
                    0 <= i < self.ping_history@.len() ==> c.min <= #[trigger] self.ping_history@[i]
                        && self.ping_history@[i] <= c.max
                &&& exists|i: int|
                    0 <= i < self.ping_history@.len() && #[trigger] self.ping_history@[i] == c.min
                &&& c.max >= 100
                &&& (c.max == 100 || exists|j: int|
                    0 <= j < self.ping_history@.len() && #[trigger] self.ping_history@[j] == c.max)
                &&& c.range >= 1
                &&& c.min + c.range >= c.max
            },
    {
        let h = &self.ping_history;
        if h.len() == 0 {
            return None;
        }
        let mut lo = h[0];
        let mut hi = h[0];
        let mut i: usize = 1;
        assert(h@.take(1) =~= seq![h@[0]]);
        while i < h.len()
            invariant
                1 <= i <= h@.len(),
                lo as nat == min_of(h@.take(i as int)),
                hi as nat == max_of(h@.take(i as int)),
                lo <= hi,
            decreases h@.len() - i,
        {
            assert(h@.take(i + 1).drop_last() =~= h@.take(i as int));
            assert(h@.take(i + 1).last() == h@[i as int]);
            if h[i] < lo {
                lo = h[i];
            }
            if h[i] > hi {
                hi = h[i];
            }
            i = i + 1;
        }
        assert(h@.take(i as int) =~= h@);
        proof {
            law_min_max_are_extremes(h@);
        }
        let top = if hi < 100 {
            100
        } else {
            hi
        };
        let range = if top - lo < 1 {
            1
        } else {
            top - lo
        };
        Some(ChartBounds { min: lo, max: top, range })
    }
}

/// The status card names a secondary server exactly when the static
/// configuration holds two servers or more, and then it is the second one;
/// it names a primary server for every static configuration, the first
/// one where there is one. A configuration of one server shows no secondary
/// line.
pub proof fn law_secondary_line_needs_two_servers(servers: Seq<Seq<char>>, state: DnsStateView)
    ensures
        secondary_line(DnsStateView::Static(servers)) is Some <==> servers.len() > 1,
        servers.len() > 1 ==> secondary_line(DnsStateView::Static(servers)) == Some(
            "Secondary: "@ + servers[1],
        ),
        servers.len() > 0 ==> primary_line(DnsStateView::Static(servers)) == Some(
            "Primary: "@ + servers[0],
        ),
        secondary_line(state) is Some ==> primary_line(state) is Some,
        !(state is Static) ==> secondary_line(state) is None && primary_line(state) is None,
        servers.len() == 1 && !contains_text(servers[0], "dhcp"@) ==> secondary_line(
            dns_state_of(servers),
        ) is None && primary_line(dns_state_of(servers)) == Some("Primary: "@ + servers[0]),
{
}

/// The list of options and the position of the selected provider agree:
/// the option at position `i` is of the kind whose position is `i`, and the
/// other way round. Picking option `i` therefore shows option `i` as the
/// one selected.
pub proof fn law_option_positions(i: int, kind: ProviderKind)
    ensures
        0 <= i < 6 ==> option_kind(i).index() == i,
        option_kind(kind.index() as int) == kind,
{
}

/// After servers were read, the status card shows the first of them as the
/// primary server of a static configuration, and the second one, if there
/// is one, as the secondary server; with no server it shows that there is no
/// configuration.
pub proof fn law_status_shows_servers_read(dns: Seq<Seq<char>>)
    ensures
        dns.len() == 0 ==> status_tone(dns_state_of(dns)) == Tone::Bad && primary_line(
            dns_state_of(dns),
        ) is None,
        dns.len() > 0 && !(dns.len() == 1 && contains_text(dns[0], "dhcp"@)) ==> primary_line(
            dns_state_of(dns),
        ) == Some("Primary: "@ + dns[0]) && status_tone(dns_state_of(dns)) == Tone::Good,
        dns.len() > 1 ==> secondary_line(dns_state_of(dns)) == Some("Secondary: "@ + dns[1]),
{
}

} // verus!
