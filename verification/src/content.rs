use vstd::prelude::*;

use crate::files::{export_file_name, spec_export_file_name};
use crate::msg::{opt_str_view, power_states_configured, route_action, routes_to, ContentAction, ContentRoute, UiCommand};
use crate::startup::{embedded_info_text, spec_embedded_info_text};

verus! {

/// What the main view shows first.
#[derive(Debug, Clone, Copy, PartialEq, Eq, Structural)]
pub enum FirstData {
    /// Show the data of the first GPU, fetched while loading.
    InitialGpuData,
    /// No GPU data was fetched: ask for a full reload.
    ReloadFull,
}

/// How the main view starts.
#[derive(Debug, Clone, PartialEq, Eq)]
pub struct ContentStart {
    /// The notice to show, when the GUI could not reach the daemon and runs
    /// its own.
    pub embedded_notice: Option<String>,
    pub first: FirstData,
}

/// How the main view starts, given whether the first GPU's data was fetched
/// and the connection error, if the daemon could not be reached.
pub fn content_start(has_initial_gpu_data: bool, connection_error: Option<&str>) -> (r: ContentStart)
    ensures
        r.first == (if has_initial_gpu_data {
            FirstData::InitialGpuData
        } else {
            FirstData::ReloadFull
        }),
        connection_error is None <==> r.embedded_notice is None,
        connection_error matches Some(e) ==> r.embedded_notice matches Some(n) && n@
            == spec_embedded_info_text(e@),
{
    let embedded_notice = match connection_error {
        Some(e) => Some(embedded_info_text(e)),
        None => None,
    };
    let first = if has_initial_gpu_data {
        FirstData::InitialGpuData
    } else {
        FirstData::ReloadFull
    };
    ContentStart { embedded_notice, first }
}

/// Which part of a GPU's data a page update carries.
#[derive(Debug, Clone, Copy, PartialEq, Eq, Structural)]
pub enum UpdateKind {
    Info,
    Stats,
}

/// One message that the main view hands to a page or window.
#[derive(Debug, Clone, Copy, PartialEq, Eq, Structural)]
pub enum Delivery {
    InfoPage(UpdateKind),
    /// The overclocking page; `initial` when it comes with a full load.
    OcPage { kind: UpdateKind, initial: bool },
    ThermalsPage { kind: UpdateKind, initial: bool },
    SoftwarePageDeviceInfo,
    HeaderDeviceInfo,
    GraphsVramClockRatio,
    GraphsStats,
    OcClocksTable,
    OcProfileModes,
    /// The power states, and whether the stored configuration configures some.
    OcPowerStates { configured: bool },
    /// Make the pages sensitive again.
    EnableUi,
}

/// Which parts a GPU data update holds; `configured_power_states` is the
/// number of configured power state kinds of the stored configuration,
/// `None` when there is none.
#[derive(Debug, Clone, Copy, PartialEq, Eq, Structural)]
pub struct GpuDataParts {
    pub has_info: bool,
    pub has_stats: bool,
    pub has_clocks_table: bool,
    pub has_profile_modes: bool,
    pub has_power_states: bool,
    pub configured_power_states: Option<usize>,
}

/// The messages for a stats update.
pub open spec fn spec_stats_deliveries() -> Seq<Delivery> {
    seq![
        Delivery::OcPage { kind: UpdateKind::Stats, initial: false },
        Delivery::ThermalsPage { kind: UpdateKind::Stats, initial: false },
        Delivery::GraphsStats,
    ]
}

pub open spec fn info_deliveries() -> Seq<Delivery> {
    seq![
        Delivery::InfoPage(UpdateKind::Info),
        Delivery::OcPage { kind: UpdateKind::Info, initial: true },
        Delivery::SoftwarePageDeviceInfo,
        Delivery::HeaderDeviceInfo,
        Delivery::ThermalsPage { kind: UpdateKind::Info, initial: true },
        Delivery::GraphsVramClockRatio,
    ]
}

pub open spec fn full_stats_deliveries() -> Seq<Delivery> {
    seq![
        Delivery::InfoPage(UpdateKind::Stats),
        Delivery::ThermalsPage { kind: UpdateKind::Stats, initial: true },
        Delivery::OcPage { kind: UpdateKind::Stats, initial: true },
        Delivery::GraphsStats,
    ]
}

/// `s` when `b` holds, else nothing.
pub open spec fn when(b: bool, s: Seq<Delivery>) -> Seq<Delivery> {
    if b {
        s
    } else {
        Seq::empty()
    }
}

/// The messages for a GPU data update holding `p`, in order: the info to
/// every page that shows it, the stats as a full load, the clocks table,
/// the power profile modes and the power states where they came, and last
/// the pages made sensitive.
pub open spec fn spec_gpu_data_deliveries(p: GpuDataParts) -> Seq<Delivery> {
    when(p.has_info, info_deliveries()) + when(p.has_stats, full_stats_deliveries()) + when(
        p.has_clocks_table,
        seq![Delivery::OcClocksTable],
    ) + when(p.has_profile_modes, seq![Delivery::OcProfileModes]) + when(
        p.has_power_states,
        seq![
            Delivery::OcPowerStates {
                configured: p.configured_power_states matches Some(n) && n > 0,
            },
        ],
    ) + seq![Delivery::EnableUi]
}

proof fn lemma_concat_contains(a: Seq<Delivery>, b: Seq<Delivery>, x: Delivery)
    ensures
        (a + b).contains(x) <==> a.contains(x) || b.contains(x),
{
    if a.contains(x) {
        let i = choose|i: int| 0 <= i < a.len() && a[i] == x;
        assert((a + b)[i] == x);
    }
    if b.contains(x) {
        let i = choose|i: int| 0 <= i < b.len() && b[i] == x;
        assert((a + b)[a.len() + i] == x);
    }
    if (a + b).contains(x) {
        let i = choose|i: int| 0 <= i < (a + b).len() && (a + b)[i] == x;
        if i < a.len() {
            assert(a[i] == x);
        } else {
            assert(b[i - a.len()] == x);
        }
    }
}

proof fn lemma_one_contains(y: Delivery, x: Delivery)
    ensures
        seq![y].contains(x) <==> x == y,
{
    if x == y {
        assert(seq![y][0] == x);
    }
}

proof fn lemma_info_contains(x: Delivery)
    ensures
        info_deliveries().contains(x) <==> (x == Delivery::InfoPage(UpdateKind::Info) || x == (Delivery::OcPage {
            kind: UpdateKind::Info,
            initial: true,
        }) || x == Delivery::SoftwarePageDeviceInfo || x == Delivery::HeaderDeviceInfo || x == (
        Delivery::ThermalsPage { kind: UpdateKind::Info, initial: true }) || x == Delivery::GraphsVramClockRatio),
{
    let s = info_deliveries();
    if s.contains(x) {
        let i = choose|i: int| 0 <= i < s.len() && s[i] == x;
        assert(i == 0 || i == 1 || i == 2 || i == 3 || i == 4 || i == 5);
    }
    if x == Delivery::InfoPage(UpdateKind::Info) { assert(s[0] == x); }
    if x == (Delivery::OcPage { kind: UpdateKind::Info, initial: true }) { assert(s[1] == x); }
    if x == Delivery::SoftwarePageDeviceInfo { assert(s[2] == x); }
    if x == Delivery::HeaderDeviceInfo { assert(s[3] == x); }
    if x == (Delivery::ThermalsPage { kind: UpdateKind::Info, initial: true }) { assert(s[4] == x); }
    if x == Delivery::GraphsVramClockRatio { assert(s[5] == x); }
}

proof fn lemma_full_stats_contains(x: Delivery)
    ensures
        full_stats_deliveries().contains(x) <==> (x == Delivery::InfoPage(UpdateKind::Stats) || x == (
        Delivery::ThermalsPage { kind: UpdateKind::Stats, initial: true }) || x == (Delivery::OcPage {
            kind: UpdateKind::Stats,
            initial: true,
        }) || x == Delivery::GraphsStats),
{
    let s = full_stats_deliveries();
    if s.contains(x) {
        let i = choose|i: int| 0 <= i < s.len() && s[i] == x;
        assert(i == 0 || i == 1 || i == 2 || i == 3);
    }
    if x == Delivery::InfoPage(UpdateKind::Stats) { assert(s[0] == x); }
    if x == (Delivery::ThermalsPage { kind: UpdateKind::Stats, initial: true }) { assert(s[1] == x); }
    if x == (Delivery::OcPage { kind: UpdateKind::Stats, initial: true }) { assert(s[2] == x); }
    if x == Delivery::GraphsStats { assert(s[3] == x); }
}

/// Which messages a GPU data update gives: the info goes to the info,
/// overclocking, software and thermals pages, the header and the graphs
/// exactly when the update holds info; the stats to the info, thermals and
/// overclocking pages and the graphs exactly when it holds stats, as a full
/// load; the clocks table, the power profile modes and the power states
/// exactly when it holds them, the power states marked configured exactly
/// when the stored configuration configures some; no message of a GPU data
/// update is a partial load; and the pages are made sensitive last.
pub proof fn lemma_gpu_data_deliveries(p: GpuDataParts, x: Delivery)
    ensures
        spec_gpu_data_deliveries(p).last() == Delivery::EnableUi,
        spec_gpu_data_deliveries(p).contains(Delivery::InfoPage(UpdateKind::Info)) <==> p.has_info,
        spec_gpu_data_deliveries(p).contains(Delivery::HeaderDeviceInfo) <==> p.has_info,
        spec_gpu_data_deliveries(p).contains(Delivery::SoftwarePageDeviceInfo) <==> p.has_info,
        spec_gpu_data_deliveries(p).contains(Delivery::GraphsVramClockRatio) <==> p.has_info,
        spec_gpu_data_deliveries(p).contains(Delivery::OcPage { kind: UpdateKind::Info, initial: true })
            <==> p.has_info,
        spec_gpu_data_deliveries(p).contains(Delivery::ThermalsPage { kind: UpdateKind::Info, initial: true })
            <==> p.has_info,
        spec_gpu_data_deliveries(p).contains(Delivery::InfoPage(UpdateKind::Stats)) <==> p.has_stats,
        spec_gpu_data_deliveries(p).contains(Delivery::GraphsStats) <==> p.has_stats,
        spec_gpu_data_deliveries(p).contains(Delivery::OcPage { kind: UpdateKind::Stats, initial: true })
            <==> p.has_stats,
        spec_gpu_data_deliveries(p).contains(Delivery::ThermalsPage { kind: UpdateKind::Stats, initial: true })
            <==> p.has_stats,
        spec_gpu_data_deliveries(p).contains(Delivery::OcClocksTable) <==> p.has_clocks_table,
        spec_gpu_data_deliveries(p).contains(Delivery::OcProfileModes) <==> p.has_profile_modes,
        x is OcPowerStates ==> (spec_gpu_data_deliveries(p).contains(x) <==> (p.has_power_states
            && x->OcPowerStates_configured == (p.configured_power_states matches Some(n) && n > 0))),
        (x matches Delivery::OcPage { initial: false, .. }) || (x matches Delivery::ThermalsPage {
            initial: false,
            ..
        }) ==> !spec_gpu_data_deliveries(p).contains(x),
{
    lemma_gpu_data_contains(p, x);
    lemma_gpu_data_contains(p, Delivery::InfoPage(UpdateKind::Info));
    lemma_gpu_data_contains(p, Delivery::HeaderDeviceInfo);
    lemma_gpu_data_contains(p, Delivery::SoftwarePageDeviceInfo);
    lemma_gpu_data_contains(p, Delivery::GraphsVramClockRatio);
    lemma_gpu_data_contains(p, Delivery::OcPage { kind: UpdateKind::Info, initial: true });
    lemma_gpu_data_contains(p, Delivery::ThermalsPage { kind: UpdateKind::Info, initial: true });
    lemma_gpu_data_contains(p, Delivery::InfoPage(UpdateKind::Stats));
    lemma_gpu_data_contains(p, Delivery::GraphsStats);
    lemma_gpu_data_contains(p, Delivery::OcPage { kind: UpdateKind::Stats, initial: true });
    lemma_gpu_data_contains(p, Delivery::ThermalsPage { kind: UpdateKind::Stats, initial: true });
    lemma_gpu_data_contains(p, Delivery::OcClocksTable);
    lemma_gpu_data_contains(p, Delivery::OcProfileModes);
}

proof fn lemma_gpu_data_contains(p: GpuDataParts, x: Delivery)
    ensures
        spec_gpu_data_deliveries(p).last() == Delivery::EnableUi,
        spec_gpu_data_deliveries(p).contains(x) <==> {
            ||| p.has_info && info_deliveries().contains(x)
            ||| p.has_stats && full_stats_deliveries().contains(x)
            ||| p.has_clocks_table && x == Delivery::OcClocksTable
            ||| p.has_profile_modes && x == Delivery::OcProfileModes
            ||| p.has_power_states && x == (Delivery::OcPowerStates {
                configured: p.configured_power_states matches Some(n) && n > 0,
            })
            ||| x == Delivery::EnableUi
        },
        info_deliveries().contains(x) <==> (x == Delivery::InfoPage(UpdateKind::Info) || x == (Delivery::OcPage {
            kind: UpdateKind::Info,
            initial: true,
        }) || x == Delivery::SoftwarePageDeviceInfo || x == Delivery::HeaderDeviceInfo || x == (
        Delivery::ThermalsPage { kind: UpdateKind::Info, initial: true }) || x == Delivery::GraphsVramClockRatio),
        full_stats_deliveries().contains(x) <==> (x == Delivery::InfoPage(UpdateKind::Stats) || x == (
        Delivery::ThermalsPage { kind: UpdateKind::Stats, initial: true }) || x == (Delivery::OcPage {
            kind: UpdateKind::Stats,
            initial: true,
        }) || x == Delivery::GraphsStats),
{
    lemma_info_contains(x);
    lemma_full_stats_contains(x);
    let a = when(p.has_info, info_deliveries());
    let b = when(p.has_stats, full_stats_deliveries());
    let c = when(p.has_clocks_table, seq![Delivery::OcClocksTable]);
    let d = when(p.has_profile_modes, seq![Delivery::OcProfileModes]);
    let ps = Delivery::OcPowerStates { configured: p.configured_power_states matches Some(n) && n > 0 };
    let e = when(p.has_power_states, seq![ps]);
    let f = seq![Delivery::EnableUi];
    assert(spec_gpu_data_deliveries(p) == a + b + c + d + e + f);
    lemma_concat_contains(a + b + c + d + e, f, x);
    lemma_concat_contains(a + b + c + d, e, x);
    lemma_concat_contains(a + b + c, d, x);
    lemma_concat_contains(a + b, c, x);
    lemma_concat_contains(a, b, x);
    lemma_one_contains(Delivery::EnableUi, x);
    lemma_one_contains(Delivery::OcClocksTable, x);
    lemma_one_contains(Delivery::OcProfileModes, x);
    lemma_one_contains(ps, x);
    assert(Seq::<Delivery>::empty().contains(x) == false);
}

/// The messages that the main view hands on for a stats update.
pub fn stats_deliveries() -> (r: Vec<Delivery>)
    ensures
        r@ == spec_stats_deliveries(),
{
    let r = vec![
        Delivery::OcPage { kind: UpdateKind::Stats, initial: false },
        Delivery::ThermalsPage { kind: UpdateKind::Stats, initial: false },
        Delivery::GraphsStats,
    ];
    assert(r@ =~= spec_stats_deliveries());
    r
}

/// The messages that the main view hands on for a GPU data update.
pub fn gpu_data_deliveries(p: GpuDataParts) -> (r: Vec<Delivery>)
    ensures
        r@ == spec_gpu_data_deliveries(p),
{
    let mut r: Vec<Delivery> = Vec::new();
    if p.has_info {
        r.push(Delivery::InfoPage(UpdateKind::Info));
        r.push(Delivery::OcPage { kind: UpdateKind::Info, initial: true });
        r.push(Delivery::SoftwarePageDeviceInfo);
        r.push(Delivery::HeaderDeviceInfo);
        r.push(Delivery::ThermalsPage { kind: UpdateKind::Info, initial: true });
        r.push(Delivery::GraphsVramClockRatio);
    }
    assert(r@ =~= when(p.has_info, info_deliveries()));
    let ghost a = r@;
    if p.has_stats {
        r.push(Delivery::InfoPage(UpdateKind::Stats));
        r.push(Delivery::ThermalsPage { kind: UpdateKind::Stats, initial: true });
        r.push(Delivery::OcPage { kind: UpdateKind::Stats, initial: true });
        r.push(Delivery::GraphsStats);
    }
    assert(r@ =~= a + when(p.has_stats, full_stats_deliveries()));
    let ghost b = r@;
    if p.has_clocks_table {
        r.push(Delivery::OcClocksTable);
    }
    assert(r@ =~= b + when(p.has_clocks_table, seq![Delivery::OcClocksTable]));
    let ghost c = r@;
    if p.has_profile_modes {
        r.push(Delivery::OcProfileModes);
    }
    assert(r@ =~= c + when(p.has_profile_modes, seq![Delivery::OcProfileModes]));
    let ghost d = r@;
    if p.has_power_states {
        let configured = power_states_configured(p.configured_power_states);
        r.push(Delivery::OcPowerStates { configured });
    }
    assert(r@ =~= d + when(
        p.has_power_states,
        seq![
            Delivery::OcPowerStates {
                configured: p.configured_power_states matches Some(n) && n > 0,
            },
        ],
    ));
    let ghost e = r@;
    r.push(Delivery::EnableUi);
    assert(r@ =~= e + seq![Delivery::EnableUi]);
    r
}

/// A message to the main view, reduced to what decides its handling.
#[derive(Debug, Clone, PartialEq, Eq)]
pub enum ContentMsg {
    /// An error from a page or a background command.
    Error,
    LoadingStatus,
    Stats,
    Profiles,
    ProcessList,
    GpuDataUpdate(GpuDataParts),
    Ui(UiCommand),
    Action(ContentAction),
    /// Show the crash page.
    Crash,
    /// Export a profile, of this name (`None` for the default profile).
    ExportProfileData { profile_name: Option<String> },
}

/// How the main view handles a message.
#[derive(Debug, Clone, PartialEq, Eq)]
pub enum ContentMsgRoute {
    /// Hand the error back unchanged: the main view shows it.
    ShowError,
    /// Nothing (a loading text is only logged).
    Nothing,
    /// Hand these messages to the pages, in order.
    Deliver(Vec<Delivery>),
    /// Give the profiles to the header.
    HeaderProfiles,
    /// Give the process list to the process monitor.
    ProcessMonitorData,
    Ui(UiCommand),
    Action(ContentRoute),
    /// Make the header and the apply bar insensitive, the pages sensitive,
    /// and show the crash page.
    ShowCrashPage,
    /// Open the save dialog for the profile, offering this file name.
    OfferExport(String),
}

/// How the main view handles `msg` when `selected_gpu_id` is the GPU picked
/// in the header.
pub fn route_content_msg(msg: ContentMsg, selected_gpu_id: Option<&str>) -> (r: ContentMsgRoute)
    ensures
        match msg {
            ContentMsg::Error => r == ContentMsgRoute::ShowError,
            ContentMsg::LoadingStatus => r == ContentMsgRoute::Nothing,
            ContentMsg::Stats => r matches ContentMsgRoute::Deliver(d) && d@ == spec_stats_deliveries(),
            ContentMsg::Profiles => r == ContentMsgRoute::HeaderProfiles,
            ContentMsg::ProcessList => r == ContentMsgRoute::ProcessMonitorData,
            ContentMsg::GpuDataUpdate(p) => r matches ContentMsgRoute::Deliver(d) && d@
                == spec_gpu_data_deliveries(p),
            ContentMsg::Ui(c) => r == ContentMsgRoute::Ui(c),
            ContentMsg::Action(a) => r matches ContentMsgRoute::Action(route) && routes_to(
                a,
                opt_str_view(selected_gpu_id),
                route,
            ),
            ContentMsg::Crash => r == ContentMsgRoute::ShowCrashPage,
            ContentMsg::ExportProfileData { profile_name } => r matches ContentMsgRoute::OfferExport(f)
                && f@ == spec_export_file_name(
                match profile_name {
                    Some(n) => Some(n@),
                    None => None,
                },
            ),
        },
{
    match msg {
        ContentMsg::Error => ContentMsgRoute::ShowError,
        ContentMsg::LoadingStatus => ContentMsgRoute::Nothing,
        ContentMsg::Stats => ContentMsgRoute::Deliver(stats_deliveries()),
        ContentMsg::Profiles => ContentMsgRoute::HeaderProfiles,
        ContentMsg::ProcessList => ContentMsgRoute::ProcessMonitorData,
        ContentMsg::GpuDataUpdate(p) => ContentMsgRoute::Deliver(gpu_data_deliveries(p)),
        ContentMsg::Ui(c) => ContentMsgRoute::Ui(c),
        ContentMsg::Action(a) => ContentMsgRoute::Action(route_action(a, selected_gpu_id)),
        ContentMsg::Crash => ContentMsgRoute::ShowCrashPage,
        ContentMsg::ExportProfileData { profile_name } => match &profile_name {
            Some(n) => ContentMsgRoute::OfferExport(export_file_name(Some(n.as_str()))),
            None => ContentMsgRoute::OfferExport(export_file_name(None)),
        },
    }
}

} // verus!
