use vstd::prelude::*;

verus! {

/// Which failed connection attempt the main view is told of.
#[derive(Debug, Clone, Copy, PartialEq, Eq, Structural)]
pub enum ConnectionError {
    /// The remote daemon given by address could not be reached.
    Tcp,
    /// The local daemon socket could not be reached, so an embedded daemon runs.
    Socket,
}

/// Where the loading of the main window stands.
#[derive(Debug, Clone, PartialEq, Eq)]
pub enum LoadingStage {
    /// Connecting to the daemon at the given address.
    ConnectingTcp,
    /// Connecting to the local daemon, or starting an embedded one;
    /// `tcp_failed` when the remote daemon could not be reached before.
    ConnectingLocal { tcp_failed: bool },
    FetchingSystemInfo,
    ListingDevices,
    /// Fetching the data of the first GPU.
    FetchingGpuData(String),
    ListingProfiles,
    /// Everything is fetched.
    Loaded,
    /// Loading failed.
    Failed,
}

/// What happened to the request under way.
#[derive(Debug, Clone, PartialEq, Eq)]
pub enum LoadingEvent {
    TcpConnected,
    TcpFailed,
    /// The local daemon answered.
    SocketConnected,
    /// The local daemon did not answer; an embedded one was started.
    EmbeddedStarted,
    /// Neither the local daemon nor an embedded one could be had.
    LocalFailed,
    SystemInfoFetched,
    /// The GPUs were listed; the id of the first, if there is one.
    DevicesListed { first_gpu_id: Option<String> },
    GpuDataFetched,
    ProfilesListed,
    /// A request to the daemon failed.
    RequestFailed,
}

/// What the main window does next while loading.
#[derive(Debug, Clone, PartialEq, Eq)]
pub enum LoadingAction {
    ConnectTcp,
    ConnectLocal,
    FetchSystemInfo,
    ListDevices,
    FetchGpuData(String),
    ListProfiles,
    /// Loading is done: hand over the data, with the first GPU's id and the
    /// connection error to tell of.
    Loaded { initial_gpu_id: Option<String>, connection_error: Option<ConnectionError> },
    /// Loading failed: show the error of the request.
    Fail,
    /// The event does not belong to the request under way.
    Ignore,
}

/// The loading of the main window.
#[derive(Debug, Clone, PartialEq, Eq)]
pub struct LoadingState {
    pub stage: LoadingStage,
    pub connection_error: Option<ConnectionError>,
    pub initial_gpu_id: Option<String>,
}

/// The loading state at the start, given whether a daemon address was given.
pub open spec fn spec_loading_start(has_tcp_address: bool) -> (LoadingState, LoadingAction) {
    if has_tcp_address {
        (
            LoadingState { stage: LoadingStage::ConnectingTcp, connection_error: None, initial_gpu_id: None },
            LoadingAction::ConnectTcp,
        )
    } else {
        (
            LoadingState {
                stage: LoadingStage::ConnectingLocal { tcp_failed: false },
                connection_error: None,
                initial_gpu_id: None,
            },
            LoadingAction::ConnectLocal,
        )
    }
}

/// The state after `e` in state `s`, and what to do then.
pub open spec fn spec_loading_step(s: LoadingState, e: LoadingEvent) -> (LoadingState, LoadingAction) {
    let failed = LoadingState { stage: LoadingStage::Failed, ..s };
    let ignore = (s, LoadingAction::Ignore);
    let fetch = |err: Option<ConnectionError>|
        (
            LoadingState { stage: LoadingStage::FetchingSystemInfo, connection_error: err, ..s },
            LoadingAction::FetchSystemInfo,
        );
    match s.stage {
        LoadingStage::ConnectingTcp => match e {
            LoadingEvent::TcpConnected => fetch(None),
            LoadingEvent::TcpFailed => (
                LoadingState { stage: LoadingStage::ConnectingLocal { tcp_failed: true }, ..s },
                LoadingAction::ConnectLocal,
            ),
            _ => ignore,
        },
        LoadingStage::ConnectingLocal { tcp_failed } => match e {
            LoadingEvent::SocketConnected => fetch(
                if tcp_failed {
                    Some(ConnectionError::Tcp)
                } else {
                    None
                },
            ),
            LoadingEvent::EmbeddedStarted => fetch(
                if tcp_failed {
                    Some(ConnectionError::Tcp)
                } else {
                    Some(ConnectionError::Socket)
                },
            ),
            LoadingEvent::LocalFailed => (failed, LoadingAction::Fail),
            _ => ignore,
        },
        LoadingStage::FetchingSystemInfo => match e {
            LoadingEvent::SystemInfoFetched => (
                LoadingState { stage: LoadingStage::ListingDevices, ..s },
                LoadingAction::ListDevices,
            ),
            LoadingEvent::RequestFailed => (failed, LoadingAction::Fail),
            _ => ignore,
        },
        LoadingStage::ListingDevices => match e {
            LoadingEvent::DevicesListed { first_gpu_id } => match first_gpu_id {
                Some(id) => (
                    LoadingState { stage: LoadingStage::FetchingGpuData(id), ..s },
                    LoadingAction::FetchGpuData(id),
                ),
                None => (
                    LoadingState { stage: LoadingStage::ListingProfiles, ..s },
                    LoadingAction::ListProfiles,
                ),
            },
            LoadingEvent::RequestFailed => (failed, LoadingAction::Fail),
            _ => ignore,
        },
        LoadingStage::FetchingGpuData(id) => match e {
            LoadingEvent::GpuDataFetched => (
                LoadingState { stage: LoadingStage::ListingProfiles, initial_gpu_id: Some(id), ..s },
                LoadingAction::ListProfiles,
            ),
            LoadingEvent::RequestFailed => (failed, LoadingAction::Fail),
            _ => ignore,
        },
        LoadingStage::ListingProfiles => match e {
            LoadingEvent::ProfilesListed => (
                LoadingState { stage: LoadingStage::Loaded, ..s },
                LoadingAction::Loaded { initial_gpu_id: s.initial_gpu_id, connection_error: s.connection_error },
            ),
            LoadingEvent::RequestFailed => (failed, LoadingAction::Fail),
            _ => ignore,
        },
        _ => ignore,
    }
}

/// How far along loading is.
pub open spec fn stage_rank(s: LoadingStage) -> int {
    match s {
        LoadingStage::ConnectingTcp => 0,
        LoadingStage::ConnectingLocal { .. } => 1,
        LoadingStage::FetchingSystemInfo => 2,
        LoadingStage::ListingDevices => 3,
        LoadingStage::FetchingGpuData(_) => 4,
        LoadingStage::ListingProfiles => 5,
        _ => 6,
    }
}

impl LoadingState {
    /// Starts loading: at the given daemon address if there is one, else at
    /// the local daemon.
    pub fn start(has_tcp_address: bool) -> (r: (LoadingState, LoadingAction))
        ensures
            r == spec_loading_start(has_tcp_address),
    {
        if has_tcp_address {
            (
                LoadingState { stage: LoadingStage::ConnectingTcp, connection_error: None, initial_gpu_id: None },
                LoadingAction::ConnectTcp,
            )
        } else {
            (
                LoadingState {
                    stage: LoadingStage::ConnectingLocal { tcp_failed: false },
                    connection_error: None,
                    initial_gpu_id: None,
                },
                LoadingAction::ConnectLocal,
            )
        }
    }

    /// Takes the outcome of the request under way: a failed remote
    /// connection falls back to the local daemon, and the main view is then
    /// told of the remote failure; a local daemon that cannot be reached is
    /// replaced by an embedded one, of which the main view is told; then the
    /// system info, the GPUs, the first GPU's data (where there is a GPU)
    /// and the profiles are fetched in turn, and any failure ends loading.
    pub fn step(&mut self, e: LoadingEvent) -> (r: LoadingAction)
        ensures
            (*final(self), r) == spec_loading_step(*old(self), e),
    {
        match &self.stage {
            LoadingStage::ConnectingTcp => match e {
                LoadingEvent::TcpConnected => {
                    self.stage = LoadingStage::FetchingSystemInfo;
                    self.connection_error = None;
                    LoadingAction::FetchSystemInfo
                },
                LoadingEvent::TcpFailed => {
                    self.stage = LoadingStage::ConnectingLocal { tcp_failed: true };
                    LoadingAction::ConnectLocal
                },
                _ => LoadingAction::Ignore,
            },
            LoadingStage::ConnectingLocal { tcp_failed } => {
                let tcp_failed: bool = *tcp_failed;
                match e {
                    LoadingEvent::SocketConnected => {
                        self.stage = LoadingStage::FetchingSystemInfo;
                        self.connection_error = if tcp_failed {
                            Some(ConnectionError::Tcp)
                        } else {
                            None
                        };
                        LoadingAction::FetchSystemInfo
                    },
                    LoadingEvent::EmbeddedStarted => {
                        self.stage = LoadingStage::FetchingSystemInfo;
                        self.connection_error = if tcp_failed {
                            Some(ConnectionError::Tcp)
                        } else {
                            Some(ConnectionError::Socket)
                        };
                        LoadingAction::FetchSystemInfo
                    },
                    LoadingEvent::LocalFailed => {
                        self.stage = LoadingStage::Failed;
                        LoadingAction::Fail
                    },
                    _ => LoadingAction::Ignore,
                }
            },
            LoadingStage::FetchingSystemInfo => match e {
                LoadingEvent::SystemInfoFetched => {
                    self.stage = LoadingStage::ListingDevices;
                    LoadingAction::ListDevices
                },
                LoadingEvent::RequestFailed => {
                    self.stage = LoadingStage::Failed;
                    LoadingAction::Fail
                },
                _ => LoadingAction::Ignore,
            },
            LoadingStage::ListingDevices => match e {
                LoadingEvent::DevicesListed { first_gpu_id } => match first_gpu_id {
                    Some(id) => {
                        let action = LoadingAction::FetchGpuData(id.clone());
                        self.stage = LoadingStage::FetchingGpuData(id);
                        action
                    },
                    None => {
                        self.stage = LoadingStage::ListingProfiles;
                        LoadingAction::ListProfiles
                    },
                },
                LoadingEvent::RequestFailed => {
                    self.stage = LoadingStage::Failed;
                    LoadingAction::Fail
                },
                _ => LoadingAction::Ignore,
            },
            LoadingStage::FetchingGpuData(id) => match e {
                LoadingEvent::GpuDataFetched => {
                    let id = id.clone();
                    self.initial_gpu_id = Some(id);
                    self.stage = LoadingStage::ListingProfiles;
                    LoadingAction::ListProfiles
                },
                LoadingEvent::RequestFailed => {
                    self.stage = LoadingStage::Failed;
                    LoadingAction::Fail
                },
                _ => LoadingAction::Ignore,
            },
            LoadingStage::ListingProfiles => match e {
                LoadingEvent::ProfilesListed => {
                    self.stage = LoadingStage::Loaded;
                    LoadingAction::Loaded {
                        initial_gpu_id: self.initial_gpu_id.clone(),
                        connection_error: self.connection_error,
                    }
                },
                LoadingEvent::RequestFailed => {
                    self.stage = LoadingStage::Failed;
                    LoadingAction::Fail
                },
                _ => LoadingAction::Ignore,
            },
            _ => LoadingAction::Ignore,
        }
    }
}

/// Every event that is not ignored moves loading strictly forward, and an
/// ignored one changes nothing: loading never goes back to a stage it left.
pub proof fn lemma_loading_moves_forward(s: LoadingState, e: LoadingEvent)
    ensures
        spec_loading_step(s, e).1 is Ignore ==> spec_loading_step(s, e).0 == s,
        !(spec_loading_step(s, e).1 is Ignore) ==> stage_rank(spec_loading_step(s, e).0.stage) > stage_rank(
            s.stage,
        ),
{
}

/// The main view is told of a connection error exactly when the remote
/// daemon could not be reached, or, with no remote daemon asked for, the
/// local one could not be reached and an embedded one runs.
pub proof fn lemma_connection_error_told(s: LoadingState, e: LoadingEvent)
    requires
        s.stage matches LoadingStage::ConnectingLocal { .. },
        e == LoadingEvent::SocketConnected || e == LoadingEvent::EmbeddedStarted,
    ensures
        ({
            let tcp_failed = s.stage matches LoadingStage::ConnectingLocal { tcp_failed: true };
            let err = spec_loading_step(s, e).0.connection_error;
            &&& (err is Some <==> (tcp_failed || e == LoadingEvent::EmbeddedStarted))
            &&& (tcp_failed ==> err == Some(ConnectionError::Tcp))
        }),
{
}

/// Loading hands over its data only after the profiles were listed, with
/// the id of the GPU whose data was fetched (none when there was no GPU)
/// and the connection error it recorded; a failed request during fetching
/// ends loading with a failure; a listed first GPU has its data fetched
/// before the profiles, and no GPU skips straight to the profiles.
pub proof fn lemma_loading_hand_over(s: LoadingState, e: LoadingEvent)
    ensures
        spec_loading_step(s, e).1 is Loaded ==> s.stage == LoadingStage::ListingProfiles && e
            == LoadingEvent::ProfilesListed && spec_loading_step(s, e).1 == (LoadingAction::Loaded {
            initial_gpu_id: s.initial_gpu_id,
            connection_error: s.connection_error,
        }),
        s.stage is FetchingGpuData && e == LoadingEvent::GpuDataFetched ==> spec_loading_step(s, e).0.initial_gpu_id
            == Some(s.stage->FetchingGpuData_0) && spec_loading_step(s, e).1 == LoadingAction::ListProfiles,
        s.stage == LoadingStage::ListingDevices ==> (e matches LoadingEvent::DevicesListed { first_gpu_id }
            ==> match first_gpu_id {
            Some(id) => spec_loading_step(s, e).1 == LoadingAction::FetchGpuData(id),
            None => spec_loading_step(s, e).1 == LoadingAction::ListProfiles,
        }),
        (s.stage == LoadingStage::FetchingSystemInfo || s.stage == LoadingStage::ListingDevices
            || s.stage is FetchingGpuData || s.stage == LoadingStage::ListingProfiles) && e
            == LoadingEvent::RequestFailed ==> spec_loading_step(s, e).0.stage == LoadingStage::Failed
            && spec_loading_step(s, e).1 == LoadingAction::Fail,
        spec_loading_step(s, e).1 == LoadingAction::Fail ==> spec_loading_step(s, e).0.stage
            == LoadingStage::Failed,
        (s.stage == LoadingStage::Loaded || s.stage == LoadingStage::Failed) ==> spec_loading_step(s, e) == (
            s,
            LoadingAction::Ignore,
        ),
{
}

} // verus!
