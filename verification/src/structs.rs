//! Core domain types: environments, domain events, intents, and the state
//! snapshot consumed by the presentation layer.

use vstd::prelude::*;

use crate::widgets::{BodyWidget, BodyWidgetView, CliWidgetView, ErrorActionWidget, HeaderWidget};

verus! {

/// The selectable cluster environments.
#[derive(Clone, Copy, Debug, PartialEq, Eq, Structural)]
pub enum KubeEnv {
    Dev,
    Test,
    Prod,
}

/// Immutable environment configuration: profiles and names that parameterize
/// every cluster command.
#[derive(Debug)]
pub struct KubeEnvData {
    pub eks_profile: String,
    pub aws_profile: String,
    pub environment: String,
    pub namespace: String,
}

/// Mathematical model of [`KubeEnvData`]: each field as a character sequence.
#[verifier::ext_equal]
pub ghost struct KubeEnvDataView {
    pub eks_profile: Seq<char>,
    pub aws_profile: Seq<char>,
    pub environment: Seq<char>,
    pub namespace: Seq<char>,
}

impl View for KubeEnvData {
    type V = KubeEnvDataView;

    open spec fn view(&self) -> KubeEnvDataView {
        KubeEnvDataView {
            eks_profile: self.eks_profile@,
            aws_profile: self.aws_profile@,
            environment: self.environment@,
            namespace: self.namespace@,
        }
    }
}

impl DeepView for KubeEnvData {
    type V = KubeEnvDataView;

    open spec fn deep_view(&self) -> KubeEnvDataView {
        self@
    }
}

impl Clone for KubeEnvData {
    fn clone(&self) -> (r: Self)
        ensures
            r@ == self@,
    {
        KubeEnvData {
            eks_profile: self.eks_profile.clone(),
            aws_profile: self.aws_profile.clone(),
            environment: self.environment.clone(),
            namespace: self.namespace.clone(),
        }
    }
}

/// The configuration each environment selects.
pub open spec fn spec_env_data(env: KubeEnv) -> KubeEnvDataView {
    match env {
        KubeEnv::Dev => KubeEnvDataView {
            eks_profile: "eks-non-prod-myccv-lab-developer"@,
            aws_profile: "myccv-lab-non-prod-myccv-lab-developer"@,
            environment: "shared-non-prod-2"@,
            namespace: "myccv-dev-salespoint"@,
        },
        KubeEnv::Test => KubeEnvDataView {
            eks_profile: "eks-non-prod-myccv-lab-developer"@,
            aws_profile: "myccv-lab-non-prod-myccv-lab-developer"@,
            environment: "shared-non-prod-2"@,
            namespace: "myccv-test-salespoint"@,
        },
        KubeEnv::Prod => KubeEnvDataView {
            eks_profile: "eks-prod-myccv-lab-developer"@,
            aws_profile: "myccv-lab-prod-myccv-lab-developer"@,
            environment: "shared-prod-2"@,
            namespace: "myccv-salespoint"@,
        },
    }
}

impl KubeEnvData {
    pub fn new(eks_profile: &str, aws_profile: &str, environment: &str, namespace: &str) -> (r:
        Self)
        ensures
            r@ == (KubeEnvDataView {
                eks_profile: eks_profile@,
                aws_profile: aws_profile@,
                environment: environment@,
                namespace: namespace@,
            }),
    {
        KubeEnvData {
            eks_profile: eks_profile.to_owned(),
            aws_profile: aws_profile.to_owned(),
            environment: environment.to_owned(),
            namespace: namespace.to_owned(),
        }
    }

    /// The constant configuration selected by an environment tag.
    pub fn for_env(env: KubeEnv) -> (r: Self)
        ensures
            r@ == spec_env_data(env),
    {
        match env {
            KubeEnv::Dev => KubeEnvData::new(
                "eks-non-prod-myccv-lab-developer",
                "myccv-lab-non-prod-myccv-lab-developer",
                "shared-non-prod-2",
                "myccv-dev-salespoint",
            ),
            KubeEnv::Test => KubeEnvData::new(
                "eks-non-prod-myccv-lab-developer",
                "myccv-lab-non-prod-myccv-lab-developer",
                "shared-non-prod-2",
                "myccv-test-salespoint",
            ),
            KubeEnv::Prod => KubeEnvData::new(
                "eks-prod-myccv-lab-developer",
                "myccv-lab-prod-myccv-lab-developer",
                "shared-prod-2",
                "myccv-salespoint",
            ),
        }
    }
}

/// The error kinds a domain error event can carry.
#[derive(Debug, PartialEq)]
pub enum TUIError {
    VPN,
    KEY(String),
    API(String),
}

/// Model of [`TUIError`] with message payloads as character sequences.
#[verifier::ext_equal]
pub ghost enum TUIErrorView {
    VPN,
    KEY(Seq<char>),
    API(Seq<char>),
}

impl View for TUIError {
    type V = TUIErrorView;

    open spec fn view(&self) -> TUIErrorView {
        match self {
            TUIError::VPN => TUIErrorView::VPN,
            TUIError::KEY(s) => TUIErrorView::KEY(s@),
            TUIError::API(s) => TUIErrorView::API(s@),
        }
    }
}

impl DeepView for TUIError {
    type V = TUIErrorView;

    open spec fn deep_view(&self) -> TUIErrorView {
        self@
    }
}

/// A domain event: a fact produced by the dispatcher or the monitor,
/// consumed exactly once and in arrival order by the event-sourced store.
#[derive(Debug, PartialEq)]
pub enum TUIEvent {
    Error(TUIError),
    CheckConnectivity,
    ClearError,
    RequestLoginStart,
    RequestLoginStop,
    RequestEnvChange,
    EnvChange(KubeEnv),
    NeedsLogin,
    DisplayLoginCode(String),
    IsLoggedIn,
    IsConnected,
    AddLoginLog(String),
    AddLog(String),
    AddPods(String),
    AddTailLog(String),
}

/// Model of [`TUIEvent`] with text payloads as character sequences.
#[verifier::ext_equal]
pub ghost enum TUIEventView {
    Error(TUIErrorView),
    CheckConnectivity,
    ClearError,
    RequestLoginStart,
    RequestLoginStop,
    RequestEnvChange,
    EnvChange(KubeEnv),
    NeedsLogin,
    DisplayLoginCode(Seq<char>),
    IsLoggedIn,
    IsConnected,
    AddLoginLog(Seq<char>),
    AddLog(Seq<char>),
    AddPods(Seq<char>),
    AddTailLog(Seq<char>),
}

impl View for TUIEvent {
    type V = TUIEventView;

    open spec fn view(&self) -> TUIEventView {
        match self {
            TUIEvent::Error(e) => TUIEventView::Error(e@),
            TUIEvent::CheckConnectivity => TUIEventView::CheckConnectivity,
            TUIEvent::ClearError => TUIEventView::ClearError,
            TUIEvent::RequestLoginStart => TUIEventView::RequestLoginStart,
            TUIEvent::RequestLoginStop => TUIEventView::RequestLoginStop,
            TUIEvent::RequestEnvChange => TUIEventView::RequestEnvChange,
            TUIEvent::EnvChange(env) => TUIEventView::EnvChange(*env),
            TUIEvent::NeedsLogin => TUIEventView::NeedsLogin,
            TUIEvent::DisplayLoginCode(s) => TUIEventView::DisplayLoginCode(s@),
            TUIEvent::IsLoggedIn => TUIEventView::IsLoggedIn,
            TUIEvent::IsConnected => TUIEventView::IsConnected,
            TUIEvent::AddLoginLog(s) => TUIEventView::AddLoginLog(s@),
            TUIEvent::AddLog(s) => TUIEventView::AddLog(s@),
            TUIEvent::AddPods(s) => TUIEventView::AddPods(s@),
            TUIEvent::AddTailLog(s) => TUIEventView::AddTailLog(s@),
        }
    }
}

impl DeepView for TUIEvent {
    type V = TUIEventView;

    open spec fn deep_view(&self) -> TUIEventView {
        self@
    }
}

/// An intent: a user- or system-triggered request for one of the fixed
/// high-level operations.
#[derive(Clone, Copy, Debug, PartialEq, Eq, Structural)]
pub enum TUIAction {
    CheckConnectivity,
    LogIn,
    ChangeEnv(KubeEnv),
    GetLogs,
    GetPods,
}

/// The coarse mode the presentation layer is in.
#[derive(Clone, Copy, Debug, Default, PartialEq, Eq, Structural)]
pub enum UIState {
    #[default]
    Init,
    UserInput,
    LoggingIn,
    LoggedIn,
}

/// A classified key press, as handed back by the input layer.
#[derive(Clone, Copy, Debug, PartialEq, Eq, Structural)]
pub enum UserInput {
    Quit,
    ChangeEnv,
    Direction(Direction2),
}

/// Pane-navigation directions.
#[derive(Clone, Copy, Debug, PartialEq, Eq, Structural)]
pub enum Direction2 {
    Left,
    Right,
    Up,
    Down,
}

/// How a widget's data stream behaves: a one-shot fill, a periodic refresh,
/// or a long-lived stream that stays open.
#[derive(Clone, Copy, Debug, PartialEq, Eq, Structural)]
pub enum StreamType {
    Once,
    Periodical,
    LeaveOpen,
}

/// A widget's data source: its stream discipline and the intent that starts
/// it, as a closed tag rather than a callback.
#[derive(Clone, Copy, Debug, PartialEq, Eq)]
pub struct DataStream {
    pub stream_type: StreamType,
    pub on_start: Option<TUIAction>,
}

impl DataStream {
    pub fn new(stream_type: StreamType, on_start: Option<TUIAction>) -> (r: Self)
        ensures
            r == (DataStream { stream_type, on_start }),
    {
        DataStream { stream_type, on_start }
    }
}

/// The state snapshot: one immutable value holding everything the
/// presentation layer reads. Every domain event produces a new snapshot.
#[derive(Debug)]
pub struct Store {
    pub ui_state: UIState,
    pub request_login: bool,
    pub logged_in: bool,
    pub env_change_possible: bool,
    pub login_code: Option<String>,
    pub header_widget: Option<HeaderWidget>,
    pub login_widget: Option<BodyWidget>,
    pub logs_widget: Option<BodyWidget>,
    pub pods_widget: Option<BodyWidget>,
    pub request_login_widget: Option<ErrorActionWidget>,
}

/// Mathematical model of [`Store`].
#[verifier::ext_equal]
pub ghost struct StoreView {
    pub ui_state: UIState,
    pub request_login: bool,
    pub logged_in: bool,
    pub env_change_possible: bool,
    pub login_code: Option<Seq<char>>,
    pub header_widget: Option<CliWidgetView>,
    pub login_widget: Option<BodyWidgetView>,
    pub logs_widget: Option<BodyWidgetView>,
    pub pods_widget: Option<BodyWidgetView>,
    pub request_login_widget: Option<CliWidgetView>,
}

impl View for Store {
    type V = StoreView;

    open spec fn view(&self) -> StoreView {
        StoreView {
            ui_state: self.ui_state,
            request_login: self.request_login,
            logged_in: self.logged_in,
            env_change_possible: self.env_change_possible,
            login_code: self.login_code.deep_view(),
            header_widget: self.header_widget.deep_view(),
            login_widget: self.login_widget.deep_view(),
            logs_widget: self.logs_widget.deep_view(),
            pods_widget: self.pods_widget.deep_view(),
            request_login_widget: self.request_login_widget.deep_view(),
        }
    }
}

impl DeepView for Store {
    type V = StoreView;

    open spec fn deep_view(&self) -> StoreView {
        self@
    }
}

impl Clone for Store {
    fn clone(&self) -> (r: Self)
        ensures
            r@ == self@,
    {
        Store {
            ui_state: self.ui_state,
            request_login: self.request_login,
            logged_in: self.logged_in,
            env_change_possible: self.env_change_possible,
            login_code: match &self.login_code {
                Some(code) => Some(code.clone()),
                None => None,
            },
            header_widget: match &self.header_widget {
                Some(w) => Some(w.clone()),
                None => None,
            },
            login_widget: match &self.login_widget {
                Some(w) => Some(w.clone()),
                None => None,
            },
            logs_widget: match &self.logs_widget {
                Some(w) => Some(w.clone()),
                None => None,
            },
            pods_widget: match &self.pods_widget {
                Some(w) => Some(w.clone()),
                None => None,
            },
            request_login_widget: match &self.request_login_widget {
                Some(w) => Some(w.clone()),
                None => None,
            },
        }
    }
}

impl Store {
    /// A fresh snapshot: logging in, nothing reported yet, all panes present.
    pub fn new(
        header_widget: HeaderWidget,
        login_widget: BodyWidget,
        logs_widget: BodyWidget,
        pods_widget: BodyWidget,
        request_login_widget: ErrorActionWidget,
    ) -> (r: Store)
        ensures
            r@ == (StoreView {
                ui_state: UIState::LoggingIn,
                request_login: false,
                logged_in: false,
                env_change_possible: false,
                login_code: None,
                header_widget: Some(header_widget@),
                login_widget: Some(login_widget@),
                logs_widget: Some(logs_widget@),
                pods_widget: Some(pods_widget@),
                request_login_widget: Some(request_login_widget@),
            }),
    {
        Store {
            ui_state: UIState::LoggingIn,
            request_login: false,
            logged_in: false,
            env_change_possible: false,
            login_code: None,
            header_widget: Some(header_widget),
            login_widget: Some(login_widget),
            logs_widget: Some(logs_widget),
            pods_widget: Some(pods_widget),
            request_login_widget: Some(request_login_widget),
        }
    }
}

} // verus!
