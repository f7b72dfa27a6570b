//! The action dispatcher's command side: building the fixed cluster
//! commands, classifying their output lines into domain events, and running
//! whole streaming tasks against the task registry.
//!
//! The surrounding binary spawns the commands this module describes and
//! reports back what it observed: output lines, stderr lines, exit status.
//! Everything that decides — which command to run, which events a line
//! produces, when a failure is reported — is verified here.

use vstd::prelude::*;

use crate::structs::{
    KubeEnvData, KubeEnvDataView, TUIError, TUIErrorView, TUIEvent, TUIEventView,
};
use crate::strutil::{contains_seq, str_contains};
use crate::thread_manager::{ThreadManager, WidgetTaskId};

verus! {

/// An ASCII letter, as the login-code pattern accepts.
pub open spec fn is_alpha(c: char) -> bool {
    ('A' <= c && c <= 'Z') || ('a' <= c && c <= 'z')
}

/// A login code (four letters, a dash, four letters) occurs in `s` at `i`.
pub open spec fn code_at(s: Seq<char>, i: int) -> bool {
    &&& 0 <= i
    &&& i + 9 <= s.len()
    &&& forall|k: int| i <= k < i + 4 ==> is_alpha(#[trigger] s[k])
    &&& s[i + 4] == '-'
    &&& forall|k: int| i + 5 <= k < i + 9 ==> is_alpha(#[trigger] s[k])
}

/// A login code occurs at `i` and nowhere earlier.
pub open spec fn first_code_at(s: Seq<char>, i: int) -> bool {
    code_at(s, i) && forall|j: int| 0 <= j < i ==> !code_at(s, j)
}

/// Some login code occurs in `s`.
pub open spec fn has_code(s: Seq<char>) -> bool {
    exists|i: int| code_at(s, i)
}

/// The leftmost login code in `s`.
pub open spec fn code_of(s: Seq<char>) -> Seq<char> {
    let i = choose|i: int| first_code_at(s, i);
    s.subrange(i, i + 9)
}

/// Wherever a code occurs, a leftmost one exists.
pub proof fn lemma_first_code_exists(s: Seq<char>, i: int)
    requires
        code_at(s, i),
    ensures
        exists|j: int| first_code_at(s, j),
    decreases i,
{
    if forall|j: int| 0 <= j < i ==> !code_at(s, j) {
        assert(first_code_at(s, i));
    } else {
        let j = choose|j: int| 0 <= j < i && code_at(s, j);
        lemma_first_code_exists(s, j);
    }
}

/// The leftmost occurrence is unique.
pub proof fn lemma_first_code_unique(s: Seq<char>, i: int, j: int)
    requires
        first_code_at(s, i),
        first_code_at(s, j),
    ensures
        i == j,
{
}

/// The displayed login code always matches the code pattern: four letters,
/// a dash, four letters.
pub proof fn lemma_login_code_shape(s: Seq<char>)
    requires
        has_code(s),
    ensures
        code_of(s).len() == 9,
        forall|k: int| 0 <= k < 4 ==> is_alpha(#[trigger] code_of(s)[k]),
        code_of(s)[4] == '-',
        forall|k: int| 5 <= k < 9 ==> is_alpha(#[trigger] code_of(s)[k]),
{
    let w = choose|i: int| code_at(s, i);
    lemma_first_code_exists(s, w);
    let i = choose|i: int| first_code_at(s, i);
    assert(code_at(s, i));
    assert forall|k: int| 0 <= k < 4 implies is_alpha(#[trigger] code_of(s)[k]) by {
        assert(code_of(s)[k] == s[i + k]);
    }
    assert forall|k: int| 5 <= k < 9 implies is_alpha(#[trigger] code_of(s)[k]) by {
        assert(code_of(s)[k] == s[i + k]);
    }
    assert(code_of(s)[4] == s[i + 4]);
}

/// Relies on `regex::Regex::new` and `regex::Regex::find` with the fixed
/// login-code pattern of four letters, a dash and four letters: `find`
/// returns the first (leftmost) match of the pattern, or `None` when the
/// haystack holds no match.
#[verifier::external_body]
fn find_login_code(line: &str) -> (r: Option<String>)
    ensures
        match r {
            Some(code) => exists|i: int|
                #[trigger] first_code_at(line@, i) && code@ == line@.subrange(i, i + 9),
            None => forall|i: int| !code_at(line@, i),
        },
{
    match regex::Regex::new(r"[A-Za-z]{4}-[A-Za-z]{4}") {
        Ok(re) => re.find(line).map(|m| m.as_str().to_string()),
        Err(_) => None,
    }
}

/// One concrete child command: a program and its arguments.
#[derive(Debug)]
pub struct Cmd {
    pub program: String,
    pub args: Vec<String>,
}

/// Model of [`Cmd`].
#[verifier::ext_equal]
pub ghost struct CmdView {
    pub program: Seq<char>,
    pub args: Seq<Seq<char>>,
}

impl View for Cmd {
    type V = CmdView;

    open spec fn view(&self) -> CmdView {
        CmdView { program: self.program@, args: self.args.deep_view() }
    }
}

impl DeepView for Cmd {
    type V = CmdView;

    open spec fn deep_view(&self) -> CmdView {
        self@
    }
}

impl Cmd {
    /// A command with no arguments yet.
    pub fn new(program: &str) -> (r: Self)
        ensures
            r@ == (CmdView { program: program@, args: Seq::empty() }),
    {
        let r = Cmd { program: program.to_owned(), args: Vec::new() };
        proof {
            assert(r@.args =~= Seq::<Seq<char>>::empty());
        }
        r
    }

    /// Appends one argument.
    pub fn arg(&mut self, a: &str)
        ensures
            final(self)@ == (CmdView {
                program: old(self)@.program,
                args: old(self)@.args.push(a@),
            }),
    {
        self.args.push(a.to_owned());
        proof {
            assert(self@.args =~= old(self)@.args.push(a@));
        }
    }
}

/// The identity-provider login command for an environment.
pub open spec fn spec_login_command(env: KubeEnvDataView) -> CmdView {
    CmdView { program: "aws"@, args: seq!["sso"@, "login"@, "--profile"@, env.aws_profile] }
}

/// The long-lived workload-log tail command for an environment.
pub open spec fn spec_get_logs_command(env: KubeEnvDataView) -> CmdView {
    CmdView {
        program: "kubectl"@,
        args: seq![
            "logs"@,
            "-n"@,
            env.namespace,
            "-l"@,
            "component=salespoint-v2"@,
            "-c"@,
            "salespoint-v2"@,
            "-f"@,
            "--prefix=true"@,
        ],
    }
}

/// The quick pod-listing command for an environment.
pub open spec fn spec_get_pods_command(env: KubeEnvDataView) -> CmdView {
    CmdView { program: "kubectl"@, args: seq!["get"@, "-n"@, env.namespace, "pods"@] }
}

/// The cluster-context switch command for an environment.
pub open spec fn spec_update_config_command(env: KubeEnvDataView) -> CmdView {
    CmdView {
        program: "aws"@,
        args: seq![
            "eks"@,
            "--profile"@,
            env.eks_profile,
            "update-kubeconfig"@,
            "--name"@,
            env.environment,
        ],
    }
}

/// The production command builders.
#[derive(Clone, Copy, Debug)]
pub struct AwsApiCommandsProvider {}

impl AwsApiCommandsProvider {
    pub fn new() -> (r: Self)
        ensures
            r == (AwsApiCommandsProvider {  }),
    {
        AwsApiCommandsProvider {  }
    }

    pub fn login_command(&self, kube_env: &KubeEnvData) -> (c: Cmd)
        ensures
            c@ == spec_login_command(kube_env@),
    {
        let mut c = Cmd::new("aws");
        c.arg("sso");
        c.arg("login");
        c.arg("--profile");
        c.arg(aws_profile_of(kube_env));
        proof {
            assert(c@.args =~= spec_login_command(kube_env@).args);
        }
        c
    }

    pub fn get_logs_command(&self, kube_env: &KubeEnvData) -> (c: Cmd)
        ensures
            c@ == spec_get_logs_command(kube_env@),
    {
        let mut c = Cmd::new("kubectl");
        c.arg("logs");
        c.arg("-n");
        c.arg(kube_env.namespace.as_str());
        c.arg("-l");
        c.arg("component=salespoint-v2");
        c.arg("-c");
        c.arg("salespoint-v2");
        c.arg("-f");
        c.arg("--prefix=true");
        proof {
            assert(c@.args =~= spec_get_logs_command(kube_env@).args);
        }
        c
    }

    pub fn get_pods_command(&self, kube_env: &KubeEnvData) -> (c: Cmd)
        ensures
            c@ == spec_get_pods_command(kube_env@),
    {
        let mut c = Cmd::new("kubectl");
        c.arg("get");
        c.arg("-n");
        c.arg(kube_env.namespace.as_str());
        c.arg("pods");
        proof {
            assert(c@.args =~= spec_get_pods_command(kube_env@).args);
        }
        c
    }
}

/// The identity profile of an environment, borrowed.
fn aws_profile_of(kube_env: &KubeEnvData) -> (r: &str)
    ensures
        r@ == kube_env@.aws_profile,
{
    kube_env.aws_profile.as_str()
}

/// Command builders that drive the succeeding test scripts.
#[derive(Clone, Copy, Debug)]
pub struct TestAwsApiCommandProvider {}

impl TestAwsApiCommandProvider {
    pub fn new() -> (r: Self)
        ensures
            r == (TestAwsApiCommandProvider {  }),
    {
        TestAwsApiCommandProvider {  }
    }

    pub fn login_command(&self) -> (c: Cmd)
        ensures
            c@ == spec_test_login_command(),
    {
        let mut c = Cmd::new("sh");
        c.arg("-C");
        c.arg("test_res/test_login_succeed.sh");
        proof {
            assert(c@.args =~= spec_test_login_command().args);
        }
        c
    }

    pub fn get_logs_command(&self) -> (c: Cmd)
        ensures
            c@ == spec_test_get_logs_command(),
    {
        let mut c = Cmd::new("tail");
        c.arg("-f");
        c.arg("test_res/get_logs.txt");
        proof {
            assert(c@.args =~= spec_test_get_logs_command().args);
        }
        c
    }
}

/// Command builders that drive the failing test scripts.
#[derive(Clone, Copy, Debug)]
pub struct TestAwsApiCommandFailProvider {}

impl TestAwsApiCommandFailProvider {
    pub fn new() -> (r: Self)
        ensures
            r == (TestAwsApiCommandFailProvider {  }),
    {
        TestAwsApiCommandFailProvider {  }
    }

    pub fn login_command(&self) -> (c: Cmd)
        ensures
            c@ == spec_test_login_fail_command(),
    {
        let mut c = Cmd::new("sh");
        c.arg("-C");
        c.arg("test_res/test_login_fail.sh");
        proof {
            assert(c@.args =~= spec_test_login_fail_command().args);
        }
        c
    }

    pub fn get_logs_command(&self) -> (c: Cmd)
        ensures
            c@ == spec_test_get_logs_fail_command(),
    {
        let mut c = Cmd::new("sh");
        c.arg("-C");
        c.arg("test_res/long_living_process_quits_unexpectedly.sh");
        proof {
            assert(c@.args =~= spec_test_get_logs_fail_command().args);
        }
        c
    }
}

/// The succeeding test login command.
pub open spec fn spec_test_login_command() -> CmdView {
    CmdView { program: "sh"@, args: seq!["-C"@, "test_res/test_login_succeed.sh"@] }
}

/// The succeeding test log-tail command.
pub open spec fn spec_test_get_logs_command() -> CmdView {
    CmdView { program: "tail"@, args: seq!["-f"@, "test_res/get_logs.txt"@] }
}

/// The failing test login command.
pub open spec fn spec_test_login_fail_command() -> CmdView {
    CmdView { program: "sh"@, args: seq!["-C"@, "test_res/test_login_fail.sh"@] }
}

/// The failing test log-tail command.
pub open spec fn spec_test_get_logs_fail_command() -> CmdView {
    CmdView { program: "sh"@, args: seq!["-C"@, "test_res/long_living_process_quits_unexpectedly.sh"@] }
}

/// The closed set of command providers, dispatched by tag.
#[derive(Clone, Copy, Debug, PartialEq, Eq, Structural)]
pub enum CommandsProvider {
    Aws,
    TestSucceed,
    TestFail,
}

impl CommandsProvider {
    /// The login command this provider issues.
    pub open spec fn spec_login(self, env: KubeEnvDataView) -> CmdView {
        match self {
            CommandsProvider::Aws => spec_login_command(env),
            CommandsProvider::TestSucceed => spec_test_login_command(),
            CommandsProvider::TestFail => spec_test_login_fail_command(),
        }
    }

    /// The log-stream command this provider issues.
    pub open spec fn spec_get_logs(self, env: KubeEnvDataView) -> CmdView {
        match self {
            CommandsProvider::Aws => spec_get_logs_command(env),
            CommandsProvider::TestSucceed => spec_test_get_logs_command(),
            CommandsProvider::TestFail => spec_test_get_logs_fail_command(),
        }
    }

    pub fn login_command(&self, kube_env: &KubeEnvData) -> (c: Cmd)
        ensures
            c@ == self.spec_login(kube_env@),
    {
        match self {
            CommandsProvider::Aws => AwsApiCommandsProvider::new().login_command(kube_env),
            CommandsProvider::TestSucceed => TestAwsApiCommandProvider::new().login_command(),
            CommandsProvider::TestFail => TestAwsApiCommandFailProvider::new().login_command(),
        }
    }

    pub fn get_logs_command(&self, kube_env: &KubeEnvData) -> (c: Cmd)
        ensures
            c@ == self.spec_get_logs(kube_env@),
    {
        match self {
            CommandsProvider::Aws => AwsApiCommandsProvider::new().get_logs_command(kube_env),
            CommandsProvider::TestSucceed => TestAwsApiCommandProvider::new().get_logs_command(),
            CommandsProvider::TestFail => TestAwsApiCommandFailProvider::new().get_logs_command(),
        }
    }

    /// The quick pod listing. Only the production provider has one; the
    /// test providers never issue it.
    pub fn get_pods_command(&self, kube_env: &KubeEnvData) -> (c: Cmd)
        requires
            self is Aws,
        ensures
            c@ == spec_get_pods_command(kube_env@),
    {
        AwsApiCommandsProvider::new().get_pods_command(kube_env)
    }
}

/// Classifies output into domain events: an outbox of events, appended in
/// order, which the surrounding binary forwards to the event-sourced store.
#[derive(Debug)]
pub struct AwsAPIHandler {
    pub events: Vec<TUIEvent>,
}

/// The events one login-transcript line produces: the transcript log, the
/// displayed code when the line holds one, and the logged-in mark when the
/// line announces success.
pub open spec fn code_events(line: Seq<char>) -> Seq<TUIEventView> {
    if has_code(line) {
        seq![TUIEventView::DisplayLoginCode(code_of(line))]
    } else {
        Seq::empty()
    }
}

/// The logged-in event when the line announces success.
pub open spec fn success_events(line: Seq<char>) -> Seq<TUIEventView> {
    if contains_seq(line, "Successfully"@) {
        seq![TUIEventView::IsLoggedIn]
    } else {
        Seq::empty()
    }
}

/// All events of one login-transcript line.
pub open spec fn login_line_events(line: Seq<char>) -> Seq<TUIEventView> {
    seq![TUIEventView::AddLoginLog(line)] + code_events(line) + success_events(line)
}

impl AwsAPIHandler {
    /// A handler with an empty outbox.
    pub fn new() -> (r: Self)
        ensures
            r.events@ == Seq::<TUIEvent>::empty(),
    {
        AwsAPIHandler { events: Vec::new() }
    }

    /// Reports one error message as a domain error event.
    pub fn on_error(&mut self, error: &str)
        ensures
            final(self).events.deep_view() == old(self).events.deep_view().push(
                TUIEventView::Error(TUIErrorView::API(error@)),
            ),
    {
        self.events.push(TUIEvent::Error(TUIError::API(error.to_owned())));
        proof {
            assert(self.events.deep_view() =~= old(self).events.deep_view().push(
                TUIEventView::Error(TUIErrorView::API(error@)),
            ));
        }
    }

    /// Scans one login-transcript line: a code match is surfaced as the
    /// code to display, and the fixed success marker as the logged-in event.
    pub fn check_login_status(&mut self, line: &str)
        ensures
            final(self).events.deep_view() == old(self).events.deep_view() + code_events(line@)
                + success_events(line@),
    {
        match find_login_code(line) {
            Some(code) => {
                proof {
                    let w = choose|i: int|
                        first_code_at(line@, i) && code@ == line@.subrange(i, i + 9);
                    let i = choose|i: int| first_code_at(line@, i);
                    lemma_first_code_unique(line@, w, i);
                    assert(code@ == code_of(line@));
                }
                self.events.push(TUIEvent::DisplayLoginCode(code));
            },
            None => {},
        }
        if str_contains(line, "Successfully") {
            self.events.push(TUIEvent::IsLoggedIn);
        }
        proof {
            assert(self.events.deep_view() =~= old(self).events.deep_view() + code_events(line@)
                + success_events(line@));
        }
    }

    /// Appends one line of the login transcript.
    pub fn add_login_logs(&mut self, line: &str)
        ensures
            final(self).events.deep_view() == old(self).events.deep_view().push(
                TUIEventView::AddLoginLog(line@),
            ),
    {
        self.events.push(TUIEvent::AddLoginLog(line.to_owned()));
        proof {
            assert(self.events.deep_view() =~= old(self).events.deep_view().push(
                TUIEventView::AddLoginLog(line@),
            ));
        }
    }

    /// Appends one line of the workload logs.
    pub fn add_logs(&mut self, line: &str)
        ensures
            final(self).events.deep_view() == old(self).events.deep_view().push(
                TUIEventView::AddLog(line@),
            ),
    {
        self.events.push(TUIEvent::AddLog(line.to_owned()));
        proof {
            assert(self.events.deep_view() =~= old(self).events.deep_view().push(
                TUIEventView::AddLog(line@),
            ));
        }
    }

    /// Publishes a fresh pod listing.
    pub fn add_pods(&mut self, pods: &str)
        ensures
            final(self).events.deep_view() == old(self).events.deep_view().push(
                TUIEventView::AddPods(pods@),
            ),
    {
        self.events.push(TUIEvent::AddPods(pods.to_owned()));
        proof {
            assert(self.events.deep_view() =~= old(self).events.deep_view().push(
                TUIEventView::AddPods(pods@),
            ));
        }
    }

    /// Processes one login-transcript line: records it, then scans it.
    pub fn process_login_line(&mut self, line: &str)
        ensures
            final(self).events.deep_view() == old(self).events.deep_view() + login_line_events(
                line@,
            ),
    {
        self.add_login_logs(line);
        self.check_login_status(line);
        proof {
            assert(self.events.deep_view() =~= old(self).events.deep_view() + login_line_events(
                line@,
            ));
        }
    }
}

/// In one line's events, the displayed code always precedes the logged-in
/// mark.
pub proof fn lemma_login_line_event_order(line: Seq<char>)
    requires
        has_code(line),
        contains_seq(line, "Successfully"@),
    ensures
        login_line_events(line) =~= seq![
            TUIEventView::AddLoginLog(line),
            TUIEventView::DisplayLoginCode(code_of(line)),
            TUIEventView::IsLoggedIn,
        ],
{
}

/// What a streaming task observed, one item at a time, in arrival order.
#[derive(Debug)]
pub enum StreamItem {
    /// One complete line of standard output.
    Out(String),
    /// One complete line of standard error.
    ErrLine(String),
}

/// Model of [`StreamItem`].
#[verifier::ext_equal]
pub ghost enum StreamItemView {
    Out(Seq<char>),
    ErrLine(Seq<char>),
}

impl View for StreamItem {
    type V = StreamItemView;

    open spec fn view(&self) -> StreamItemView {
        match self {
            StreamItem::Out(s) => StreamItemView::Out(s@),
            StreamItem::ErrLine(s) => StreamItemView::ErrLine(s@),
        }
    }
}

impl DeepView for StreamItem {
    type V = StreamItemView;

    open spec fn deep_view(&self) -> StreamItemView {
        self@
    }
}

/// Which classification a streaming task applies to its output lines.
#[derive(Clone, Copy, Debug, PartialEq, Eq, Structural)]
pub enum StreamKind {
    /// Lines of the identity-provider login transcript.
    LoginLogs,
    /// Lines of the workload logs.
    WorkloadLogs,
}

/// The events one stream item produces.
pub open spec fn stream_item_events(kind: StreamKind, item: StreamItemView) -> Seq<TUIEventView> {
    match item {
        StreamItemView::Out(line) => match kind {
            StreamKind::LoginLogs => login_line_events(line),
            StreamKind::WorkloadLogs => seq![TUIEventView::AddLog(line)],
        },
        StreamItemView::ErrLine(e) => seq![TUIEventView::Error(TUIErrorView::API(e))],
    }
}

/// The events of a whole observed item sequence, in order.
pub open spec fn stream_items_events(kind: StreamKind, items: Seq<StreamItemView>) -> Seq<
    TUIEventView,
>
    decreases items.len(),
{
    if items.len() == 0 {
        Seq::empty()
    } else {
        stream_items_events(kind, items.drop_last()) + stream_item_events(kind, items.last())
    }
}

/// Whether any stderr line was observed.
pub open spec fn has_err_line(items: Seq<StreamItemView>) -> bool
    decreases items.len(),
{
    if items.len() == 0 {
        false
    } else {
        has_err_line(items.drop_last()) || items.last() is ErrLine
    }
}

/// The fixed report of a run that exited non-zero or wrote to stderr.
pub open spec fn stream_failure_event() -> TUIEventView {
    TUIEventView::Error(TUIErrorView::API("process experienced some errors"@))
}

/// All events of one finished streaming run: the per-item events, then the
/// failure report exactly when the child exited non-zero or any stderr line
/// was observed.
pub open spec fn stream_run_events(
    kind: StreamKind,
    items: Seq<StreamItemView>,
    exit_success: bool,
) -> Seq<TUIEventView> {
    stream_items_events(kind, items) + if !exit_success || has_err_line(items) {
        seq![stream_failure_event()]
    } else {
        Seq::empty()
    }
}

/// A run whose every item is an output line observed no stderr.
pub proof fn lemma_all_out_no_err(items: Seq<StreamItemView>)
    requires
        forall|i: int| 0 <= i < items.len() ==> items[i] is Out,
    ensures
        !has_err_line(items),
    decreases items.len(),
{
    if items.len() > 0 {
        lemma_all_out_no_err(items.drop_last());
    }
}

/// A clean workload-log run (exit status zero, no stderr) delivers exactly
/// one log event per line, in order, and reports no error.
pub proof fn lemma_clean_stream_events(items: Seq<StreamItemView>)
    requires
        forall|i: int| 0 <= i < items.len() ==> items[i] is Out,
    ensures
        stream_run_events(StreamKind::WorkloadLogs, items, true).len() == items.len(),
        forall|i: int|
            0 <= i < items.len() ==> stream_run_events(StreamKind::WorkloadLogs, items, true)[i]
                == TUIEventView::AddLog(items[i]->Out_0),
    decreases items.len(),
{
    if items.len() == 0 {
    } else {
        lemma_clean_stream_events(items.drop_last());
        lemma_all_out_no_err(items);
        assert(stream_run_events(StreamKind::WorkloadLogs, items.drop_last(), true)
            =~= stream_items_events(StreamKind::WorkloadLogs, items.drop_last()));
        assert(stream_run_events(StreamKind::WorkloadLogs, items, true) =~= stream_items_events(
            StreamKind::WorkloadLogs,
            items.drop_last(),
        ) + stream_item_events(StreamKind::WorkloadLogs, items.last()));
    }
}

/// A run that exited non-zero, or that wrote any stderr line, always ends
/// with the failure report.
pub proof fn lemma_failed_stream_reports_error(
    kind: StreamKind,
    items: Seq<StreamItemView>,
    exit_success: bool,
)
    requires
        !exit_success || has_err_line(items),
    ensures
        stream_run_events(kind, items, exit_success).len() > 0,
        stream_run_events(kind, items, exit_success).last() == stream_failure_event(),
{
}

/// The dispatcher's command side: the active environment configuration,
/// the classification outbox, the task registry, and the command provider.
#[derive(Debug)]
pub struct AwsAPI {
    pub kube_env: KubeEnvData,
    pub handler: AwsAPIHandler,
    pub thread_manager: ThreadManager,
    pub commands_provider: CommandsProvider,
}

impl AwsAPI {
    /// A dispatcher for the development environment with a clean registry,
    /// an empty outbox and the production commands.
    pub fn new() -> (r: Self)
        ensures
            r.kube_env@ == crate::structs::spec_env_data(crate::structs::KubeEnv::Dev),
            r.handler.events@ == Seq::<TUIEvent>::empty(),
            forall|id: WidgetTaskId| !r.thread_manager.running(id),
            r.commands_provider == CommandsProvider::Aws,
    {
        AwsAPI {
            kube_env: KubeEnvData::for_env(crate::structs::KubeEnv::Dev),
            handler: AwsAPIHandler::new(),
            thread_manager: ThreadManager::new(),
            commands_provider: CommandsProvider::Aws,
        }
    }

    /// Swaps the command provider.
    pub fn set_commands_provider(&mut self, commands_provider: CommandsProvider)
        ensures
            *final(self) == (AwsAPI { commands_provider, ..*old(self) }),
    {
        self.commands_provider = commands_provider;
    }

    /// Swaps the whole environment configuration.
    pub fn set_kube_env(&mut self, kube_env: &KubeEnvData)
        ensures
            final(self).kube_env@ == kube_env@,
            final(self).handler == old(self).handler,
            final(self).thread_manager == old(self).thread_manager,
            final(self).commands_provider == old(self).commands_provider,
    {
        self.kube_env = kube_env.clone();
    }

    /// The login command against the active environment.
    pub fn login_command(&self) -> (c: Cmd)
        ensures
            c@ == self.commands_provider.spec_login(self.kube_env@),
    {
        self.commands_provider.login_command(&self.kube_env)
    }

    /// The log-stream command against the active environment.
    pub fn get_logs_command(&self) -> (c: Cmd)
        ensures
            c@ == self.commands_provider.spec_get_logs(self.kube_env@),
    {
        self.commands_provider.get_logs_command(&self.kube_env)
    }

    /// The pod-listing command against the active environment.
    pub fn get_pods_command(&self) -> (c: Cmd)
        requires
            self.commands_provider is Aws,
        ensures
            c@ == spec_get_pods_command(self.kube_env@),
    {
        self.commands_provider.get_pods_command(&self.kube_env)
    }

    /// The connectivity probe: the same quick pod listing.
    pub fn check_connectivity_command(&self) -> (c: Cmd)
        requires
            self.commands_provider is Aws,
        ensures
            c@ == spec_get_pods_command(self.kube_env@),
    {
        self.commands_provider.get_pods_command(&self.kube_env)
    }

    /// The cluster-context switch command for a target environment.
    pub fn update_config_command(&self, kube_env: &KubeEnvData) -> (c: Cmd)
        ensures
            c@ == spec_update_config_command(kube_env@),
    {
        let mut c = Cmd::new("aws");
        c.arg("eks");
        c.arg("--profile");
        c.arg(kube_env.eks_profile.as_str());
        c.arg("update-kubeconfig");
        c.arg("--name");
        c.arg(kube_env.environment.as_str());
        proof {
            assert(c@.args =~= spec_update_config_command(kube_env@).args);
        }
        c
    }

    /// One whole run of a streaming task. If a run is already live for
    /// `id`, the call is a silent no-op (idempotent scheduling). Otherwise
    /// it registers the run, classifies every observed item in arrival
    /// order, reports the failure event when the child exited non-zero or
    /// wrote to stderr, and releases the registry entry so the next start
    /// launches a fresh run.
    pub fn run_stream_task(
        &mut self,
        id: WidgetTaskId,
        kind: StreamKind,
        items: &Vec<StreamItem>,
        exit_success: bool,
    ) -> (fresh: bool)
        ensures
            fresh == !old(self).thread_manager.running(id),
            !fresh ==> *final(self) == *old(self),
            fresh ==> final(self).handler.events.deep_view() == old(
                self,
            ).handler.events.deep_view() + stream_run_events(kind, items.deep_view(), exit_success),
            fresh ==> final(self).thread_manager == old(self).thread_manager.with_running(
                id,
                false,
            ),
            final(self).kube_env == old(self).kube_env,
            final(self).commands_provider == old(self).commands_provider,
    {
        let fresh = self.thread_manager.start_if_absent(id);
        if !fresh {
            proof {
                assert(*final(self) == *old(self));
            }
            return false;
        }
        let ghost items_all = items.deep_view();
        let ghost events0 = self.handler.events.deep_view();
        let mut i: usize = 0;
        let mut saw_err = false;
        proof {
            assert(stream_items_events(kind, items_all.take(0)) =~= Seq::<TUIEventView>::empty());
            assert(self.handler.events.deep_view() =~= events0 + stream_items_events(
                kind,
                items_all.take(0),
            ));
        }
        while i < items.len()
            invariant
                items_all == items.deep_view(),
                i <= items.len(),
                self.handler.events.deep_view() == events0 + stream_items_events(
                    kind,
                    items_all.take(i as int),
                ),
                saw_err == has_err_line(items_all.take(i as int)),
                self.thread_manager == old(self).thread_manager.with_running(id, true),
                self.kube_env == old(self).kube_env,
                self.commands_provider == old(self).commands_provider,
            decreases items.len() - i,
        {
            let ghost prefix = items_all.take(i as int);
            let item = &items[i];
            proof {
                assert(items_all.take(i as int + 1).drop_last() =~= prefix);
                assert(items_all.take(i as int + 1).last() == item@);
            }
            match item {
                StreamItem::Out(line) => {
                    match kind {
                        StreamKind::LoginLogs => self.handler.process_login_line(line.as_str()),
                        StreamKind::WorkloadLogs => self.handler.add_logs(line.as_str()),
                    }
                },
                StreamItem::ErrLine(e) => {
                    self.handler.on_error(e.as_str());
                    saw_err = true;
                },
            }
            i = i + 1;
            proof {
                assert(self.handler.events.deep_view() =~= events0 + stream_items_events(
                    kind,
                    items_all.take(i as int),
                ));
            }
        }
        proof {
            assert(items_all.take(i as int) =~= items_all);
        }
        if !exit_success || saw_err {
            self.handler.on_error("process experienced some errors");
        }
        self.thread_manager.stop(id);
        proof {
            assert(self.handler.events.deep_view() =~= events0 + stream_run_events(
                kind,
                items_all,
                exit_success,
            ));
        }
        true
    }

    /// One whole login run: the streaming task over the login transcript.
    pub fn login(&mut self, items: &Vec<StreamItem>, exit_success: bool) -> (fresh: bool)
        ensures
            fresh == !old(self).thread_manager.running(WidgetTaskId::GetLoginLogs),
            !fresh ==> *final(self) == *old(self),
            fresh ==> final(self).handler.events.deep_view() == old(
                self,
            ).handler.events.deep_view() + stream_run_events(
                StreamKind::LoginLogs,
                items.deep_view(),
                exit_success,
            ),
            fresh ==> final(self).thread_manager == old(self).thread_manager.with_running(
                WidgetTaskId::GetLoginLogs,
                false,
            ),
            final(self).kube_env == old(self).kube_env,
            final(self).commands_provider == old(self).commands_provider,
    {
        self.run_stream_task(WidgetTaskId::GetLoginLogs, StreamKind::LoginLogs, items, exit_success)
    }

    /// One whole workload-log run: the streaming task over the log tail.
    pub fn get_logs(&mut self, items: &Vec<StreamItem>, exit_success: bool) -> (fresh: bool)
        ensures
            fresh == !old(self).thread_manager.running(WidgetTaskId::GetLogs),
            !fresh ==> *final(self) == *old(self),
            fresh ==> final(self).handler.events.deep_view() == old(
                self,
            ).handler.events.deep_view() + stream_run_events(
                StreamKind::WorkloadLogs,
                items.deep_view(),
                exit_success,
            ),
            fresh ==> final(self).thread_manager == old(self).thread_manager.with_running(
                WidgetTaskId::GetLogs,
                false,
            ),
            final(self).kube_env == old(self).kube_env,
            final(self).commands_provider == old(self).commands_provider,
    {
        self.run_stream_task(WidgetTaskId::GetLogs, StreamKind::WorkloadLogs, items, exit_success)
    }

    /// Digests the outcome of the quick pod listing: a fresh listing on
    /// success; on failure the error and the request to show the login
    /// prompt.
    pub fn get_pods(&mut self, outcome: &Result<String, String>)
        ensures
            outcome matches Ok(out) ==> final(self).handler.events.deep_view() == old(
                self,
            ).handler.events.deep_view().push(TUIEventView::AddPods(out@)),
            outcome matches Err(error) ==> final(self).handler.events.deep_view() == old(
                self,
            ).handler.events.deep_view().push(TUIEventView::Error(TUIErrorView::API(error@))).push(
                TUIEventView::RequestLoginStart,
            ),
            final(self).thread_manager == old(self).thread_manager,
            final(self).kube_env == old(self).kube_env,
            final(self).commands_provider == old(self).commands_provider,
    {
        match outcome {
            Ok(output) => {
                self.handler.add_pods(output.as_str());
            },
            Err(error) => {
                self.handler.on_error(error.as_str());
                self.handler.events.push(TUIEvent::RequestLoginStart);
                proof {
                    assert(self.handler.events.deep_view() =~= old(
                        self,
                    ).handler.events.deep_view().push(
                        TUIEventView::Error(TUIErrorView::API(error@)),
                    ).push(TUIEventView::RequestLoginStart));
                }
            },
        }
    }
}

} // verus!
