//! The widget data model: plain values describing what each pane shows.
//! Painting them to a terminal is the presentation layer's business; the
//! library only tracks their contents, which the event reducer mutates.

use vstd::prelude::*;

use crate::structs::{DataStream, TUIAction};

verus! {

/// Identifies a pane of the dashboard.
#[derive(Clone, Copy, Debug, Default, PartialEq, Eq, Structural)]
pub enum CliWidgetId {
    #[default]
    Default,
    Header,
    GetLogs,
    GetLoginLogs,
    GetPods,
    RequestLogin,
    LoginRequest,
}

/// The two supported widget color schemes.
#[derive(Clone, Copy, Debug, Default, PartialEq, Eq, Structural)]
pub enum ColorScheme {
    #[default]
    Black,
    White,
}

/// The closed set of text slots a widget can hold.
#[derive(Clone, Copy, Debug, PartialEq, Eq, Structural)]
pub enum WidgetDataKey {
    Logs,
    ErrorText,
    LoginInfo,
    KubeInfo,
    LoggedIn,
}

/// The text buffers of one widget, one optional buffer per slot.
#[derive(Debug)]
pub struct WidgetData {
    pub logs: Option<Vec<String>>,
    pub error: Option<Vec<String>>,
    pub login_info: Option<Vec<String>>,
    pub kube_info: Option<Vec<String>>,
    pub logged_in: Option<Vec<String>>,
}

/// Model of [`WidgetData`]: each slot as an optional sequence of lines.
#[verifier::ext_equal]
pub ghost struct WidgetDataView {
    pub logs: Option<Seq<Seq<char>>>,
    pub error: Option<Seq<Seq<char>>>,
    pub login_info: Option<Seq<Seq<char>>>,
    pub kube_info: Option<Seq<Seq<char>>>,
    pub logged_in: Option<Seq<Seq<char>>>,
}

impl WidgetDataView {
    /// The empty model: no slot filled.
    pub open spec fn empty() -> WidgetDataView {
        WidgetDataView {
            logs: None,
            error: None,
            login_info: None,
            kube_info: None,
            logged_in: None,
        }
    }

    /// The slot selected by `key`.
    pub open spec fn slot(self, key: WidgetDataKey) -> Option<Seq<Seq<char>>> {
        match key {
            WidgetDataKey::Logs => self.logs,
            WidgetDataKey::ErrorText => self.error,
            WidgetDataKey::LoginInfo => self.login_info,
            WidgetDataKey::KubeInfo => self.kube_info,
            WidgetDataKey::LoggedIn => self.logged_in,
        }
    }

    /// This model with the slot selected by `key` replaced by `text`.
    pub open spec fn with_slot(self, key: WidgetDataKey, text: Option<Seq<Seq<char>>>) -> WidgetDataView {
        match key {
            WidgetDataKey::Logs => WidgetDataView { logs: text, ..self },
            WidgetDataKey::ErrorText => WidgetDataView { error: text, ..self },
            WidgetDataKey::LoginInfo => WidgetDataView { login_info: text, ..self },
            WidgetDataKey::KubeInfo => WidgetDataView { kube_info: text, ..self },
            WidgetDataKey::LoggedIn => WidgetDataView { logged_in: text, ..self },
        }
    }
}

impl View for WidgetData {
    type V = WidgetDataView;

    open spec fn view(&self) -> WidgetDataView {
        WidgetDataView {
            logs: self.logs.deep_view(),
            error: self.error.deep_view(),
            login_info: self.login_info.deep_view(),
            kube_info: self.kube_info.deep_view(),
            logged_in: self.logged_in.deep_view(),
        }
    }
}

impl DeepView for WidgetData {
    type V = WidgetDataView;

    open spec fn deep_view(&self) -> WidgetDataView {
        self@
    }
}

/// An exact copy of a line buffer: the copy models the same sequence.
fn clone_lines(lines: &Vec<String>) -> (r: Vec<String>)
    ensures
        r@ == lines@,
{
    let mut r: Vec<String> = Vec::new();
    let mut i: usize = 0;
    while i < lines.len()
        invariant
            i <= lines@.len(),
            r@ == lines@.subrange(0, i as int),
        decreases lines@.len() - i,
    {
        r.push(lines[i].clone());
        i = i + 1;
        proof {
            assert(r@ =~= lines@.subrange(0, i as int));
        }
    }
    proof {
        assert(r@ =~= lines@);
    }
    r
}

/// An exact copy of an optional line buffer.
fn clone_slot(slot: &Option<Vec<String>>) -> (r: Option<Vec<String>>)
    ensures
        r.deep_view() == slot.deep_view(),
{
    match slot {
        Some(lines) => Some(clone_lines(lines)),
        None => None,
    }
}

impl Clone for WidgetData {
    fn clone(&self) -> (r: Self)
        ensures
            r@ == self@,
    {
        let r = WidgetData {
            logs: clone_slot(&self.logs),
            error: clone_slot(&self.error),
            login_info: clone_slot(&self.login_info),
            kube_info: clone_slot(&self.kube_info),
            logged_in: clone_slot(&self.logged_in),
        };
        proof {
            assert(r@ =~= self@);
        }
        r
    }
}

impl WidgetData {
    /// Fresh widget data: every slot empty.
    pub fn empty() -> (r: Self)
        ensures
            r@ == WidgetDataView::empty(),
    {
        WidgetData { logs: None, error: None, login_info: None, kube_info: None, logged_in: None }
    }

    /// Replaces the slot selected by `key` with the given lines.
    pub fn set(&mut self, key: WidgetDataKey, text: Vec<String>)
        ensures
            final(self)@ == old(self)@.with_slot(key, Some(text.deep_view())),
    {
        match key {
            WidgetDataKey::Logs => self.logs = Some(text),
            WidgetDataKey::ErrorText => self.error = Some(text),
            WidgetDataKey::LoginInfo => self.login_info = Some(text),
            WidgetDataKey::KubeInfo => self.kube_info = Some(text),
            WidgetDataKey::LoggedIn => self.logged_in = Some(text),
        }
    }

    /// Empties the slot selected by `key`.
    pub fn clear(&mut self, key: WidgetDataKey)
        ensures
            final(self)@ == old(self)@.with_slot(key, None),
    {
        match key {
            WidgetDataKey::Logs => self.logs = None,
            WidgetDataKey::ErrorText => self.error = None,
            WidgetDataKey::LoginInfo => self.login_info = None,
            WidgetDataKey::KubeInfo => self.kube_info = None,
            WidgetDataKey::LoggedIn => self.logged_in = None,
        }
    }

    /// Reads the slot selected by `key`.
    pub fn get(&self, key: WidgetDataKey) -> (r: &Option<Vec<String>>)
        ensures
            r.deep_view() == self@.slot(key),
    {
        match key {
            WidgetDataKey::Logs => &self.logs,
            WidgetDataKey::ErrorText => &self.error,
            WidgetDataKey::LoginInfo => &self.login_info,
            WidgetDataKey::KubeInfo => &self.kube_info,
            WidgetDataKey::LoggedIn => &self.logged_in,
        }
    }
}

/// Everything one pane tracks besides its text: identity, stream discipline,
/// whether its worker was started, and the intent that starts it.
#[derive(Debug)]
pub struct CliWidgetData {
    pub id: CliWidgetId,
    pub data_stream: DataStream,
    pub thread_started: bool,
    pub initiate_thread: Option<TUIAction>,
    pub data: WidgetData,
}

/// Model of [`CliWidgetData`].
#[verifier::ext_equal]
pub ghost struct CliWidgetDataView {
    pub id: CliWidgetId,
    pub data_stream: DataStream,
    pub thread_started: bool,
    pub initiate_thread: Option<TUIAction>,
    pub data: WidgetDataView,
}

impl View for CliWidgetData {
    type V = CliWidgetDataView;

    open spec fn view(&self) -> CliWidgetDataView {
        CliWidgetDataView {
            id: self.id,
            data_stream: self.data_stream,
            thread_started: self.thread_started,
            initiate_thread: self.initiate_thread,
            data: self.data@,
        }
    }
}

impl DeepView for CliWidgetData {
    type V = CliWidgetDataView;

    open spec fn deep_view(&self) -> CliWidgetDataView {
        self@
    }
}

impl Clone for CliWidgetData {
    fn clone(&self) -> (r: Self)
        ensures
            r@ == self@,
    {
        CliWidgetData {
            id: self.id,
            data_stream: self.data_stream,
            thread_started: self.thread_started,
            initiate_thread: self.initiate_thread,
            data: self.data.clone(),
        }
    }
}

impl CliWidgetData {
    /// Fresh pane data: nothing started, no text.
    pub fn new(id: CliWidgetId, data_stream: DataStream) -> (r: Self)
        ensures
            r@ == (CliWidgetDataView {
                id,
                data_stream,
                thread_started: false,
                initiate_thread: None,
                data: WidgetDataView::empty(),
            }),
    {
        CliWidgetData {
            id,
            data_stream,
            thread_started: false,
            initiate_thread: None,
            data: WidgetData::empty(),
        }
    }
}

/// One pane: identity, optional title, its data, its position and colors.
#[derive(Debug)]
pub struct CliWidget {
    pub id: CliWidgetId,
    pub title: Option<String>,
    pub data: CliWidgetData,
    pub pos: usize,
    pub color_scheme: ColorScheme,
    pub is_selected: bool,
}

/// Model of [`CliWidget`].
#[verifier::ext_equal]
pub ghost struct CliWidgetView {
    pub id: CliWidgetId,
    pub title: Option<Seq<char>>,
    pub data: CliWidgetDataView,
    pub pos: usize,
    pub color_scheme: ColorScheme,
    pub is_selected: bool,
}

impl View for CliWidget {
    type V = CliWidgetView;

    open spec fn view(&self) -> CliWidgetView {
        CliWidgetView {
            id: self.id,
            title: self.title.deep_view(),
            data: self.data@,
            pos: self.pos,
            color_scheme: self.color_scheme,
            is_selected: self.is_selected,
        }
    }
}

impl DeepView for CliWidget {
    type V = CliWidgetView;

    open spec fn deep_view(&self) -> CliWidgetView {
        self@
    }
}

impl Clone for CliWidget {
    fn clone(&self) -> (r: Self)
        ensures
            r@ == self@,
    {
        CliWidget {
            id: self.id,
            title: match &self.title {
                Some(t) => Some(t.clone()),
                None => None,
            },
            data: self.data.clone(),
            pos: self.pos,
            color_scheme: self.color_scheme,
            is_selected: self.is_selected,
        }
    }
}

impl CliWidget {
    /// A pane drawn with a border and a title.
    pub fn bordered(
        id: CliWidgetId,
        title: &str,
        pos: usize,
        data: CliWidgetData,
        color_scheme: ColorScheme,
    ) -> (r: Self)
        ensures
            r@ == (CliWidgetView {
                id,
                title: Some(title@),
                data: data@,
                pos,
                color_scheme,
                is_selected: false,
            }),
    {
        CliWidget { id, title: Some(title.to_owned()), data, pos, color_scheme, is_selected: false }
    }

    /// A borderless, untitled pane.
    pub fn unbordered(id: CliWidgetId, data: CliWidgetData, color_scheme: ColorScheme) -> (r: Self)
        ensures
            r@ == (CliWidgetView {
                id,
                title: None,
                data: data@,
                pos: 0,
                color_scheme,
                is_selected: false,
            }),
    {
        CliWidget { id, title: None, data, pos: 0, color_scheme, is_selected: false }
    }
}

/// The header pane: environment, error line, login info.
#[derive(Debug)]
pub struct HeaderWidget {
    pub widget: CliWidget,
}

/// The modal pane shown when the tool cannot reach the cluster.
#[derive(Debug)]
pub struct ErrorActionWidget {
    pub widget: CliWidget,
}

/// A body pane: login transcript, workload logs or pod listing.
#[derive(Debug)]
pub struct BodyWidget {
    pub full_screen: bool,
    pub widget: CliWidget,
}

/// Model of [`BodyWidget`].
#[verifier::ext_equal]
pub ghost struct BodyWidgetView {
    pub full_screen: bool,
    pub widget: CliWidgetView,
}

impl View for HeaderWidget {
    type V = CliWidgetView;

    open spec fn view(&self) -> CliWidgetView {
        self.widget@
    }
}

impl DeepView for HeaderWidget {
    type V = CliWidgetView;

    open spec fn deep_view(&self) -> CliWidgetView {
        self@
    }
}

impl View for ErrorActionWidget {
    type V = CliWidgetView;

    open spec fn view(&self) -> CliWidgetView {
        self.widget@
    }
}

impl DeepView for ErrorActionWidget {
    type V = CliWidgetView;

    open spec fn deep_view(&self) -> CliWidgetView {
        self@
    }
}

impl View for BodyWidget {
    type V = BodyWidgetView;

    open spec fn view(&self) -> BodyWidgetView {
        BodyWidgetView { full_screen: self.full_screen, widget: self.widget@ }
    }
}

impl DeepView for BodyWidget {
    type V = BodyWidgetView;

    open spec fn deep_view(&self) -> BodyWidgetView {
        self@
    }
}

impl Clone for HeaderWidget {
    fn clone(&self) -> (r: Self)
        ensures
            r@ == self@,
    {
        HeaderWidget { widget: self.widget.clone() }
    }
}

impl Clone for ErrorActionWidget {
    fn clone(&self) -> (r: Self)
        ensures
            r@ == self@,
    {
        ErrorActionWidget { widget: self.widget.clone() }
    }
}

impl Clone for BodyWidget {
    fn clone(&self) -> (r: Self)
        ensures
            r@ == self@,
    {
        BodyWidget { full_screen: self.full_screen, widget: self.widget.clone() }
    }
}

impl HeaderWidget {
    pub fn new(widget: CliWidget) -> (r: Self)
        ensures
            r@ == widget@,
    {
        HeaderWidget { widget }
    }

    /// Replaces one text slot of the header.
    pub fn set_data(&mut self, key: WidgetDataKey, text: Vec<String>)
        ensures
            final(self)@ == (CliWidgetView {
                data: CliWidgetDataView {
                    data: old(self)@.data.data.with_slot(key, Some(text.deep_view())),
                    ..old(self)@.data
                },
                ..old(self)@
            }),
    {
        self.widget.data.data.set(key, text);
    }

    /// Empties one text slot of the header.
    pub fn clear_text_data(&mut self, key: WidgetDataKey)
        ensures
            final(self)@ == (CliWidgetView {
                data: CliWidgetDataView {
                    data: old(self)@.data.data.with_slot(key, None),
                    ..old(self)@.data
                },
                ..old(self)@
            }),
    {
        self.widget.data.data.clear(key);
    }

    /// A copy of the header's pane data.
    pub fn get_data(&self) -> (r: CliWidgetData)
        ensures
            r@ == self@.data,
    {
        self.widget.data.clone()
    }
}

impl ErrorActionWidget {
    pub fn new(widget: CliWidget) -> (r: Self)
        ensures
            r@ == widget@,
    {
        ErrorActionWidget { widget }
    }

    /// Replaces one text slot of the modal pane.
    pub fn set_data(&mut self, key: WidgetDataKey, text: Vec<String>)
        ensures
            final(self)@ == (CliWidgetView {
                data: CliWidgetDataView {
                    data: old(self)@.data.data.with_slot(key, Some(text.deep_view())),
                    ..old(self)@.data
                },
                ..old(self)@
            }),
    {
        self.widget.data.data.set(key, text);
    }

    /// Replaces the modal pane's title.
    pub fn set_title(&mut self, title: &str)
        ensures
            final(self)@ == (CliWidgetView { title: Some(title@), ..old(self)@ }),
    {
        self.widget.title = Some(title.to_owned());
    }
}

impl BodyWidget {
    pub fn new(full_screen: bool, widget: CliWidget) -> (r: Self)
        ensures
            r@ == (BodyWidgetView { full_screen, widget: widget@ }),
    {
        BodyWidget { full_screen, widget }
    }

    /// Replaces one text slot of the pane.
    pub fn set_data(&mut self, key: WidgetDataKey, text: Vec<String>)
        ensures
            final(self)@ == (BodyWidgetView {
                widget: CliWidgetView {
                    data: CliWidgetDataView {
                        data: old(self)@.widget.data.data.with_slot(key, Some(text.deep_view())),
                        ..old(self)@.widget.data
                    },
                    ..old(self)@.widget
                },
                ..old(self)@
            }),
    {
        self.widget.data.data.set(key, text);
    }

    /// Empties one text slot of the pane.
    pub fn clear_text_data(&mut self, key: WidgetDataKey)
        ensures
            final(self)@ == (BodyWidgetView {
                widget: CliWidgetView {
                    data: CliWidgetDataView {
                        data: old(self)@.widget.data.data.with_slot(key, None),
                        ..old(self)@.widget.data
                    },
                    ..old(self)@.widget
                },
                ..old(self)@
            }),
    {
        self.widget.data.data.clear(key);
    }

    /// A copy of the pane's data.
    pub fn get_data(&self) -> (r: CliWidgetData)
        ensures
            r@ == self@.widget.data,
    {
        self.widget.data.clone()
    }

    /// Marks whether the pane's stream worker has been started.
    pub fn set_thread_started(&mut self, started: bool)
        ensures
            final(self)@ == (BodyWidgetView {
                widget: CliWidgetView {
                    data: CliWidgetDataView { thread_started: started, ..old(self)@.widget.data },
                    ..old(self)@.widget
                },
                ..old(self)@
            }),
    {
        self.widget.data.thread_started = started;
    }
}

/// Appends one chunk of text to a body pane's log slot, starting the slot
/// if it was empty.
pub fn add_to_widget_data(widget: &mut BodyWidget, text: String)
    ensures
        final(widget)@ == (BodyWidgetView {
            widget: CliWidgetView {
                data: CliWidgetDataView {
                    data: old(widget)@.widget.data.data.with_slot(
                        WidgetDataKey::Logs,
                        Some(appended_logs(old(widget)@.widget.data.data.logs, text@)),
                    ),
                    ..old(widget)@.widget.data
                },
                ..old(widget)@.widget
            },
            ..old(widget)@
        }),
{
    let taken = widget.widget.data.data.logs.take();
    match taken {
        Some(mut existing_text) => {
            existing_text.push(text);
            widget.widget.data.data.logs = Some(existing_text);
        },
        None => {
            let mut lines: Vec<String> = Vec::new();
            lines.push(text);
            widget.widget.data.data.logs = Some(lines);
        },
    }
    proof {
        assert(widget@.widget.data.data =~= old(widget)@.widget.data.data.with_slot(
            WidgetDataKey::Logs,
            Some(appended_logs(old(widget)@.widget.data.data.logs, text@)),
        ));
    }
}

/// The log slot after appending one chunk: pushed onto the existing lines,
/// or a one-line buffer if the slot was empty.
pub open spec fn appended_logs(logs: Option<Seq<Seq<char>>>, text: Seq<char>) -> Seq<Seq<char>> {
    match logs {
        Some(lines) => lines.push(text),
        None => seq![text],
    }
}

} // verus!
