//! What passes between a command and the world: notices to show, requests to
//! carry out, and the events that answer them.
use crate::cloudflared::{CloudflaredTunnel, CloudflaredTunnelView, CommandOutput, CommandOutputView};
use crate::config::{TunnelConfig, TunnelConfigView};
use crate::error::{Error, ErrorView};
use crate::metadata::{Metadata, TunnelMetaView};
use crate::paths::{config_path_of, is_reserved, metadata_path_of, name_reserved};
use crate::text::{contains_char, fresh, put, trim, trimmed};
use vstd::prelude::*;

verus! {

/// How a piece of text is shown.
#[derive(Clone, Copy, Debug, PartialEq, Eq, Structural)]
pub enum Style {
    Plain,
    Bold,
    Dimmed,
    Green,
    GreenBold,
    GreenUnderlined,
    Cyan,
}

/// A piece of a line.
#[derive(Debug)]
pub struct Span {
    pub style: Style,
    pub text: String,
}

/// The contents of a [`Span`].
pub struct SpanView {
    pub style: Style,
    pub text: Seq<char>,
}

impl View for Span {
    type V = SpanView;

    open spec fn view(&self) -> SpanView {
        SpanView { style: self.style, text: self.text@ }
    }
}

impl DeepView for Span {
    type V = SpanView;

    open spec fn deep_view(&self) -> SpanView {
        self@
    }
}

/// `text` as it is.
pub open spec fn plain(text: Seq<char>) -> SpanView {
    SpanView { style: Style::Plain, text }
}

/// `text` in bold.
pub open spec fn bold(text: Seq<char>) -> SpanView {
    SpanView { style: Style::Bold, text }
}

/// `text`, dimmed.
pub open spec fn dimmed(text: Seq<char>) -> SpanView {
    SpanView { style: Style::Dimmed, text }
}

/// `text` in green.
pub open spec fn green(text: Seq<char>) -> SpanView {
    SpanView { style: Style::Green, text }
}

/// `text` in cyan.
pub open spec fn cyan(text: Seq<char>) -> SpanView {
    SpanView { style: Style::Cyan, text }
}

/// `text` in green, underlined.
pub open spec fn link(text: Seq<char>) -> SpanView {
    SpanView { style: Style::GreenUnderlined, text }
}

/// Writes `text` at the end of `line`.
pub fn put_span(line: &mut Vec<Span>, style: Style, text: &str)
    ensures
        final(line).deep_view() == old(line).deep_view().push(SpanView { style, text: text@ }),
{
    put(line, Span { style, text: text.to_string() });
}

/// Something to show to the user.
#[derive(Debug)]
pub enum Notice {
    /// The title of a dialog.
    Intro(String),
    /// A line.
    Line(Vec<Span>),
    /// Work begins.
    SpinnerStart(String),
    /// The work that began last has ended.
    SpinnerStop(String),
    /// The end of a dialog.
    Outro(String),
    /// The end of a dialog that was given up.
    OutroCancel(String),
    /// The end of a dialog, with a note.
    OutroNote { title: String, body: String },
}

/// The texts of a [`Notice`].
pub enum NoticeView {
    Intro(Seq<char>),
    Line(Seq<SpanView>),
    SpinnerStart(Seq<char>),
    SpinnerStop(Seq<char>),
    Outro(Seq<char>),
    OutroCancel(Seq<char>),
    OutroNote { title: Seq<char>, body: Seq<char> },
}

impl View for Notice {
    type V = NoticeView;

    open spec fn view(&self) -> NoticeView {
        match self {
            Notice::Intro(t) => NoticeView::Intro(t@),
            Notice::Line(l) => NoticeView::Line(l.deep_view()),
            Notice::SpinnerStart(t) => NoticeView::SpinnerStart(t@),
            Notice::SpinnerStop(t) => NoticeView::SpinnerStop(t@),
            Notice::Outro(t) => NoticeView::Outro(t@),
            Notice::OutroCancel(t) => NoticeView::OutroCancel(t@),
            Notice::OutroNote { title, body } => NoticeView::OutroNote {
                title: title@,
                body: body@,
            },
        }
    }
}

impl DeepView for Notice {
    type V = NoticeView;

    open spec fn deep_view(&self) -> NoticeView {
        self@
    }
}

/// Which answers a question takes.
#[derive(Debug)]
pub enum Check {
    Anything,
    /// The name of a tunnel to be created, for the names that cftun manages, those
    /// that cloudflared lists, and the home directory.
    NewName { managed: Vec<String>, listed: Vec<String>, home: String },
    /// A public host name.
    Hostname,
}

/// The contents of a [`Check`].
pub enum CheckView {
    Anything,
    NewName { managed: Seq<Seq<char>>, listed: Seq<Seq<char>>, home: Seq<char> },
    Hostname,
}

impl View for Check {
    type V = CheckView;

    open spec fn view(&self) -> CheckView {
        match self {
            Check::Anything => CheckView::Anything,
            Check::NewName { managed, listed, home } => CheckView::NewName {
                managed: managed.deep_view(),
                listed: listed.deep_view(),
                home: home@,
            },
            Check::Hostname => CheckView::Hostname,
        }
    }
}

/// What is wrong with `answer`, apart from white space around it. Since a name is
/// taken as it was typed, white space counts for whether it is reserved.
pub open spec fn complaint(check: CheckView, answer: Seq<char>) -> Option<Seq<char>> {
    let text = trimmed(answer);
    match check {
        CheckView::Anything => None,
        CheckView::NewName { managed, listed, home } => if text.len() == 0 {
            Some("Name is required"@)
        } else if managed.contains(text) {
            Some("Already managed by cftun"@)
        } else if listed.contains(text) {
            Some("Exists in cloudflared — import it instead"@)
        } else if is_reserved(home, answer) {
            Some("Reserved for the metadata of cftun"@)
        } else {
            None
        },
        CheckView::Hostname => if text.len() == 0 {
            Some("Hostname is required"@)
        } else if !text.contains('.') {
            Some("Must be a valid domain name"@)
        } else {
            None
        },
    }
}

/// Whether `text` is one of `texts`.
pub fn has_text(texts: &Vec<String>, text: &String) -> (r: bool)
    ensures
        r == texts.deep_view().contains(text@),
{
    let mut i: usize = 0;
    while i < texts.len()
        invariant
            i <= texts.len(),
            forall|j: int| 0 <= j < i ==> texts.deep_view()[j] != text@,
        decreases texts.len() - i,
    {
        if texts[i] == *text {
            assert(texts.deep_view()[i as int] == text@);
            return true;
        }
        i += 1;
    }
    false
}

impl Check {
    /// Whether the question takes `answer`; if not, what is wrong with it.
    pub fn verdict(&self, answer: &str) -> (r: Result<(), String>)
        ensures
            match r {
                Ok(_) => complaint(self@, answer@) is None,
                Err(text) => complaint(self@, answer@) == Some(text@),
            },
    {
        let text = trim(answer);
        match self {
            Check::Anything => Ok(()),
            Check::NewName { managed, listed, home } => {
                if text.as_str().is_empty() {
                    Err("Name is required".to_string())
                } else if has_text(managed, &text) {
                    Err("Already managed by cftun".to_string())
                } else if has_text(listed, &text) {
                    Err("Exists in cloudflared — import it instead".to_string())
                } else if name_reserved(home.as_str(), answer) {
                    Err("Reserved for the metadata of cftun".to_string())
                } else {
                    Ok(())
                }
            },
            Check::Hostname => {
                if text.as_str().is_empty() {
                    Err("Hostname is required".to_string())
                } else if !contains_char(text.as_str(), '.') {
                    Err("Must be a valid domain name".to_string())
                } else {
                    Ok(())
                }
            },
        }
    }
}

/// A question that is answered with a text.
#[derive(Debug)]
pub struct Question {
    pub prompt: String,
    pub placeholder: String,
    /// The answer that is already there.
    pub default: Option<String>,
    /// Answers to complete from.
    pub suggestions: Vec<String>,
    pub check: Check,
}

/// The contents of a [`Question`].
pub struct QuestionView {
    pub prompt: Seq<char>,
    pub placeholder: Seq<char>,
    pub default: Option<Seq<char>>,
    pub suggestions: Seq<Seq<char>>,
    pub check: CheckView,
}

impl View for Question {
    type V = QuestionView;

    open spec fn view(&self) -> QuestionView {
        QuestionView {
            prompt: self.prompt@,
            placeholder: self.placeholder@,
            default: self.default.deep_view(),
            suggestions: self.suggestions.deep_view(),
            check: self.check@,
        }
    }
}

/// One of the answers to choose from.
#[derive(Debug)]
pub struct Choice {
    pub value: String,
    pub label: Vec<Span>,
    pub hint: String,
}

/// The contents of a [`Choice`].
pub struct ChoiceView {
    pub value: Seq<char>,
    pub label: Seq<SpanView>,
    pub hint: Seq<char>,
}

impl View for Choice {
    type V = ChoiceView;

    open spec fn view(&self) -> ChoiceView {
        ChoiceView { value: self.value@, label: self.label.deep_view(), hint: self.hint@ }
    }
}

impl DeepView for Choice {
    type V = ChoiceView;

    open spec fn deep_view(&self) -> ChoiceView {
        self@
    }
}

/// How a command ends.
#[derive(Debug)]
pub enum Outcome {
    Success,
    /// With an error of its own.
    Failure(Error),
    /// With the failure that was reported last, and words to put before it.
    Reported(Option<String>),
}

/// The contents of an [`Outcome`].
pub enum OutcomeView {
    Success,
    Failure(ErrorView),
    Reported(Option<Seq<char>>),
}

impl View for Outcome {
    type V = OutcomeView;

    open spec fn view(&self) -> OutcomeView {
        match self {
            Outcome::Success => OutcomeView::Success,
            Outcome::Failure(e) => OutcomeView::Failure(e@),
            Outcome::Reported(context) => OutcomeView::Reported(context.deep_view()),
        }
    }
}

/// Something that a command needs done before it can go on.
#[derive(Debug)]
pub enum Request {
    /// Find the home directory, and read the metadata in it.
    LoadMetadata,
    /// Ask cloudflared for the tunnels.
    FetchTunnels,
    /// Run cloudflared and wait for it.
    RunCloudflared(Vec<String>),
    /// Run cloudflared in the user's terminal and wait for it.
    RunTunnel(Vec<String>),
    /// Ask the user.
    Ask(Question),
    /// Let the user choose. Where `search` is set, the choices can be filtered.
    Select { message: String, search: bool, choices: Vec<Choice> },
    /// Ask the user for a yes.
    Confirm(String),
    WriteConfig { path: String, config: TunnelConfig },
    SaveMetadata(Metadata),
    CheckExists(String),
    RemoveFile(String),
    ReadFile(String),
    /// Nothing more: the command has ended.
    Stop(Outcome),
}

/// The contents of a [`Request`].
pub enum RequestView {
    LoadMetadata,
    FetchTunnels,
    RunCloudflared(Seq<Seq<char>>),
    RunTunnel(Seq<Seq<char>>),
    Ask(QuestionView),
    Select { message: Seq<char>, search: bool, choices: Seq<ChoiceView> },
    Confirm(Seq<char>),
    WriteConfig { path: Seq<char>, config: TunnelConfigView },
    SaveMetadata(Map<Seq<char>, TunnelMetaView>),
    CheckExists(Seq<char>),
    RemoveFile(Seq<char>),
    ReadFile(Seq<char>),
    Stop(OutcomeView),
}

impl View for Request {
    type V = RequestView;

    open spec fn view(&self) -> RequestView {
        match self {
            Request::LoadMetadata => RequestView::LoadMetadata,
            Request::FetchTunnels => RequestView::FetchTunnels,
            Request::RunCloudflared(args) => RequestView::RunCloudflared(args.deep_view()),
            Request::RunTunnel(args) => RequestView::RunTunnel(args.deep_view()),
            Request::Ask(question) => RequestView::Ask(question@),
            Request::Select { message, search, choices } => RequestView::Select {
                message: message@,
                search: *search,
                choices: choices.deep_view(),
            },
            Request::Confirm(text) => RequestView::Confirm(text@),
            Request::WriteConfig { path, config } => RequestView::WriteConfig {
                path: path@,
                config: config@,
            },
            Request::SaveMetadata(metadata) => RequestView::SaveMetadata(metadata@),
            Request::CheckExists(path) => RequestView::CheckExists(path@),
            Request::RemoveFile(path) => RequestView::RemoveFile(path@),
            Request::ReadFile(path) => RequestView::ReadFile(path@),
            Request::Stop(outcome) => RequestView::Stop(outcome@),
        }
    }
}

/// Whether carrying out `request` can change what is kept on this machine or at
/// Cloudflare.
pub open spec fn changes(request: RequestView) -> bool {
    request is RunCloudflared || request is WriteConfig || request is SaveMetadata
        || request is RemoveFile
}

/// The answer to a request.
#[derive(Debug)]
pub enum Event {
    Loaded { home: String, metadata: Metadata },
    Tunnels(Vec<CloudflaredTunnel>),
    Output(CommandOutput),
    Exited { success: bool, status: String },
    /// What the user typed or chose.
    Answer(String),
    Confirmed(bool),
    Exists(bool),
    Content(String),
    Done,
    /// The request could not be carried out.
    Failed,
}

/// The contents of an [`Event`].
pub enum EventView {
    Loaded { home: Seq<char>, metadata: Map<Seq<char>, TunnelMetaView> },
    Tunnels(Seq<CloudflaredTunnelView>),
    Output(CommandOutputView),
    Exited { success: bool, status: Seq<char> },
    Answer(Seq<char>),
    Confirmed(bool),
    Exists(bool),
    Content(Seq<char>),
    Done,
    Failed,
}

impl View for Event {
    type V = EventView;

    open spec fn view(&self) -> EventView {
        match self {
            Event::Loaded { home, metadata } => EventView::Loaded {
                home: home@,
                metadata: metadata@,
            },
            Event::Tunnels(tunnels) => EventView::Tunnels(tunnels.deep_view()),
            Event::Output(output) => EventView::Output(output@),
            Event::Exited { success, status } => EventView::Exited {
                success: *success,
                status: status@,
            },
            Event::Answer(text) => EventView::Answer(text@),
            Event::Confirmed(yes) => EventView::Confirmed(*yes),
            Event::Exists(there) => EventView::Exists(*there),
            Event::Content(text) => EventView::Content(text@),
            Event::Done => EventView::Done,
            Event::Failed => EventView::Failed,
        }
    }
}

/// What a command does next: it shows the notices, in order, and then needs the
/// request carried out.
#[derive(Debug)]
pub struct Step {
    pub notices: Vec<Notice>,
    pub request: Request,
}

/// The contents of a [`Step`].
pub struct StepView {
    pub notices: Seq<NoticeView>,
    pub request: RequestView,
}

impl View for Step {
    type V = StepView;

    open spec fn view(&self) -> StepView {
        StepView { notices: self.notices.deep_view(), request: self.request@ }
    }
}

/// The step that needs `request` and shows nothing.
pub open spec fn quiet(request: RequestView) -> StepView {
    StepView { notices: Seq::empty(), request }
}

/// The step that ends a command because of the failure that was reported.
pub open spec fn reported() -> StepView {
    quiet(RequestView::Stop(OutcomeView::Reported(None)))
}

/// The step that shows `notices` and ends the command with `error`.
pub open spec fn failing(notices: Seq<NoticeView>, error: ErrorView) -> StepView {
    StepView { notices, request: RequestView::Stop(OutcomeView::Failure(error)) }
}

/// The step that shows `notices` and ends the command well.
pub open spec fn ending(notices: Seq<NoticeView>) -> StepView {
    StepView { notices, request: RequestView::Stop(OutcomeView::Success) }
}

impl Step {
    /// Needs `request` and shows nothing.
    pub fn quiet(request: Request) -> (r: Step)
        ensures
            r@ == quiet(request@),
    {
        Step { notices: fresh(), request }
    }

    /// Ends the command because of the failure that was reported.
    pub fn reported() -> (r: Step)
        ensures
            r@ == reported(),
    {
        Step::quiet(Request::Stop(Outcome::Reported(None)))
    }

    /// Shows `notices` and ends the command with `error`.
    pub fn failing(notices: Vec<Notice>, error: Error) -> (r: Step)
        ensures
            r@ == failing(notices.deep_view(), error@),
    {
        Step { notices, request: Request::Stop(Outcome::Failure(error)) }
    }

    /// Shows `notices` and ends the command well.
    pub fn ending(notices: Vec<Notice>) -> (r: Step)
        ensures
            r@ == ending(notices.deep_view()),
    {
        Step { notices, request: Request::Stop(Outcome::Success) }
    }
}

/// What a user reads of a line, whatever the styles.
pub open spec fn run_together(spans: Seq<SpanView>) -> Seq<char>
    decreases spans.len(),
{
    if spans.len() == 0 {
        Seq::empty()
    } else {
        run_together(spans.drop_last()) + spans.last().text
    }
}

/// What a user reads of a notice.
pub open spec fn readable(notice: NoticeView) -> Seq<char> {
    match notice {
        NoticeView::Line(spans) => run_together(spans),
        NoticeView::Intro(text) => text,
        NoticeView::SpinnerStart(text) => text,
        NoticeView::SpinnerStop(text) => text,
        NoticeView::Outro(text) => text,
        NoticeView::OutroCancel(text) => text,
        NoticeView::OutroNote { title, body } => title.push('\n') + body,
    }
}

/// A piece more is read behind the others.
pub broadcast proof fn lemma_run_together(spans: Seq<SpanView>, span: SpanView)
    ensures
        #[trigger] run_together(spans.push(span)) == run_together(spans) + span.text,
{
    assert(spans.push(span).drop_last() =~= spans);
}

/// The name of a new tunnel is taken exactly where, apart from white space around it,
/// it is something and neither managed nor listed, and where as it was typed its
/// configuration would not stand in the file of the metadata. A host name is taken
/// exactly where, apart from white space, it is something with a dot in it. Anything
/// else is taken.
pub proof fn law_answers_taken(
    managed: Seq<Seq<char>>,
    listed: Seq<Seq<char>>,
    home: Seq<char>,
    answer: Seq<char>,
)
    ensures
        complaint(CheckView::NewName { managed, listed, home }, answer) is None <==> {
            &&& trimmed(answer).len() > 0
            &&& !managed.contains(trimmed(answer))
            &&& !listed.contains(trimmed(answer))
            &&& config_path_of(home, answer) != metadata_path_of(home)
        },
        complaint(CheckView::Hostname, answer) is None <==> trimmed(answer).len() > 0 && trimmed(
            answer,
        ).contains('.'),
        complaint(CheckView::Anything, answer) is None,
{
}

/// What is said of an answer that is not taken.
pub proof fn law_complaints(
    managed: Seq<Seq<char>>,
    listed: Seq<Seq<char>>,
    home: Seq<char>,
    answer: Seq<char>,
)
    ensures
        ({
            let said = complaint(CheckView::NewName { managed, listed, home }, answer);
            let text = trimmed(answer);
            &&& text.len() == 0 ==> said == Some("Name is required"@)
            &&& text.len() > 0 && managed.contains(text) ==> said == Some(
                "Already managed by cftun"@,
            )
            &&& text.len() > 0 && !managed.contains(text) && listed.contains(text) ==> said == Some(
                "Exists in cloudflared — import it instead"@,
            )
        }),
        trimmed(answer).len() == 0 ==> complaint(CheckView::Hostname, answer) == Some(
            "Hostname is required"@,
        ),
        trimmed(answer).len() > 0 && !trimmed(answer).contains('.') ==> complaint(
            CheckView::Hostname,
            answer,
        ) == Some("Must be a valid domain name"@),
{
}

/// What is said of a line, a question or a choice is said of all of it.
pub proof fn law_dialog_in_view(span: Span, question: Question, choice: Choice, step: Step)
    ensures
        span@.style == span.style,
        span@.text == span.text@,
        span.deep_view() == span@,
        question@.prompt == question.prompt@,
        question@.placeholder == question.placeholder@,
        question.default is None ==> question@.default is None,
        question.default matches Some(text) ==> question@.default == Some(text@),
        question@.suggestions == question.suggestions.deep_view(),
        question@.check == question.check@,
        choice@.value == choice.value@,
        choice@.label == choice.label.deep_view(),
        choice@.hint == choice.hint@,
        choice.deep_view() == choice@,
        step@.notices == step.notices.deep_view(),
        step@.request == step.request@,
{
}

/// What is said of a notice is said of the text that is shown.
pub proof fn law_notice_in_view(notice: Notice)
    ensures
        notice.deep_view() == notice@,
        match notice {
            Notice::Intro(t) => notice@ == NoticeView::Intro(t@),
            Notice::Line(l) => notice@ == NoticeView::Line(l.deep_view()),
            Notice::SpinnerStart(t) => notice@ == NoticeView::SpinnerStart(t@),
            Notice::SpinnerStop(t) => notice@ == NoticeView::SpinnerStop(t@),
            Notice::Outro(t) => notice@ == NoticeView::Outro(t@),
            Notice::OutroCancel(t) => notice@ == NoticeView::OutroCancel(t@),
            Notice::OutroNote { title, body } => notice@ == (NoticeView::OutroNote {
                title: title@,
                body: body@,
            }),
        },
{
}

/// What is said of a request is said of all that is to be carried out.
pub proof fn law_request_in_view(request: Request)
    ensures
        match request {
            Request::LoadMetadata => request@ is LoadMetadata,
            Request::FetchTunnels => request@ is FetchTunnels,
            Request::RunCloudflared(args) => request@ == RequestView::RunCloudflared(
                args.deep_view(),
            ),
            Request::RunTunnel(args) => request@ == RequestView::RunTunnel(args.deep_view()),
            Request::Ask(question) => request@ == RequestView::Ask(question@),
            Request::Select { message, search, choices } => request@ == (RequestView::Select {
                message: message@,
                search,
                choices: choices.deep_view(),
            }),
            Request::Confirm(text) => request@ == RequestView::Confirm(text@),
            Request::WriteConfig { path, config } => request@ == (RequestView::WriteConfig {
                path: path@,
                config: config@,
            }),
            Request::SaveMetadata(metadata) => request@ == RequestView::SaveMetadata(metadata@),
            Request::CheckExists(path) => request@ == RequestView::CheckExists(path@),
            Request::RemoveFile(path) => request@ == RequestView::RemoveFile(path@),
            Request::ReadFile(path) => request@ == RequestView::ReadFile(path@),
            Request::Stop(Outcome::Success) => request@ == RequestView::Stop(OutcomeView::Success),
            Request::Stop(Outcome::Failure(e)) => request@ == RequestView::Stop(
                OutcomeView::Failure(e@),
            ),
            Request::Stop(Outcome::Reported(None)) => request@ == RequestView::Stop(
                OutcomeView::Reported(None),
            ),
            Request::Stop(Outcome::Reported(Some(text))) => request@ == RequestView::Stop(
                OutcomeView::Reported(Some(text@)),
            ),
        },
{
}

/// What is said of an event is said of all that it tells.
pub proof fn law_event_in_view(event: Event)
    ensures
        match event {
            Event::Loaded { home, metadata } => event@ == (EventView::Loaded {
                home: home@,
                metadata: metadata@,
            }),
            Event::Tunnels(tunnels) => event@ == EventView::Tunnels(tunnels.deep_view()),
            Event::Output(output) => event@ == EventView::Output(output@),
            Event::Exited { success, status } => event@ == (EventView::Exited {
                success,
                status: status@,
            }),
            Event::Answer(text) => event@ == EventView::Answer(text@),
            Event::Confirmed(yes) => event@ == EventView::Confirmed(yes),
            Event::Exists(there) => event@ == EventView::Exists(there),
            Event::Content(text) => event@ == EventView::Content(text@),
            Event::Done => event@ == EventView::Done,
            Event::Failed => event@ == EventView::Failed,
        },
{
}

} // verus!
