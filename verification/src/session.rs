//! The session at the terminal: what it waits for, and what each line that is
//! typed, or the end of a connection, makes of it and of the table.

use vstd::prelude::*;

use crate::connect::{failure_message, failure_of, launch, launch_of, Launch, LaunchView};
use crate::profile::{parse_port, Fields, Profile, ProfileView};
use crate::selection::{
    classify, id_answer_of, read_id_answer, selection_of, Command, IdAnswer, Selection,
};
use crate::store::{ProfileStore, StoreError, StoreView};
use crate::text::{decimal, decimal_text, trim, trimmed};

verus! {

/// The texts of a profile, in the order in which they are asked for.
#[derive(Debug, Clone, Copy, PartialEq, Eq)]
pub enum Field {
    /// The label of the profile.
    Name,
    /// The host to connect to.
    Host,
    /// The port, as it is typed.
    Port,
    /// The user to log in as.
    Username,
    /// The password.
    Password,
}

/// The answers given so far while a profile is typed in. The password is the
/// last answer and is never kept here.
#[derive(Debug, Clone, PartialEq, Eq)]
pub struct Draft {
    /// The answer for the name.
    pub name: String,
    /// The answer for the host.
    pub host: String,
    /// The answer for the port, as it was typed.
    pub port: String,
    /// The answer for the user.
    pub username: String,
}

/// The mathematical value of a `Draft`.
pub struct DraftView {
    pub name: Seq<char>,
    pub host: Seq<char>,
    pub port: Seq<char>,
    pub username: Seq<char>,
}

impl View for Draft {
    type V = DraftView;

    open spec fn view(&self) -> DraftView {
        DraftView { name: self.name@, host: self.host@, port: self.port@, username: self.username@ }
    }
}

impl DraftView {
    /// The draft before the first answer.
    pub open spec fn blank() -> DraftView {
        DraftView {
            name: Seq::empty(),
            host: Seq::empty(),
            port: Seq::empty(),
            username: Seq::empty(),
        }
    }

    /// The draft with one more answer written into it. The password is not
    /// written.
    pub open spec fn with(self, field: Field, answer: Seq<char>) -> DraftView {
        match field {
            Field::Name => DraftView { name: answer, ..self },
            Field::Host => DraftView { host: answer, ..self },
            Field::Port => DraftView { port: answer, ..self },
            Field::Username => DraftView { username: answer, ..self },
            Field::Password => self,
        }
    }

    /// The fields of a profile, once the password has been given too.
    pub open spec fn fields(self, password: Seq<char>) -> Fields {
        Fields {
            name: self.name,
            host: self.host,
            port: self.port,
            username: self.username,
            password,
        }
    }
}

/// The field that is asked for after `field`; the password is the last.
pub open spec fn following(field: Field) -> Field {
    match field {
        Field::Name => Field::Host,
        Field::Host => Field::Port,
        Field::Port => Field::Username,
        Field::Username => Field::Password,
        Field::Password => Field::Password,
    }
}

/// What the session waits for.
#[derive(Debug, Clone, PartialEq, Eq)]
pub enum Session {
    /// The menu is shown: a selection is awaited.
    Menu,
    /// The id of the profile to change is awaited.
    UpdateId,
    /// The id of the profile to remove is awaited.
    DeleteId,
    /// A new profile is typed in: the answer for `field` is awaited.
    Creating { field: Field, draft: Draft },
    /// New texts for the profile `previous` are typed in: the answer for
    /// `field` is awaited.
    Updating { previous: Profile, field: Field, draft: Draft },
    /// The command that connects to the profile runs: its end is awaited.
    Connecting(Profile),
    /// The session is over.
    Terminated,
}

/// The mathematical value of a `Session`.
pub enum SessionView {
    Menu,
    UpdateId,
    DeleteId,
    Creating { field: Field, draft: DraftView },
    Updating { previous: ProfileView, field: Field, draft: DraftView },
    Connecting(ProfileView),
    Terminated,
}

impl View for Session {
    type V = SessionView;

    open spec fn view(&self) -> SessionView {
        match self {
            Session::Menu => SessionView::Menu,
            Session::UpdateId => SessionView::UpdateId,
            Session::DeleteId => SessionView::DeleteId,
            Session::Creating { field, draft } => SessionView::Creating {
                field: *field,
                draft: draft@,
            },
            Session::Updating { previous, field, draft } => SessionView::Updating {
                previous: previous@,
                field: *field,
                draft: draft@,
            },
            Session::Connecting(profile) => SessionView::Connecting(profile@),
            Session::Terminated => SessionView::Terminated,
        }
    }
}

/// What happened outside the session.
#[derive(Debug, Clone, PartialEq, Eq)]
pub enum Event {
    /// The user typed a line.
    Line(String),
    /// The command that connects has ended, well or not.
    Exited(bool),
}

/// The mathematical value of an `Event`.
pub enum EventView {
    Line(Seq<char>),
    Exited(bool),
}

impl View for Event {
    type V = EventView;

    open spec fn view(&self) -> EventView {
        match self {
            Event::Line(line) => EventView::Line(line@),
            Event::Exited(well) => EventView::Exited(*well),
        }
    }
}

/// A change that the table has made and that is to be written to where the
/// table is kept.
#[derive(Debug, Clone, PartialEq, Eq)]
pub enum Change {
    /// This profile was added.
    Insert(Profile),
    /// The profile with this one's id now holds this one's texts.
    Replace(Profile),
    /// The profile with this id was removed, if there was one.
    Remove(i32),
}

/// The mathematical value of a `Change`.
pub enum ChangeView {
    Insert(ProfileView),
    Replace(ProfileView),
    Remove(int),
}

impl View for Change {
    type V = ChangeView;

    open spec fn view(&self) -> ChangeView {
        match self {
            Change::Insert(profile) => ChangeView::Insert(profile@),
            Change::Replace(profile) => ChangeView::Replace(profile@),
            Change::Remove(id) => ChangeView::Remove(*id as int),
        }
    }
}

/// What is to be done outside the session after a step.
#[derive(Debug, Clone, PartialEq, Eq)]
pub enum Action {
    /// Nothing.
    Nothing,
    /// Tell the user this, on the standard output.
    Report(String),
    /// Tell the user of this failure, on the standard error.
    ReportFailure(String),
    /// Write this change to where the table is kept.
    Persist(Change),
    /// Run this command, on the terminal that the session has, and hand its
    /// end back as an `Event::Exited`.
    Launch(Launch),
    /// Give up: the table cannot go on.
    Fail(StoreError),
}

/// The mathematical value of an `Action`.
pub enum ActionView {
    Nothing,
    Report(Seq<char>),
    ReportFailure(Seq<char>),
    Persist(ChangeView),
    Launch(LaunchView),
    Fail(StoreError),
}

impl View for Action {
    type V = ActionView;

    open spec fn view(&self) -> ActionView {
        match self {
            Action::Nothing => ActionView::Nothing,
            Action::Report(text) => ActionView::Report(text@),
            Action::ReportFailure(text) => ActionView::ReportFailure(text@),
            Action::Persist(change) => ActionView::Persist(change@),
            Action::Launch(command) => ActionView::Launch(command@),
            Action::Fail(error) => ActionView::Fail(*error),
        }
    }
}

/// What a step leaves: the session, what is to be done outside, and the table.
pub struct Outcome {
    pub session: SessionView,
    pub action: ActionView,
    pub table: StoreView,
}

/// What is said of a line at the menu that selects nothing.
pub open spec fn invalid_choice() -> Seq<char> {
    "无效的选择"@
}

/// A step at the menu.
pub open spec fn menu_step(table: StoreView, line: Seq<char>) -> Outcome {
    match selection_of(line) {
        Selection::Connect(id) => match table.find(id as int) {
            Some(profile) => Outcome {
                session: SessionView::Connecting(profile),
                action: ActionView::Launch(launch_of(profile)),
                table,
            },
            None => Outcome {
                session: SessionView::Terminated,
                action: ActionView::Nothing,
                table,
            },
        },
        Selection::Command(Command::Create) => Outcome {
            session: SessionView::Creating { field: Field::Name, draft: DraftView::blank() },
            action: ActionView::Nothing,
            table,
        },
        Selection::Command(Command::Update) => Outcome {
            session: SessionView::UpdateId,
            action: ActionView::Nothing,
            table,
        },
        Selection::Command(Command::Delete) => Outcome {
            session: SessionView::DeleteId,
            action: ActionView::Nothing,
            table,
        },
        Selection::Command(Command::Quit) => Outcome {
            session: SessionView::Terminated,
            action: ActionView::Nothing,
            table,
        },
        Selection::Unknown => Outcome {
            session: SessionView::Menu,
            action: ActionView::Report(invalid_choice()),
            table,
        },
    }
}

/// A step where the id of the profile to change was asked for.
pub open spec fn update_id_step(table: StoreView, line: Seq<char>) -> Outcome {
    match id_answer_of(line) {
        IdAnswer::Id(id) => match table.find(id as int) {
            Some(previous) => Outcome {
                session: SessionView::Updating {
                    previous,
                    field: Field::Name,
                    draft: DraftView::blank(),
                },
                action: ActionView::Nothing,
                table,
            },
            None => Outcome { session: SessionView::Menu, action: ActionView::Nothing, table },
        },
        IdAnswer::Abandoned => Outcome {
            session: SessionView::Menu,
            action: ActionView::Nothing,
            table,
        },
    }
}

/// A step where the id of the profile to remove was asked for.
pub open spec fn delete_id_step(table: StoreView, line: Seq<char>) -> Outcome {
    match id_answer_of(line) {
        IdAnswer::Id(id) => Outcome {
            session: SessionView::Menu,
            action: ActionView::Persist(ChangeView::Remove(id as int)),
            table: table.deleted(id as int),
        },
        IdAnswer::Abandoned => Outcome {
            session: SessionView::Menu,
            action: ActionView::Nothing,
            table,
        },
    }
}

/// The end of typing in a new profile: `create`, and back to the menu.
pub open spec fn create_step(table: StoreView, fields: Fields) -> Outcome {
    match table.creation(fields) {
        Ok(id) => Outcome {
            session: SessionView::Menu,
            action: ActionView::Persist(ChangeView::Insert(fields.record(id))),
            table: table.created(fields),
        },
        Err(StoreError::Persistence) => Outcome {
            session: SessionView::Terminated,
            action: ActionView::Fail(StoreError::Persistence),
            table,
        },
        Err(_) => Outcome { session: SessionView::Menu, action: ActionView::Nothing, table },
    }
}

/// The end of typing in new texts for a profile: `update`, and back to the
/// menu.
pub open spec fn update_step(table: StoreView, id: int, fields: Fields) -> Outcome {
    if fields.complete() && table.has(id) {
        Outcome {
            session: SessionView::Menu,
            action: ActionView::Persist(ChangeView::Replace(fields.record(id))),
            table: table.updated(id, fields),
        }
    } else {
        Outcome { session: SessionView::Menu, action: ActionView::Nothing, table }
    }
}

/// What one event makes of the session and the table. A line is an answer to
/// what the session waits for; white space around an answer does not count.
/// An event that the session does not wait for changes nothing.
pub open spec fn step_of(session: SessionView, table: StoreView, event: EventView) -> Outcome {
    match (session, event) {
        (SessionView::Menu, EventView::Line(line)) => menu_step(table, line),
        (SessionView::UpdateId, EventView::Line(line)) => update_id_step(table, line),
        (SessionView::DeleteId, EventView::Line(line)) => delete_id_step(table, line),
        (SessionView::Creating { field, draft }, EventView::Line(line)) => match field {
            Field::Password => create_step(table, draft.fields(trimmed(line))),
            _ => Outcome {
                session: SessionView::Creating {
                    field: following(field),
                    draft: draft.with(field, trimmed(line)),
                },
                action: ActionView::Nothing,
                table,
            },
        },
        (SessionView::Updating { previous, field, draft }, EventView::Line(line)) => match field {
            Field::Password => update_step(table, previous.id, draft.fields(trimmed(line))),
            _ => Outcome {
                session: SessionView::Updating {
                    previous,
                    field: following(field),
                    draft: draft.with(field, trimmed(line)),
                },
                action: ActionView::Nothing,
                table,
            },
        },
        (SessionView::Connecting(profile), EventView::Exited(well)) => Outcome {
            session: SessionView::Terminated,
            action: if well {
                ActionView::Nothing
            } else {
                ActionView::ReportFailure(failure_of(profile))
            },
            table,
        },
        _ => Outcome { session, action: ActionView::Nothing, table },
    }
}

/// What is asked of the user while the session waits for an answer, apart
/// from the menu: a question for a new profile, for an id, or for new texts
/// of a profile, these with what the profile holds now.
pub open spec fn question_of(session: SessionView) -> Option<Seq<char>> {
    match session {
        SessionView::UpdateId => Some("请输入要更新的服务器 ID,输入非数字字符返回上层:"@),
        SessionView::DeleteId => Some("请输入要删除的服务器 ID,输入非数字字符返回上层:"@),
        SessionView::Creating { field, draft } => Some(
            match field {
                Field::Name => "请输入服务器名称:"@,
                Field::Host => "请输入主机地址:"@,
                Field::Port => "请输入端口号 (默认 22):"@,
                Field::Username => "请输入用户名:"@,
                Field::Password => "请输入密码:"@,
            },
        ),
        SessionView::Updating { previous, field, draft } => Some(
            match field {
                Field::Name => "请输入服务器名称: 原值=>"@ + previous.name,
                Field::Host => "请输入主机地址: 原值=>"@ + previous.host,
                Field::Port => "请输入端口号 (默认 22): 原值=>"@ + decimal_text(previous.port),
                Field::Username => "请输入用户名: 原值=>"@ + previous.username,
                Field::Password => "请输入密码:"@,
            },
        ),
        _ => None,
    }
}

impl SessionView {
    /// Whether the session goes on.
    pub open spec fn running(self) -> bool {
        !(self is Terminated)
    }
}

/// A session that is over stays over, and nothing more is done: neither to
/// the table nor outside.
pub proof fn law_terminated_stays(table: StoreView, event: EventView)
    ensures
        step_of(SessionView::Terminated, table, event) == (Outcome {
            session: SessionView::Terminated,
            action: ActionView::Nothing,
            table,
        }),
{
}

/// A line at the menu that selects a profile ends the session, whatever
/// becomes of the connection: where no profile has the id the session is over
/// at once; where one has, its command is launched, and the session is over
/// when the command has ended, well or not. The table stays as it was.
pub proof fn law_connect_ends_session(table: StoreView, line: Seq<char>, well: bool)
    requires
        selection_of(line) is Connect,
    ensures
        ({
            let first = step_of(SessionView::Menu, table, EventView::Line(line));
            let last = step_of(first.session, first.table, EventView::Exited(well));
            &&& first.table == table
            &&& last.table == table
            &&& last.session == SessionView::Terminated
            &&& first.session != SessionView::Terminated ==> first.action is Launch
        }),
{
}

/// Only the last answer of a profile that is typed in, and the id of a
/// profile to remove, change the table: every other step leaves it as it was.
pub proof fn law_table_changes(session: SessionView, table: StoreView, event: EventView)
    ensures
        step_of(session, table, event).table != table ==> step_of(session, table, event).action
            is Persist,
{
}

/// While the five texts of a profile are typed in, one after the other, the
/// session stays with the profile until the password is given, and is back at
/// the menu after it, unless no id is left for a new profile.
pub proof fn law_answers_in_turn(session: SessionView, table: StoreView, line: Seq<char>)
    requires
        session is Creating || session is Updating,
    ensures
        ({
            let next = step_of(session, table, EventView::Line(line)).session;
            match session {
                SessionView::Creating { field, draft } => if field == Field::Password {
                    next == SessionView::Menu || (next == SessionView::Terminated && table.full())
                } else {
                    next == (SessionView::Creating {
                        field: following(field),
                        draft: draft.with(field, trimmed(line)),
                    })
                },
                SessionView::Updating { previous, field, draft } => if field == Field::Password {
                    next == SessionView::Menu
                } else {
                    next == (SessionView::Updating {
                        previous,
                        field: following(field),
                        draft: draft.with(field, trimmed(line)),
                    })
                },
                _ => true,
            }
        }),
{
}

/// The session and the table agree where the profile that the session works
/// on is in the table as the session holds it.
pub open spec fn agrees(session: SessionView, table: StoreView) -> bool {
    match session {
        SessionView::Updating { previous, field, draft } => table.find(previous.id) == Some(
            previous,
        ),
        SessionView::Connecting(profile) => table.find(profile.id) == Some(profile),
        _ => true,
    }
}

/// A session that agrees with the table does so after every step. It does at
/// its start, at the menu; so the profile that new texts are asked for is in
/// the table until the last of them is given, and `update` then finds it.
pub proof fn law_session_agrees(session: SessionView, table: StoreView, event: EventView)
    requires
        table.wf(),
        agrees(session, table),
    ensures
        agrees(step_of(session, table, event).session, step_of(session, table, event).table),
{
}

/// Where the session agrees with the table, the password that ends the new
/// texts of a profile has the profile changed, if no required text is empty.
pub proof fn law_update_finds_its_profile(
    previous: ProfileView,
    draft: DraftView,
    table: StoreView,
    line: Seq<char>,
)
    requires
        table.wf(),
        table.find(previous.id) == Some(previous),
        draft.fields(trimmed(line)).complete(),
    ensures
        ({
            let session = SessionView::Updating { previous, field: Field::Password, draft };
            let fields = draft.fields(trimmed(line));
            step_of(session, table, EventView::Line(line)) == (Outcome {
                session: SessionView::Menu,
                action: ActionView::Persist(ChangeView::Replace(fields.record(previous.id))),
                table: table.updated(previous.id, fields),
            })
        }),
{
}

/// The field that is asked for after `field`.
fn next_field(field: Field) -> (next: Field)
    ensures
        next == following(field),
{
    match field {
        Field::Name => Field::Host,
        Field::Host => Field::Port,
        Field::Port => Field::Username,
        Field::Username => Field::Password,
        Field::Password => Field::Password,
    }
}

impl Draft {
    /// The draft before the first answer.
    pub fn blank() -> (draft: Draft)
        ensures
            draft@ == DraftView::blank(),
    {
        Draft {
            name: String::new(),
            host: String::new(),
            port: String::new(),
            username: String::new(),
        }
    }

    /// Writes an answer into the draft.
    fn with(self, field: Field, answer: &str) -> (draft: Draft)
        ensures
            draft@ == self@.with(field, answer@),
    {
        match field {
            Field::Name => Draft { name: answer.to_owned(), ..self },
            Field::Host => Draft { host: answer.to_owned(), ..self },
            Field::Port => Draft { port: answer.to_owned(), ..self },
            Field::Username => Draft { username: answer.to_owned(), ..self },
            Field::Password => self,
        }
    }

    /// The profile that the draft and a password make under an id.
    fn record(&self, id: i32, password: &str) -> (profile: Profile)
        ensures
            profile@ == self@.fields(password@).record(id as int),
    {
        Profile {
            id,
            name: self.name.clone(),
            host: self.host.clone(),
            port: parse_port(self.port.as_str()),
            username: self.username.clone(),
            password: password.to_owned(),
        }
    }
}

fn menu(store: &ProfileStore, line: &str) -> (next: (Session, Action))
    requires
        store@.wf(),
    ensures
        menu_step(store@, line@) == (Outcome { session: next.0@, action: next.1@, table: store@ }),
{
    match classify(line) {
        Selection::Connect(id) => match store.get(id) {
            Ok(profile) => {
                let command = launch(&profile);
                (Session::Connecting(profile), Action::Launch(command))
            },
            Err(_) => (Session::Terminated, Action::Nothing),
        },
        Selection::Command(Command::Create) => (
            Session::Creating { field: Field::Name, draft: Draft::blank() },
            Action::Nothing,
        ),
        Selection::Command(Command::Update) => (Session::UpdateId, Action::Nothing),
        Selection::Command(Command::Delete) => (Session::DeleteId, Action::Nothing),
        Selection::Command(Command::Quit) => (Session::Terminated, Action::Nothing),
        Selection::Unknown => (Session::Menu, Action::Report(String::from_str("无效的选择"))),
    }
}

fn update_id(store: &ProfileStore, line: &str) -> (next: (Session, Action))
    requires
        store@.wf(),
    ensures
        update_id_step(store@, line@) == (Outcome {
            session: next.0@,
            action: next.1@,
            table: store@,
        }),
{
    match read_id_answer(line) {
        IdAnswer::Id(id) => match store.get(id) {
            Ok(previous) => (
                Session::Updating { previous, field: Field::Name, draft: Draft::blank() },
                Action::Nothing,
            ),
            Err(_) => (Session::Menu, Action::Nothing),
        },
        IdAnswer::Abandoned => (Session::Menu, Action::Nothing),
    }
}

fn delete_id(store: &mut ProfileStore, line: &str) -> (next: (Session, Action))
    requires
        old(store)@.wf(),
    ensures
        final(store)@.wf(),
        delete_id_step(old(store)@, line@) == (Outcome {
            session: next.0@,
            action: next.1@,
            table: final(store)@,
        }),
{
    match read_id_answer(line) {
        IdAnswer::Id(id) => {
            store.delete(id);
            (Session::Menu, Action::Persist(Change::Remove(id)))
        },
        IdAnswer::Abandoned => (Session::Menu, Action::Nothing),
    }
}

fn create(store: &mut ProfileStore, draft: &Draft, password: &str) -> (next: (Session, Action))
    requires
        old(store)@.wf(),
    ensures
        final(store)@.wf(),
        create_step(old(store)@, draft@.fields(password@)) == (Outcome {
            session: next.0@,
            action: next.1@,
            table: final(store)@,
        }),
{
    let made = store.create(
        draft.name.as_str(),
        draft.host.as_str(),
        draft.port.as_str(),
        draft.username.as_str(),
        password,
    );
    match made {
        Ok(id) => (Session::Menu, Action::Persist(Change::Insert(draft.record(id, password)))),
        Err(StoreError::Persistence) => (
            Session::Terminated,
            Action::Fail(StoreError::Persistence),
        ),
        Err(_) => (Session::Menu, Action::Nothing),
    }
}

fn update(store: &mut ProfileStore, id: i32, draft: &Draft, password: &str) -> (next: (
    Session,
    Action,
))
    requires
        old(store)@.wf(),
    ensures
        final(store)@.wf(),
        update_step(old(store)@, id as int, draft@.fields(password@)) == (Outcome {
            session: next.0@,
            action: next.1@,
            table: final(store)@,
        }),
{
    let present = store.contains(id);
    let changed = store.update(
        id,
        draft.name.as_str(),
        draft.host.as_str(),
        draft.port.as_str(),
        draft.username.as_str(),
        password,
    );
    match changed {
        Ok(()) => if present {
            (Session::Menu, Action::Persist(Change::Replace(draft.record(id, password))))
        } else {
            (Session::Menu, Action::Nothing)
        },
        Err(_) => (Session::Menu, Action::Nothing),
    }
}

impl Session {
    /// The session as it starts: at the menu.
    pub fn new() -> (session: Session)
        ensures
            session@ == SessionView::Menu,
    {
        Session::Menu
    }

    /// Whether the session goes on.
    pub fn is_running(&self) -> (running: bool)
        ensures
            running == self@.running(),
    {
        match self {
            Session::Terminated => false,
            _ => true,
        }
    }

    /// Whether the session is at the menu.
    pub fn at_menu(&self) -> (at_menu: bool)
        ensures
            at_menu == (self@ is Menu),
    {
        match self {
            Session::Menu => true,
            _ => false,
        }
    }

    /// Takes one event: gives the session after it and what is to be done
    /// outside, and makes in the table the change that the event asks for.
    pub fn step(self, store: &mut ProfileStore, event: &Event) -> (next: (Session, Action))
        requires
            old(store)@.wf(),
        ensures
            final(store)@.wf(),
            step_of(self@, old(store)@, event@) == (Outcome {
                session: next.0@,
                action: next.1@,
                table: final(store)@,
            }),
    {
        match event {
            Event::Line(line) => match self {
                Session::Menu => menu(store, line.as_str()),
                Session::UpdateId => update_id(store, line.as_str()),
                Session::DeleteId => delete_id(store, line.as_str()),
                Session::Creating { field, draft } => {
                    let answer = trim(line.as_str());
                    match field {
                        Field::Password => create(store, &draft, answer),
                        _ => (
                            Session::Creating {
                                field: next_field(field),
                                draft: draft.with(field, answer),
                            },
                            Action::Nothing,
                        ),
                    }
                },
                Session::Updating { previous, field, draft } => {
                    let answer = trim(line.as_str());
                    match field {
                        Field::Password => update(store, previous.id, &draft, answer),
                        _ => (
                            Session::Updating {
                                previous,
                                field: next_field(field),
                                draft: draft.with(field, answer),
                            },
                            Action::Nothing,
                        ),
                    }
                },
                other => (other, Action::Nothing),
            },
            Event::Exited(well) => match self {
                Session::Connecting(profile) => if *well {
                    (Session::Terminated, Action::Nothing)
                } else {
                    (Session::Terminated, Action::ReportFailure(failure_message(&profile)))
                },
                other => (other, Action::Nothing),
            },
        }
    }

    /// What to ask the user before the next line is read; nothing at the
    /// menu, which is drawn as a whole, nor where no line is awaited.
    pub fn question(&self) -> (text: Option<String>)
        ensures
            match text {
                Some(text) => question_of(self@) == Some(text@),
                None => question_of(self@) is None,
            },
    {
        match self {
            Session::UpdateId => Some(
                String::from_str("请输入要更新的服务器 ID,输入非数字字符返回上层:"),
            ),
            Session::DeleteId => Some(
                String::from_str("请输入要删除的服务器 ID,输入非数字字符返回上层:"),
            ),
            Session::Creating { field, draft } => Some(
                match field {
                    Field::Name => String::from_str("请输入服务器名称:"),
                    Field::Host => String::from_str("请输入主机地址:"),
                    Field::Port => String::from_str("请输入端口号 (默认 22):"),
                    Field::Username => String::from_str("请输入用户名:"),
                    Field::Password => String::from_str("请输入密码:"),
                },
            ),
            Session::Updating { previous, field, draft } => Some(
                match field {
                    Field::Name => String::from_str("请输入服务器名称: 原值=>").concat(
                        previous.name.as_str(),
                    ),
                    Field::Host => String::from_str("请输入主机地址: 原值=>").concat(
                        previous.host.as_str(),
                    ),
                    Field::Port => String::from_str("请输入端口号 (默认 22): 原值=>").concat(
                        decimal(previous.port).as_str(),
                    ),
                    Field::Username => String::from_str("请输入用户名: 原值=>").concat(
                        previous.username.as_str(),
                    ),
                    Field::Password => String::from_str("请输入密码:"),
                },
            ),
            _ => None,
        }
    }
}

} // verus!
