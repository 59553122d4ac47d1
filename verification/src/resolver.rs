//! Owner and group of a path, resolved to account names.
//!
//! The driver asks the operating system for the security descriptor of the
//! path, then resolves the owner and the group identifier in turn.
//! [`query_security_context`] decides after each answer what is asked next
//! and, at the end, what the context is.

use vstd::prelude::*;
use crate::context::{WindowsSecurityContext, WindowsSecurityContextView};
use crate::identity::{
    lookup_step, resolve_identity, sid_to_account_name, text_of, IdentifierReport, Lookup,
    LookupEvent, LookupEventView, LookupRequest, LookupRequestView, LookupView,
};

verus! {

/// Status of a call that succeeded.
pub const SUCCESS: u32 = 0;

/// Object type of a file or directory.
pub const FILE_OBJECT: i32 = 1;

/// Security information flag that asks for the owner identifier.
pub const OWNER_INFORMATION: u32 = 1;

/// Security information flag that asks for the group identifier.
pub const GROUP_INFORMATION: u32 = 2;

/// One of the two identifiers of a security descriptor.
#[derive(Clone, Copy, PartialEq, Eq, Debug, Structural)]
pub enum Subject {
    Owner,
    Group,
}

/// What the driver asks the operating system next.
#[derive(Debug, PartialEq, Eq)]
pub enum Request {
    /// The security descriptor of the path, as an object of type
    /// `object_type`, with the identifiers that `security_info` selects.
    Descriptor { object_type: i32, security_info: u32 },
    /// A question about one of the identifiers of the descriptor.
    Identifier { subject: Subject, request: LookupRequest },
}

/// A [`Request`] with its buffers as sequences.
pub enum RequestView {
    Descriptor { object_type: i32, security_info: u32 },
    Identifier { subject: Subject, request: LookupRequestView },
}

impl View for Request {
    type V = RequestView;

    open spec fn view(&self) -> RequestView {
        match *self {
            Request::Descriptor { object_type, security_info } => RequestView::Descriptor {
                object_type,
                security_info,
            },
            Request::Identifier { subject, request } => RequestView::Identifier {
                subject,
                request: request@,
            },
        }
    }
}

/// What the operating system answered.
#[derive(Debug, PartialEq, Eq)]
pub enum Reply {
    /// The status of the descriptor query, and which of the two identifiers
    /// it returned (a null identifier is absent).
    Descriptor { status: u32, owner: bool, group: bool },
    /// The answer to a question about an identifier.
    Identifier(LookupEvent),
}

/// A [`Reply`] with its buffers as sequences.
pub enum ReplyView {
    Descriptor { status: u32, owner: bool, group: bool },
    Identifier(LookupEventView),
}

impl View for Reply {
    type V = ReplyView;

    open spec fn view(&self) -> ReplyView {
        match *self {
            Reply::Descriptor { status, owner, group } => ReplyView::Descriptor {
                status,
                owner,
                group,
            },
            Reply::Identifier(event) => ReplyView::Identifier(event@),
        }
    }
}

/// How far a query has come.
#[derive(Debug, PartialEq, Eq)]
pub enum Query {
    /// The descriptor has been asked for.
    Descriptor,
    /// The owner is being resolved; `group` tells whether the descriptor
    /// holds a group identifier.
    Owner { group: bool },
    /// The owner is settled and the group is being resolved.
    Group { owner: Option<String> },
    /// The query has ended.
    Done,
}

/// A [`Query`] with the owner's name as a sequence.
pub enum QueryView {
    Descriptor,
    Owner { group: bool },
    Group { owner: Option<Seq<char>> },
    Done,
}

impl View for Query {
    type V = QueryView;

    open spec fn view(&self) -> QueryView {
        match *self {
            Query::Descriptor => QueryView::Descriptor,
            Query::Owner { group } => QueryView::Owner { group },
            Query::Group { owner } => QueryView::Group { owner: text_of(owner) },
            Query::Done => QueryView::Done,
        }
    }
}

/// What the driver does after a step: ask again, or hand out the result.
#[derive(Debug, PartialEq, Eq)]
pub enum Progress {
    Ask(Request),
    Done(Option<WindowsSecurityContext>),
}

/// A [`Progress`] with buffers and names as sequences.
pub enum ProgressView {
    Ask(RequestView),
    Done(Option<WindowsSecurityContextView>),
}

/// The view of an optional context.
pub open spec fn context_of(context: Option<WindowsSecurityContext>) -> Option<
    WindowsSecurityContextView,
> {
    match context {
        Some(context) => Some(context@),
        None => None,
    }
}

impl View for Progress {
    type V = ProgressView;

    open spec fn view(&self) -> ProgressView {
        match *self {
            Progress::Ask(request) => ProgressView::Ask(request@),
            Progress::Done(context) => ProgressView::Done(context_of(context)),
        }
    }
}

/// The request that opens every query: the descriptor of a file object with
/// its owner and group identifiers.
pub open spec fn descriptor_request() -> RequestView {
    RequestView::Descriptor {
        object_type: FILE_OBJECT,
        security_info: OWNER_INFORMATION | GROUP_INFORMATION,
    }
}

/// The context that two resolved identifiers make: none without an owner
/// that has a name; the group is kept as it was resolved.
pub open spec fn security_context(
    owner: Option<Seq<char>>,
    group: Option<Seq<char>>,
) -> Option<WindowsSecurityContextView> {
    match owner {
        Some(owner) => if owner.len() > 0 {
            Some(WindowsSecurityContextView { owner, group })
        } else {
            None
        },
        None => None,
    }
}

/// The step that a lookup of the group leads to, the owner being settled.
pub open spec fn group_progress(owner: Option<Seq<char>>, lookup: LookupView) -> (
    QueryView,
    ProgressView,
) {
    match lookup {
        LookupView::Ask(request) => (
            QueryView::Group { owner },
            ProgressView::Ask(RequestView::Identifier { subject: Subject::Group, request }),
        ),
        LookupView::Resolved(group) => (
            QueryView::Done,
            ProgressView::Done(security_context(owner, group)),
        ),
    }
}

/// The step that a lookup of the owner leads to. Once the owner is settled
/// the group is taken up, whether or not the owner has a name.
pub open spec fn owner_progress(group: bool, lookup: LookupView) -> (QueryView, ProgressView) {
    match lookup {
        LookupView::Ask(request) => (
            QueryView::Owner { group },
            ProgressView::Ask(RequestView::Identifier { subject: Subject::Owner, request }),
        ),
        LookupView::Resolved(owner) => group_progress(
            owner,
            lookup_step(LookupEventView::Identifier { present: group }),
        ),
    }
}

/// The state and the progress that follow from a reply.
///
/// A descriptor query that did not succeed ends the query with nothing. So
/// does a reply that does not answer what the query is waiting for.
pub open spec fn query_step(query: QueryView, reply: ReplyView) -> (QueryView, ProgressView) {
    match (query, reply) {
        (QueryView::Descriptor, ReplyView::Descriptor { status, owner, group }) => if status
            == SUCCESS {
            owner_progress(group, lookup_step(LookupEventView::Identifier { present: owner }))
        } else {
            (QueryView::Done, ProgressView::Done(None))
        },
        (QueryView::Owner { group }, ReplyView::Identifier(event)) => owner_progress(
            group,
            lookup_step(event),
        ),
        (QueryView::Group { owner }, ReplyView::Identifier(event)) => group_progress(
            owner,
            lookup_step(event),
        ),
        _ => (QueryView::Done, ProgressView::Done(None)),
    }
}

/// What the operating system holds about a path: the status of the
/// descriptor query, and its answers about the two identifiers of the
/// descriptor (`None` for an identifier that the descriptor lacks).
pub struct DescriptorReport {
    pub status: u32,
    pub owner: Option<IdentifierReport>,
    pub group: Option<IdentifierReport>,
}

impl DescriptorReport {
    /// The reply that answers `request`.
    pub open spec fn answer(self, request: RequestView) -> ReplyView {
        match request {
            RequestView::Descriptor { .. } => ReplyView::Descriptor {
                status: self.status,
                owner: self.owner is Some,
                group: self.group is Some,
            },
            RequestView::Identifier { subject, request } => ReplyView::Identifier(
                match subject {
                    Subject::Owner => self.owner->0.answer(request),
                    Subject::Group => self.group->0.answer(request),
                },
            ),
        }
    }
}

/// The security context of a path: none where the descriptor cannot be had,
/// else what the resolved owner and group make.
pub open spec fn resolve(report: DescriptorReport) -> Option<WindowsSecurityContextView> {
    if report.status == SUCCESS {
        security_context(resolve_identity(report.owner), resolve_identity(report.group))
    } else {
        None
    }
}

/// Where a query stands after at most `rounds` requests, each answered from
/// `report`.
pub open spec fn run(
    query: QueryView,
    progress: ProgressView,
    report: DescriptorReport,
    rounds: nat,
) -> ProgressView
    decreases rounds,
{
    match progress {
        ProgressView::Ask(request) => if rounds > 0 {
            let next = query_step(query, report.answer(request));
            run(next.0, next.1, report, (rounds - 1) as nat)
        } else {
            progress
        },
        ProgressView::Done(_) => progress,
    }
}

/// Seven requests end every query, and it ends with [`resolve`]: one for the
/// descriptor and at most three for each identifier.
pub proof fn lemma_query_resolves(report: DescriptorReport)
    ensures
        run(QueryView::Descriptor, ProgressView::Ask(descriptor_request()), report, 7)
            == ProgressView::Done(resolve(report)),
{
    reveal_with_fuel(run, 8);
}

/// The query is at a stage that the reply to the descriptor request allows:
/// it resolves the owner only where there is one, and remembers rightly
/// whether there is a group; it resolves the group only where there is one.
pub open spec fn in_step_with(query: QueryView, owner: bool, group: bool) -> bool {
    match query {
        QueryView::Owner { group: expected } => owner && expected == group,
        QueryView::Group { .. } => group,
        _ => true,
    }
}

/// A query asks about an identifier only if the descriptor holds it: after
/// the reply to the descriptor request, and after every answer about an
/// identifier from then on, what is asked next concerns the identifier that
/// the query is resolving, and that identifier is there.
pub proof fn lemma_asks_about_present_identifiers(
    query: QueryView,
    reply: ReplyView,
    owner: bool,
    group: bool,
)
    requires
        match reply {
            ReplyView::Descriptor { owner: has_owner, group: has_group, .. } => {
                &&& query is Descriptor
                &&& has_owner == owner
                &&& has_group == group
            },
            ReplyView::Identifier(_) => in_step_with(query, owner, group),
        },
    ensures
        in_step_with(query_step(query, reply).0, owner, group),
        query_step(query, reply).1 matches ProgressView::Ask(request) ==> {
            &&& request matches RequestView::Identifier { subject, .. }
            &&& subject == Subject::Owner ==> owner && query_step(query, reply).0 is Owner
            &&& subject == Subject::Group ==> group && query_step(query, reply).0 is Group
        },
{
}

/// A context is only ever made for a path whose descriptor was obtained and
/// whose owner resolved to a name; that owner is not empty, and there is a
/// group only where the descriptor holds a group identifier.
pub proof fn lemma_resolved_context(report: DescriptorReport)
    ensures
        resolve(report) matches Some(context) ==> {
            &&& report.status == SUCCESS
            &&& report.owner is Some
            &&& resolve_identity(report.owner) == Some(context.owner)
            &&& context.wf()
            &&& context.group == resolve_identity(report.group)
            &&& context.group is Some ==> report.group is Some
        },
{
}

/// The constant `ERROR_SUCCESS` of `windows_sys`, which is 0.
#[verifier::external_body]
fn error_success() -> (code: u32)
    ensures
        code == SUCCESS,
{
    windows_sys::Win32::Foundation::ERROR_SUCCESS
}

/// The constant `SE_FILE_OBJECT` of `windows_sys`, which is 1.
#[verifier::external_body]
fn se_file_object() -> (object_type: i32)
    ensures
        object_type == FILE_OBJECT,
{
    windows_sys::Win32::Security::Authorization::SE_FILE_OBJECT
}

/// The constant `OWNER_SECURITY_INFORMATION` of `windows_sys`, which is 1.
#[verifier::external_body]
fn owner_security_information() -> (flag: u32)
    ensures
        flag == OWNER_INFORMATION,
{
    windows_sys::Win32::Security::OWNER_SECURITY_INFORMATION
}

/// The constant `GROUP_SECURITY_INFORMATION` of `windows_sys`, which is 2.
#[verifier::external_body]
fn group_security_information() -> (flag: u32)
    ensures
        flag == GROUP_INFORMATION,
{
    windows_sys::Win32::Security::GROUP_SECURITY_INFORMATION
}

/// Makes the context from the two resolved identifiers.
fn make_context(owner: Option<String>, group: Option<String>) -> (context: Option<
    WindowsSecurityContext,
>)
    ensures
        context_of(context) == security_context(text_of(owner), text_of(group)),
{
    match owner {
        Some(owner) => {
            if owner.as_str().is_empty() {
                None
            } else {
                Some(WindowsSecurityContext { owner, group })
            }
        },
        None => None,
    }
}

fn resolve_group(owner: Option<String>, lookup: Lookup) -> (next: (Query, Progress))
    ensures
        (next.0@, next.1@) == group_progress(text_of(owner), lookup@),
{
    match lookup {
        Lookup::Ask(request) => (
            Query::Group { owner },
            Progress::Ask(Request::Identifier { subject: Subject::Group, request }),
        ),
        Lookup::Resolved(group) => (Query::Done, Progress::Done(make_context(owner, group))),
    }
}

fn resolve_owner(group: bool, lookup: Lookup) -> (next: (Query, Progress))
    ensures
        (next.0@, next.1@) == owner_progress(group, lookup@),
{
    match lookup {
        Lookup::Ask(request) => (
            Query::Owner { group },
            Progress::Ask(Request::Identifier { subject: Subject::Owner, request }),
        ),
        Lookup::Resolved(owner) => resolve_group(
            owner,
            sid_to_account_name(LookupEvent::Identifier { present: group }),
        ),
    }
}

/// Opens a query: the state to keep, and the first request.
pub fn open_query() -> (opening: (Query, Request))
    ensures
        opening.0@ == QueryView::Descriptor,
        opening.1@ == descriptor_request(),
{
    let security_info = owner_security_information() | group_security_information();
    (Query::Descriptor, Request::Descriptor { object_type: se_file_object(), security_info })
}

/// Takes a query one step on: from the state and what the operating system
/// answered to the next state and what to do.
pub fn query_security_context(query: Query, reply: Reply) -> (next: (Query, Progress))
    ensures
        (next.0@, next.1@) == query_step(query@, reply@),
        next.1 matches Progress::Done(Some(context)) ==> context.wf(),
{
    match (query, reply) {
        (Query::Descriptor, Reply::Descriptor { status, owner, group }) => {
            if status == error_success() {
                resolve_owner(group, sid_to_account_name(LookupEvent::Identifier { present: owner }))
            } else {
                (Query::Done, Progress::Done(None))
            }
        },
        (Query::Owner { group }, Reply::Identifier(event)) => resolve_owner(
            group,
            sid_to_account_name(event),
        ),
        (Query::Group { owner }, Reply::Identifier(event)) => resolve_group(
            owner,
            sid_to_account_name(event),
        ),
        _ => (Query::Done, Progress::Done(None)),
    }
}

} // verus!

