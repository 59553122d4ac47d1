//! Account names for security identifiers.
//!
//! The operating system is asked in two passes: first which buffer sizes a
//! name needs, then for the name itself. An identifier without a name is
//! shown in its canonical string form instead. The calls themselves are made
//! by a driver outside this library; [`sid_to_account_name`] decides, from
//! each answer, what happens next.

use vstd::prelude::*;
use vstd::string::StringExecFns;
use crate::utf16::{utf16_text, utf16_to_string};

verus! {

/// Code with which a name lookup reports that an identifier has no name.
pub const NONE_MAPPED: u32 = 1332;

/// `domain\account`, or the bare account where there is no domain.
pub open spec fn account_name(domain: Seq<char>, account: Seq<char>) -> Seq<char> {
    if domain.len() == 0 {
        account
    } else {
        domain + seq!['\\'] + account
    }
}

/// A buffer of `len` zero units.
pub open spec fn zeroed(len: nat) -> Seq<u16> {
    Seq::new(len, |i: int| 0u16)
}

/// The text of a canonical string form, where the conversion produced one.
pub open spec fn string_form_text(units: Option<Seq<u16>>) -> Option<Seq<char>> {
    match units {
        Some(units) => Some(utf16_text(units)),
        None => None,
    }
}

/// The units of an optional buffer.
pub open spec fn units_of(buffer: Option<Vec<u16>>) -> Option<Seq<u16>> {
    match buffer {
        Some(buffer) => Some(buffer@),
        None => None,
    }
}

/// The characters of an optional string.
pub open spec fn text_of(text: Option<String>) -> Option<Seq<char>> {
    match text {
        Some(text) => Some(text@),
        None => None,
    }
}

/// One question about an identifier that the driver puts to the operating
/// system.
#[derive(Debug, PartialEq, Eq)]
pub enum LookupRequest {
    /// Which buffer sizes do the account name and the domain name need?
    Sizes,
    /// Fill these two buffers with the account name and the domain name.
    Names { name: Vec<u16>, domain: Vec<u16> },
    /// What is the canonical string form?
    StringForm,
}

/// A [`LookupRequest`] with its buffers as sequences.
pub enum LookupRequestView {
    Sizes,
    Names { name: Seq<u16>, domain: Seq<u16> },
    StringForm,
}

impl View for LookupRequest {
    type V = LookupRequestView;

    open spec fn view(&self) -> LookupRequestView {
        match *self {
            LookupRequest::Sizes => LookupRequestView::Sizes,
            LookupRequest::Names { name, domain } => LookupRequestView::Names {
                name: name@,
                domain: domain@,
            },
            LookupRequest::StringForm => LookupRequestView::StringForm,
        }
    }
}

/// What the driver has learned from the operating system.
#[derive(Debug, PartialEq, Eq)]
pub enum LookupEvent {
    /// An identifier was handed over; `present` is false for a null one.
    Identifier { present: bool },
    /// The sizes that the size query reported, in units.
    Sizes { name_len: u32, domain_len: u32 },
    /// The lookup succeeded and left the names in the buffers.
    Names { domain: Vec<u16>, name: Vec<u16> },
    /// The lookup failed with this error code.
    NamesFailed { error: u32 },
    /// The canonical string form without its terminator, or `None` where the
    /// conversion failed or returned no buffer.
    StringForm { units: Option<Vec<u16>> },
}

/// A [`LookupEvent`] with its buffers as sequences.
pub enum LookupEventView {
    Identifier { present: bool },
    Sizes { name_len: u32, domain_len: u32 },
    Names { domain: Seq<u16>, name: Seq<u16> },
    NamesFailed { error: u32 },
    StringForm { units: Option<Seq<u16>> },
}

impl View for LookupEvent {
    type V = LookupEventView;

    open spec fn view(&self) -> LookupEventView {
        match *self {
            LookupEvent::Identifier { present } => LookupEventView::Identifier { present },
            LookupEvent::Sizes { name_len, domain_len } => LookupEventView::Sizes {
                name_len,
                domain_len,
            },
            LookupEvent::Names { domain, name } => LookupEventView::Names {
                domain: domain@,
                name: name@,
            },
            LookupEvent::NamesFailed { error } => LookupEventView::NamesFailed { error },
            LookupEvent::StringForm { units } => LookupEventView::StringForm {
                units: units_of(units),
            },
        }
    }
}

/// Where the resolution of one identifier stands: a question is open, or the
/// display name is settled (`None`: the identifier has none).
#[derive(Debug, PartialEq, Eq)]
pub enum Lookup {
    Ask(LookupRequest),
    Resolved(Option<String>),
}

/// A [`Lookup`] with its buffers and its text as sequences.
pub enum LookupView {
    Ask(LookupRequestView),
    Resolved(Option<Seq<char>>),
}

impl View for Lookup {
    type V = LookupView;

    open spec fn view(&self) -> LookupView {
        match *self {
            Lookup::Ask(request) => LookupView::Ask(request@),
            Lookup::Resolved(text) => LookupView::Resolved(text_of(text)),
        }
    }
}

/// What follows from an event.
///
/// - A null identifier has no name.
/// - A size query that reports no name length means there is no name
///   mapping: the string form is asked for. Otherwise the lookup is repeated
///   into zeroed buffers of the reported sizes.
/// - A filled pair of buffers gives the account name.
/// - A failed lookup falls back to the string form only when the failure is
///   [`NONE_MAPPED`]; any other failure leaves the identifier unresolved.
/// - The string form, where there is one, is the display name.
pub open spec fn lookup_step(event: LookupEventView) -> LookupView {
    match event {
        LookupEventView::Identifier { present } => if present {
            LookupView::Ask(LookupRequestView::Sizes)
        } else {
            LookupView::Resolved(None)
        },
        LookupEventView::Sizes { name_len, domain_len } => if name_len == 0 {
            LookupView::Ask(LookupRequestView::StringForm)
        } else {
            LookupView::Ask(
                LookupRequestView::Names {
                    name: zeroed(name_len as nat),
                    domain: zeroed(domain_len as nat),
                },
            )
        },
        LookupEventView::Names { domain, name } => LookupView::Resolved(
            Some(account_name(utf16_text(domain), utf16_text(name))),
        ),
        LookupEventView::NamesFailed { error } => if error == NONE_MAPPED {
            LookupView::Ask(LookupRequestView::StringForm)
        } else {
            LookupView::Resolved(None)
        },
        LookupEventView::StringForm { units } => LookupView::Resolved(string_form_text(units)),
    }
}

/// What the operating system answers when the lookup is run into buffers.
pub enum NamesReport {
    /// It succeeds and leaves these units in the two buffers.
    Filled { domain: Seq<u16>, name: Seq<u16> },
    /// It fails with this error code.
    Failed { error: u32 },
}

/// What the operating system holds about one identifier: its answer to each
/// question that can be asked.
pub struct IdentifierReport {
    pub name_len: u32,
    pub domain_len: u32,
    pub names: NamesReport,
    pub string_form: Option<Seq<u16>>,
}

impl IdentifierReport {
    /// The event that answers `request`.
    pub open spec fn answer(self, request: LookupRequestView) -> LookupEventView {
        match request {
            LookupRequestView::Sizes => LookupEventView::Sizes {
                name_len: self.name_len,
                domain_len: self.domain_len,
            },
            LookupRequestView::Names { .. } => match self.names {
                NamesReport::Filled { domain, name } => LookupEventView::Names { domain, name },
                NamesReport::Failed { error } => LookupEventView::NamesFailed { error },
            },
            LookupRequestView::StringForm => LookupEventView::StringForm {
                units: self.string_form,
            },
        }
    }

    /// The identifier maps to no name: the size query reports no name
    /// length, or the lookup fails with [`NONE_MAPPED`].
    pub open spec fn has_no_mapping(self) -> bool {
        self.name_len == 0 || self.names == (NamesReport::Failed { error: NONE_MAPPED })
    }
}

/// The canonical string form of an identifier as text: nothing for a null
/// identifier or where the conversion fails.
pub open spec fn format_identifier(identifier: Option<IdentifierReport>) -> Option<Seq<char>> {
    match identifier {
        Some(report) => string_form_text(report.string_form),
        None => None,
    }
}

/// The display name of an identifier: its account name where it maps to one,
/// its canonical string form where it maps to none, and nothing for a null
/// identifier or a lookup that fails otherwise.
pub open spec fn resolve_identity(identifier: Option<IdentifierReport>) -> Option<Seq<char>> {
    match identifier {
        Some(report) => if report.name_len == 0 {
            format_identifier(identifier)
        } else {
            match report.names {
                NamesReport::Filled { domain, name } => Some(
                    account_name(utf16_text(domain), utf16_text(name)),
                ),
                NamesReport::Failed { error } => if error == NONE_MAPPED {
                    format_identifier(identifier)
                } else {
                    None
                },
            }
        },
        None => None,
    }
}

/// Where a lookup stands after at most `rounds` questions, each answered
/// from `report`.
pub open spec fn drive(lookup: LookupView, report: IdentifierReport, rounds: nat) -> LookupView
    decreases rounds,
{
    match lookup {
        LookupView::Ask(request) => if rounds > 0 {
            drive(lookup_step(report.answer(request)), report, (rounds - 1) as nat)
        } else {
            lookup
        },
        LookupView::Resolved(_) => lookup,
    }
}

/// Three questions settle an identifier that is there, and the name they
/// settle on is [`resolve_identity`].
pub proof fn lemma_lookup_resolves(report: IdentifierReport)
    ensures
        drive(lookup_step(LookupEventView::Identifier { present: true }), report, 3)
            == LookupView::Resolved(resolve_identity(Some(report))),
{
    reveal_with_fuel(drive, 4);
}

/// A null identifier resolves to nothing, and no question is asked.
pub proof fn lemma_null_identifier()
    ensures
        resolve_identity(None) == None::<Seq<char>>,
        lookup_step(LookupEventView::Identifier { present: false }) == LookupView::Resolved(None),
{
}

/// An identifier with a name in a domain resolves to exactly
/// `domain\account`.
pub proof fn lemma_qualified_name(report: IdentifierReport, domain: Seq<u16>, name: Seq<u16>)
    requires
        report.name_len != 0,
        report.names == (NamesReport::Filled { domain, name }),
        utf16_text(domain).len() > 0,
    ensures
        resolve_identity(Some(report)) == Some(
            utf16_text(domain) + seq!['\\'] + utf16_text(name),
        ),
{
}

/// An identifier with a name and an empty domain resolves to the bare
/// account name.
pub proof fn lemma_bare_name(report: IdentifierReport, domain: Seq<u16>, name: Seq<u16>)
    requires
        report.name_len != 0,
        report.names == (NamesReport::Filled { domain, name }),
        utf16_text(domain).len() == 0,
    ensures
        resolve_identity(Some(report)) == Some(utf16_text(name)),
{
}

/// An identifier that maps to no name resolves to what the formatter gives
/// for it, which is a name whenever the conversion produced a string form.
pub proof fn lemma_no_mapping(report: IdentifierReport)
    requires
        report.has_no_mapping(),
    ensures
        resolve_identity(Some(report)) == format_identifier(Some(report)),
        report.string_form is Some ==> resolve_identity(Some(report)) is Some,
{
}

/// The constant `ERROR_NONE_MAPPED` of `windows_sys`, which is 1332.
#[verifier::external_body]
fn error_none_mapped() -> (code: u32)
    ensures
        code == NONE_MAPPED,
{
    windows_sys::Win32::Foundation::ERROR_NONE_MAPPED
}

/// Joins a decoded domain and account.
pub fn join_account_name(domain: String, account: String) -> (text: String)
    ensures
        text@ == account_name(domain@, account@),
{
    if domain.as_str().is_empty() {
        account
    } else {
        let mut text = domain;
        proof {
            reveal_strlit("\\");
        }
        text.append("\\");
        text.append(account.as_str());
        text
    }
}

/// The display name of an account from the two buffers that a lookup filled.
pub fn format_account_name(domain: &[u16], name: &[u16]) -> (text: String)
    ensures
        text@ == account_name(utf16_text(domain@), utf16_text(name@)),
{
    let account = utf16_to_string(name);
    let domain = utf16_to_string(domain);
    join_account_name(domain, account)
}

/// The canonical string form of an identifier as text, from what the
/// conversion returned.
pub fn sid_to_string(units: Option<Vec<u16>>) -> (text: Option<String>)
    ensures
        text_of(text) == string_form_text(units_of(units)),
{
    match units {
        Some(units) => Some(utf16_to_string(units.as_slice())),
        None => None,
    }
}

/// Decides what follows from `event` in the resolution of one identifier.
pub fn sid_to_account_name(event: LookupEvent) -> (next: Lookup)
    ensures
        next@ == lookup_step(event@),
{
    match event {
        LookupEvent::Identifier { present } => {
            if present {
                Lookup::Ask(LookupRequest::Sizes)
            } else {
                Lookup::Resolved(None)
            }
        },
        LookupEvent::Sizes { name_len, domain_len } => {
            if name_len == 0 {
                Lookup::Ask(LookupRequest::StringForm)
            } else {
                let name = vec![0u16; name_len as usize];
                let domain = vec![0u16; domain_len as usize];
                assert(name@ =~= zeroed(name_len as nat));
                assert(domain@ =~= zeroed(domain_len as nat));
                Lookup::Ask(LookupRequest::Names { name, domain })
            }
        },
        LookupEvent::Names { domain, name } => {
            Lookup::Resolved(Some(format_account_name(domain.as_slice(), name.as_slice())))
        },
        LookupEvent::NamesFailed { error } => {
            if error == error_none_mapped() {
                Lookup::Ask(LookupRequest::StringForm)
            } else {
                Lookup::Resolved(None)
            }
        },
        LookupEvent::StringForm { units } => Lookup::Resolved(sid_to_string(units)),
    }
}

} // verus!
