//! The security context of a file entry.

use vstd::prelude::*;
use crate::identity::text_of;

verus! {

/// Owner and group of a file as account names.
#[derive(Clone, Debug, PartialEq, Eq)]
pub struct WindowsSecurityContext {
    pub owner: String,
    pub group: Option<String>,
}

/// A [`WindowsSecurityContext`] with its names as sequences.
pub struct WindowsSecurityContextView {
    pub owner: Seq<char>,
    pub group: Option<Seq<char>>,
}

impl View for WindowsSecurityContext {
    type V = WindowsSecurityContextView;

    open spec fn view(&self) -> WindowsSecurityContextView {
        WindowsSecurityContextView { owner: self.owner@, group: text_of(self.group) }
    }
}

impl WindowsSecurityContextView {
    /// The owner has a name.
    pub open spec fn wf(self) -> bool {
        self.owner.len() > 0
    }
}

impl WindowsSecurityContext {
    /// The owner has a name.
    pub open spec fn wf(&self) -> bool {
        self@.wf()
    }
}

/// What is known of a file's security context.
#[derive(Clone, Debug, PartialEq, Eq)]
pub enum SecurityContextType<'a> {
    /// A colon-delimited label: `user:role:type`, optionally `:range`.
    SELinux(&'a str),
    /// Owner and group taken from a security descriptor.
    Windows(WindowsSecurityContext),
    /// No security context is available.
    Absent,
}

/// A [`SecurityContextType`] with its texts as sequences.
pub enum SecurityContextView {
    SELinux(Seq<char>),
    Windows(WindowsSecurityContextView),
    Absent,
}

impl<'a> View for SecurityContextType<'a> {
    type V = SecurityContextView;

    open spec fn view(&self) -> SecurityContextView {
        match *self {
            SecurityContextType::SELinux(label) => SecurityContextView::SELinux(label@),
            SecurityContextType::Windows(info) => SecurityContextView::Windows(info@),
            SecurityContextType::Absent => SecurityContextView::Absent,
        }
    }
}

/// The security context of one file entry.
#[derive(Clone, Debug, PartialEq, Eq)]
pub struct SecurityContext<'a> {
    pub context: SecurityContextType<'a>,
}

impl<'a> View for SecurityContext<'a> {
    type V = SecurityContextView;

    open spec fn view(&self) -> SecurityContextView {
        self.context@
    }
}

} // verus!
