//! Identifiers of workspaces, sessions and projects.

use vstd::prelude::*;

verus! {

/// Identifier of a chat session.
#[derive(Debug, PartialEq, Eq, Hash)]
pub struct SessionId {
    pub value: String,
}

/// Identifier of a project.
#[derive(Debug, PartialEq, Eq, Hash)]
pub struct ProjectId {
    pub value: String,
}

/// Identifier of a workspace.
#[derive(Debug, PartialEq, Eq, Hash)]
pub struct WorkspaceId {
    pub value: String,
}

impl SessionId {
    /// An identifier with the given text.
    pub fn from_string(value: String) -> (r: SessionId)
        ensures
            r.value == value,
    {
        SessionId { value }
    }

    /// Whether two identifiers have the same text.
    pub fn same_as(&self, other: &SessionId) -> (b: bool)
        ensures
            b == (self.value@ == other.value@),
    {
        self.value == other.value
    }
}

impl ProjectId {
    /// An identifier with the given text.
    pub fn from_string(value: String) -> (r: ProjectId)
        ensures
            r.value == value,
    {
        ProjectId { value }
    }

    /// Whether two identifiers have the same text.
    pub fn same_as(&self, other: &ProjectId) -> (b: bool)
        ensures
            b == (self.value@ == other.value@),
    {
        self.value == other.value
    }

    /// The identifier's text.
    pub fn to_text(&self) -> (s: String)
        ensures
            s@ == self.value@,
    {
        self.value.clone()
    }
}

impl WorkspaceId {
    /// An identifier with the given text.
    pub fn from_string(value: String) -> (r: WorkspaceId)
        ensures
            r.value == value,
    {
        WorkspaceId { value }
    }
}

impl Clone for SessionId {
    fn clone(&self) -> (r: Self)
        ensures
            r == *self,
    {
        SessionId { value: self.value.clone() }
    }
}

impl Clone for ProjectId {
    fn clone(&self) -> (r: Self)
        ensures
            r == *self,
    {
        ProjectId { value: self.value.clone() }
    }
}

impl Clone for WorkspaceId {
    fn clone(&self) -> (r: Self)
        ensures
            r == *self,
    {
        WorkspaceId { value: self.value.clone() }
    }
}

} // verus!
