//! A member of a workspace: one file that the tool works on, with what is
//! known of it.

use vstd::prelude::*;
use crate::node::AstNode;
use crate::tree::Document;

verus! {

/// One file of a lint run.
pub struct Member {
    /// The canonical path of the file.
    pub path: String,
    /// The contents of the file.
    pub contents: String,
    /// The parsed template, once the file is parsed.
    pub document: Option<AstNode<Document>>,
}

impl Member {
    /// The member for the file at `path` with the given contents, not
    /// parsed yet.
    pub fn new(path: String, contents: String) -> (member: Member)
        ensures
            member.path == path,
            member.contents == contents,
            member.document.is_none(),
    {
        Member { path, contents, document: None }
    }
}

} // verus!
