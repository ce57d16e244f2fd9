//! Errors that an MCP request can end in.

use vstd::prelude::*;

verus! {

/// An MCP failure, with the message sent to the client.
#[derive(Debug)]
pub enum McpError {
    /// The parameters of the request are wrong (JSON-RPC code -32602).
    InvalidParams(String),
    /// The server failed (JSON-RPC code -32603).
    Internal(String),
    /// The caller may not do this (code -32002).
    Forbidden(String),
    /// No tool has this name (code -32001).
    ToolNotFound(String),
}

/// What an error says: its kind and its message.
pub enum ErrorView {
    InvalidParams(Seq<char>),
    Internal(Seq<char>),
    Forbidden(Seq<char>),
    ToolNotFound(Seq<char>),
}

impl View for McpError {
    type V = ErrorView;

    open spec fn view(&self) -> ErrorView {
        match self {
            McpError::InvalidParams(s) => ErrorView::InvalidParams(s@),
            McpError::Internal(s) => ErrorView::Internal(s@),
            McpError::Forbidden(s) => ErrorView::Forbidden(s@),
            McpError::ToolNotFound(s) => ErrorView::ToolNotFound(s@),
        }
    }
}

/// The view of a result: the view of its value or of its error.
pub open spec fn result_view<T: View>(r: Result<T, McpError>) -> Result<T::V, ErrorView> {
    match r {
        Ok(v) => Ok(v@),
        Err(e) => Err(e@),
    }
}

impl McpError {
    /// The error is `InvalidParams` with message `m`.
    pub open spec fn is_invalid_params(&self, m: Seq<char>) -> bool {
        self matches McpError::InvalidParams(s) && s@ == m
    }

    /// The error is `Internal` with message `m`.
    pub open spec fn is_internal(&self, m: Seq<char>) -> bool {
        self matches McpError::Internal(s) && s@ == m
    }

    /// The error is `Forbidden` with message `m`.
    pub open spec fn is_forbidden(&self, m: Seq<char>) -> bool {
        self matches McpError::Forbidden(s) && s@ == m
    }

    /// The error is `ToolNotFound` with message `m`.
    pub open spec fn is_tool_not_found(&self, m: Seq<char>) -> bool {
        self matches McpError::ToolNotFound(s) && s@ == m
    }
}

} // verus!
