//! Gmail: a query-only connector whose fetching is not implemented yet.
use vstd::prelude::*;
use crate::connectors::traits::{ConnectorMeta, InboxItem};

verus! {

/// The Gmail connector.
#[derive(Clone, Debug)]
pub struct GmailConnector;

impl GmailConnector {
    /// The captured items: unread mail is not fetched yet, so there are none.
    pub fn fetch_inbox(&self) -> (r: Vec<InboxItem>)
        ensures
            r@.len() == 0,
    {
        Vec::new()
    }

    /// Whether an item is still pending: always.
    pub fn is_pending(&self, external_id: &str) -> (r: bool)
        ensures
            r,
    {
        true
    }
}

impl ConnectorMeta for GmailConnector {
    fn source_name(&self) -> (r: &str)
        ensures
            r@ == "gmail"@,
    {
        "gmail"
    }
}

} // verus!
