use vstd::prelude::*;

use crate::error::{rpc_code_of, rpc_message_of, Error, RpcStatus};

verus! {

/// One item of the database's row stream for a query.
pub enum RowEvent<T> {
    /// Informational output (e.g. command-complete metadata).
    Info,
    /// A data row.
    Row(T),
    /// A failure, already translated.
    Failed(Error),
}

/// What the forwarding task sends on for a row-stream item: nothing for
/// informational output, the row or the error otherwise, in the same order.
pub fn forward_event<T>(ev: RowEvent<T>) -> (r: Option<Result<T, Error>>)
    ensures
        ev is Info ==> r is None,
        ev matches RowEvent::Row(x) ==> r == Some(Ok::<T, Error>(x)),
        ev matches RowEvent::Failed(e) ==> r == Some(Err::<T, Error>(e)),
{
    match ev {
        RowEvent::Info => None,
        RowEvent::Row(x) => Some(Ok(x)),
        RowEvent::Failed(e) => Some(Err(e)),
    }
}

/// An item of the outbound stream: the row, or the error as an RPC status.
pub fn to_rpc_item<T>(item: Result<T, Error>) -> (r: Result<T, RpcStatus>)
    ensures
        item matches Ok(x) ==> r == Ok::<T, RpcStatus>(x),
        item matches Err(e) ==> r matches Err(s) && s.code == rpc_code_of(e) && s.message@
            == rpc_message_of(e),
{
    match item {
        Ok(x) => Ok(x),
        Err(e) => Err(e.to_status()),
    }
}

} // verus!
