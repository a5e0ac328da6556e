//! Opaque handle types under which a foreign caller holds the resources of
//! a client: a runtime, a connection, a statement cache and a query result.

use vstd::prelude::*;

verus! {

/// The handle of a prepared-statement cache.
pub struct PreparedStatement {
    private: [u8; 0],
}

/// The handle of a database connection.
pub struct TokioPostgresClient {
    private: [u8; 0],
}

/// The handle of an asynchronous runtime.
pub struct TokioRuntime {
    private: [u8; 0],
}

/// The handle of the bytes of a query result.
pub struct BytesResult {
    private: [u8; 0],
}

/// Moves `obj` to the heap, where a handle owns it until it is given back.
pub fn convert_to_opaque_raw<F>(obj: F) -> (r: Box<F>)
    ensures
        *r == obj,
{
    Box::new(obj)
}

} // verus!
