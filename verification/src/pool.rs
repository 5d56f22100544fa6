//! The two calls of the pool service, `AllocatePool()` and `FreePool()`, as
//! values: what is asked of the service and what it answers.
//!
//! This crate never calls the service. It says what to ask, and it is told
//! what came back.

use vstd::prelude::*;
use r_efi::efi::MemoryType;
use r_efi::efi::Status;

verus! {

/// Whether the status code `code` stands for an error: its highest bit is set
/// and the bit below it is clear.
pub open spec fn is_error_code(code: usize) -> bool {
    usize::MAX / 2 < code < usize::MAX - usize::MAX / 4
}

/// `r_efi::efi::Status::is_error` on the status with the code `code`. The
/// method masks the two highest bits of the code and compares them with the
/// error mask, which has only the highest bit set: that is `is_error_code`.
#[verifier::external_body]
fn status_is_error(code: usize) -> (error: bool)
    ensures
        error == is_error_code(code),
{
    Status::from_usize(code).is_error()
}

/// One call of `AllocatePool()`: the kind of memory and the number of bytes.
#[derive(Clone, Copy, Debug, PartialEq, Eq)]
pub struct PoolRequest {
    pub memory_type: MemoryType,
    pub size: usize,
}

/// What `AllocatePool()` answered: its status code, and the address that it
/// stored for the caller.
#[derive(Clone, Copy, Debug, PartialEq, Eq)]
pub struct PoolReply {
    pub status: usize,
    pub address: usize,
}

impl PoolReply {
    /// Whether the reply carries memory. An error carries none, and neither
    /// does a null address, whatever the status says.
    pub open spec fn spec_granted(&self) -> bool {
        !is_error_code(self.status) && self.address != 0
    }

    /// Whether the reply carries memory.
    #[verifier::when_used_as_spec(spec_granted)]
    pub fn granted(&self) -> (granted: bool)
        ensures
            granted == self.spec_granted(),
    {
        !status_is_error(self.status) && self.address != 0
    }
}

/// Whether `FreePool()` released the block, going by the status code that it
/// returned. The service has to release every block that it handed out, so
/// anything else means that the caller gave it a wrong address.
pub fn released(status: usize) -> (ok: bool)
    ensures
        ok == !is_error_code(status),
{
    !status_is_error(status)
}

} // verus!
