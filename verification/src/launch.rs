//! Command validation before the process image is replaced.
//!
//! The execution primitive takes null-terminated strings, so no argument of
//! the target command may contain an embedded null byte. Validation is the
//! last verified step; the replacement call itself never returns on success
//! and lives outside this library.

use vstd::prelude::*;

verus! {

/// The target command cannot be represented or started.
pub enum LaunchError {
    /// The argument at this index contains an embedded null byte.
    NulArgument { index: usize },
}

/// True when the byte string contains a null byte.
pub open spec fn has_nul(s: Seq<u8>) -> bool {
    exists|k: int| 0 <= k < s.len() && s[k] == 0
}

/// True when `b` contains a null byte.
fn bytes_have_nul(b: &Vec<u8>) -> (r: bool)
    ensures
        r == has_nul(b@),
{
    let mut k: usize = 0;
    while k < b.len()
        invariant
            k <= b@.len(),
            forall|j: int| 0 <= j < k ==> b@[j] != 0,
        decreases b@.len() - k,
    {
        if b[k] == 0 {
            return true;
        }
        k = k + 1;
    }
    false
}

/// Validates the command vector: rejects the first argument that holds an
/// embedded null byte, and accepts exactly the vectors in which none does.
pub fn validate_command(command: &Vec<Vec<u8>>) -> (r: Result<(), LaunchError>)
    ensures
        match r {
            Ok(()) => forall|j: int| 0 <= j < command@.len() ==> !has_nul(#[trigger] command@[j]@),
            Err(e) => {
                &&& e matches LaunchError::NulArgument { index }
                &&& index < command@.len()
                &&& has_nul(command@[index as int]@)
                &&& forall|j: int| 0 <= j < index ==> !has_nul(#[trigger] command@[j]@)
            },
        },
{
    let mut k: usize = 0;
    while k < command.len()
        invariant
            k <= command@.len(),
            forall|j: int| 0 <= j < k ==> !has_nul(#[trigger] command@[j]@),
        decreases command@.len() - k,
    {
        if bytes_have_nul(&command[k]) {
            return Err(LaunchError::NulArgument { index: k });
        }
        k = k + 1;
    }
    Ok(())
}

} // verus!
