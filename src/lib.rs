//! Wire format of the money-streaming program's instructions, and the fixed
//! layouts of the records it stores.
pub mod codec;
pub mod error;
pub mod instruction;
pub mod pubkey;
pub mod state;

pub use error::StreamError;
pub use instruction::{
    add_funds, close_stream, create_stream, transfer, withdraw, AccountMeta, Instruction,
    StreamInstruction,
};
pub use pubkey::Pubkey;
pub use state::{Stream, StreamTerms};

use vstd::prelude::*;

verus! {

/// The bytes of this program's address,
/// `2HEkjrj21DX2ecNQjAEUPKwr2pEnwSBjgi9GUHWtKnhH`.
pub open spec fn program_id_bytes() -> Seq<u8> {
    seq![
        19u8, 4, 136, 29, 189, 227, 127, 184, 213, 39, 127, 110, 143, 70, 217, 218,
        110, 188, 19, 16, 31, 63, 187, 115, 194, 246, 212, 198, 189, 254, 151, 20,
    ]
}

/// This program's address.
pub fn id() -> (r: Pubkey)
    ensures
        r@ == program_id_bytes(),
{
    let r = Pubkey {
        bytes: [
            19u8, 4, 136, 29, 189, 227, 127, 184, 213, 39, 127, 110, 143, 70, 217, 218,
            110, 188, 19, 16, 31, 63, 187, 115, 194, 246, 212, 198, 189, 254, 151, 20,
        ],
    };
    assert(r@ =~= program_id_bytes());
    r
}

/// Accepts `program_id` only if it is this program's address.
pub fn check_program_account(program_id: &Pubkey) -> (r: Result<(), StreamError>)
    ensures
        r is Ok <==> program_id@ == program_id_bytes(),
        r is Err ==> r == Err::<(), StreamError>(StreamError::IncorrectProgramId),
{
    if !program_id.same_key(&id()) {
        return Err(StreamError::IncorrectProgramId);
    }
    Ok(())
}

} // verus!
