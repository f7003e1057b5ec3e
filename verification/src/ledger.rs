//! What the engine asks of the ledger: instructions for the host to invoke.
//!
//! The engine moves nothing itself. Where the base asset is to change hands
//! it makes the ledger's own transfer instruction and hands it to the host.

use vstd::prelude::*;
use anchor_lang::prelude::Pubkey;
use anchor_lang::solana_program::system_instruction;
use crate::identity::Identity;

verus! {

/// An account as an instruction refers to it.
#[derive(Clone, Copy, Debug, PartialEq, Eq)]
pub struct AccountRef {
    /// Which account.
    pub key: Identity,
    /// Whether the account must have signed.
    pub is_signer: bool,
    /// Whether the instruction may change the account.
    pub is_writable: bool,
}

/// An instruction: the program to call, the accounts it may touch, and its
/// data.
#[derive(Clone, Debug, PartialEq, Eq)]
pub struct Invocation {
    pub program: Identity,
    pub accounts: Vec<AccountRef>,
    pub data: Vec<u8>,
}

/// An account reference as a mathematical value.
pub struct AccountRefView {
    pub key: Seq<u8>,
    pub is_signer: bool,
    pub is_writable: bool,
}

/// An instruction as a mathematical value.
pub struct InvocationView {
    pub program: Seq<u8>,
    pub accounts: Seq<AccountRefView>,
    pub data: Seq<u8>,
}

impl View for AccountRef {
    type V = AccountRefView;

    open spec fn view(&self) -> AccountRefView {
        AccountRefView { key: self.key@, is_signer: self.is_signer, is_writable: self.is_writable }
    }
}

impl View for Invocation {
    type V = InvocationView;

    open spec fn view(&self) -> InvocationView {
        InvocationView {
            program: self.program@,
            accounts: Seq::new(self.accounts@.len(), |i: int| self.accounts@[i]@),
            data: self.data@,
        }
    }
}

/// The name of the ledger's system program: thirty-two zero bytes.
pub open spec fn system_program() -> Seq<u8> {
    Seq::new(32, |i: int| 0u8)
}

/// The data of the system program's transfer instruction for `lamports`, as
/// the ledger's library encodes it.
pub uninterp spec fn transfer_data(lamports: u64) -> Seq<u8>;

/// The system program's instruction that moves `lamports` from `from` to
/// `to`: `from` signs, and both accounts may change.
pub open spec fn transfer_of(from: Seq<u8>, to: Seq<u8>, lamports: u64) -> InvocationView {
    InvocationView {
        program: system_program(),
        accounts: seq![
            AccountRefView { key: from, is_signer: true, is_writable: true },
            AccountRefView { key: to, is_signer: false, is_writable: true },
        ],
        data: transfer_data(lamports),
    }
}

/// Calls `anchor_lang::solana_program::system_instruction::transfer` and
/// hands its result on field by field.
///
/// Believed of it, and not proved: the instruction is addressed to the
/// system program; it names `from` as a writable signer and then `to` as
/// writable and no signer, and no other account; and its data depends on
/// `lamports` alone.
#[verifier::external_body]
pub(crate) fn system_transfer(from: &Identity, to: &Identity, lamports: u64) -> (call: Invocation)
    ensures
        call@.program == system_program(),
        call@.accounts == seq![
            AccountRefView { key: from@, is_signer: true, is_writable: true },
            AccountRefView { key: to@, is_signer: false, is_writable: true },
        ],
        call@.data == transfer_data(lamports),
{
    let payer = Pubkey::new_from_array(from.bytes);
    let payee = Pubkey::new_from_array(to.bytes);
    let made = system_instruction::transfer(&payer, &payee, lamports);
    Invocation {
        program: Identity { bytes: made.program_id.to_bytes() },
        accounts: made.accounts.iter().map(|meta| AccountRef {
            key: Identity { bytes: meta.pubkey.to_bytes() },
            is_signer: meta.is_signer,
            is_writable: meta.is_writable,
        }).collect(),
        data: made.data,
    }
}

} // verus!
