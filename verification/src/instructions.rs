//! The outbound instructions a successful operation returns. The controller
//! never sends anything itself: the host executes the instruction after the
//! call returns.
//!
//! Addresses inside the plain instruction types are canonical, exactly as
//! stored; the host humanizes them before building the wire message. The
//! wire payload itself (the JSON body of a token transfer or burn) is built
//! here, behind trusted wrappers around the token crate's encoder.

use vstd::prelude::*;

verus! {

/// Transfer `amount` of the token at `token` from the controller's own
/// treasury to `recipient`. Both addresses are canonical.
#[derive(Debug)]
pub struct TransferInstruction {
    pub token: Vec<u8>,
    pub recipient: Vec<u8>,
    pub amount: u128,
}

/// The mathematical value of a [`TransferInstruction`].
pub ghost struct TransferView {
    pub token: Seq<u8>,
    pub recipient: Seq<u8>,
    pub amount: u128,
}

impl View for TransferInstruction {
    type V = TransferView;

    open spec fn view(&self) -> TransferView {
        TransferView { token: self.token@, recipient: self.recipient@, amount: self.amount }
    }
}

/// Destroy `amount` of the token at `token`, taken from `owner`'s balance.
/// Both addresses are canonical.
#[derive(Debug)]
pub struct BurnInstruction {
    pub token: Vec<u8>,
    pub owner: Vec<u8>,
    pub amount: u128,
}

/// The mathematical value of a [`BurnInstruction`].
pub ghost struct BurnView {
    pub token: Seq<u8>,
    pub owner: Seq<u8>,
    pub amount: u128,
}

impl View for BurnInstruction {
    type V = BurnView;

    open spec fn view(&self) -> BurnView {
        BurnView { token: self.token@, owner: self.owner@, amount: self.amount }
    }
}

/// Move `amount` of the native currency named by `denom` out of the
/// controller to `recipient` (canonical form).
#[derive(Debug)]
pub struct NativeTransferInstruction {
    pub denom: Vec<u8>,
    pub recipient: Vec<u8>,
    pub amount: u128,
}

/// The mathematical value of a [`NativeTransferInstruction`].
pub ghost struct NativeTransferView {
    pub denom: Seq<u8>,
    pub recipient: Seq<u8>,
    pub amount: u128,
}

impl View for NativeTransferInstruction {
    type V = NativeTransferView;

    open spec fn view(&self) -> NativeTransferView {
        NativeTransferView { denom: self.denom@, recipient: self.recipient@, amount: self.amount }
    }
}

/// Destroy `amount` of the native currency named by `denom`, taken from the
/// balance of `from` (canonical form).
#[derive(Debug)]
pub struct NativeBurnInstruction {
    pub denom: Vec<u8>,
    pub from: Vec<u8>,
    pub amount: u128,
}

/// The mathematical value of a [`NativeBurnInstruction`].
pub ghost struct NativeBurnView {
    pub denom: Seq<u8>,
    pub from: Seq<u8>,
    pub amount: u128,
}

impl View for NativeBurnInstruction {
    type V = NativeBurnView;

    open spec fn view(&self) -> NativeBurnView {
        NativeBurnView { denom: self.denom@, from: self.from@, amount: self.amount }
    }
}

/// One native coin attached to an inbound call: a denomination (as its byte
/// name) and an amount.
#[derive(Debug)]
pub struct NativeCoin {
    pub denom: Vec<u8>,
    pub amount: u128,
}

/// The mathematical value of a [`NativeCoin`].
pub ghost struct NativeCoinView {
    pub denom: Seq<u8>,
    pub amount: u128,
}

impl View for NativeCoin {
    type V = NativeCoinView;

    open spec fn view(&self) -> NativeCoinView {
        NativeCoinView { denom: self.denom@, amount: self.amount }
    }
}

/// An "execute this contract with this JSON payload" wire message, the form
/// the host hands to the chain: the target contract's human-readable
/// address and the serialized call body.
#[derive(Debug)]
pub struct WasmInstruction {
    pub contract_addr: String,
    pub payload: Vec<u8>,
}

/// The mathematical value of a [`WasmInstruction`].
pub ghost struct WasmInstructionView {
    pub contract_addr: Seq<char>,
    pub payload: Seq<u8>,
}

impl View for WasmInstruction {
    type V = WasmInstructionView;

    open spec fn view(&self) -> WasmInstructionView {
        WasmInstructionView { contract_addr: self.contract_addr@, payload: self.payload@ }
    }
}

/// The JSON encoding of a token-transfer call body for the given recipient
/// and amount, as the token crate's encoder produces it.
pub uninterp spec fn cw20_transfer_payload(recipient: Seq<char>, amount: u128) -> Seq<u8>;

/// The JSON encoding of a burn-from call body for the given owner and
/// amount, as the token crate's encoder produces it.
pub uninterp spec fn cw20_burn_from_payload(owner: Seq<char>, amount: u128) -> Seq<u8>;

/// Relies on cosmwasm_std::to_json_binary applied to
/// cw20::Cw20ExecuteMsg::Transfer: the encoding is a function of the
/// recipient and the amount alone, and for this body — a string and a
/// decimal-string amount — the serializer has no failure path, so the call
/// always succeeds.
#[verifier::external_body]
fn encode_cw20_transfer(recipient: &String, amount: u128) -> (r: Option<Vec<u8>>)
    ensures
        r is Some,
        r matches Some(v) ==> v@ == cw20_transfer_payload(recipient@, amount),
{
    cosmwasm_std::to_json_binary(&cw20::Cw20ExecuteMsg::Transfer {
        recipient: recipient.clone(),
        amount: cosmwasm_std::Uint128::new(amount),
    })
    .ok()
    .map(|b| b.to_vec())
}

/// Relies on cosmwasm_std::to_json_binary applied to
/// cw20::Cw20ExecuteMsg::BurnFrom: the encoding is a function of the owner
/// and the amount alone, and for this body — a string and a decimal-string
/// amount — the serializer has no failure path, so the call always
/// succeeds.
#[verifier::external_body]
fn encode_cw20_burn_from(owner: &String, amount: u128) -> (r: Option<Vec<u8>>)
    ensures
        r is Some,
        r matches Some(v) ==> v@ == cw20_burn_from_payload(owner@, amount),
{
    cosmwasm_std::to_json_binary(&cw20::Cw20ExecuteMsg::BurnFrom {
        owner: owner.clone(),
        amount: cosmwasm_std::Uint128::new(amount),
    })
    .ok()
    .map(|b| b.to_vec())
}

/// Builds the wire message for a token transfer: execute the token contract
/// at `token` (human-readable) with a transfer body moving `amount` to
/// `recipient` (human-readable). The encoder cannot fail on this body, so
/// the message is always returned.
pub fn transfer_token_message(token: &String, amount: u128, recipient: &String) -> (r: Option<
    WasmInstruction,
>)
    ensures
        r is Some,
        r matches Some(w) ==> {
            &&& w@.contract_addr == token@
            &&& w@.payload == cw20_transfer_payload(recipient@, amount)
        },
{
    match encode_cw20_transfer(recipient, amount) {
        Some(payload) => Some(WasmInstruction { contract_addr: token.clone(), payload }),
        None => None,
    }
}

/// Builds the wire message for a burn: execute the token contract at
/// `token` (human-readable) with a burn-from body destroying `amount` of
/// the balance of `owner` (human-readable). The encoder cannot fail on
/// this body, so the message is always returned.
pub fn burn_from_message(token: &String, owner: &String, amount: u128) -> (r: Option<
    WasmInstruction,
>)
    ensures
        r is Some,
        r matches Some(w) ==> {
            &&& w@.contract_addr == token@
            &&& w@.payload == cw20_burn_from_payload(owner@, amount)
        },
{
    match encode_cw20_burn_from(owner, amount) {
        Some(payload) => Some(WasmInstruction { contract_addr: token.clone(), payload }),
        None => None,
    }
}

} // verus!
