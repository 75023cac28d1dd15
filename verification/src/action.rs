//! Action descriptors and the action-construction routines: one routine per
//! supported action kind, each taking the validated, typed argument set the
//! dispatcher assembles and returning the full ordered address list and
//! instruction-data blob for that action.
use vstd::prelude::*;

use crate::bytes::{
    clone_bytes, push_bytes, push_u16_be, push_u32_be, push_u64_be, u16_be, u32_be, u64_be,
};
use crate::envelope::{encode_summary, summary_bytes, EnvelopeSummary, SummaryModel};

verus! {

/// Instruction tag of the AttestAsset action.
pub const ACTION_ATTEST: u8 = 1;

/// Instruction tag of the TransferNative action.
pub const ACTION_TRANSFER_NATIVE: u8 = 2;

/// Instruction tag of the TransferWrapped action.
pub const ACTION_TRANSFER_WRAPPED: u8 = 3;

/// Instruction tag of the CompleteTransferNative action.
pub const ACTION_COMPLETE_NATIVE: u8 = 4;

/// Instruction tag of the CompleteTransferWrapped action.
pub const ACTION_COMPLETE_WRAPPED: u8 = 5;

/// Instruction tag of the CreateWrapped action.
pub const ACTION_CREATE_WRAPPED: u8 = 6;

/// Instruction tag of the UpgradeContract action.
pub const ACTION_UPGRADE_CONTRACT: u8 = 7;

/// Instruction tag of the RegisterChain action.
pub const ACTION_REGISTER_CHAIN: u8 = 8;

/// What part an address plays in an action's address list.
#[derive(Clone, Copy, Debug, PartialEq, Eq, Structural)]
pub enum AccountRole {
    /// The executing program.
    Program,
    /// The core bridge program.
    Bridge,
    /// The fee payer.
    Payer,
    /// The token mint.
    Mint,
    /// The mint's metadata account.
    MintMeta,
    /// The token account tokens are taken from.
    Source,
    /// The owner of the source token account.
    SourceOwner,
    /// The replay-protection message account.
    Message,
    /// The token account tokens are delivered to.
    Recipient,
    /// The native token account named by the payload.
    Token,
    /// The attestation's emitter.
    Emitter,
    /// The new program implementation.
    NewContract,
    /// The account reclaimed funds are spilled to.
    Spill,
}

/// One entry of an action's ordered address list.
pub struct AccountEntry {
    /// 32-byte platform address.
    pub address: Vec<u8>,
    pub role: AccountRole,
    /// Whether the action may modify the account.
    pub writable: bool,
    /// Whether the address must sign the submission.
    pub signer: bool,
}

/// Mathematical model of an address-list entry.
#[verifier::ext_equal]
pub struct AccountModel {
    pub address: Seq<u8>,
    pub role: AccountRole,
    pub writable: bool,
    pub signer: bool,
}

impl View for AccountEntry {
    type V = AccountModel;

    open spec fn view(&self) -> AccountModel {
        AccountModel {
            address: self.address@,
            role: self.role,
            writable: self.writable,
            signer: self.signer,
        }
    }
}

/// The output unit: an ordered address list plus an opaque instruction-data
/// blob, built once and handed to the caller whole.
pub struct ActionDescriptor {
    pub accounts: Vec<AccountEntry>,
    pub data: Vec<u8>,
}

/// Mathematical model of an action descriptor.
#[verifier::ext_equal]
pub struct DescriptorModel {
    pub accounts: Seq<AccountModel>,
    pub data: Seq<u8>,
}

impl View for ActionDescriptor {
    type V = DescriptorModel;

    open spec fn view(&self) -> DescriptorModel {
        DescriptorModel {
            accounts: self.accounts@.map_values(|a: AccountEntry| a@),
            data: self.data@,
        }
    }
}

/// Shorthand for one address-list entry.
pub open spec fn acct(address: Seq<u8>, role: AccountRole, writable: bool, signer: bool) -> AccountModel {
    AccountModel { address, role, writable, signer }
}

/// Address list of the AttestAsset action.
pub open spec fn attest_accounts(
    program: Seq<u8>,
    bridge: Seq<u8>,
    payer: Seq<u8>,
    mint: Seq<u8>,
    mint_meta: Seq<u8>,
) -> Seq<AccountModel> {
    seq![
        acct(payer, AccountRole::Payer, true, true),
        acct(bridge, AccountRole::Bridge, true, false),
        acct(mint, AccountRole::Mint, false, false),
        acct(mint_meta, AccountRole::MintMeta, false, false),
        acct(program, AccountRole::Program, false, false),
    ]
}

/// Instruction data of the AttestAsset action.
pub open spec fn attest_data(nonce: u32, decimals: u8) -> Seq<u8> {
    seq![ACTION_ATTEST] + u32_be(nonce) + seq![decimals]
}

/// Address list of the TransferNative action.
pub open spec fn transfer_native_accounts(
    program: Seq<u8>,
    bridge: Seq<u8>,
    payer: Seq<u8>,
    from: Seq<u8>,
    mint: Seq<u8>,
) -> Seq<AccountModel> {
    seq![
        acct(payer, AccountRole::Payer, true, true),
        acct(bridge, AccountRole::Bridge, true, false),
        acct(from, AccountRole::Source, true, false),
        acct(mint, AccountRole::Mint, true, false),
        acct(program, AccountRole::Program, false, false),
    ]
}

/// Instruction data of the TransferNative action.
pub open spec fn transfer_native_data(
    nonce: u32,
    amount: u64,
    fee: u64,
    target_address: Seq<u8>,
    target_chain: u16,
) -> Seq<u8> {
    seq![ACTION_TRANSFER_NATIVE] + u32_be(nonce) + u64_be(amount) + u64_be(fee) + target_address
        + u16_be(target_chain)
}

/// Address list of the TransferWrapped action.
pub open spec fn transfer_wrapped_accounts(
    program: Seq<u8>,
    bridge: Seq<u8>,
    payer: Seq<u8>,
    from: Seq<u8>,
    from_owner: Seq<u8>,
) -> Seq<AccountModel> {
    seq![
        acct(payer, AccountRole::Payer, true, true),
        acct(bridge, AccountRole::Bridge, true, false),
        acct(from, AccountRole::Source, true, false),
        acct(from_owner, AccountRole::SourceOwner, false, true),
        acct(program, AccountRole::Program, false, false),
    ]
}

/// Instruction data of the TransferWrapped action.
pub open spec fn transfer_wrapped_data(
    nonce: u32,
    amount: u64,
    fee: u64,
    target_address: Seq<u8>,
    target_chain: u16,
    token_chain: u16,
    token_address: Seq<u8>,
) -> Seq<u8> {
    seq![ACTION_TRANSFER_WRAPPED] + u32_be(nonce) + u64_be(amount) + u64_be(fee) + target_address
        + u16_be(target_chain) + u16_be(token_chain) + token_address
}

/// Address list of the CompleteTransferNative action.
pub open spec fn complete_native_accounts(
    program: Seq<u8>,
    bridge: Seq<u8>,
    payer: Seq<u8>,
    message: Seq<u8>,
    to: Seq<u8>,
    token_address: Seq<u8>,
) -> Seq<AccountModel> {
    seq![
        acct(payer, AccountRole::Payer, true, true),
        acct(bridge, AccountRole::Bridge, true, false),
        acct(message, AccountRole::Message, false, false),
        acct(to, AccountRole::Recipient, true, false),
        acct(token_address, AccountRole::Token, true, false),
        acct(program, AccountRole::Program, false, false),
    ]
}

/// Instruction data of the CompleteTransferNative action.
pub open spec fn complete_native_data(summary: SummaryModel) -> Seq<u8> {
    seq![ACTION_COMPLETE_NATIVE] + summary_bytes(summary)
}

/// Address list of the CompleteTransferWrapped action.
pub open spec fn complete_wrapped_accounts(
    program: Seq<u8>,
    bridge: Seq<u8>,
    payer: Seq<u8>,
    message: Seq<u8>,
    to: Seq<u8>,
) -> Seq<AccountModel> {
    seq![
        acct(payer, AccountRole::Payer, true, true),
        acct(bridge, AccountRole::Bridge, true, false),
        acct(message, AccountRole::Message, false, false),
        acct(to, AccountRole::Recipient, true, false),
        acct(program, AccountRole::Program, false, false),
    ]
}

/// Instruction data of the CompleteTransferWrapped action.
pub open spec fn complete_wrapped_data(
    summary: SummaryModel,
    token_chain: u16,
    token_address: Seq<u8>,
) -> Seq<u8> {
    seq![ACTION_COMPLETE_WRAPPED] + summary_bytes(summary) + u16_be(token_chain) + token_address
}

/// Address list of the CreateWrapped action.
pub open spec fn create_wrapped_accounts(
    program: Seq<u8>,
    bridge: Seq<u8>,
    payer: Seq<u8>,
    message: Seq<u8>,
) -> Seq<AccountModel> {
    seq![
        acct(payer, AccountRole::Payer, true, true),
        acct(bridge, AccountRole::Bridge, true, false),
        acct(message, AccountRole::Message, false, false),
        acct(program, AccountRole::Program, false, false),
    ]
}

/// Instruction data of the CreateWrapped action.
pub open spec fn create_wrapped_data(
    summary: SummaryModel,
    token_address: Seq<u8>,
    token_chain: u16,
    decimals: u8,
    symbol: Seq<u8>,
    name: Seq<u8>,
) -> Seq<u8> {
    seq![ACTION_CREATE_WRAPPED] + summary_bytes(summary) + token_address + u16_be(token_chain)
        + seq![decimals] + symbol + name
}

/// Address list of the UpgradeContract action. Upgrade actions are
/// bridge-independent: no entry carries the bridge role.
pub open spec fn upgrade_contract_accounts(
    program: Seq<u8>,
    payer: Seq<u8>,
    message: Seq<u8>,
    emitter: Seq<u8>,
    new_contract: Seq<u8>,
    spill: Seq<u8>,
) -> Seq<AccountModel> {
    seq![
        acct(payer, AccountRole::Payer, true, true),
        acct(message, AccountRole::Message, false, false),
        acct(emitter, AccountRole::Emitter, false, false),
        acct(new_contract, AccountRole::NewContract, false, false),
        acct(spill, AccountRole::Spill, true, false),
        acct(program, AccountRole::Program, true, false),
    ]
}

/// Instruction data of the UpgradeContract action.
pub open spec fn upgrade_contract_data(summary: SummaryModel) -> Seq<u8> {
    seq![ACTION_UPGRADE_CONTRACT] + summary_bytes(summary)
}

/// Address list of the RegisterChain action; it includes the bridge.
pub open spec fn register_chain_accounts(
    program: Seq<u8>,
    bridge: Seq<u8>,
    payer: Seq<u8>,
    message: Seq<u8>,
) -> Seq<AccountModel> {
    seq![
        acct(payer, AccountRole::Payer, true, true),
        acct(bridge, AccountRole::Bridge, true, false),
        acct(message, AccountRole::Message, false, false),
        acct(program, AccountRole::Program, false, false),
    ]
}

/// Instruction data of the RegisterChain action.
pub open spec fn register_chain_data(
    summary: SummaryModel,
    foreign_chain: u16,
    foreign_bridge_address: Seq<u8>,
) -> Seq<u8> {
    seq![ACTION_REGISTER_CHAIN] + summary_bytes(summary) + u16_be(foreign_chain)
        + foreign_bridge_address
}

/// Constructs the AttestAsset descriptor.
pub fn attest(
    program_id: &Vec<u8>,
    bridge_id: &Vec<u8>,
    payer: &Vec<u8>,
    mint: &Vec<u8>,
    decimals: u8,
    mint_meta: &Vec<u8>,
    nonce: u32,
) -> (r: ActionDescriptor)
    ensures
        r@.accounts == attest_accounts(program_id@, bridge_id@, payer@, mint@, mint_meta@),
        r@.data == attest_data(nonce, decimals),
{
    let mut accounts: Vec<AccountEntry> = Vec::new();
    accounts.push(AccountEntry { address: clone_bytes(payer), role: AccountRole::Payer, writable: true, signer: true });
    accounts.push(AccountEntry { address: clone_bytes(bridge_id), role: AccountRole::Bridge, writable: true, signer: false });
    accounts.push(AccountEntry { address: clone_bytes(mint), role: AccountRole::Mint, writable: false, signer: false });
    accounts.push(AccountEntry { address: clone_bytes(mint_meta), role: AccountRole::MintMeta, writable: false, signer: false });
    accounts.push(AccountEntry { address: clone_bytes(program_id), role: AccountRole::Program, writable: false, signer: false });
    let mut data: Vec<u8> = Vec::new();
    data.push(ACTION_ATTEST);
    push_u32_be(&mut data, nonce);
    data.push(decimals);
    let r = ActionDescriptor { accounts, data };
    proof {
        assert(r@.accounts =~= attest_accounts(program_id@, bridge_id@, payer@, mint@, mint_meta@));
        assert(r@.data =~= attest_data(nonce, decimals));
    }
    r
}

/// Constructs the TransferNative descriptor.
pub fn transfer_native(
    program_id: &Vec<u8>,
    bridge_id: &Vec<u8>,
    payer: &Vec<u8>,
    from: &Vec<u8>,
    mint: &Vec<u8>,
    nonce: u32,
    amount: u64,
    fee: u64,
    target_address: &Vec<u8>,
    target_chain: u16,
) -> (r: ActionDescriptor)
    ensures
        r@.accounts == transfer_native_accounts(program_id@, bridge_id@, payer@, from@, mint@),
        r@.data == transfer_native_data(nonce, amount, fee, target_address@, target_chain),
{
    let mut accounts: Vec<AccountEntry> = Vec::new();
    accounts.push(AccountEntry { address: clone_bytes(payer), role: AccountRole::Payer, writable: true, signer: true });
    accounts.push(AccountEntry { address: clone_bytes(bridge_id), role: AccountRole::Bridge, writable: true, signer: false });
    accounts.push(AccountEntry { address: clone_bytes(from), role: AccountRole::Source, writable: true, signer: false });
    accounts.push(AccountEntry { address: clone_bytes(mint), role: AccountRole::Mint, writable: true, signer: false });
    accounts.push(AccountEntry { address: clone_bytes(program_id), role: AccountRole::Program, writable: false, signer: false });
    let mut data: Vec<u8> = Vec::new();
    data.push(ACTION_TRANSFER_NATIVE);
    push_u32_be(&mut data, nonce);
    push_u64_be(&mut data, amount);
    push_u64_be(&mut data, fee);
    push_bytes(&mut data, target_address);
    push_u16_be(&mut data, target_chain);
    let r = ActionDescriptor { accounts, data };
    proof {
        assert(r@.accounts =~= transfer_native_accounts(program_id@, bridge_id@, payer@, from@, mint@));
        assert(r@.data =~= transfer_native_data(nonce, amount, fee, target_address@, target_chain));
    }
    r
}

/// Constructs the TransferWrapped descriptor.
pub fn transfer_wrapped(
    program_id: &Vec<u8>,
    bridge_id: &Vec<u8>,
    payer: &Vec<u8>,
    from: &Vec<u8>,
    from_owner: &Vec<u8>,
    token_chain: u16,
    token_address: &Vec<u8>,
    nonce: u32,
    amount: u64,
    fee: u64,
    target_address: &Vec<u8>,
    target_chain: u16,
) -> (r: ActionDescriptor)
    ensures
        r@.accounts == transfer_wrapped_accounts(program_id@, bridge_id@, payer@, from@, from_owner@),
        r@.data == transfer_wrapped_data(
            nonce,
            amount,
            fee,
            target_address@,
            target_chain,
            token_chain,
            token_address@,
        ),
{
    let mut accounts: Vec<AccountEntry> = Vec::new();
    accounts.push(AccountEntry { address: clone_bytes(payer), role: AccountRole::Payer, writable: true, signer: true });
    accounts.push(AccountEntry { address: clone_bytes(bridge_id), role: AccountRole::Bridge, writable: true, signer: false });
    accounts.push(AccountEntry { address: clone_bytes(from), role: AccountRole::Source, writable: true, signer: false });
    accounts.push(AccountEntry { address: clone_bytes(from_owner), role: AccountRole::SourceOwner, writable: false, signer: true });
    accounts.push(AccountEntry { address: clone_bytes(program_id), role: AccountRole::Program, writable: false, signer: false });
    let mut data: Vec<u8> = Vec::new();
    data.push(ACTION_TRANSFER_WRAPPED);
    push_u32_be(&mut data, nonce);
    push_u64_be(&mut data, amount);
    push_u64_be(&mut data, fee);
    push_bytes(&mut data, target_address);
    push_u16_be(&mut data, target_chain);
    push_u16_be(&mut data, token_chain);
    push_bytes(&mut data, token_address);
    let r = ActionDescriptor { accounts, data };
    proof {
        assert(r@.accounts =~= transfer_wrapped_accounts(program_id@, bridge_id@, payer@, from@, from_owner@));
        assert(r@.data =~= transfer_wrapped_data(
            nonce,
            amount,
            fee,
            target_address@,
            target_chain,
            token_chain,
            token_address@,
        ));
    }
    r
}

/// Constructs the CompleteTransferNative descriptor.
pub fn complete_native(
    program_id: &Vec<u8>,
    bridge_id: &Vec<u8>,
    payer: &Vec<u8>,
    message_key: &Vec<u8>,
    summary: &EnvelopeSummary,
    to: &Vec<u8>,
    token_address: &Vec<u8>,
) -> (r: ActionDescriptor)
    ensures
        r@.accounts == complete_native_accounts(
            program_id@,
            bridge_id@,
            payer@,
            message_key@,
            to@,
            token_address@,
        ),
        r@.data == complete_native_data(summary@),
{
    let mut accounts: Vec<AccountEntry> = Vec::new();
    accounts.push(AccountEntry { address: clone_bytes(payer), role: AccountRole::Payer, writable: true, signer: true });
    accounts.push(AccountEntry { address: clone_bytes(bridge_id), role: AccountRole::Bridge, writable: true, signer: false });
    accounts.push(AccountEntry { address: clone_bytes(message_key), role: AccountRole::Message, writable: false, signer: false });
    accounts.push(AccountEntry { address: clone_bytes(to), role: AccountRole::Recipient, writable: true, signer: false });
    accounts.push(AccountEntry { address: clone_bytes(token_address), role: AccountRole::Token, writable: true, signer: false });
    accounts.push(AccountEntry { address: clone_bytes(program_id), role: AccountRole::Program, writable: false, signer: false });
    let mut data: Vec<u8> = Vec::new();
    data.push(ACTION_COMPLETE_NATIVE);
    let header = encode_summary(summary);
    push_bytes(&mut data, &header);
    let r = ActionDescriptor { accounts, data };
    proof {
        assert(r@.accounts =~= complete_native_accounts(
            program_id@,
            bridge_id@,
            payer@,
            message_key@,
            to@,
            token_address@,
        ));
        assert(r@.data =~= complete_native_data(summary@));
    }
    r
}

/// Constructs the CompleteTransferWrapped descriptor.
pub fn complete_wrapped(
    program_id: &Vec<u8>,
    bridge_id: &Vec<u8>,
    payer: &Vec<u8>,
    message_key: &Vec<u8>,
    summary: &EnvelopeSummary,
    token_chain: u16,
    token_address: &Vec<u8>,
    to: &Vec<u8>,
) -> (r: ActionDescriptor)
    ensures
        r@.accounts == complete_wrapped_accounts(
            program_id@,
            bridge_id@,
            payer@,
            message_key@,
            to@,
        ),
        r@.data == complete_wrapped_data(summary@, token_chain, token_address@),
{
    let mut accounts: Vec<AccountEntry> = Vec::new();
    accounts.push(AccountEntry { address: clone_bytes(payer), role: AccountRole::Payer, writable: true, signer: true });
    accounts.push(AccountEntry { address: clone_bytes(bridge_id), role: AccountRole::Bridge, writable: true, signer: false });
    accounts.push(AccountEntry { address: clone_bytes(message_key), role: AccountRole::Message, writable: false, signer: false });
    accounts.push(AccountEntry { address: clone_bytes(to), role: AccountRole::Recipient, writable: true, signer: false });
    accounts.push(AccountEntry { address: clone_bytes(program_id), role: AccountRole::Program, writable: false, signer: false });
    let mut data: Vec<u8> = Vec::new();
    data.push(ACTION_COMPLETE_WRAPPED);
    let header = encode_summary(summary);
    push_bytes(&mut data, &header);
    push_u16_be(&mut data, token_chain);
    push_bytes(&mut data, token_address);
    let r = ActionDescriptor { accounts, data };
    proof {
        assert(r@.accounts =~= complete_wrapped_accounts(
            program_id@,
            bridge_id@,
            payer@,
            message_key@,
            to@,
        ));
        assert(r@.data =~= complete_wrapped_data(summary@, token_chain, token_address@));
    }
    r
}

/// Constructs the CreateWrapped descriptor.
pub fn create_wrapped(
    program_id: &Vec<u8>,
    bridge_id: &Vec<u8>,
    payer: &Vec<u8>,
    message_key: &Vec<u8>,
    summary: &EnvelopeSummary,
    token_address: &Vec<u8>,
    token_chain: u16,
    decimals: u8,
    symbol: &Vec<u8>,
    name: &Vec<u8>,
) -> (r: ActionDescriptor)
    ensures
        r@.accounts == create_wrapped_accounts(program_id@, bridge_id@, payer@, message_key@),
        r@.data == create_wrapped_data(
            summary@,
            token_address@,
            token_chain,
            decimals,
            symbol@,
            name@,
        ),
{
    let mut accounts: Vec<AccountEntry> = Vec::new();
    accounts.push(AccountEntry { address: clone_bytes(payer), role: AccountRole::Payer, writable: true, signer: true });
    accounts.push(AccountEntry { address: clone_bytes(bridge_id), role: AccountRole::Bridge, writable: true, signer: false });
    accounts.push(AccountEntry { address: clone_bytes(message_key), role: AccountRole::Message, writable: false, signer: false });
    accounts.push(AccountEntry { address: clone_bytes(program_id), role: AccountRole::Program, writable: false, signer: false });
    let mut data: Vec<u8> = Vec::new();
    data.push(ACTION_CREATE_WRAPPED);
    let header = encode_summary(summary);
    push_bytes(&mut data, &header);
    push_bytes(&mut data, token_address);
    push_u16_be(&mut data, token_chain);
    data.push(decimals);
    push_bytes(&mut data, symbol);
    push_bytes(&mut data, name);
    let r = ActionDescriptor { accounts, data };
    proof {
        assert(r@.accounts =~= create_wrapped_accounts(program_id@, bridge_id@, payer@, message_key@));
        assert(r@.data =~= create_wrapped_data(
            summary@,
            token_address@,
            token_chain,
            decimals,
            symbol@,
            name@,
        ));
    }
    r
}

/// Constructs the UpgradeContract descriptor. It carries the spill account
/// and never the bridge: upgrades are bridge-independent.
pub fn upgrade_contract(
    program_id: &Vec<u8>,
    payer: &Vec<u8>,
    message_key: &Vec<u8>,
    emitter: &Vec<u8>,
    new_contract: &Vec<u8>,
    spill: &Vec<u8>,
    summary: &EnvelopeSummary,
) -> (r: ActionDescriptor)
    ensures
        r@.accounts == upgrade_contract_accounts(
            program_id@,
            payer@,
            message_key@,
            emitter@,
            new_contract@,
            spill@,
        ),
        r@.data == upgrade_contract_data(summary@),
{
    let mut accounts: Vec<AccountEntry> = Vec::new();
    accounts.push(AccountEntry { address: clone_bytes(payer), role: AccountRole::Payer, writable: true, signer: true });
    accounts.push(AccountEntry { address: clone_bytes(message_key), role: AccountRole::Message, writable: false, signer: false });
    accounts.push(AccountEntry { address: clone_bytes(emitter), role: AccountRole::Emitter, writable: false, signer: false });
    accounts.push(AccountEntry { address: clone_bytes(new_contract), role: AccountRole::NewContract, writable: false, signer: false });
    accounts.push(AccountEntry { address: clone_bytes(spill), role: AccountRole::Spill, writable: true, signer: false });
    accounts.push(AccountEntry { address: clone_bytes(program_id), role: AccountRole::Program, writable: true, signer: false });
    let mut data: Vec<u8> = Vec::new();
    data.push(ACTION_UPGRADE_CONTRACT);
    let header = encode_summary(summary);
    push_bytes(&mut data, &header);
    let r = ActionDescriptor { accounts, data };
    proof {
        assert(r@.accounts =~= upgrade_contract_accounts(
            program_id@,
            payer@,
            message_key@,
            emitter@,
            new_contract@,
            spill@,
        ));
        assert(r@.data =~= upgrade_contract_data(summary@));
    }
    r
}

/// Constructs the RegisterChain descriptor; its address list includes the
/// bridge.
pub fn register_chain(
    program_id: &Vec<u8>,
    bridge_id: &Vec<u8>,
    payer: &Vec<u8>,
    message_key: &Vec<u8>,
    summary: &EnvelopeSummary,
    foreign_chain: u16,
    foreign_bridge_address: &Vec<u8>,
) -> (r: ActionDescriptor)
    ensures
        r@.accounts == register_chain_accounts(program_id@, bridge_id@, payer@, message_key@),
        r@.data == register_chain_data(summary@, foreign_chain, foreign_bridge_address@),
{
    let mut accounts: Vec<AccountEntry> = Vec::new();
    accounts.push(AccountEntry { address: clone_bytes(payer), role: AccountRole::Payer, writable: true, signer: true });
    accounts.push(AccountEntry { address: clone_bytes(bridge_id), role: AccountRole::Bridge, writable: true, signer: false });
    accounts.push(AccountEntry { address: clone_bytes(message_key), role: AccountRole::Message, writable: false, signer: false });
    accounts.push(AccountEntry { address: clone_bytes(program_id), role: AccountRole::Program, writable: false, signer: false });
    let mut data: Vec<u8> = Vec::new();
    data.push(ACTION_REGISTER_CHAIN);
    let header = encode_summary(summary);
    push_bytes(&mut data, &header);
    push_u16_be(&mut data, foreign_chain);
    push_bytes(&mut data, foreign_bridge_address);
    let r = ActionDescriptor { accounts, data };
    proof {
        assert(r@.accounts =~= register_chain_accounts(program_id@, bridge_id@, payer@, message_key@));
        assert(r@.data =~= register_chain_data(summary@, foreign_chain, foreign_bridge_address@));
    }
    r
}

} // verus!
