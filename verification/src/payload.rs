//! The payload codec: decodes an envelope's payload bytes into one of four
//! typed schemas, each of a fixed width and tagged by a leading discriminator
//! byte. The expected variant is pinned by the decode entry point the caller
//! chooses; a wrong width fails with `PayloadLengthMismatch` and a wrong tag
//! with `InvalidDiscriminator`.
use vstd::prelude::*;

use crate::bytes::{
    read_bytes, read_u16_be, push_bytes, push_u16_be, u16_be, u16_of_be,
    lemma_u16_be_round_trip, lemma_u16_of_be_round_trip,
};
use crate::BridgeError;

verus! {

/// Discriminator byte of the Transfer payload.
pub const TRANSFER_TAG: u8 = 1;

/// Discriminator byte of the AssetMeta payload.
pub const ASSET_META_TAG: u8 = 2;

/// Discriminator byte of the GovernanceRegisterChain payload.
pub const REGISTER_CHAIN_TAG: u8 = 3;

/// Discriminator byte of the GovernanceUpgrade payload.
pub const UPGRADE_TAG: u8 = 4;

/// Exact byte width of the Transfer payload.
pub const TRANSFER_LEN: usize = 133;

/// Exact byte width of the AssetMeta payload.
pub const ASSET_META_LEN: usize = 100;

/// Exact byte width of the GovernanceRegisterChain payload.
pub const REGISTER_CHAIN_LEN: usize = 37;

/// Exact byte width of the GovernanceUpgrade payload.
pub const UPGRADE_LEN: usize = 33;

/// A token transfer: who sends how much of which token to whom.
pub struct PayloadTransfer {
    /// Amount being transferred, as 32 big-endian bytes.
    pub amount: Vec<u8>,
    /// 32-byte address of the token, on its native chain.
    pub token_address: Vec<u8>,
    /// Chain id of the token's native chain.
    pub token_chain: u16,
    /// 32-byte address of the recipient.
    pub to: Vec<u8>,
    /// Chain id of the recipient's chain.
    pub to_chain: u16,
    /// Fee owed to the relayer, as 32 big-endian bytes.
    pub fee: Vec<u8>,
}

/// Mathematical model of a Transfer payload.
#[verifier::ext_equal]
pub struct TransferModel {
    pub amount: Seq<u8>,
    pub token_address: Seq<u8>,
    pub token_chain: u16,
    pub to: Seq<u8>,
    pub to_chain: u16,
    pub fee: Seq<u8>,
}

impl TransferModel {
    pub open spec fn wf(self) -> bool {
        self.amount.len() == 32 && self.token_address.len() == 32 && self.to.len() == 32
            && self.fee.len() == 32
    }
}

impl View for PayloadTransfer {
    type V = TransferModel;

    open spec fn view(&self) -> TransferModel {
        TransferModel {
            amount: self.amount@,
            token_address: self.token_address@,
            token_chain: self.token_chain,
            to: self.to@,
            to_chain: self.to_chain,
            fee: self.fee@,
        }
    }
}

/// Wire encoding of a Transfer payload.
pub open spec fn transfer_bytes(m: TransferModel) -> Seq<u8> {
    seq![TRANSFER_TAG] + m.amount + m.token_address + u16_be(m.token_chain) + m.to
        + u16_be(m.to_chain) + m.fee
}

/// The Transfer payload read from bytes of the exact width.
pub open spec fn transfer_of(b: Seq<u8>) -> TransferModel
    recommends
        b.len() == TRANSFER_LEN,
{
    TransferModel {
        amount: b.subrange(1, 33),
        token_address: b.subrange(33, 65),
        token_chain: u16_of_be(b[65], b[66]),
        to: b.subrange(67, 99),
        to_chain: u16_of_be(b[99], b[100]),
        fee: b.subrange(101, 133),
    }
}

/// Decodes a Transfer payload. Exactly 133 bytes are accepted, and the
/// leading discriminator must be the Transfer tag.
pub fn decode_transfer(bytes: &Vec<u8>) -> (r: Result<PayloadTransfer, BridgeError>)
    ensures
        bytes@.len() != TRANSFER_LEN ==> r === Err(BridgeError::PayloadLengthMismatch),
        bytes@.len() == TRANSFER_LEN && bytes@[0] != TRANSFER_TAG ==> r === Err(
            BridgeError::InvalidDiscriminator,
        ),
        bytes@.len() == TRANSFER_LEN && bytes@[0] == TRANSFER_TAG ==> (r matches Ok(p) && p@
            == transfer_of(bytes@) && p@.wf()),
{
    if bytes.len() != TRANSFER_LEN {
        return Err(BridgeError::PayloadLengthMismatch);
    }
    if bytes[0] != TRANSFER_TAG {
        return Err(BridgeError::InvalidDiscriminator);
    }
    let p = PayloadTransfer {
        amount: read_bytes(bytes, 1, 32),
        token_address: read_bytes(bytes, 33, 32),
        token_chain: read_u16_be(bytes, 65),
        to: read_bytes(bytes, 67, 32),
        to_chain: read_u16_be(bytes, 99),
        fee: read_bytes(bytes, 101, 32),
    };
    proof {
        assert(p@ =~= transfer_of(bytes@));
    }
    Ok(p)
}

/// Re-encodes a Transfer payload to its exact wire bytes.
pub fn encode_transfer(p: &PayloadTransfer) -> (r: Vec<u8>)
    requires
        p@.wf(),
    ensures
        r@ == transfer_bytes(p@),
{
    let mut out: Vec<u8> = Vec::new();
    out.push(TRANSFER_TAG);
    push_bytes(&mut out, &p.amount);
    push_bytes(&mut out, &p.token_address);
    push_u16_be(&mut out, p.token_chain);
    push_bytes(&mut out, &p.to);
    push_u16_be(&mut out, p.to_chain);
    push_bytes(&mut out, &p.fee);
    proof {
        assert(out@ =~= transfer_bytes(p@));
    }
    out
}

/// Round trip in the other direction: encoding a well-formed Transfer
/// payload and decoding the bytes yields the payload back.
pub proof fn lemma_transfer_model_round_trip(m: TransferModel)
    requires
        m.wf(),
    ensures
        transfer_of(transfer_bytes(m)) == m,
{
    let b = transfer_bytes(m);
    lemma_u16_be_round_trip(m.token_chain);
    lemma_u16_be_round_trip(m.to_chain);
    assert(b.subrange(1, 33) =~= m.amount);
    assert(b.subrange(33, 65) =~= m.token_address);
    assert(b.subrange(67, 99) =~= m.to);
    assert(b.subrange(101, 133) =~= m.fee);
    assert(transfer_of(b) =~= m);
}

/// Round trip: re-encoding the Transfer payload decoded from well-formed
/// bytes reproduces the bytes exactly.
pub proof fn lemma_transfer_round_trip(b: Seq<u8>)
    requires
        b.len() == TRANSFER_LEN,
        b[0] == TRANSFER_TAG,
    ensures
        transfer_bytes(transfer_of(b)) == b,
{
    lemma_u16_of_be_round_trip(b[65], b[66]);
    lemma_u16_of_be_round_trip(b[99], b[100]);
    assert(transfer_bytes(transfer_of(b)) =~= b);
}

/// Metadata of a token, used to create its wrapped representation.
pub struct PayloadAssetMeta {
    /// 32-byte address of the token, on its native chain.
    pub token_address: Vec<u8>,
    /// Chain id of the token's native chain.
    pub token_chain: u16,
    /// Number of decimals of the token.
    pub decimals: u8,
    /// Token symbol, as 32 bytes of fixed-width text.
    pub symbol: Vec<u8>,
    /// Token name, as 32 bytes of fixed-width text.
    pub name: Vec<u8>,
}

/// Mathematical model of an AssetMeta payload.
#[verifier::ext_equal]
pub struct AssetMetaModel {
    pub token_address: Seq<u8>,
    pub token_chain: u16,
    pub decimals: u8,
    pub symbol: Seq<u8>,
    pub name: Seq<u8>,
}

impl AssetMetaModel {
    pub open spec fn wf(self) -> bool {
        self.token_address.len() == 32 && self.symbol.len() == 32 && self.name.len() == 32
    }
}

impl View for PayloadAssetMeta {
    type V = AssetMetaModel;

    open spec fn view(&self) -> AssetMetaModel {
        AssetMetaModel {
            token_address: self.token_address@,
            token_chain: self.token_chain,
            decimals: self.decimals,
            symbol: self.symbol@,
            name: self.name@,
        }
    }
}

/// Wire encoding of an AssetMeta payload.
pub open spec fn asset_meta_bytes(m: AssetMetaModel) -> Seq<u8> {
    seq![ASSET_META_TAG] + m.token_address + u16_be(m.token_chain) + seq![m.decimals] + m.symbol
        + m.name
}

/// The AssetMeta payload read from bytes of the exact width.
pub open spec fn asset_meta_of(b: Seq<u8>) -> AssetMetaModel
    recommends
        b.len() == ASSET_META_LEN,
{
    AssetMetaModel {
        token_address: b.subrange(1, 33),
        token_chain: u16_of_be(b[33], b[34]),
        decimals: b[35],
        symbol: b.subrange(36, 68),
        name: b.subrange(68, 100),
    }
}

/// Decodes an AssetMeta payload. Exactly 100 bytes are accepted, and the
/// leading discriminator must be the AssetMeta tag.
pub fn decode_asset_meta(bytes: &Vec<u8>) -> (r: Result<PayloadAssetMeta, BridgeError>)
    ensures
        bytes@.len() != ASSET_META_LEN ==> r === Err(BridgeError::PayloadLengthMismatch),
        bytes@.len() == ASSET_META_LEN && bytes@[0] != ASSET_META_TAG ==> r === Err(
            BridgeError::InvalidDiscriminator,
        ),
        bytes@.len() == ASSET_META_LEN && bytes@[0] == ASSET_META_TAG ==> (r matches Ok(p) && p@
            == asset_meta_of(bytes@) && p@.wf()),
{
    if bytes.len() != ASSET_META_LEN {
        return Err(BridgeError::PayloadLengthMismatch);
    }
    if bytes[0] != ASSET_META_TAG {
        return Err(BridgeError::InvalidDiscriminator);
    }
    let p = PayloadAssetMeta {
        token_address: read_bytes(bytes, 1, 32),
        token_chain: read_u16_be(bytes, 33),
        decimals: bytes[35],
        symbol: read_bytes(bytes, 36, 32),
        name: read_bytes(bytes, 68, 32),
    };
    proof {
        assert(p@ =~= asset_meta_of(bytes@));
    }
    Ok(p)
}

/// Re-encodes an AssetMeta payload to its exact wire bytes.
pub fn encode_asset_meta(p: &PayloadAssetMeta) -> (r: Vec<u8>)
    requires
        p@.wf(),
    ensures
        r@ == asset_meta_bytes(p@),
{
    let mut out: Vec<u8> = Vec::new();
    out.push(ASSET_META_TAG);
    push_bytes(&mut out, &p.token_address);
    push_u16_be(&mut out, p.token_chain);
    out.push(p.decimals);
    push_bytes(&mut out, &p.symbol);
    push_bytes(&mut out, &p.name);
    proof {
        assert(out@ =~= asset_meta_bytes(p@));
    }
    out
}

/// Round trip in the other direction: encoding a well-formed AssetMeta
/// payload and decoding the bytes yields the payload back.
pub proof fn lemma_asset_meta_model_round_trip(m: AssetMetaModel)
    requires
        m.wf(),
    ensures
        asset_meta_of(asset_meta_bytes(m)) == m,
{
    let b = asset_meta_bytes(m);
    lemma_u16_be_round_trip(m.token_chain);
    assert(b.subrange(1, 33) =~= m.token_address);
    assert(b.subrange(36, 68) =~= m.symbol);
    assert(b.subrange(68, 100) =~= m.name);
    assert(asset_meta_of(b) =~= m);
}

/// Round trip: re-encoding the AssetMeta payload decoded from well-formed
/// bytes reproduces the bytes exactly.
pub proof fn lemma_asset_meta_round_trip(b: Seq<u8>)
    requires
        b.len() == ASSET_META_LEN,
        b[0] == ASSET_META_TAG,
    ensures
        asset_meta_bytes(asset_meta_of(b)) == b,
{
    lemma_u16_of_be_round_trip(b[33], b[34]);
    assert(asset_meta_bytes(asset_meta_of(b)) =~= b);
}

/// A governance order to register a foreign chain's bridge endpoint.
pub struct PayloadGovernanceRegisterChain {
    /// Chain id the order is addressed to.
    pub target_chain: u16,
    /// Chain id of the foreign chain being registered.
    pub foreign_chain: u16,
    /// 32-byte address of the foreign chain's bridge endpoint.
    pub foreign_bridge_address: Vec<u8>,
}

/// Mathematical model of a GovernanceRegisterChain payload.
#[verifier::ext_equal]
pub struct RegisterChainModel {
    pub target_chain: u16,
    pub foreign_chain: u16,
    pub foreign_bridge_address: Seq<u8>,
}

impl RegisterChainModel {
    pub open spec fn wf(self) -> bool {
        self.foreign_bridge_address.len() == 32
    }
}

impl View for PayloadGovernanceRegisterChain {
    type V = RegisterChainModel;

    open spec fn view(&self) -> RegisterChainModel {
        RegisterChainModel {
            target_chain: self.target_chain,
            foreign_chain: self.foreign_chain,
            foreign_bridge_address: self.foreign_bridge_address@,
        }
    }
}

/// Wire encoding of a GovernanceRegisterChain payload.
pub open spec fn register_chain_bytes(m: RegisterChainModel) -> Seq<u8> {
    seq![REGISTER_CHAIN_TAG] + u16_be(m.target_chain) + u16_be(m.foreign_chain)
        + m.foreign_bridge_address
}

/// The GovernanceRegisterChain payload read from bytes of the exact width.
pub open spec fn register_chain_of(b: Seq<u8>) -> RegisterChainModel
    recommends
        b.len() == REGISTER_CHAIN_LEN,
{
    RegisterChainModel {
        target_chain: u16_of_be(b[1], b[2]),
        foreign_chain: u16_of_be(b[3], b[4]),
        foreign_bridge_address: b.subrange(5, 37),
    }
}

/// Decodes a GovernanceRegisterChain payload. Exactly 37 bytes are accepted,
/// and the leading discriminator must be the RegisterChain tag.
pub fn decode_register_chain(bytes: &Vec<u8>) -> (r: Result<
    PayloadGovernanceRegisterChain,
    BridgeError,
>)
    ensures
        bytes@.len() != REGISTER_CHAIN_LEN ==> r === Err(BridgeError::PayloadLengthMismatch),
        bytes@.len() == REGISTER_CHAIN_LEN && bytes@[0] != REGISTER_CHAIN_TAG ==> r === Err(
            BridgeError::InvalidDiscriminator,
        ),
        bytes@.len() == REGISTER_CHAIN_LEN && bytes@[0] == REGISTER_CHAIN_TAG ==> (r matches Ok(p)
            && p@ == register_chain_of(bytes@) && p@.wf()),
{
    if bytes.len() != REGISTER_CHAIN_LEN {
        return Err(BridgeError::PayloadLengthMismatch);
    }
    if bytes[0] != REGISTER_CHAIN_TAG {
        return Err(BridgeError::InvalidDiscriminator);
    }
    let p = PayloadGovernanceRegisterChain {
        target_chain: read_u16_be(bytes, 1),
        foreign_chain: read_u16_be(bytes, 3),
        foreign_bridge_address: read_bytes(bytes, 5, 32),
    };
    proof {
        assert(p@ =~= register_chain_of(bytes@));
    }
    Ok(p)
}

/// Re-encodes a GovernanceRegisterChain payload to its exact wire bytes.
pub fn encode_register_chain(p: &PayloadGovernanceRegisterChain) -> (r: Vec<u8>)
    requires
        p@.wf(),
    ensures
        r@ == register_chain_bytes(p@),
{
    let mut out: Vec<u8> = Vec::new();
    out.push(REGISTER_CHAIN_TAG);
    push_u16_be(&mut out, p.target_chain);
    push_u16_be(&mut out, p.foreign_chain);
    push_bytes(&mut out, &p.foreign_bridge_address);
    proof {
        assert(out@ =~= register_chain_bytes(p@));
    }
    out
}

/// Round trip in the other direction: encoding a well-formed
/// GovernanceRegisterChain payload and decoding the bytes yields the payload
/// back.
pub proof fn lemma_register_chain_model_round_trip(m: RegisterChainModel)
    requires
        m.wf(),
    ensures
        register_chain_of(register_chain_bytes(m)) == m,
{
    let b = register_chain_bytes(m);
    lemma_u16_be_round_trip(m.target_chain);
    lemma_u16_be_round_trip(m.foreign_chain);
    assert(b.subrange(5, 37) =~= m.foreign_bridge_address);
    assert(register_chain_of(b) =~= m);
}

/// Round trip: re-encoding the GovernanceRegisterChain payload decoded from
/// well-formed bytes reproduces the bytes exactly.
pub proof fn lemma_register_chain_round_trip(b: Seq<u8>)
    requires
        b.len() == REGISTER_CHAIN_LEN,
        b[0] == REGISTER_CHAIN_TAG,
    ensures
        register_chain_bytes(register_chain_of(b)) == b,
{
    lemma_u16_of_be_round_trip(b[1], b[2]);
    lemma_u16_of_be_round_trip(b[3], b[4]);
    assert(register_chain_bytes(register_chain_of(b)) =~= b);
}

/// A governance order to upgrade the program to a new implementation.
pub struct GovernancePayloadUpgrade {
    /// 32-byte address of the new implementation.
    pub new_contract: Vec<u8>,
}

/// Mathematical model of a GovernanceUpgrade payload.
#[verifier::ext_equal]
pub struct UpgradeModel {
    pub new_contract: Seq<u8>,
}

impl UpgradeModel {
    pub open spec fn wf(self) -> bool {
        self.new_contract.len() == 32
    }
}

impl View for GovernancePayloadUpgrade {
    type V = UpgradeModel;

    open spec fn view(&self) -> UpgradeModel {
        UpgradeModel { new_contract: self.new_contract@ }
    }
}

/// Wire encoding of a GovernanceUpgrade payload.
pub open spec fn upgrade_bytes(m: UpgradeModel) -> Seq<u8> {
    seq![UPGRADE_TAG] + m.new_contract
}

/// The GovernanceUpgrade payload read from bytes of the exact width.
pub open spec fn upgrade_of(b: Seq<u8>) -> UpgradeModel
    recommends
        b.len() == UPGRADE_LEN,
{
    UpgradeModel { new_contract: b.subrange(1, 33) }
}

/// Decodes a GovernanceUpgrade payload. Exactly 33 bytes are accepted, and
/// the leading discriminator must be the Upgrade tag.
pub fn decode_upgrade(bytes: &Vec<u8>) -> (r: Result<GovernancePayloadUpgrade, BridgeError>)
    ensures
        bytes@.len() != UPGRADE_LEN ==> r === Err(BridgeError::PayloadLengthMismatch),
        bytes@.len() == UPGRADE_LEN && bytes@[0] != UPGRADE_TAG ==> r === Err(
            BridgeError::InvalidDiscriminator,
        ),
        bytes@.len() == UPGRADE_LEN && bytes@[0] == UPGRADE_TAG ==> (r matches Ok(p) && p@
            == upgrade_of(bytes@) && p@.wf()),
{
    if bytes.len() != UPGRADE_LEN {
        return Err(BridgeError::PayloadLengthMismatch);
    }
    if bytes[0] != UPGRADE_TAG {
        return Err(BridgeError::InvalidDiscriminator);
    }
    let p = GovernancePayloadUpgrade { new_contract: read_bytes(bytes, 1, 32) };
    proof {
        assert(p@ =~= upgrade_of(bytes@));
    }
    Ok(p)
}

/// Re-encodes a GovernanceUpgrade payload to its exact wire bytes.
pub fn encode_upgrade(p: &GovernancePayloadUpgrade) -> (r: Vec<u8>)
    requires
        p@.wf(),
    ensures
        r@ == upgrade_bytes(p@),
{
    let mut out: Vec<u8> = Vec::new();
    out.push(UPGRADE_TAG);
    push_bytes(&mut out, &p.new_contract);
    proof {
        assert(out@ =~= upgrade_bytes(p@));
    }
    out
}

/// Round trip in the other direction: encoding a well-formed
/// GovernanceUpgrade payload and decoding the bytes yields the payload back.
pub proof fn lemma_upgrade_model_round_trip(m: UpgradeModel)
    requires
        m.wf(),
    ensures
        upgrade_of(upgrade_bytes(m)) == m,
{
    let b = upgrade_bytes(m);
    assert(b.subrange(1, 33) =~= m.new_contract);
    assert(upgrade_of(b) =~= m);
}

/// Round trip: re-encoding the GovernanceUpgrade payload decoded from
/// well-formed bytes reproduces the bytes exactly.
pub proof fn lemma_upgrade_round_trip(b: Seq<u8>)
    requires
        b.len() == UPGRADE_LEN,
        b[0] == UPGRADE_TAG,
    ensures
        upgrade_bytes(upgrade_of(b)) == b,
{
    assert(upgrade_bytes(upgrade_of(b)) =~= b);
}

} // verus!
