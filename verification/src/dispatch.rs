//! The action dispatcher: one entry point per supported action kind. Each is
//! a single-shot, side-effect-free pipeline: decode the envelope, decode the
//! payload with the variant that action requires, derive the replay key, and
//! hand the validated, typed argument set to the action-construction routine.
//! The exact result of every entry point, success or typed error, is the
//! value of a spec-level result function of the inputs alone.
use vstd::prelude::*;

use crate::action::{
    attest, attest_accounts, attest_data, complete_native, complete_native_accounts,
    complete_native_data, complete_wrapped, complete_wrapped_accounts, complete_wrapped_data,
    create_wrapped, create_wrapped_accounts, create_wrapped_data, register_chain,
    register_chain_accounts, register_chain_data, transfer_native, transfer_native_accounts,
    transfer_native_data, transfer_wrapped, transfer_wrapped_accounts, transfer_wrapped_data,
    upgrade_contract, upgrade_contract_accounts, upgrade_contract_data, ActionDescriptor,
    DescriptorModel,
};
use crate::envelope::{decode_envelope, envelope_of, summary_of, ENVELOPE_HEADER_LEN};
use crate::payload::{
    asset_meta_of, decode_asset_meta, decode_register_chain, decode_transfer, decode_upgrade,
    register_chain_of, transfer_of, upgrade_of, ASSET_META_LEN, ASSET_META_TAG,
    REGISTER_CHAIN_LEN, REGISTER_CHAIN_TAG, TRANSFER_LEN, TRANSFER_TAG, UPGRADE_LEN, UPGRADE_TAG,
};
use crate::replay::{derive_replay_key, replay_key_of};
use crate::BridgeError;

verus! {

/// The model of a dispatch result: the descriptor's model on success, the
/// typed error otherwise.
pub open spec fn res_view(r: Result<ActionDescriptor, BridgeError>) -> Result<
    DescriptorModel,
    BridgeError,
> {
    match r {
        Ok(d) => Ok(d@),
        Err(e) => Err(e),
    }
}

/// True when every given address is a 32-byte platform address.
pub open spec fn addrs_ok(addrs: Seq<Seq<u8>>) -> bool {
    forall|i: int| 0 <= i < addrs.len() ==> #[trigger] addrs[i].len() == 32
}

/// The exact result of `attest_ix` on the given inputs.
pub open spec fn attest_ix_result(
    program: Seq<u8>,
    bridge: Seq<u8>,
    payer: Seq<u8>,
    mint: Seq<u8>,
    decimals: u8,
    mint_meta: Seq<u8>,
    nonce: u32,
) -> Result<DescriptorModel, BridgeError> {
    if !addrs_ok(seq![program, bridge, payer, mint, mint_meta]) {
        Err(BridgeError::InvalidAddress)
    } else {
        Ok(
            DescriptorModel {
                accounts: attest_accounts(program, bridge, payer, mint, mint_meta),
                data: attest_data(nonce, decimals),
            },
        )
    }
}

/// Builds the AttestAsset action: no attestation is involved; the caller
/// supplies every address. Fails with `InvalidAddress` exactly when a
/// supplied address is not 32 bytes.
pub fn attest_ix(
    program_id: &Vec<u8>,
    bridge_id: &Vec<u8>,
    payer: &Vec<u8>,
    mint: &Vec<u8>,
    decimals: u8,
    mint_meta: &Vec<u8>,
    nonce: u32,
) -> (r: Result<ActionDescriptor, BridgeError>)
    ensures
        res_view(r) == attest_ix_result(
            program_id@,
            bridge_id@,
            payer@,
            mint@,
            decimals,
            mint_meta@,
            nonce,
        ),
{
    if program_id.len() != 32 || bridge_id.len() != 32 || payer.len() != 32 || mint.len() != 32
        || mint_meta.len() != 32 {
        return Err(BridgeError::InvalidAddress);
    }
    let d = attest(program_id, bridge_id, payer, mint, decimals, mint_meta, nonce);
    proof {
        assert(d@ =~= DescriptorModel {
            accounts: attest_accounts(program_id@, bridge_id@, payer@, mint@, mint_meta@),
            data: attest_data(nonce, decimals),
        });
    }
    Ok(d)
}

/// The exact result of `transfer_native_ix` on the given inputs.
pub open spec fn transfer_native_ix_result(
    program: Seq<u8>,
    bridge: Seq<u8>,
    payer: Seq<u8>,
    from: Seq<u8>,
    mint: Seq<u8>,
    nonce: u32,
    amount: u64,
    fee: u64,
    target_address: Seq<u8>,
    target_chain: u16,
) -> Result<DescriptorModel, BridgeError> {
    if !addrs_ok(seq![program, bridge, payer, from, mint, target_address]) {
        Err(BridgeError::InvalidAddress)
    } else {
        Ok(
            DescriptorModel {
                accounts: transfer_native_accounts(program, bridge, payer, from, mint),
                data: transfer_native_data(nonce, amount, fee, target_address, target_chain),
            },
        )
    }
}

/// Builds the TransferNative action. The target address embedded in the
/// instruction data must itself be 32 bytes, like every supplied address.
pub fn transfer_native_ix(
    program_id: &Vec<u8>,
    bridge_id: &Vec<u8>,
    payer: &Vec<u8>,
    from: &Vec<u8>,
    mint: &Vec<u8>,
    nonce: u32,
    amount: u64,
    fee: u64,
    target_address: &Vec<u8>,
    target_chain: u16,
) -> (r: Result<ActionDescriptor, BridgeError>)
    ensures
        res_view(r) == transfer_native_ix_result(
            program_id@,
            bridge_id@,
            payer@,
            from@,
            mint@,
            nonce,
            amount,
            fee,
            target_address@,
            target_chain,
        ),
{
    if program_id.len() != 32 || bridge_id.len() != 32 || payer.len() != 32 || from.len() != 32
        || mint.len() != 32 || target_address.len() != 32 {
        return Err(BridgeError::InvalidAddress);
    }
    let d = transfer_native(
        program_id,
        bridge_id,
        payer,
        from,
        mint,
        nonce,
        amount,
        fee,
        target_address,
        target_chain,
    );
    proof {
        assert(d@ =~= DescriptorModel {
            accounts: transfer_native_accounts(program_id@, bridge_id@, payer@, from@, mint@),
            data: transfer_native_data(nonce, amount, fee, target_address@, target_chain),
        });
    }
    Ok(d)
}

/// The exact result of `transfer_wrapped_ix` on the given inputs.
pub open spec fn transfer_wrapped_ix_result(
    program: Seq<u8>,
    bridge: Seq<u8>,
    payer: Seq<u8>,
    from: Seq<u8>,
    from_owner: Seq<u8>,
    token_chain: u16,
    token_address: Seq<u8>,
    nonce: u32,
    amount: u64,
    fee: u64,
    target_address: Seq<u8>,
    target_chain: u16,
) -> Result<DescriptorModel, BridgeError> {
    if !addrs_ok(seq![program, bridge, payer, from, from_owner, token_address, target_address]) {
        Err(BridgeError::InvalidAddress)
    } else {
        Ok(
            DescriptorModel {
                accounts: transfer_wrapped_accounts(program, bridge, payer, from, from_owner),
                data: transfer_wrapped_data(
                    nonce,
                    amount,
                    fee,
                    target_address,
                    target_chain,
                    token_chain,
                    token_address,
                ),
            },
        )
    }
}

/// Builds the TransferWrapped action.
pub fn transfer_wrapped_ix(
    program_id: &Vec<u8>,
    bridge_id: &Vec<u8>,
    payer: &Vec<u8>,
    from: &Vec<u8>,
    from_owner: &Vec<u8>,
    token_chain: u16,
    token_address: &Vec<u8>,
    nonce: u32,
    amount: u64,
    fee: u64,
    target_address: &Vec<u8>,
    target_chain: u16,
) -> (r: Result<ActionDescriptor, BridgeError>)
    ensures
        res_view(r) == transfer_wrapped_ix_result(
            program_id@,
            bridge_id@,
            payer@,
            from@,
            from_owner@,
            token_chain,
            token_address@,
            nonce,
            amount,
            fee,
            target_address@,
            target_chain,
        ),
{
    if program_id.len() != 32 || bridge_id.len() != 32 || payer.len() != 32 || from.len() != 32
        || from_owner.len() != 32 || token_address.len() != 32 || target_address.len() != 32 {
        return Err(BridgeError::InvalidAddress);
    }
    let d = transfer_wrapped(
        program_id,
        bridge_id,
        payer,
        from,
        from_owner,
        token_chain,
        token_address,
        nonce,
        amount,
        fee,
        target_address,
        target_chain,
    );
    proof {
        assert(d@ =~= DescriptorModel {
            accounts: transfer_wrapped_accounts(
                program_id@,
                bridge_id@,
                payer@,
                from@,
                from_owner@,
            ),
            data: transfer_wrapped_data(
                nonce,
                amount,
                fee,
                target_address@,
                target_chain,
                token_chain,
                token_address@,
            ),
        });
    }
    Ok(d)
}

/// The exact result of `complete_transfer_native_ix` on the given inputs.
pub open spec fn complete_transfer_native_result(
    program: Seq<u8>,
    bridge: Seq<u8>,
    payer: Seq<u8>,
    vaa: Seq<u8>,
) -> Result<DescriptorModel, BridgeError> {
    if !addrs_ok(seq![program, bridge, payer]) {
        Err(BridgeError::InvalidAddress)
    } else if vaa.len() < ENVELOPE_HEADER_LEN {
        Err(BridgeError::MalformedEnvelope)
    } else {
        let env = envelope_of(vaa);
        if env.payload.len() != TRANSFER_LEN {
            Err(BridgeError::PayloadLengthMismatch)
        } else if env.payload[0] != TRANSFER_TAG {
            Err(BridgeError::InvalidDiscriminator)
        } else {
            let p = transfer_of(env.payload);
            match replay_key_of(
                env.emitter_address,
                env.emitter_chain,
                env.nonce,
                env.payload,
                program,
            ) {
                Some(key) => Ok(
                    DescriptorModel {
                        accounts: complete_native_accounts(
                            program,
                            bridge,
                            payer,
                            key,
                            p.to,
                            p.token_address,
                        ),
                        data: complete_native_data(summary_of(env)),
                    },
                ),
                None => Err(BridgeError::ActionConstructionFailed),
            }
        }
    }
}

/// Builds the CompleteTransferNative action from a raw attestation: decodes
/// the envelope, decodes its payload as a Transfer, derives the replay key,
/// and hands the summary and payload fields to the construction routine.
pub fn complete_transfer_native_ix(
    program_id: &Vec<u8>,
    bridge_id: &Vec<u8>,
    payer: &Vec<u8>,
    vaa: &Vec<u8>,
) -> (r: Result<ActionDescriptor, BridgeError>)
    ensures
        res_view(r) == complete_transfer_native_result(program_id@, bridge_id@, payer@, vaa@),
{
    if program_id.len() != 32 || bridge_id.len() != 32 || payer.len() != 32 {
        return Err(BridgeError::InvalidAddress);
    }
    let env = match decode_envelope(vaa) {
        Ok(env) => env,
        Err(e) => {
            return Err(e);
        },
    };
    let payload = match decode_transfer(&env.payload) {
        Ok(payload) => payload,
        Err(e) => {
            return Err(e);
        },
    };
    let message_key = match derive_replay_key(
        &env.emitter_address,
        env.emitter_chain,
        env.nonce,
        &env.payload,
        program_id,
    ) {
        Ok(message_key) => message_key,
        Err(e) => {
            return Err(e);
        },
    };
    let summary = env.summary();
    let d = complete_native(
        program_id,
        bridge_id,
        payer,
        &message_key,
        &summary,
        &payload.to,
        &payload.token_address,
    );
    proof {
        let envm = envelope_of(vaa@);
        let p = transfer_of(envm.payload);
        let key = replay_key_of(
            envm.emitter_address,
            envm.emitter_chain,
            envm.nonce,
            envm.payload,
            program_id@,
        );
        assert(d@ =~= DescriptorModel {
            accounts: complete_native_accounts(
                program_id@,
                bridge_id@,
                payer@,
                key.unwrap(),
                p.to,
                p.token_address,
            ),
            data: complete_native_data(summary_of(envm)),
        });
    }
    Ok(d)
}

/// The exact result of `complete_transfer_wrapped_ix` on the given inputs.
pub open spec fn complete_transfer_wrapped_result(
    program: Seq<u8>,
    bridge: Seq<u8>,
    payer: Seq<u8>,
    vaa: Seq<u8>,
) -> Result<DescriptorModel, BridgeError> {
    if !addrs_ok(seq![program, bridge, payer]) {
        Err(BridgeError::InvalidAddress)
    } else if vaa.len() < ENVELOPE_HEADER_LEN {
        Err(BridgeError::MalformedEnvelope)
    } else {
        let env = envelope_of(vaa);
        if env.payload.len() != TRANSFER_LEN {
            Err(BridgeError::PayloadLengthMismatch)
        } else if env.payload[0] != TRANSFER_TAG {
            Err(BridgeError::InvalidDiscriminator)
        } else {
            let p = transfer_of(env.payload);
            match replay_key_of(
                env.emitter_address,
                env.emitter_chain,
                env.nonce,
                env.payload,
                program,
            ) {
                Some(key) => Ok(
                    DescriptorModel {
                        accounts: complete_wrapped_accounts(program, bridge, payer, key, p.to),
                        data: complete_wrapped_data(
                            summary_of(env),
                            p.token_chain,
                            p.token_address,
                        ),
                    },
                ),
                None => Err(BridgeError::ActionConstructionFailed),
            }
        }
    }
}

/// Builds the CompleteTransferWrapped action from a raw attestation.
pub fn complete_transfer_wrapped_ix(
    program_id: &Vec<u8>,
    bridge_id: &Vec<u8>,
    payer: &Vec<u8>,
    vaa: &Vec<u8>,
) -> (r: Result<ActionDescriptor, BridgeError>)
    ensures
        res_view(r) == complete_transfer_wrapped_result(program_id@, bridge_id@, payer@, vaa@),
{
    if program_id.len() != 32 || bridge_id.len() != 32 || payer.len() != 32 {
        return Err(BridgeError::InvalidAddress);
    }
    let env = match decode_envelope(vaa) {
        Ok(env) => env,
        Err(e) => {
            return Err(e);
        },
    };
    let payload = match decode_transfer(&env.payload) {
        Ok(payload) => payload,
        Err(e) => {
            return Err(e);
        },
    };
    let message_key = match derive_replay_key(
        &env.emitter_address,
        env.emitter_chain,
        env.nonce,
        &env.payload,
        program_id,
    ) {
        Ok(message_key) => message_key,
        Err(e) => {
            return Err(e);
        },
    };
    let summary = env.summary();
    let d = complete_wrapped(
        program_id,
        bridge_id,
        payer,
        &message_key,
        &summary,
        payload.token_chain,
        &payload.token_address,
        &payload.to,
    );
    proof {
        let envm = envelope_of(vaa@);
        let p = transfer_of(envm.payload);
        let key = replay_key_of(
            envm.emitter_address,
            envm.emitter_chain,
            envm.nonce,
            envm.payload,
            program_id@,
        );
        assert(d@ =~= DescriptorModel {
            accounts: complete_wrapped_accounts(
                program_id@,
                bridge_id@,
                payer@,
                key.unwrap(),
                p.to,
            ),
            data: complete_wrapped_data(summary_of(envm), p.token_chain, p.token_address),
        });
    }
    Ok(d)
}

/// The exact result of `create_wrapped_ix` on the given inputs.
pub open spec fn create_wrapped_ix_result(
    program: Seq<u8>,
    bridge: Seq<u8>,
    payer: Seq<u8>,
    vaa: Seq<u8>,
) -> Result<DescriptorModel, BridgeError> {
    if !addrs_ok(seq![program, bridge, payer]) {
        Err(BridgeError::InvalidAddress)
    } else if vaa.len() < ENVELOPE_HEADER_LEN {
        Err(BridgeError::MalformedEnvelope)
    } else {
        let env = envelope_of(vaa);
        if env.payload.len() != ASSET_META_LEN {
            Err(BridgeError::PayloadLengthMismatch)
        } else if env.payload[0] != ASSET_META_TAG {
            Err(BridgeError::InvalidDiscriminator)
        } else {
            let p = asset_meta_of(env.payload);
            match replay_key_of(
                env.emitter_address,
                env.emitter_chain,
                env.nonce,
                env.payload,
                program,
            ) {
                Some(key) => Ok(
                    DescriptorModel {
                        accounts: create_wrapped_accounts(program, bridge, payer, key),
                        data: create_wrapped_data(
                            summary_of(env),
                            p.token_address,
                            p.token_chain,
                            p.decimals,
                            p.symbol,
                            p.name,
                        ),
                    },
                ),
                None => Err(BridgeError::ActionConstructionFailed),
            }
        }
    }
}

/// Builds the CreateWrapped action from a raw attestation carrying an
/// AssetMeta payload.
pub fn create_wrapped_ix(
    program_id: &Vec<u8>,
    bridge_id: &Vec<u8>,
    payer: &Vec<u8>,
    vaa: &Vec<u8>,
) -> (r: Result<ActionDescriptor, BridgeError>)
    ensures
        res_view(r) == create_wrapped_ix_result(program_id@, bridge_id@, payer@, vaa@),
{
    if program_id.len() != 32 || bridge_id.len() != 32 || payer.len() != 32 {
        return Err(BridgeError::InvalidAddress);
    }
    let env = match decode_envelope(vaa) {
        Ok(env) => env,
        Err(e) => {
            return Err(e);
        },
    };
    let payload = match decode_asset_meta(&env.payload) {
        Ok(payload) => payload,
        Err(e) => {
            return Err(e);
        },
    };
    let message_key = match derive_replay_key(
        &env.emitter_address,
        env.emitter_chain,
        env.nonce,
        &env.payload,
        program_id,
    ) {
        Ok(message_key) => message_key,
        Err(e) => {
            return Err(e);
        },
    };
    let summary = env.summary();
    let d = create_wrapped(
        program_id,
        bridge_id,
        payer,
        &message_key,
        &summary,
        &payload.token_address,
        payload.token_chain,
        payload.decimals,
        &payload.symbol,
        &payload.name,
    );
    proof {
        let envm = envelope_of(vaa@);
        let p = asset_meta_of(envm.payload);
        let key = replay_key_of(
            envm.emitter_address,
            envm.emitter_chain,
            envm.nonce,
            envm.payload,
            program_id@,
        );
        assert(d@ =~= DescriptorModel {
            accounts: create_wrapped_accounts(program_id@, bridge_id@, payer@, key.unwrap()),
            data: create_wrapped_data(
                summary_of(envm),
                p.token_address,
                p.token_chain,
                p.decimals,
                p.symbol,
                p.name,
            ),
        });
    }
    Ok(d)
}

/// The exact result of `upgrade_contract_ix` on the given inputs.
pub open spec fn upgrade_contract_ix_result(
    program: Seq<u8>,
    payer: Seq<u8>,
    spill: Seq<u8>,
    vaa: Seq<u8>,
) -> Result<DescriptorModel, BridgeError> {
    if !addrs_ok(seq![program, payer, spill]) {
        Err(BridgeError::InvalidAddress)
    } else if vaa.len() < ENVELOPE_HEADER_LEN {
        Err(BridgeError::MalformedEnvelope)
    } else {
        let env = envelope_of(vaa);
        if env.payload.len() != UPGRADE_LEN {
            Err(BridgeError::PayloadLengthMismatch)
        } else if env.payload[0] != UPGRADE_TAG {
            Err(BridgeError::InvalidDiscriminator)
        } else {
            let p = upgrade_of(env.payload);
            match replay_key_of(
                env.emitter_address,
                env.emitter_chain,
                env.nonce,
                env.payload,
                program,
            ) {
                Some(key) => Ok(
                    DescriptorModel {
                        accounts: upgrade_contract_accounts(
                            program,
                            payer,
                            key,
                            env.emitter_address,
                            p.new_contract,
                            spill,
                        ),
                        data: upgrade_contract_data(summary_of(env)),
                    },
                ),
                None => Err(BridgeError::ActionConstructionFailed),
            }
        }
    }
}

/// Builds the UpgradeContract action from a raw attestation carrying a
/// GovernanceUpgrade payload. The bridge takes no part in it; the spill
/// account receives what the upgrade reclaims.
pub fn upgrade_contract_ix(
    program_id: &Vec<u8>,
    payer: &Vec<u8>,
    spill: &Vec<u8>,
    vaa: &Vec<u8>,
) -> (r: Result<ActionDescriptor, BridgeError>)
    ensures
        res_view(r) == upgrade_contract_ix_result(program_id@, payer@, spill@, vaa@),
{
    if program_id.len() != 32 || payer.len() != 32 || spill.len() != 32 {
        return Err(BridgeError::InvalidAddress);
    }
    let env = match decode_envelope(vaa) {
        Ok(env) => env,
        Err(e) => {
            return Err(e);
        },
    };
    let payload = match decode_upgrade(&env.payload) {
        Ok(payload) => payload,
        Err(e) => {
            return Err(e);
        },
    };
    let message_key = match derive_replay_key(
        &env.emitter_address,
        env.emitter_chain,
        env.nonce,
        &env.payload,
        program_id,
    ) {
        Ok(message_key) => message_key,
        Err(e) => {
            return Err(e);
        },
    };
    let summary = env.summary();
    let d = upgrade_contract(
        program_id,
        payer,
        &message_key,
        &env.emitter_address,
        &payload.new_contract,
        spill,
        &summary,
    );
    proof {
        let envm = envelope_of(vaa@);
        let p = upgrade_of(envm.payload);
        let key = replay_key_of(
            envm.emitter_address,
            envm.emitter_chain,
            envm.nonce,
            envm.payload,
            program_id@,
        );
        assert(d@ =~= DescriptorModel {
            accounts: upgrade_contract_accounts(
                program_id@,
                payer@,
                key.unwrap(),
                envm.emitter_address,
                p.new_contract,
                spill@,
            ),
            data: upgrade_contract_data(summary_of(envm)),
        });
    }
    Ok(d)
}

/// The exact result of `register_chain_ix` on the given inputs.
pub open spec fn register_chain_ix_result(
    program: Seq<u8>,
    bridge: Seq<u8>,
    payer: Seq<u8>,
    vaa: Seq<u8>,
) -> Result<DescriptorModel, BridgeError> {
    if !addrs_ok(seq![program, bridge, payer]) {
        Err(BridgeError::InvalidAddress)
    } else if vaa.len() < ENVELOPE_HEADER_LEN {
        Err(BridgeError::MalformedEnvelope)
    } else {
        let env = envelope_of(vaa);
        if env.payload.len() != REGISTER_CHAIN_LEN {
            Err(BridgeError::PayloadLengthMismatch)
        } else if env.payload[0] != REGISTER_CHAIN_TAG {
            Err(BridgeError::InvalidDiscriminator)
        } else {
            let p = register_chain_of(env.payload);
            match replay_key_of(
                env.emitter_address,
                env.emitter_chain,
                env.nonce,
                env.payload,
                program,
            ) {
                Some(key) => Ok(
                    DescriptorModel {
                        accounts: register_chain_accounts(program, bridge, payer, key),
                        data: register_chain_data(
                            summary_of(env),
                            p.foreign_chain,
                            p.foreign_bridge_address,
                        ),
                    },
                ),
                None => Err(BridgeError::ActionConstructionFailed),
            }
        }
    }
}

/// Builds the RegisterChain action from a raw attestation carrying a
/// GovernanceRegisterChain payload; its address list includes the bridge.
pub fn register_chain_ix(
    program_id: &Vec<u8>,
    bridge_id: &Vec<u8>,
    payer: &Vec<u8>,
    vaa: &Vec<u8>,
) -> (r: Result<ActionDescriptor, BridgeError>)
    ensures
        res_view(r) == register_chain_ix_result(program_id@, bridge_id@, payer@, vaa@),
{
    if program_id.len() != 32 || bridge_id.len() != 32 || payer.len() != 32 {
        return Err(BridgeError::InvalidAddress);
    }
    let env = match decode_envelope(vaa) {
        Ok(env) => env,
        Err(e) => {
            return Err(e);
        },
    };
    let payload = match decode_register_chain(&env.payload) {
        Ok(payload) => payload,
        Err(e) => {
            return Err(e);
        },
    };
    let message_key = match derive_replay_key(
        &env.emitter_address,
        env.emitter_chain,
        env.nonce,
        &env.payload,
        program_id,
    ) {
        Ok(message_key) => message_key,
        Err(e) => {
            return Err(e);
        },
    };
    let summary = env.summary();
    let d = register_chain(
        program_id,
        bridge_id,
        payer,
        &message_key,
        &summary,
        payload.foreign_chain,
        &payload.foreign_bridge_address,
    );
    proof {
        let envm = envelope_of(vaa@);
        let p = register_chain_of(envm.payload);
        let key = replay_key_of(
            envm.emitter_address,
            envm.emitter_chain,
            envm.nonce,
            envm.payload,
            program_id@,
        );
        assert(d@ =~= DescriptorModel {
            accounts: register_chain_accounts(program_id@, bridge_id@, payer@, key.unwrap()),
            data: register_chain_data(
                summary_of(envm),
                p.foreign_chain,
                p.foreign_bridge_address,
            ),
        });
    }
    Ok(d)
}

/// A Transfer-sized payload whose discriminator byte has been altered to the
/// AssetMeta tag makes `complete_transfer_native_ix` fail with
/// `InvalidDiscriminator`: it never dispatches a silently wrong action.
pub proof fn lemma_wrong_discriminator_rejected(
    program: Seq<u8>,
    bridge: Seq<u8>,
    payer: Seq<u8>,
    vaa: Seq<u8>,
)
    requires
        addrs_ok(seq![program, bridge, payer]),
        vaa.len() >= ENVELOPE_HEADER_LEN,
        envelope_of(vaa).payload.len() == TRANSFER_LEN,
        envelope_of(vaa).payload[0] == ASSET_META_TAG,
    ensures
        complete_transfer_native_result(program, bridge, payer, vaa) == Err::<
            DescriptorModel,
            BridgeError,
        >(BridgeError::InvalidDiscriminator),
{
}

/// Upgrade actions are bridge-independent: the UpgradeContract address list
/// carries the supplied spill address and no entry in the bridge role, while
/// the RegisterChain address list carries the supplied bridge address.
pub proof fn lemma_upgrade_is_bridge_independent(
    program: Seq<u8>,
    bridge: Seq<u8>,
    payer: Seq<u8>,
    message: Seq<u8>,
    emitter: Seq<u8>,
    new_contract: Seq<u8>,
    spill: Seq<u8>,
)
    ensures
        forall|i: int|
            0 <= i < upgrade_contract_accounts(
                program,
                payer,
                message,
                emitter,
                new_contract,
                spill,
            ).len() ==> #[trigger] upgrade_contract_accounts(
                program,
                payer,
                message,
                emitter,
                new_contract,
                spill,
            )[i].role != crate::action::AccountRole::Bridge,
        exists|i: int|
            0 <= i < upgrade_contract_accounts(
                program,
                payer,
                message,
                emitter,
                new_contract,
                spill,
            ).len() && #[trigger] upgrade_contract_accounts(
                program,
                payer,
                message,
                emitter,
                new_contract,
                spill,
            )[i].address == spill,
        exists|i: int|
            0 <= i < register_chain_accounts(program, bridge, payer, message).len()
                && #[trigger] register_chain_accounts(program, bridge, payer, message)[i].address
                == bridge,
{
    let ups = upgrade_contract_accounts(program, payer, message, emitter, new_contract, spill);
    assert(ups[4].address == spill);
    let regs = register_chain_accounts(program, bridge, payer, message);
    assert(regs[1].address == bridge);
}

} // verus!
