//! Update of the protocol fee by the administrator, read from raw bytes.
//!
//! A request is one operation tag followed by the new fee as eight
//! little-endian bytes; it names two accounts, the configuration and the
//! administrator. The configuration is stored as the administrator's key
//! followed by the fee as eight little-endian bytes.

use crate::account::{AccountInfo, HostError};
use crate::error::LedgerError;
use crate::guards::authorization::{authorize, spec_authorize};
use crate::guards::record::{
    expect_length, lemma_u64_le_bytes_round_trip, lemma_u64_le_round_trip, read_key, read_u64_le,
    split_operation, u64_from_le, u64_le_bytes, u64_to_le,
};
use crate::pubkey::{lemma_pubkey_equal_by_bytes, Caller, Pubkey};
use vstd::prelude::*;

verus! {

/// The address of the program.
pub const ID: [u8; 32] = [
    1, 1, 1, 1, 1, 1, 1, 1, 1, 1, 1, 1, 1, 1, 1, 1,
    1, 1, 1, 1, 1, 1, 1, 1, 1, 1, 1, 1, 1, 1, 1, 1,
];

/// The configuration of the protocol.
#[derive(Clone, Copy, Debug, PartialEq, Eq)]
pub struct ConfigState {
    pub admin: Pubkey,
    pub protocol_fee: u64,
}

impl ConfigState {
    /// The bytes a stored configuration takes.
    pub const LEN: usize = 40;

    /// The bytes the configuration is stored as.
    pub open spec fn encoding(&self) -> Seq<u8> {
        self.admin@ + u64_to_le(self.protocol_fee)
    }

    /// The configuration that `data` stores.
    pub open spec fn parsed(data: Seq<u8>) -> ConfigState {
        choose|config: ConfigState| config.encoding() == data
    }

    /// Two configurations stored as the same bytes are the same.
    pub proof fn lemma_encoding_is_injective(a: ConfigState, b: ConfigState)
        requires
            a.encoding() == b.encoding(),
        ensures
            a == b,
    {
        lemma_u64_le_round_trip(a.protocol_fee);
        lemma_u64_le_round_trip(b.protocol_fee);
        assert(a.admin@.len() == 32 && b.admin@.len() == 32);
        assert(a.admin@ =~= a.encoding().subrange(0, 32));
        assert(b.admin@ =~= b.encoding().subrange(0, 32));
        assert(u64_to_le(a.protocol_fee) =~= a.encoding().subrange(32, 40));
        assert(u64_to_le(b.protocol_fee) =~= b.encoding().subrange(32, 40));
        lemma_pubkey_equal_by_bytes(a.admin, b.admin);
    }

    /// Reads a stored configuration, or fails with `MalformedRecord` exactly
    /// when `data` is not `LEN` bytes long.
    pub fn decode(data: &[u8]) -> (r: Result<ConfigState, LedgerError>)
        ensures
            r is Ok <==> data@.len() == ConfigState::LEN,
            r is Ok ==> r->Ok_0.encoding() == data@ && r->Ok_0 == ConfigState::parsed(data@),
            r is Err ==> r->Err_0 == LedgerError::MalformedRecord,
    {
        expect_length(data, ConfigState::LEN)?;
        let admin = read_key(data, 0)?;
        let protocol_fee = read_u64_le(data, 32)?;
        let config = ConfigState { admin, protocol_fee };
        proof {
            lemma_u64_le_bytes_round_trip(data@.subrange(32, 40));
            assert(config.encoding() =~= data@);
            ConfigState::lemma_encoding_is_injective(config, ConfigState::parsed(data@));
        }
        Ok(config)
    }

    /// The bytes the configuration is stored as.
    pub fn encode(&self) -> (r: Vec<u8>)
        ensures
            r@ == self.encoding(),
            r@.len() == ConfigState::LEN,
    {
        let mut out: Vec<u8> = Vec::new();
        let mut i: usize = 0;
        while i < 32
            invariant
                i <= 32,
                out@ == self.admin@.subrange(0, i as int),
            decreases 32 - i,
        {
            out.push(self.admin.bytes[i]);
            assert(out@ =~= self.admin@.subrange(0, i + 1));
            i += 1;
        }
        let fee = u64_le_bytes(self.protocol_fee);
        let mut j: usize = 0;
        while j < 8
            invariant
                j <= 8,
                fee@ == u64_to_le(self.protocol_fee),
                out@ == self.admin@ + fee@.subrange(0, j as int),
            decreases 8 - j,
        {
            out.push(fee[j]);
            assert(out@ =~= self.admin@ + fee@.subrange(0, j + 1));
            j += 1;
        }
        assert(out@ =~= self.encoding());
        out
    }
}

/// Storing a configuration and reading it back gives the configuration.
pub proof fn lemma_config_round_trip(config: ConfigState)
    ensures
        config.encoding().len() == ConfigState::LEN,
        ConfigState::parsed(config.encoding()) == config,
{
    lemma_u64_le_round_trip(config.protocol_fee);
    let found = ConfigState::parsed(config.encoding());
    ConfigState::lemma_encoding_is_injective(found, config);
}

/// The two accounts of a fee update.
pub struct UpdateFeeAccounts<'a> {
    pub config: &'a AccountInfo,
    pub admin: &'a AccountInfo,
}

impl<'a> UpdateFeeAccounts<'a> {
    /// Whether `accounts` are a configuration of the stored length and an
    /// administrator.
    pub open spec fn well_formed(accounts: Seq<AccountInfo>) -> bool {
        accounts.len() == 2 && accounts[0].data@.len() == ConfigState::LEN
    }

    /// Takes the configuration and the administrator out of the accounts of
    /// a request, or fails with `MalformedRecord` exactly when they are not
    /// two or the configuration has not the stored length.
    pub fn try_from(accounts: &'a [AccountInfo]) -> (r: Result<UpdateFeeAccounts<'a>, LedgerError>)
        ensures
            r is Ok <==> UpdateFeeAccounts::well_formed(accounts@),
            r is Ok ==> *r->Ok_0.config == accounts@[0] && *r->Ok_0.admin == accounts@[1],
            r is Err ==> r->Err_0 == LedgerError::MalformedRecord,
    {
        if accounts.len() != 2 {
            return Err(LedgerError::MalformedRecord);
        }
        let config = &accounts[0];
        let admin = &accounts[1];
        if config.data_len() != ConfigState::LEN {
            return Err(LedgerError::MalformedRecord);
        }
        Ok(UpdateFeeAccounts { config, admin })
    }
}

/// The payload of a fee update.
#[derive(Clone, Copy, Debug, PartialEq, Eq, Structural)]
pub struct UpdateFeeData {
    pub new_fee: u64,
}

impl UpdateFeeData {
    /// The bytes of the payload.
    pub const LEN: usize = 8;

    /// Reads the payload, or fails with `MalformedRecord` exactly when it
    /// is not eight bytes long.
    pub fn try_from(data: &[u8]) -> (r: Result<UpdateFeeData, LedgerError>)
        ensures
            r is Ok <==> data@.len() == UpdateFeeData::LEN,
            r is Ok ==> r->Ok_0.new_fee == u64_from_le(data@),
            r is Err ==> r->Err_0 == LedgerError::MalformedRecord,
    {
        expect_length(data, UpdateFeeData::LEN)?;
        let new_fee = read_u64_le(data, 0)?;
        assert(data@.subrange(0, 8) =~= data@);
        Ok(UpdateFeeData { new_fee })
    }
}

/// The configuration that a fee update leaves, or why it is refused:
/// `MalformedRecord` for a configuration of another length, else whatever
/// the authorization of the administrator answers.
pub open spec fn spec_update_fee(
    config_data: Seq<u8>,
    admin: Caller,
    new_fee: u64,
    must_be_signer: bool,
) -> Result<ConfigState, LedgerError> {
    if config_data.len() != ConfigState::LEN {
        Err(LedgerError::MalformedRecord)
    } else {
        let config = ConfigState::parsed(config_data);
        match spec_authorize(config.admin, admin, must_be_signer) {
            Err(e) => Err(e),
            Ok(_) => Ok(ConfigState { admin: config.admin, protocol_fee: new_fee }),
        }
    }
}

/// Decides a fee update on the stored configuration.
pub fn update_fee(config_data: &[u8], admin: &Caller, new_fee: u64, must_be_signer: bool) -> (r:
    Result<ConfigState, LedgerError>)
    ensures
        r == spec_update_fee(config_data@, *admin, new_fee, must_be_signer),
{
    let config = ConfigState::decode(config_data)?;
    authorize(&config.admin, admin, must_be_signer)?;
    Ok(ConfigState { admin: config.admin, protocol_fee: new_fee })
}

/// A fee update that only compares the administrator's key.
pub struct UpdateFeeVulnerable<'a> {
    pub accounts: UpdateFeeAccounts<'a>,
    pub data: UpdateFeeData,
}

impl<'a> UpdateFeeVulnerable<'a> {
    /// The operation tag of this update.
    pub const DISCRIMINATOR: u8 = 0;

    /// Reads the update from the accounts and the payload of a request.
    /// The accounts are looked at first.
    pub fn try_from(request: (&Pubkey, &'a [AccountInfo], &'a [u8])) -> (r: Result<
        UpdateFeeVulnerable<'a>,
        LedgerError,
    >)
        ensures
            r is Ok <==> UpdateFeeAccounts::well_formed(request.1@) && request.2@.len()
                == UpdateFeeData::LEN,
            r is Ok ==> *r->Ok_0.accounts.config == request.1@[0] && *r->Ok_0.accounts.admin
                == request.1@[1] && r->Ok_0.data.new_fee == u64_from_le(request.2@),
            r is Err ==> r->Err_0 == LedgerError::MalformedRecord,
    {
        let accounts = UpdateFeeAccounts::try_from(request.1)?;
        let data = UpdateFeeData::try_from(request.2)?;
        Ok(UpdateFeeVulnerable { accounts, data })
    }

    /// The configuration with the new fee, for any caller that is named as
    /// the administrator: whether it signed is not asked.
    pub fn process(&self) -> (r: Result<ConfigState, LedgerError>)
        ensures
            r == spec_update_fee(
                self.accounts.config.data@,
                self.accounts.admin.spec_caller(),
                self.data.new_fee,
                false,
            ),
    {
        update_fee(
            self.accounts.config.data.as_slice(),
            &self.accounts.admin.caller(),
            self.data.new_fee,
            false,
        )
    }
}

/// A fee update that asks for the administrator's key and signature.
pub struct UpdateFeeSafe<'a> {
    pub accounts: UpdateFeeAccounts<'a>,
    pub data: UpdateFeeData,
}

impl<'a> UpdateFeeSafe<'a> {
    /// The operation tag of this update.
    pub const DISCRIMINATOR: u8 = 1;

    /// Reads the update from the accounts and the payload of a request.
    /// The accounts are looked at first.
    pub fn try_from(request: (&Pubkey, &'a [AccountInfo], &'a [u8])) -> (r: Result<
        UpdateFeeSafe<'a>,
        LedgerError,
    >)
        ensures
            r is Ok <==> UpdateFeeAccounts::well_formed(request.1@) && request.2@.len()
                == UpdateFeeData::LEN,
            r is Ok ==> *r->Ok_0.accounts.config == request.1@[0] && *r->Ok_0.accounts.admin
                == request.1@[1] && r->Ok_0.data.new_fee == u64_from_le(request.2@),
            r is Err ==> r->Err_0 == LedgerError::MalformedRecord,
    {
        let accounts = UpdateFeeAccounts::try_from(request.1)?;
        let data = UpdateFeeData::try_from(request.2)?;
        Ok(UpdateFeeSafe { accounts, data })
    }

    /// The configuration with the new fee, for the administrator alone and
    /// only when it signed: `Unauthorized` for another caller,
    /// `MissingSignature` for the administrator named without signature.
    pub fn process(&self) -> (r: Result<ConfigState, LedgerError>)
        ensures
            r == spec_update_fee(
                self.accounts.config.data@,
                self.accounts.admin.spec_caller(),
                self.data.new_fee,
                true,
            ),
    {
        update_fee(
            self.accounts.config.data.as_slice(),
            &self.accounts.admin.caller(),
            self.data.new_fee,
            true,
        )
    }
}

/// The configuration a request leaves, or why the request is refused.
/// In turn: `InvalidOperation` for a request without a known tag,
/// `MalformedRecord` for accounts or a payload of another layout, then the
/// outcome of the fee update.
pub open spec fn spec_process_instruction(accounts: Seq<AccountInfo>, instruction_data: Seq<u8>) -> Result<
    ConfigState,
    LedgerError,
> {
    if instruction_data.len() == 0 || instruction_data[0] > 1 {
        Err(LedgerError::InvalidOperation)
    } else if !UpdateFeeAccounts::well_formed(accounts) || instruction_data.len() != 1
        + UpdateFeeData::LEN {
        Err(LedgerError::MalformedRecord)
    } else {
        spec_update_fee(
            accounts[0].data@,
            accounts[1].spec_caller(),
            u64_from_le(instruction_data.subrange(1, 9)) as u64,
            instruction_data[0] == UpdateFeeSafe::DISCRIMINATOR,
        )
    }
}

/// Decides a request: the operation is chosen by the tag, read from the
/// accounts and the payload, and processed.
pub fn dispatch(program_id: &Pubkey, accounts: &[AccountInfo], instruction_data: &[u8]) -> (r:
    Result<ConfigState, LedgerError>)
    ensures
        r == spec_process_instruction(accounts@, instruction_data@),
{
    let (tag, data) = split_operation(instruction_data)?;
    if tag == UpdateFeeVulnerable::DISCRIMINATOR {
        UpdateFeeVulnerable::try_from((program_id, accounts, data))?.process()
    } else if tag == UpdateFeeSafe::DISCRIMINATOR {
        UpdateFeeSafe::try_from((program_id, accounts, data))?.process()
    } else {
        Err(LedgerError::InvalidOperation)
    }
}

/// The code that the host reports for a request, if the request is
/// refused. In turn: the tag, the number of accounts, the length of the
/// configuration, the length of the payload, and then the outcome of the fee
/// update.
pub open spec fn spec_host_error(accounts: Seq<AccountInfo>, instruction_data: Seq<u8>) -> Option<
    HostError,
> {
    if instruction_data.len() == 0 || instruction_data[0] > 1 {
        Some(HostError::InvalidInstructionData)
    } else if accounts.len() != 2 {
        Some(HostError::NotEnoughAccountKeys)
    } else if accounts[0].data@.len() != ConfigState::LEN {
        Some(HostError::InvalidAccountData)
    } else if instruction_data.len() != 1 + UpdateFeeData::LEN {
        Some(HostError::InvalidInstructionData)
    } else {
        match spec_process_instruction(accounts, instruction_data) {
            Ok(_) => None,
            Err(LedgerError::MissingSignature) => Some(HostError::MissingRequiredSignature),
            Err(_) => Some(HostError::InvalidAccountData),
        }
    }
}

/// The code that the host reports for a request, if the request is
/// refused: none exactly when the request is accepted.
pub fn host_error(program_id: &Pubkey, accounts: &[AccountInfo], instruction_data: &[u8]) -> (r:
    Option<HostError>)
    ensures
        r == spec_host_error(accounts@, instruction_data@),
        r is None <==> spec_process_instruction(accounts@, instruction_data@) is Ok,
{
    match dispatch(program_id, accounts, instruction_data) {
        Ok(_) => None,
        Err(LedgerError::InvalidOperation) => Some(HostError::InvalidInstructionData),
        Err(LedgerError::MissingSignature) => Some(HostError::MissingRequiredSignature),
        Err(LedgerError::MalformedRecord) => {
            if accounts.len() != 2 {
                Some(HostError::NotEnoughAccountKeys)
            } else if accounts[0].data_len() != ConfigState::LEN {
                Some(HostError::InvalidAccountData)
            } else {
                Some(HostError::InvalidInstructionData)
            }
        },
        Err(_) => Some(HostError::InvalidAccountData),
    }
}

/// The code of the host follows the failure of the library: a request
/// without a known tag is invalid instruction data, a missing signature is
/// a missing signature, and another administrator is invalid account data.
pub proof fn lemma_host_error_follows_the_failure(
    accounts: Seq<AccountInfo>,
    instruction_data: Seq<u8>,
)
    ensures
        match spec_process_instruction(accounts, instruction_data) {
            Ok(_) => spec_host_error(accounts, instruction_data) is None,
            Err(LedgerError::InvalidOperation) => spec_host_error(accounts, instruction_data)
                == Some(HostError::InvalidInstructionData),
            Err(LedgerError::MissingSignature) => spec_host_error(accounts, instruction_data)
                == Some(HostError::MissingRequiredSignature),
            Err(LedgerError::Unauthorized) => spec_host_error(accounts, instruction_data) == Some(
                HostError::InvalidAccountData,
            ),
            Err(_) => spec_host_error(accounts, instruction_data) is Some,
        },
{
}

/// Runs a request on its accounts. Where the request is accepted, the
/// configuration account holds the new configuration and nothing else has
/// changed; where it is refused, nothing has changed at all.
pub fn process_instruction(
    program_id: &Pubkey,
    accounts: &mut Vec<AccountInfo>,
    instruction_data: &[u8],
) -> (r: Result<(), LedgerError>)
    ensures
        match spec_process_instruction(old(accounts)@, instruction_data@) {
            Ok(config) => {
                &&& r is Ok
                &&& final(accounts)@.len() == 2
                &&& final(accounts)@[0].data@ == config.encoding()
                &&& final(accounts)@[0].key == old(accounts)@[0].key
                &&& final(accounts)@[0].is_signer == old(accounts)@[0].is_signer
                &&& final(accounts)@[0].is_writable == old(accounts)@[0].is_writable
                &&& final(accounts)@[0].lamports == old(accounts)@[0].lamports
                &&& final(accounts)@[1] == old(accounts)@[1]
            },
            Err(e) => r == Err::<(), LedgerError>(e) && final(accounts)@ == old(accounts)@,
        },
{
    let config = dispatch(program_id, accounts.as_slice(), instruction_data)?;
    let stored = accounts.remove(0);
    let updated = AccountInfo {
        key: stored.key,
        is_signer: stored.is_signer,
        is_writable: stored.is_writable,
        lamports: stored.lamports,
        data: config.encode(),
    };
    accounts.insert(0, updated);
    Ok(())
}

} // verus!
