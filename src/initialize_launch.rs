use vstd::prelude::*;
use crate::address::Address;
use crate::derivation::{
    derive_launch_address, derive_launch_signer, derived_launch, derived_signer, found_view,
    signing_proof, signing_seeds, SigningProof,
};
use crate::errors::{LaunchError, LaunchpadError};

verus! {

/// Base units minted into the vault of a launch: one million tokens of six
/// decimals.
pub const AVAILABLE_TOKENS: u64 = 1_000_000_000_000;

/// The state of a token mint that the launch reads and changes.
#[derive(Clone, Copy, Debug, PartialEq, Eq)]
pub struct Mint {
    pub address: Address,
    pub supply: u64,
    pub decimals: u8,
    pub mint_authority: Option<Address>,
    pub freeze_authority: Option<Address>,
}

/// The token account that holds the minted supply of a launch.
#[derive(Clone, Copy, Debug, PartialEq, Eq)]
pub struct TokenVault {
    pub mint: Address,
    pub authority: Address,
    pub amount: u64,
}

/// The persisted launch record: the delegated signer bound to the launch.
#[derive(Clone, Copy, Debug, PartialEq, Eq)]
pub struct Launch {
    pub launch_signer: Address,
}

/// Arguments of the instruction; it takes none.
#[derive(Clone, Copy, Debug, PartialEq, Eq)]
pub struct InitializeLaunchArgs {}

/// The accounts that an initialization attempt reads and writes.
#[derive(Clone, Copy, Debug, PartialEq, Eq)]
pub struct InitializeLaunch {
    /// Address of the launch record account.
    pub launch: Address,
    /// Contents of the launch record account; `None` while it does not exist.
    pub launch_record: Option<Launch>,
    /// The account offered as the launch's delegated signer.
    pub launch_signer: Address,
    /// The payer of the new accounts.
    pub creator: Address,
    /// The launch's token vault; `None` while it does not exist.
    pub token_vault: Option<TokenVault>,
    pub token_mint: Mint,
}

/// The precondition on the mint that a launch requires, first failure first.
pub open spec fn mint_precondition(m: Mint) -> Result<(), LaunchpadError> {
    if m.supply != 0 {
        Err(LaunchpadError::SupplyNonZero)
    } else if m.freeze_authority is Some {
        Err(LaunchpadError::FreezeAuthoritySet)
    } else {
        Ok(())
    }
}

/// The accounts are in the state in which the privileged step may run: the
/// record and the vault do not exist yet, and the mint passed its checks.
pub open spec fn ready_to_handle(s: InitializeLaunch) -> bool {
    &&& s.launch_record is None
    &&& s.token_vault is None
    &&& mint_precondition(s.token_mint) is Ok
}

/// Outcome of the authority check on ready accounts: the derived signer and
/// its bump, or the error.
pub open spec fn authority_outcome(s: InitializeLaunch, program_id: Seq<u8>) -> Result<(Seq<u8>, u8), LaunchError> {
    match derived_signer(s.launch@, program_id) {
        None => Err(LaunchError::NoViableBump),
        Some((signer, bump)) => if signer == s.launch_signer@ {
            Ok((signer, bump))
        } else {
            Err(LaunchError::Launchpad(LaunchpadError::InvalidMintAuthority))
        },
    }
}

/// Outcome of a whole initialization attempt, in the order in which the
/// checks run: the launch record's address, the accounts to be created, the
/// mint, then the delegated signer.
pub open spec fn launch_outcome(s: InitializeLaunch, program_id: Seq<u8>) -> Result<(Seq<u8>, u8), LaunchError> {
    match derived_launch(s.token_mint.address@, program_id) {
        None => Err(LaunchError::NoViableBump),
        Some((launch, _)) => if launch != s.launch@ {
            Err(LaunchError::ConstraintSeeds)
        } else if s.launch_record is Some || s.token_vault is Some {
            Err(LaunchError::AccountAlreadyInitialized)
        } else {
            match mint_precondition(s.token_mint) {
                Err(e) => Err(LaunchError::Launchpad(e)),
                Ok(_) => authority_outcome(s, program_id),
            }
        },
    }
}

/// The accounts once the launch is made: the record binds the confirmed
/// signer, and the whole supply sits in a vault under that signer.
pub open spec fn launched(s: InitializeLaunch) -> InitializeLaunch {
    InitializeLaunch {
        launch_record: Some(Launch { launch_signer: s.launch_signer }),
        token_vault: Some(
            TokenVault {
                mint: s.token_mint.address,
                authority: s.launch_signer,
                amount: AVAILABLE_TOKENS,
            },
        ),
        token_mint: Mint { supply: (s.token_mint.supply + AVAILABLE_TOKENS) as u64, ..s.token_mint },
        ..s
    }
}

/// The accounts after an attempt: launched on success, untouched otherwise.
pub open spec fn after_launch(s: InitializeLaunch, program_id: Seq<u8>) -> InitializeLaunch {
    if launch_outcome(s, program_id) is Ok {
        launched(s)
    } else {
        s
    }
}

impl InitializeLaunch {
    /// Checks that the mint may be launched: no supply yet, and no freeze
    /// authority.
    pub fn validate(&self, _args: &InitializeLaunchArgs) -> (r: Result<(), LaunchpadError>)
        ensures
            r == mint_precondition(self.token_mint),
    {
        if self.token_mint.supply != 0 {
            return Err(LaunchpadError::SupplyNonZero);
        }
        if self.token_mint.freeze_authority.is_some() {
            return Err(LaunchpadError::FreezeAuthoritySet);
        }
        Ok(())
    }

    /// Derives the delegated signer, checks the offered signer against it and,
    /// only on a match, persists the record and mints the whole supply into a
    /// new vault under that signer. Returns the seeds that authorize the mint.
    pub fn handle(&mut self, program_id: &Address, _args: InitializeLaunchArgs) -> (r: Result<SigningProof, LaunchError>)
        requires
            ready_to_handle(*old(self)),
        ensures
            match authority_outcome(*old(self), program_id@) {
                Ok((_, bump)) => {
                    &&& r is Ok
                    &&& r->Ok_0@ == signing_seeds(old(self).launch@, bump)
                    &&& *final(self) == launched(*old(self))
                },
                Err(e) => r == Err::<SigningProof, LaunchError>(e) && *final(self) == *old(self),
            },
    {
        let (signer, bump) = match derive_launch_signer(&self.launch, program_id) {
            Some(found) => found,
            None => return Err(LaunchError::NoViableBump),
        };
        if !self.launch_signer.same_as(&signer) {
            return Err(LaunchError::Launchpad(LaunchpadError::InvalidMintAuthority));
        }
        let proof = signing_proof(&self.launch, bump);
        self.launch_record = Some(Launch { launch_signer: self.launch_signer });
        self.token_vault = Some(
            TokenVault {
                mint: self.token_mint.address,
                authority: self.launch_signer,
                amount: AVAILABLE_TOKENS,
            },
        );
        self.token_mint.supply = self.token_mint.supply + AVAILABLE_TOKENS;
        Ok(proof)
    }
}

/// One initialization attempt on the accounts: checks the launch record's
/// address and that the record and the vault are new, validates the mint, then
/// runs the authority check and the mint. Any failure leaves every account as
/// it was.
pub fn initialize_launch(
    accounts: &mut InitializeLaunch,
    program_id: &Address,
    args: InitializeLaunchArgs,
) -> (r: Result<SigningProof, LaunchError>)
    ensures
        *final(accounts) == after_launch(*old(accounts), program_id@),
        match launch_outcome(*old(accounts), program_id@) {
            Ok((_, bump)) => r is Ok && r->Ok_0@ == signing_seeds(old(accounts).launch@, bump),
            Err(e) => r == Err::<SigningProof, LaunchError>(e),
        },
{
    match derive_launch_address(&accounts.token_mint.address, program_id) {
        None => return Err(LaunchError::NoViableBump),
        Some((launch, _)) => {
            if !launch.same_as(&accounts.launch) {
                return Err(LaunchError::ConstraintSeeds);
            }
        },
    }
    if accounts.launch_record.is_some() || accounts.token_vault.is_some() {
        return Err(LaunchError::AccountAlreadyInitialized);
    }
    match accounts.validate(&args) {
        Err(e) => return Err(LaunchError::Launchpad(e)),
        Ok(()) => {},
    }
    accounts.handle(program_id, args)
}

} // verus!
