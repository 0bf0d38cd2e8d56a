use vstd::prelude::*;
use crate::address::Address;
use crate::derivation::{derived_launch, derived_signer};
use crate::errors::{LaunchError, LaunchpadError};
use crate::initialize_launch::{
    after_launch, launch_outcome, ready_to_handle, InitializeLaunch, TokenVault,
};

verus! {

/// The launch record account offered is the one derived from the mint.
pub open spec fn launch_address_matches(s: InitializeLaunch, program_id: Seq<u8>) -> bool {
    derived_launch(s.token_mint.address@, program_id) matches Some((launch, _)) && launch == s.launch@
}

/// An offered signer other than the derived one is refused with
/// `InvalidMintAuthority`, and nothing is minted or persisted: every account,
/// the mint's supply included, stays as it was.
pub proof fn lemma_forged_signer_rejected(s: InitializeLaunch, program_id: Seq<u8>)
    requires
        launch_address_matches(s, program_id),
        ready_to_handle(s),
        derived_signer(s.launch@, program_id) matches Some((expected, _)) && expected != s.launch_signer@,
    ensures
        launch_outcome(s, program_id) == Err::<(Seq<u8>, u8), LaunchError>(
            LaunchError::Launchpad(LaunchpadError::InvalidMintAuthority),
        ),
        after_launch(s, program_id) == s,
        after_launch(s, program_id).token_mint.supply == s.token_mint.supply,
{
}

/// When the offered signer is the derived one, the attempt succeeds: one
/// million tokens of six decimals are minted into a vault under that signer,
/// and the record stores the derived signer address.
pub proof fn lemma_derived_signer_accepted(s: InitializeLaunch, program_id: Seq<u8>)
    requires
        launch_address_matches(s, program_id),
        ready_to_handle(s),
        derived_signer(s.launch@, program_id) matches Some((expected, _)) && expected == s.launch_signer@,
    ensures
        launch_outcome(s, program_id) is Ok,
        after_launch(s, program_id).token_vault == Some(
            TokenVault {
                mint: s.token_mint.address,
                authority: s.launch_signer,
                amount: (1_000_000 * 1_000_000) as u64,
            },
        ),
        after_launch(s, program_id).token_mint.supply == 1_000_000 * 1_000_000,
        after_launch(s, program_id).launch_record matches Some(record)
            && derived_signer(s.launch@, program_id) == Some((record.launch_signer@, launch_outcome(s, program_id)->Ok_0.1)),
{
}

/// A mint with supply is refused with `SupplyNonZero` whatever signer is
/// offered, before any signer derivation; a mint without supply that keeps a
/// freeze authority is refused with `FreezeAuthoritySet`.
pub proof fn lemma_mint_precondition_gates(s: InitializeLaunch, program_id: Seq<u8>)
    requires
        launch_address_matches(s, program_id),
        s.launch_record is None,
        s.token_vault is None,
    ensures
        s.token_mint.supply > 0 ==> forall|signer: Address|
            launch_outcome(InitializeLaunch { launch_signer: signer, ..s }, program_id)
                == Err::<(Seq<u8>, u8), LaunchError>(LaunchError::Launchpad(LaunchpadError::SupplyNonZero)),
        s.token_mint.supply == 0 && s.token_mint.freeze_authority is Some ==> launch_outcome(s, program_id)
            == Err::<(Seq<u8>, u8), LaunchError>(LaunchError::Launchpad(LaunchpadError::FreezeAuthoritySet)),
{
}

/// A second attempt on the accounts that a successful one left fails because
/// the record exists, and changes nothing: the first mint stands as it was.
pub proof fn lemma_single_shot(s: InitializeLaunch, program_id: Seq<u8>)
    requires
        launch_outcome(s, program_id) is Ok,
    ensures
        launch_outcome(after_launch(s, program_id), program_id) == Err::<(Seq<u8>, u8), LaunchError>(
            LaunchError::AccountAlreadyInitialized,
        ),
        after_launch(after_launch(s, program_id), program_id) == after_launch(s, program_id),
{
}

/// A failed attempt persists nothing: no launch record appears, no vault is
/// created and the mint's supply is unchanged.
pub proof fn lemma_failure_leaves_no_state(s: InitializeLaunch, program_id: Seq<u8>)
    requires
        launch_outcome(s, program_id) is Err,
    ensures
        after_launch(s, program_id) == s,
        s.launch_record is None ==> after_launch(s, program_id).launch_record is None,
        s.token_vault is None ==> after_launch(s, program_id).token_vault is None,
        after_launch(s, program_id).token_mint.supply == s.token_mint.supply,
{
}

} // verus!
