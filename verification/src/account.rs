//! The account that holds the treasury's funds.
use crate::types::AccountId;
use frame_support::PalletId;
use sp_runtime::traits::AccountIdConversion;
use vstd::prelude::*;

verus! {

/// The account that belongs to a pallet: the letters `modl`, the pallet's own eight bytes, and
/// zeros up to the length of an account.
pub open spec fn account_of(pallet_id: [u8; 8]) -> AccountId {
    [
        0x6du8,
        0x6fu8,
        0x64u8,
        0x6cu8,
        pallet_id[0],
        pallet_id[1],
        pallet_id[2],
        pallet_id[3],
        pallet_id[4],
        pallet_id[5],
        pallet_id[6],
        pallet_id[7],
        0u8,
        0u8,
        0u8,
        0u8,
        0u8,
        0u8,
        0u8,
        0u8,
        0u8,
        0u8,
        0u8,
        0u8,
        0u8,
        0u8,
        0u8,
        0u8,
        0u8,
        0u8,
        0u8,
        0u8,
    ]
}

/// Calls `into_account_truncating`, the method of `sp_runtime`'s `AccountIdConversion`, on a
/// `PalletId` of `frame_support`. The account is the encoding of the type's four-letter name and
/// of the id, with zeros after it to fill the 32 bytes.
#[verifier::external_body]
pub(crate) fn pallet_account(pallet_id: [u8; 8]) -> (account: AccountId)
    ensures
        account == account_of(pallet_id),
{
    PalletId(pallet_id).into_account_truncating()
}

/// Two pallets with different ids have different accounts.
pub proof fn law_accounts_differ(pallet_id: [u8; 8], other: [u8; 8])
    requires
        pallet_id@ != other@,
    ensures
        account_of(pallet_id) != account_of(other),
{
    if account_of(pallet_id) == account_of(other) {
        assert(pallet_id@ =~= other@) by {
            assert forall|i: int| 0 <= i < 8 implies pallet_id@[i] == other@[i] by {
                assert(account_of(pallet_id)[4 + i] == account_of(other)[4 + i]);
            }
        }
    }
}

/// The account of a pallet, byte by byte.
pub proof fn law_account_bytes(pallet_id: [u8; 8], i: int)
    requires
        0 <= i < 32,
    ensures
        i == 0 ==> account_of(pallet_id)[i] == 109,
        i == 1 ==> account_of(pallet_id)[i] == 111,
        i == 2 ==> account_of(pallet_id)[i] == 100,
        i == 3 ==> account_of(pallet_id)[i] == 108,
        4 <= i < 12 ==> account_of(pallet_id)[i] == pallet_id[i - 4],
        12 <= i ==> account_of(pallet_id)[i] == 0,
{
}

} // verus!
