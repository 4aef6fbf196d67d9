//! Account decoders.

use vstd::prelude::*;

use crate::account_wrapper::{
    holds_account, read_of, zero_padded, AccountState, AccountWrapper,
};
use crate::errors::{ClientResult, DecodeError, PumpClientError};
use crate::state::BondingCurve;

pub mod pump_amm;

verus! {

/// Whether `r` is what reading an account out of `data` gives: the account that the
/// zero-padded data holds, or why it holds none.
pub open spec fn decoding<T: AccountState>(data: Seq<u8>, r: ClientResult<T>) -> bool {
    match r {
        Ok(state) => holds_account(data, state),
        Err(PumpClientError::Decode(DecodeError::WrongDiscriminator)) => zero_padded(
            data,
            T::size(),
        ).take(8) != T::tag(),
        Err(PumpClientError::Decode(DecodeError::Malformed)) => {
            &&& zero_padded(data, T::size()).take(8) == T::tag()
            &&& forall|state: T| !#[trigger] holds_account(data, state)
        },
        Err(_) => false,
    }
}

/// Reads an account. Data shorter than the current layout counts as zero-padded.
pub fn decode<T: AccountState>(data: &[u8]) -> (r: ClientResult<T>)
    ensures
        decoding(data@, r),
{
    let mut rest = data;
    match AccountWrapper::<T>::try_deserialize(&mut rest) {
        Ok(account) => Ok(account.into_inner()),
        Err(e) => Err(PumpClientError::Decode(e)),
    }
}

/// Reads a bonding curve.
pub fn decode_bonding_curve(data: &[u8]) -> (r: ClientResult<BondingCurve>)
    ensures
        decoding(data@, r),
{
    decode::<BondingCurve>(data)
}

/// Reads a bonding curve; nothing where the data holds none.
pub fn decode_bonding_curve_nullable(data: &[u8]) -> (r: Option<BondingCurve>)
    ensures
        match r {
            Some(curve) => holds_account(data@, curve),
            None => forall|curve: BondingCurve| !#[trigger] holds_account(data@, curve),
        },
{
    match decode::<BondingCurve>(data) {
        Ok(curve) => Some(curve),
        Err(_) => {
            proof {
                law_wrong_tag_holds_nothing::<BondingCurve>(data@);
            }
            None
        },
    }
}

/// Data with another discriminator holds no account.
pub proof fn law_wrong_tag_holds_nothing<T: AccountState>(data: Seq<u8>)
    ensures
        zero_padded(data, T::size()).take(8) != T::tag() ==> forall|state: T|
            !#[trigger] holds_account(data, state),
{
    assert forall|state: T| #[trigger] holds_account(data, state) implies zero_padded(
        data,
        T::size(),
    ).take(8) == T::tag() by {
        state.lemma_layout();
        let padded = zero_padded(data, T::size());
        assert(padded.take(8) =~= padded.take(T::size() as int).take(8));
    }
}

/// Decoding gives what reading the account gives, and no other error.
pub proof fn law_decoding_is_reading<T: AccountState>(
    data: Seq<u8>,
    state: T,
    e: PumpClientError,
)
    ensures
        decoding(data, Ok::<T, PumpClientError>(state)) <==> read_of(
            data,
            Ok::<AccountWrapper<T>, DecodeError>(AccountWrapper(state)),
        ),
        e matches PumpClientError::Decode(reason) ==> (decoding::<T>(data, Err(e)) <==> read_of::<
            T,
        >(data, Err(reason))),
        decoding::<T>(data, Err(e)) ==> e is Decode && !holds_account(data, state),
{
    law_wrong_tag_holds_nothing::<T>(data);
}

} // verus!
