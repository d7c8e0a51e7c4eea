use vstd::prelude::*;

verus! {

/// A node's secret signing key, from the threshold cryptography that hbbft re-exports.
#[verifier::external_type_specification]
#[verifier::external_body]
pub struct ExSecretKey(hbbft::crypto::SecretKey);

/// A node's public key, from the threshold cryptography that hbbft re-exports.
#[verifier::external_type_specification]
#[verifier::external_body]
pub struct ExPublicKey(hbbft::crypto::PublicKey);

/// A vote for a change of the validator set or of the encryption schedule.
#[verifier::external_type_specification]
#[verifier::external_body]
#[verifier::reject_recursive_types(N)]
pub struct ExChange<N: Ord>(hbbft::dynamic_honey_badger::Change<N>);

/// A message for another node's `DynamicHoneyBadger` instance.
#[verifier::external_type_specification]
#[verifier::external_body]
#[verifier::reject_recursive_types(N)]
pub struct ExMessage<N: Ord>(hbbft::dynamic_honey_badger::Message<N>);

/// The error of a `DynamicHoneyBadger` step.
#[verifier::external_type_specification]
#[verifier::external_body]
pub struct ExDhbError(hbbft::dynamic_honey_badger::Error);

/// The error of synchronous key generation.
#[verifier::external_type_specification]
#[verifier::external_body]
pub struct ExSyncKeyGenError(hbbft::sync_key_gen::Error);

/// The kind of a bincode (de)serialization error; `bincode::Error` boxes it.
#[verifier::external_type_specification]
#[verifier::external_body]
pub struct ExBincodeErrorKind(bincode::ErrorKind);

/// An I/O error of std.
#[verifier::external_type_specification]
#[verifier::external_body]
pub struct ExIoError(std::io::Error);

/// Draws a fresh secret key at random (`SecretKey::random`, which reads the
/// thread's random number generator). Nothing is claimed of the key drawn.
#[verifier::external_body]
pub(crate) fn random_secret_key() -> (sk: hbbft::crypto::SecretKey) {
    hbbft::crypto::SecretKey::random()
}

} // verus!

verus! {

/// The derived `Clone` of hbbft's `Change`; nothing is claimed of the copy,
/// since it clones node ids of the caller's type.
pub assume_specification<N>[ <hbbft::dynamic_honey_badger::Change<N> as Clone>::clone ](
    c: &hbbft::dynamic_honey_badger::Change<N>,
) -> hbbft::dynamic_honey_badger::Change<N> where N: Clone + Ord;

/// The derived `Clone` of hbbft's `Message`; nothing is claimed of the copy,
/// since it clones node ids of the caller's type.
pub assume_specification<N>[ <hbbft::dynamic_honey_badger::Message<N> as Clone>::clone ](
    m: &hbbft::dynamic_honey_badger::Message<N>,
) -> hbbft::dynamic_honey_badger::Message<N> where N: Clone + Ord;

} // verus!
