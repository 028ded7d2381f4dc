//! The descriptor format and the network that a template is made for.

use vstd::prelude::*;

verus! {

/// The derivation scheme that goes with a shape of wallet.
#[derive(Copy, Clone, PartialEq, Eq, PartialOrd, Ord, Hash, Debug, Structural)]
pub enum Bip43 {
    /// Single signature, segwit version 0.
    SingleSigSegwit0,
    /// Single signature, taproot.
    SingleSigTaproot,
    /// Multiple signatures, given by a descriptor.
    MultisigDescriptor,
}

impl Bip43 {
    pub fn singlesig_segwit0() -> (r: Bip43)
        ensures
            r == Bip43::SingleSigSegwit0,
    {
        Bip43::SingleSigSegwit0
    }

    pub fn singlesig_taproot() -> (r: Bip43)
        ensures
            r == Bip43::SingleSigTaproot,
    {
        Bip43::SingleSigTaproot
    }

    pub fn multisig_descriptor() -> (r: Bip43)
        ensures
            r == Bip43::MultisigDescriptor,
    {
        Bip43::MultisigDescriptor
    }
}

/// The format of a wallet's scripts.
#[derive(Copy, Clone, PartialEq, Eq, PartialOrd, Ord, Hash, Debug, Structural)]
pub enum WalletFormat {
    /// A format that follows a derivation scheme.
    Bip43(Bip43),
}

impl From<Bip43> for WalletFormat {
    fn from(scheme: Bip43) -> (r: WalletFormat) {
        WalletFormat::Bip43(scheme)
    }
}

impl vstd::std_specs::convert::FromSpecImpl<Bip43> for WalletFormat {
    open spec fn obeys_from_spec() -> bool {
        true
    }

    open spec fn from_spec(scheme: Bip43) -> WalletFormat {
        WalletFormat::Bip43(scheme)
    }
}

/// The chain that a wallet lives on. A template carries it and never reads it.
#[derive(Copy, Clone, PartialEq, Eq, PartialOrd, Ord, Hash, Debug, Structural)]
pub enum PublicNetwork {
    Mainnet,
    Testnet,
    Signet,
}

} // verus!
