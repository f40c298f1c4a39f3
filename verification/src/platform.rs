//! Platforms, strategies, and the priority-ordered selection among them.

use vstd::prelude::*;

verus! {

/// The runtime platform the resolver is running on, as far as strategy
/// applicability is concerned.
#[derive(Clone, Copy, Debug, PartialEq, Eq, Structural)]
pub enum Platform {
    /// The one platform whose system-information process exposes a product
    /// UUID in the form the resolver understands.
    Windows,
    MacOs,
    Linux,
    /// Any other platform; only the MAC strategy and the sentinel apply.
    Other,
}

/// A strategy for deriving a hardware identifier.
#[derive(Clone, Copy, Debug, PartialEq, Eq, Structural)]
pub enum Strategy {
    /// Query the OS for a product/hardware UUID via a system process.
    PlatformProductUuid,
    /// Derive the identifier from a network interface's MAC address.
    PrimaryNetworkMac,
    /// A fixed placeholder carrying no hardware information; always available.
    UnknownSentinel,
}

impl Strategy {
    /// The priority rank of this strategy; lower ranks are tried first.
    pub open spec fn spec_priority(self) -> u8 {
        match self {
            Strategy::PlatformProductUuid => 0,
            Strategy::PrimaryNetworkMac => 1,
            Strategy::UnknownSentinel => 2,
        }
    }

    /// Whether this strategy can be executed at all on platform `p`.
    ///
    /// The product-UUID query exists only on `Windows`. The MAC strategy is
    /// applicable everywhere (a machine without enumerable interfaces still
    /// yields the sentinel value rather than being inapplicable), and the
    /// sentinel is applicable by definition.
    pub open spec fn spec_applicable_on(self, p: Platform) -> bool {
        match self {
            Strategy::PlatformProductUuid => p is Windows,
            Strategy::PrimaryNetworkMac => true,
            Strategy::UnknownSentinel => true,
        }
    }

    /// The priority rank of this strategy; lower ranks are tried first.
    pub fn priority(self) -> (r: u8)
        ensures
            r == self.spec_priority(),
    {
        match self {
            Strategy::PlatformProductUuid => 0,
            Strategy::PrimaryNetworkMac => 1,
            Strategy::UnknownSentinel => 2,
        }
    }

    /// Whether this strategy can be executed at all on platform `p`.
    pub fn applicable_on(self, p: Platform) -> (r: bool)
        ensures
            r == self.spec_applicable_on(p),
    {
        match self {
            Strategy::PlatformProductUuid => matches!(p, Platform::Windows),
            Strategy::PrimaryNetworkMac => true,
            Strategy::UnknownSentinel => true,
        }
    }
}

/// The strategy the resolver executes first on platform `p`: the applicable
/// strategy of highest priority (lowest rank).
pub open spec fn spec_selected_strategy(p: Platform) -> Strategy {
    if p is Windows {
        Strategy::PlatformProductUuid
    } else {
        Strategy::PrimaryNetworkMac
    }
}

/// Selects the strategy to execute first on platform `p`.
pub fn selected_strategy(p: Platform) -> (s: Strategy)
    ensures
        s == spec_selected_strategy(p),
{
    match p {
        Platform::Windows => Strategy::PlatformProductUuid,
        _ => Strategy::PrimaryNetworkMac,
    }
}

/// Whether resolution on platform `p` begins by running the
/// system-information query process. The host consults this before spawning
/// anything; on every other platform no query process is ever requested.
pub fn requires_uuid_query(p: Platform) -> (r: bool)
    ensures
        r == (spec_selected_strategy(p) == Strategy::PlatformProductUuid),
        r == Strategy::PlatformProductUuid.spec_applicable_on(p),
{
    matches!(p, Platform::Windows)
}

/// Selection soundness: the selected strategy is applicable, and no
/// applicable strategy outranks it.
pub proof fn lemma_selected_strategy_highest_priority(p: Platform)
    ensures
        spec_selected_strategy(p).spec_applicable_on(p),
        forall|s: Strategy|
            s.spec_applicable_on(p) ==> spec_selected_strategy(p).spec_priority()
                <= s.spec_priority(),
{
}

/// On every platform where the product-UUID strategy is inapplicable,
/// selection never chooses it, so the resolver never asks for the
/// system-information query process there.
pub proof fn lemma_no_uuid_query_when_inapplicable(p: Platform)
    ensures
        !Strategy::PlatformProductUuid.spec_applicable_on(p) ==> spec_selected_strategy(p)
            != Strategy::PlatformProductUuid,
{
}

} // verus!
