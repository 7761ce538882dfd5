//! The stored form of an oracle: plain values that a host keeps between
//! calls, and that are checked when an oracle is made of them again.

use crate::account_map::{bindings, distinct_keys, AccountMap, Entry};
use crate::oracle::{updaters, Oracle, OracleView, TokenPriceData, ValidationConfig};
use crate::shared::AccountId;
use vstd::prelude::*;

verus! {

/// An oracle as a host stores it. Events are not stored: the host takes them
/// before it stores the oracle.
#[derive(Clone, Debug, PartialEq, Eq)]
pub struct OracleSnapshot {
    pub token_data: Vec<Entry<TokenPriceData>>,
    /// For each account whether it is an authorized updater.
    pub authorized_updaters: Vec<Entry<bool>>,
    pub validation_config: ValidationConfig,
    pub owner: AccountId,
    pub paused: bool,
}

impl View for OracleSnapshot {
    type V = OracleView;

    /// The oracle that the snapshot stands for.
    open spec fn view(&self) -> OracleView {
        OracleView {
            token_data: bindings(self.token_data@),
            authorized_updaters: updaters(bindings(self.authorized_updaters@)),
            validation_config: self.validation_config,
            owner: self.owner,
            paused: self.paused,
            events: Seq::empty(),
        }
    }
}

impl OracleSnapshot {
    /// The snapshot stands for an oracle: no token has two entries and no
    /// account two flags.
    pub open spec fn restorable(&self) -> bool {
        distinct_keys(self.token_data@) && distinct_keys(self.authorized_updaters@)
    }
}

impl Oracle {
    /// The oracle as a host stores it. The events recorded are dropped; the
    /// host takes them first.
    pub fn snapshot(self) -> (snapshot: OracleSnapshot)
        requires
            self.wf(),
        ensures
            snapshot.restorable(),
            snapshot@ == (OracleView { events: Seq::empty(), ..self@ }),
    {
        OracleSnapshot {
            token_data: self.token_data.into_entries(),
            authorized_updaters: self.authorized_updaters.into_entries(),
            validation_config: self.validation_config,
            owner: self.owner,
            paused: self.paused,
        }
    }

    /// The oracle that a snapshot stands for, if it stands for one.
    pub fn restore(snapshot: OracleSnapshot) -> (r: Option<Oracle>)
        ensures
            match r {
                Some(oracle) => snapshot.restorable() && oracle.wf() && oracle@ == snapshot@,
                None => !snapshot.restorable(),
            },
    {
        let token_data = match AccountMap::from_entries(snapshot.token_data) {
            Some(data) => data,
            None => {
                return None;
            },
        };
        let authorized_updaters = match AccountMap::from_entries(snapshot.authorized_updaters) {
            Some(flags) => flags,
            None => {
                return None;
            },
        };
        Some(
            Oracle {
                token_data,
                authorized_updaters,
                validation_config: snapshot.validation_config,
                owner: snapshot.owner,
                paused: snapshot.paused,
                events: Vec::new(),
            },
        )
    }
}

} // verus!
