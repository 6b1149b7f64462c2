//! Aggregate AC state across every discovered adapter (some machines expose
//! more than one, e.g. USB-C PD on both sides).

use super::adapter::{online_value, AcAdapter};
use super::detection::{discover, mains_adapters, PowerSupplyEntry};
use crate::errors::PowerError;
use vstd::prelude::*;

verus! {

#[derive(Debug, Clone, Copy, PartialEq, Eq, Structural)]
pub enum AcState {
    Online,
    Offline,
}

/// Some adapter reports online.
pub open spec fn any_online(adapters: Seq<AcAdapter>) -> bool {
    exists|i: int| 0 <= i < adapters.len() && #[trigger] adapters[i].online
}

pub struct AcManager {
    adapters: Vec<AcAdapter>,
}

impl View for AcManager {
    type V = Seq<AcAdapter>;

    closed spec fn view(&self) -> Seq<AcAdapter> {
        self.adapters@
    }
}

impl AcManager {
    /// The manager of the adapters found among the power-supply entries.
    pub fn new(supplies: &Vec<PowerSupplyEntry>) -> (r: Result<Self, PowerError>)
        ensures
            r matches Ok(m) && m@ == mains_adapters(supplies@),
    {
        let adapters = discover(supplies)?;
        Ok(AcManager { adapters })
    }

    /// The adapters being tracked, in discovery order.
    pub fn adapters(&self) -> (r: &Vec<AcAdapter>)
        ensures
            r@ == self@,
    {
        &self.adapters
    }

    /// Takes in a fresh `online` reading for every adapter, in the order of
    /// `adapters()`. Returns `true` if the online/offline state changed.
    pub fn refresh(&mut self, online: &Vec<Option<String>>) -> (r: Result<bool, PowerError>)
        requires
            online@.len() == old(self)@.len(),
        ensures
            final(self)@.len() == old(self)@.len(),
            forall|i: int|
                0 <= i < old(self)@.len() ==> #[trigger] final(self)@[i] == (AcAdapter {
                    online: online_value(online@[i]),
                    ..old(self)@[i]
                }),
            r == Ok::<bool, PowerError>(any_online(old(self)@) != any_online(final(self)@)),
    {
        let was_online = self.is_online();
        let n = self.adapters.len();
        let mut i: usize = 0;
        let ghost before = self.adapters@;
        while i < n
            invariant
                n == self.adapters@.len(),
                n == online@.len(),
                before.len() == n,
                i <= n,
                forall|k: int|
                    0 <= k < i ==> #[trigger] self.adapters@[k] == (AcAdapter {
                        online: online_value(online@[k]),
                        ..before[k]
                    }),
                forall|k: int| i <= k < n ==> #[trigger] self.adapters@[k] == before[k],
            decreases n - i,
        {
            let mut a = AcAdapter {
                id: self.adapters[i].id.clone(),
                path: self.adapters[i].path.clone(),
                online: self.adapters[i].online,
            };
            let _ = a.refresh(&online[i]);
            self.adapters.set(i, a);
            i = i + 1;
        }
        let now_online = self.is_online();
        Ok(was_online != now_online)
    }

    /// Any adapter reporting online counts as "on AC".
    pub fn is_online(&self) -> (r: bool)
        ensures
            r == any_online(self@),
    {
        let mut i: usize = 0;
        while i < self.adapters.len()
            invariant
                i <= self.adapters@.len(),
                forall|k: int| 0 <= k < i ==> !(#[trigger] self.adapters@[k]).online,
            decreases self.adapters@.len() - i,
        {
            if self.adapters[i].online {
                return true;
            }
            i = i + 1;
        }
        false
    }

    pub fn state(&self) -> (r: AcState)
        ensures
            r == (if any_online(self@) {
                AcState::Online
            } else {
                AcState::Offline
            }),
    {
        if self.is_online() {
            AcState::Online
        } else {
            AcState::Offline
        }
    }
}

} // verus!
