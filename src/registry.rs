use vstd::prelude::*;

use crate::device_map::DeviceMap;

verus! {

/// Why a call on a device failed.
#[derive(Clone, Copy, Debug, PartialEq, Eq, Structural)]
pub enum BridgeError {
    /// The call needs a paired session and the device has none.
    NotPaired,
    /// A confirmation came without a handshake waiting for it.
    NoPendingPairing,
    /// No inbound bytes arrived within the polling window.
    ReadTimeout,
    /// A derivation path or a transaction text did not parse.
    InvalidInput,
    /// The device or the protocol engine refused or failed the operation.
    EngineFailure,
}

impl BridgeError {
    /// A sentence describing the error.
    pub fn message(&self) -> (r: String)
        ensures
            r@ == match self {
                BridgeError::NotPaired => "Device not paired"@,
                BridgeError::NoPendingPairing => "No pending pairing for device"@,
                BridgeError::ReadTimeout => "Timed out waiting for data from the device"@,
                BridgeError::InvalidInput => "Invalid input"@,
                BridgeError::EngineFailure => "The device failed the operation"@,
            },
    {
        match self {
            BridgeError::NotPaired => "Device not paired".to_owned(),
            BridgeError::NoPendingPairing => "No pending pairing for device".to_owned(),
            BridgeError::ReadTimeout => "Timed out waiting for data from the device".to_owned(),
            BridgeError::InvalidInput => "Invalid input".to_owned(),
            BridgeError::EngineFailure => "The device failed the operation".to_owned(),
        }
    }
}

/// What a command finds when it looks up the paired session of `id`.
pub open spec fn lookup<Q>(paired: Map<Seq<char>, Q>, id: Seq<char>) -> Result<Q, BridgeError> {
    if paired.contains_key(id) {
        Ok(paired[id])
    } else {
        Err(BridgeError::NotPaired)
    }
}

/// What a confirmation finds when it takes the pending handshake of `id`.
pub open spec fn take_result<P>(pairing: Map<Seq<char>, P>, id: Seq<char>) -> Result<P, BridgeError> {
    if pairing.contains_key(id) {
        Ok(pairing[id])
    } else {
        Err(BridgeError::NoPendingPairing)
    }
}

/// The sessions of all devices: `P` is a handshake waiting for the user's
/// confirmation, `Q` a paired session through which commands run.
pub struct SessionRegistry<P, Q> {
    pairing: DeviceMap<P>,
    paired: DeviceMap<Q>,
}

impl<P, Q> SessionRegistry<P, Q> {
    pub closed spec fn wf(&self) -> bool {
        self.pairing.wf() && self.paired.wf()
    }

    /// Handshakes waiting for confirmation, by device.
    pub closed spec fn pairing_view(&self) -> Map<Seq<char>, P> {
        self.pairing@
    }

    /// Paired sessions, by device.
    pub closed spec fn paired_view(&self) -> Map<Seq<char>, Q> {
        self.paired@
    }

    pub fn new() -> (r: Self)
        ensures
            r.wf(),
            r.pairing_view() == Map::<Seq<char>, P>::empty(),
            r.paired_view() == Map::<Seq<char>, Q>::empty(),
    {
        SessionRegistry { pairing: DeviceMap::new(), paired: DeviceMap::new() }
    }

    /// Stores the handshake of `id`, replacing any earlier one.
    pub fn begin_pairing(&mut self, id: String, session: P)
        requires
            old(self).wf(),
        ensures
            final(self).wf(),
            final(self).pairing_view() == old(self).pairing_view().insert(id@, session),
            final(self).paired_view() == old(self).paired_view(),
    {
        self.pairing.insert(id, session);
    }

    /// Removes and returns the handshake of `id`, if there is one.
    pub fn take_pairing(&mut self, id: &String) -> (r: Option<P>)
        requires
            old(self).wf(),
        ensures
            final(self).wf(),
            final(self).pairing_view() == old(self).pairing_view().remove(id@),
            final(self).paired_view() == old(self).paired_view(),
            match r {
                Some(p) => old(self).pairing_view().contains_key(id@) && p == old(self).pairing_view()[id@],
                None => !old(self).pairing_view().contains_key(id@),
            },
    {
        self.pairing.remove(id)
    }

    /// Stores the paired session of `id`, replacing any earlier one.
    pub fn complete_pairing(&mut self, id: String, session: Q)
        requires
            old(self).wf(),
        ensures
            final(self).wf(),
            final(self).paired_view() == old(self).paired_view().insert(id@, session),
            final(self).pairing_view() == old(self).pairing_view(),
    {
        self.paired.insert(id, session);
    }

    /// The paired session of `id`, if there is one.
    pub fn get_paired(&self, id: &String) -> (r: Option<&Q>)
        requires
            self.wf(),
        ensures
            match r {
                Some(q) => self.paired_view().contains_key(id@) && *q == self.paired_view()[id@],
                None => !self.paired_view().contains_key(id@),
            },
    {
        self.paired.get(id)
    }

    /// Forgets the paired session of `id`; nothing happens if there is none.
    pub fn close(&mut self, id: &String)
        requires
            old(self).wf(),
        ensures
            final(self).wf(),
            final(self).paired_view() == old(self).paired_view().remove(id@),
            final(self).pairing_view() == old(self).pairing_view(),
    {
        let _ = self.paired.remove(id);
    }

    /// The session every command on `id` runs through.
    pub fn paired_session(&self, serial_number: &String) -> (r: Result<&Q, BridgeError>)
        requires
            self.wf(),
        ensures
            match r {
                Ok(q) => lookup(self.paired_view(), serial_number@) == Ok::<Q, BridgeError>(*q),
                Err(e) => lookup(self.paired_view(), serial_number@) == Err::<Q, BridgeError>(e),
            },
    {
        match self.get_paired(serial_number) {
            Some(q) => Ok(q),
            None => Err(BridgeError::NotPaired),
        }
    }

    /// Ends the start of a pairing. `handshake` is what opening the secure
    /// channel produced: nothing if it failed, else the handshake and the
    /// pairing code it shows. A failed handshake yields no code and changes
    /// nothing; a successful one is kept until it is confirmed, and its code
    /// is returned.
    pub fn start_pairing(&mut self, serial_number: String, handshake: Option<(P, Option<String>)>) -> (r:
        Option<String>)
        requires
            old(self).wf(),
        ensures
            final(self).wf(),
            final(self).paired_view() == old(self).paired_view(),
            match handshake {
                None => r.is_none() && final(self).pairing_view() == old(self).pairing_view(),
                Some((p, code)) => {
                    &&& r == code
                    &&& final(self).pairing_view() == old(self).pairing_view().insert(serial_number@, p)
                },
            },
    {
        match handshake {
            None => None,
            Some((p, code)) => {
                self.begin_pairing(serial_number, p);
                code
            },
        }
    }

    /// First half of a confirmation: takes the pending handshake of
    /// `serial_number` out of the registry, whether or not the confirmation
    /// will then succeed.
    pub fn begin_confirm(&mut self, serial_number: &String) -> (r: Result<P, BridgeError>)
        requires
            old(self).wf(),
        ensures
            final(self).wf(),
            r == take_result(old(self).pairing_view(), serial_number@),
            final(self).pairing_view() == old(self).pairing_view().remove(serial_number@),
            final(self).paired_view() == old(self).paired_view(),
    {
        match self.take_pairing(serial_number) {
            Some(p) => Ok(p),
            None => Err(BridgeError::NoPendingPairing),
        }
    }

    /// Second half of a confirmation: `confirmed` is the paired session the
    /// device granted, or nothing if it refused.
    pub fn confirm_pairing(&mut self, serial_number: String, confirmed: Option<Q>) -> (r: Result<
        bool,
        BridgeError,
    >)
        requires
            old(self).wf(),
        ensures
            final(self).wf(),
            final(self).pairing_view() == old(self).pairing_view(),
            match confirmed {
                Some(q) => {
                    &&& r == Ok::<bool, BridgeError>(true)
                    &&& final(self).paired_view() == old(self).paired_view().insert(serial_number@, q)
                },
                None => {
                    &&& r == Err::<bool, BridgeError>(BridgeError::EngineFailure)
                    &&& final(self).paired_view() == old(self).paired_view()
                },
            },
    {
        match confirmed {
            Some(q) => {
                self.complete_pairing(serial_number, q);
                Ok(true)
            },
            None => Err(BridgeError::EngineFailure),
        }
    }
}

/// A confirmation consumes the pending handshake whatever its outcome, so a
/// second confirmation right after it fails with `NoPendingPairing`.
pub proof fn lemma_confirm_is_one_shot<P>(pairing: Map<Seq<char>, P>, id: Seq<char>)
    ensures
        take_result(pairing.remove(id), id) == Err::<P, BridgeError>(BridgeError::NoPendingPairing),
{
}

/// A command on a device without a paired session fails with `NotPaired`;
/// whether a handshake is pending for it plays no part.
pub proof fn lemma_unpaired_command_fails<P, Q>(reg: SessionRegistry<P, Q>, id: Seq<char>)
    requires
        !reg.paired_view().contains_key(id),
    ensures
        lookup(reg.paired_view(), id) == Err::<Q, BridgeError>(BridgeError::NotPaired),
{
}

/// After a device is closed, a command on it finds what it finds on a device
/// that was never paired.
pub proof fn lemma_closed_is_never_paired<Q>(paired: Map<Seq<char>, Q>, id: Seq<char>)
    ensures
        lookup(paired.remove(id), id) == lookup(Map::<Seq<char>, Q>::empty(), id),
{
}

} // verus!
