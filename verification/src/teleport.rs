use vstd::prelude::*;

verus! {

/// How a teleport confirmation from the client is judged.
#[derive(Clone, Copy, Debug, PartialEq, Eq, Structural)]
pub enum TeleportResult {
    /// The id is the awaited one: the player is moved and nothing is awaited.
    Success,
    /// The id belongs to an older teleport that a newer one replaced: ignored.
    StaleId,
    /// The id is newer than any sent: the client is kicked.
    WrongId,
    /// No teleport is awaited: ignored.
    NotTeleporting,
}

/// A connection of a Java client.
pub struct JavaClient;

impl JavaClient {
    /// Judges a teleport confirmation.  `awaiting` holds the id of the awaited
    /// teleport and its target, and is cleared on success; the target to move
    /// the player to comes back with `Success`.
    pub fn handle_confirm_teleport<P: Copy>(
        &self,
        awaiting: &mut Option<(i32, P)>,
        teleport_id: i32,
    ) -> (r: (TeleportResult, Option<P>))
        ensures
            match *old(awaiting) {
                None => r == (TeleportResult::NotTeleporting, None::<P>) && *final(awaiting)
                    == *old(awaiting),
                Some((id, pos)) => if id == teleport_id {
                    r == (TeleportResult::Success, Some(pos)) && *final(awaiting) is None
                } else if teleport_id < id {
                    r == (TeleportResult::StaleId, None::<P>) && *final(awaiting) == *old(awaiting)
                } else {
                    r == (TeleportResult::WrongId, None::<P>) && *final(awaiting) == *old(awaiting)
                },
            },
    {
        match *awaiting {
            Some((id, pos)) => {
                if id == teleport_id {
                    *awaiting = None;
                    (TeleportResult::Success, Some(pos))
                } else if teleport_id < id {
                    (TeleportResult::StaleId, None)
                } else {
                    (TeleportResult::WrongId, None)
                }
            },
            None => (TeleportResult::NotTeleporting, None),
        }
    }

    /// Whether a result ends the connection.
    pub fn kicks(result: TeleportResult) -> (r: bool)
        ensures
            r == (result == TeleportResult::WrongId),
    {
        match result {
            TeleportResult::WrongId => true,
            _ => false,
        }
    }
}

} // verus!
