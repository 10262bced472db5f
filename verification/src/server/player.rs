//! The two participants of a session.

use vstd::prelude::*;
use vstd::std_specs::cmp::PartialEqSpecImpl;

verus! {

/// Identifier of the participant that moves first.
pub const PLAYER_ONE_ID: u8 = 1;

/// Identifier of the participant that moves second.
pub const PLAYER_TWO_ID: u8 = 2;

/// A participant: its identifier and the connection that reaches it. The
/// library never looks into the connection, whose type `C` the caller picks.
#[derive(Debug)]
pub struct Player<C> {
    id: u8,
    connection: C,
}

impl<C> Player<C> {
    /// The participant's identifier.
    pub closed spec fn id_of(&self) -> u8 {
        self.id
    }

    /// The participant's connection.
    pub closed spec fn connection_of(&self) -> C {
        self.connection
    }

    /// The first participant, reached through `connection`.
    pub fn new_player_one(connection: C) -> (player: Player<C>)
        ensures
            player.id_of() == PLAYER_ONE_ID,
            player.connection_of() == connection,
    {
        Player { id: PLAYER_ONE_ID, connection }
    }

    /// The second participant, reached through `connection`.
    pub fn new_player_two(connection: C) -> (player: Player<C>)
        ensures
            player.id_of() == PLAYER_TWO_ID,
            player.connection_of() == connection,
    {
        Player { id: PLAYER_TWO_ID, connection }
    }

    /// The participant's identifier.
    pub fn id(&self) -> (id: u8)
        ensures
            id == self.id_of(),
    {
        self.id
    }

    /// The participant's connection.
    pub fn connection(&self) -> (connection: &C)
        ensures
            *connection == self.connection_of(),
    {
        &self.connection
    }

    /// The participant's connection, to write to or to replace. The
    /// identifier stays.
    pub fn connection_mut(&mut self) -> (connection: &mut C)
        ensures
            *connection == old(self).connection_of(),
            final(self).connection_of() == *final(connection),
            final(self).id_of() == old(self).id_of(),
    {
        &mut self.connection
    }
}

impl<C> PartialEq for Player<C> {
    /// Two participants are the same when their identifiers are.
    fn eq(&self, other: &Self) -> (equal: bool) {
        self.id == other.id
    }
}

impl<C> PartialEqSpecImpl for Player<C> {
    open spec fn obeys_eq_spec() -> bool {
        true
    }

    open spec fn eq_spec(&self, other: &Player<C>) -> bool {
        self.id_of() == other.id_of()
    }
}

/// Whether `player_id` is the identifier of one of the two participants.
pub open spec fn is_player(player_id: u8) -> bool {
    player_id == PLAYER_ONE_ID || player_id == PLAYER_TWO_ID
}

/// The identifier that alternates with `player_id`: player two for player one,
/// player one for anything else.
pub open spec fn alternative_player_id(player_id: u8) -> u8 {
    if player_id == PLAYER_ONE_ID {
        PLAYER_TWO_ID
    } else {
        PLAYER_ONE_ID
    }
}

/// Returns the identifier of the other participant.
pub fn get_alternative_player_id(player_id: u8) -> (other: u8)
    ensures
        other == alternative_player_id(player_id),
{
    if player_id == PLAYER_ONE_ID {
        PLAYER_TWO_ID
    } else {
        PLAYER_ONE_ID
    }
}

/// Alternating twice gives the identifier back, for the two identifiers that
/// participants have.
pub proof fn lemma_alternative_is_involution(player_id: u8)
    requires
        is_player(player_id),
    ensures
        is_player(alternative_player_id(player_id)),
        alternative_player_id(player_id) != player_id,
        alternative_player_id(alternative_player_id(player_id)) == player_id,
{
}

} // verus!
