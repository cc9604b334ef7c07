use crossbeam::sync::WaitGroup;
use vstd::prelude::*;

verus! {

#[verifier::external_type_specification]
#[verifier::external_body]
pub struct ExWaitGroup(WaitGroup);

/// `WaitGroup::clone` of crossbeam: another handle on the same group. Nothing is
/// stated of the result.
pub assume_specification[ <WaitGroup as Clone>::clone ](group: &WaitGroup) -> WaitGroup;

/// The state of one connection of a bot to the gateway.
#[derive(Clone)]
pub struct ConnectionStateKraken {
    pub session_id: String,
    pub id: String,
    pub bot_id: String,
    pub master_shard: String,
    pub secret: String,
    /// Flags.
    pub scope: Vec<u64>,
    /// Flag.
    pub type_interaction: u64,
    pub sync: WaitGroup,
}

impl ConnectionStateKraken {
    pub fn session_id(self) -> (r: String)
        ensures
            r == self.session_id,
    {
        self.session_id
    }

    pub fn id(self) -> (r: String)
        ensures
            r == self.id,
    {
        self.id
    }

    pub fn bot_id(self) -> (r: String)
        ensures
            r == self.bot_id,
    {
        self.bot_id
    }

    pub fn master_shard(self) -> (r: String)
        ensures
            r == self.master_shard,
    {
        self.master_shard
    }

    pub fn secret(self) -> (r: String)
        ensures
            r == self.secret,
    {
        self.secret
    }

    pub fn scope(self) -> (r: Vec<u64>)
        ensures
            r == self.scope,
    {
        self.scope
    }

    pub fn type_interaction(self) -> (r: u64)
        ensures
            r == self.type_interaction,
    {
        self.type_interaction
    }

    pub fn sync(self) -> (r: WaitGroup)
        ensures
            r == self.sync,
    {
        self.sync
    }
}

} // verus!
