//! Validated, immutable per-party settings.
//!
//! Each party builds its configuration through a builder; construction
//! fails fast with a [`ConfigError`] if the identity or the initial pool
//! size is missing, or if the pool size is zero.

use vstd::prelude::*;

use crate::error::ConfigError;

verus! {

/// Settings of the Sender actor.
#[derive(Clone, Debug)]
pub struct OTActorSenderConfig {
    /// Identity label, used to disambiguate pairings.  Not security
    /// sensitive.
    pub id: String,
    /// Number of OT instances provisioned by `setup`.  Always positive.
    pub initial_count: usize,
    /// Whether commit/reveal/verify is enabled.
    pub committed: bool,
}

/// Settings of the Receiver actor.
#[derive(Clone, Debug)]
pub struct OTActorReceiverConfig {
    /// Identity label, used to disambiguate pairings.  Not security
    /// sensitive.
    pub id: String,
    /// Number of OT instances provisioned by `setup`.  Always positive.
    pub initial_count: usize,
    /// Whether commit/reveal/verify is enabled.
    pub committed: bool,
}

/// Builder for [`OTActorSenderConfig`].
pub struct OTActorSenderConfigBuilder {
    /// The identity label collected so far.
    pub id: Option<String>,
    /// The pool size collected so far.
    pub initial_count: Option<usize>,
    /// Whether committed mode was requested.
    pub committed: bool,
}

/// Builder for [`OTActorReceiverConfig`].
pub struct OTActorReceiverConfigBuilder {
    /// The identity label collected so far.
    pub id: Option<String>,
    /// The pool size collected so far.
    pub initial_count: Option<usize>,
    /// Whether committed mode was requested.
    pub committed: bool,
}

impl OTActorSenderConfig {
    /// Starts building a Sender configuration.
    pub fn builder() -> (b: OTActorSenderConfigBuilder)
        ensures
            b.id is None,
            b.initial_count is None,
            !b.committed,
    {
        OTActorSenderConfigBuilder { id: None, initial_count: None, committed: false }
    }
}

impl OTActorReceiverConfig {
    /// Starts building a Receiver configuration.
    pub fn builder() -> (b: OTActorReceiverConfigBuilder)
        ensures
            b.id is None,
            b.initial_count is None,
            !b.committed,
    {
        OTActorReceiverConfigBuilder { id: None, initial_count: None, committed: false }
    }
}

impl OTActorSenderConfigBuilder {
    /// The identity label of this actor.
    pub fn id(self, id: &str) -> (b: Self)
        ensures
            b.id matches Some(s) && s@ == id@,
            b.initial_count == self.initial_count,
            b.committed == self.committed,
    {
        OTActorSenderConfigBuilder { id: Some(id.to_owned()), ..self }
    }

    /// The number of OT instances to provision at setup.
    pub fn initial_count(self, count: usize) -> (b: Self)
        ensures
            b.id == self.id,
            b.initial_count == Some(count),
            b.committed == self.committed,
    {
        OTActorSenderConfigBuilder { initial_count: Some(count), ..self }
    }

    /// Enables committed mode.
    pub fn committed(self) -> (b: Self)
        ensures
            b.id == self.id,
            b.initial_count == self.initial_count,
            b.committed,
    {
        OTActorSenderConfigBuilder { committed: true, ..self }
    }

    /// Validates the collected fields.
    ///
    /// Fails with [`ConfigError::MissingId`] if no identity was supplied,
    /// with [`ConfigError::MissingInitialCount`] if no pool size was
    /// supplied, and with [`ConfigError::InvalidInitialCount`] if the pool
    /// size is zero.
    pub fn build(self) -> (r: Result<OTActorSenderConfig, ConfigError>)
        ensures
            self.id is None ==> r == Err::<OTActorSenderConfig, ConfigError>(ConfigError::MissingId),
            self.id is Some && self.initial_count is None ==> r == Err::<
                OTActorSenderConfig,
                ConfigError,
            >(ConfigError::MissingInitialCount),
            self.id is Some && self.initial_count == Some(0usize) ==> r == Err::<
                OTActorSenderConfig,
                ConfigError,
            >(ConfigError::InvalidInitialCount),
            self.id is Some && self.initial_count is Some && self.initial_count.unwrap() > 0 ==> (r
                matches Ok(c) && c.id == self.id.unwrap() && c.initial_count
                == self.initial_count.unwrap() && c.committed == self.committed),
    {
        let OTActorSenderConfigBuilder { id, initial_count, committed } = self;
        let id = match id {
            Some(id) => id,
            None => {
                return Err(ConfigError::MissingId);
            },
        };
        let initial_count = match initial_count {
            Some(n) => n,
            None => {
                return Err(ConfigError::MissingInitialCount);
            },
        };
        if initial_count == 0 {
            return Err(ConfigError::InvalidInitialCount);
        }
        Ok(OTActorSenderConfig { id, initial_count, committed })
    }
}

impl OTActorReceiverConfigBuilder {
    /// The identity label of this actor.
    pub fn id(self, id: &str) -> (b: Self)
        ensures
            b.id matches Some(s) && s@ == id@,
            b.initial_count == self.initial_count,
            b.committed == self.committed,
    {
        OTActorReceiverConfigBuilder { id: Some(id.to_owned()), ..self }
    }

    /// The number of OT instances to provision at setup.
    pub fn initial_count(self, count: usize) -> (b: Self)
        ensures
            b.id == self.id,
            b.initial_count == Some(count),
            b.committed == self.committed,
    {
        OTActorReceiverConfigBuilder { initial_count: Some(count), ..self }
    }

    /// Enables committed mode.
    pub fn committed(self) -> (b: Self)
        ensures
            b.id == self.id,
            b.initial_count == self.initial_count,
            b.committed,
    {
        OTActorReceiverConfigBuilder { committed: true, ..self }
    }

    /// Validates the collected fields.
    ///
    /// Fails with [`ConfigError::MissingId`] if no identity was supplied,
    /// with [`ConfigError::MissingInitialCount`] if no pool size was
    /// supplied, and with [`ConfigError::InvalidInitialCount`] if the pool
    /// size is zero.
    pub fn build(self) -> (r: Result<OTActorReceiverConfig, ConfigError>)
        ensures
            self.id is None ==> r == Err::<OTActorReceiverConfig, ConfigError>(
                ConfigError::MissingId,
            ),
            self.id is Some && self.initial_count is None ==> r == Err::<
                OTActorReceiverConfig,
                ConfigError,
            >(ConfigError::MissingInitialCount),
            self.id is Some && self.initial_count == Some(0usize) ==> r == Err::<
                OTActorReceiverConfig,
                ConfigError,
            >(ConfigError::InvalidInitialCount),
            self.id is Some && self.initial_count is Some && self.initial_count.unwrap() > 0 ==> (r
                matches Ok(c) && c.id == self.id.unwrap() && c.initial_count
                == self.initial_count.unwrap() && c.committed == self.committed),
    {
        let OTActorReceiverConfigBuilder { id, initial_count, committed } = self;
        let id = match id {
            Some(id) => id,
            None => {
                return Err(ConfigError::MissingId);
            },
        };
        let initial_count = match initial_count {
            Some(n) => n,
            None => {
                return Err(ConfigError::MissingInitialCount);
            },
        };
        if initial_count == 0 {
            return Err(ConfigError::InvalidInitialCount);
        }
        Ok(OTActorReceiverConfig { id, initial_count, committed })
    }
}

} // verus!
