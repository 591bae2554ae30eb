use vstd::prelude::*;

use crate::error::ErrorCode;
use crate::state::{Address, Config};

verus! {

/// A request to lock or unlock the pool: who signs it, and the pool's
/// configuration.
#[derive(Clone, Copy, Debug)]
pub struct Lock {
    pub signer: Address,
    pub config: Config,
}

impl Lock {
    /// The signer is the pool's authority.
    pub open spec fn signed_by_authority(self) -> bool {
        self.config.authority == Some(self.signer)
    }

    /// Admits the request only when the pool's authority signed it.
    pub fn validate(&self) -> (r: Result<(), ErrorCode>)
        ensures
            r == (if self.signed_by_authority() {
                Ok(())
            } else {
                Err(ErrorCode::Unauthorized)
            }),
    {
        match &self.config.authority {
            Some(authority) => {
                if authority.same_as(&self.signer) {
                    Ok(())
                } else {
                    Err(ErrorCode::Unauthorized)
                }
            },
            None => Err(ErrorCode::Unauthorized),
        }
    }

    /// Sets the pool's lock flag to `lock` and leaves the rest unchanged.
    pub fn lock(&mut self, lock: bool) -> (r: Result<(), ErrorCode>)
        ensures
            r == Ok::<(), ErrorCode>(()),
            final(self).config == old(self).config.with_lock(lock),
            final(self).signer == old(self).signer,
    {
        self.config.locked = lock;
        Ok(())
    }
}

} // verus!
