use vstd::prelude::*;

verus! {

/// A pending withdrawal: `shares` frozen since `request_time` at the exchange
/// rate `asset_per_share_at_request` (assets per share, scaled by
/// `PRECISION`).  A request with zero shares is the empty state: no request
/// is outstanding.
#[derive(Clone, Copy, Debug)]
pub struct UnstakeRequest {
    /// Number of shares to unstake.
    pub shares: u64,
    /// When the unstake request was made.
    pub request_time: i64,
    /// Asset amount per share at request time (scaled by `PRECISION`).
    pub asset_per_share_at_request: u128,
}

impl UnstakeRequest {
    /// The empty request.
    pub open spec fn spec_empty() -> UnstakeRequest {
        UnstakeRequest { shares: 0, request_time: 0, asset_per_share_at_request: 0 }
    }

    /// A request is pending exactly when it holds shares.
    pub open spec fn spec_is_pending(self) -> bool {
        self.shares > 0
    }

    /// The lockup has elapsed: the request is pending and at least
    /// `lockup_period` seconds have passed since `request_time`.
    pub open spec fn spec_can_execute(self, current_time: i64, lockup_period: i64) -> bool {
        self.spec_is_pending() && current_time - self.request_time >= lockup_period
    }

    /// Build the empty request.
    pub fn empty() -> (r: UnstakeRequest)
        ensures
            r == Self::spec_empty(),
    {
        UnstakeRequest { shares: 0, request_time: 0, asset_per_share_at_request: 0 }
    }

    pub fn is_pending(&self) -> (r: bool)
        ensures
            r == self.spec_is_pending(),
    {
        self.shares > 0
    }

    /// Consume the request, returning it to the empty state.
    pub fn reset(&mut self)
        ensures
            *final(self) == Self::spec_empty(),
    {
        self.shares = 0;
        self.request_time = 0;
        self.asset_per_share_at_request = 0;
    }

    pub fn can_execute(&self, current_time: i64, lockup_period: i64) -> (r: bool)
        requires
            0 <= self.request_time,
            0 <= current_time,
        ensures
            r == self.spec_can_execute(current_time, lockup_period),
    {
        self.is_pending() && current_time - self.request_time >= lockup_period
    }
}

} // verus!
