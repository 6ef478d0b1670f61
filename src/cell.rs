//! Run-time borrow tracking for one stored value: one exclusive borrow or
//! any number of shared borrows at a time.

use vstd::prelude::*;

verus! {

/// Counter value that marks an exclusive borrow.
pub const EXCLUSIVE: usize = usize::MAX;

/// Largest number of shared borrows a flag can count.
pub const MAX_SHARED: usize = usize::MAX - 1;

/// The abstract state of a borrow flag.
pub ghost enum BorrowState {
    Free,
    Shared(nat),
    Exclusive,
}

/// Why a borrow could not be taken.
#[derive(Clone, Copy, Debug, PartialEq, Eq, Structural)]
pub enum BorrowError {
    /// An exclusive borrow was asked for while shared borrows are live.
    AlreadyBorrowed,
    /// A borrow was asked for while an exclusive borrow is live.
    AlreadyBorrowedMutably,
    /// The shared-borrow counter is at its limit.
    TooManyShared,
}

/// The state after a shared borrow is asked for in state `s`.
pub open spec fn shared_borrow_step(s: BorrowState) -> Result<BorrowState, BorrowError> {
    match s {
        BorrowState::Free => Ok(BorrowState::Shared(1)),
        BorrowState::Shared(n) => if n < MAX_SHARED {
            Ok(BorrowState::Shared(n + 1))
        } else {
            Err(BorrowError::TooManyShared)
        },
        BorrowState::Exclusive => Err(BorrowError::AlreadyBorrowedMutably),
    }
}

/// The state after an exclusive borrow is asked for in state `s`.
pub open spec fn exclusive_borrow_step(s: BorrowState) -> Result<BorrowState, BorrowError> {
    match s {
        BorrowState::Free => Ok(BorrowState::Exclusive),
        BorrowState::Shared(_) => Err(BorrowError::AlreadyBorrowed),
        BorrowState::Exclusive => Err(BorrowError::AlreadyBorrowedMutably),
    }
}

/// The state after one shared borrow is released; other states are kept.
pub open spec fn shared_release_step(s: BorrowState) -> BorrowState {
    match s {
        BorrowState::Shared(n) => if n <= 1 {
            BorrowState::Free
        } else {
            BorrowState::Shared((n - 1) as nat)
        },
        _ => s,
    }
}

/// The state after the exclusive borrow is released; other states are kept.
pub open spec fn exclusive_release_step(s: BorrowState) -> BorrowState {
    match s {
        BorrowState::Exclusive => BorrowState::Free,
        _ => s,
    }
}

/// The borrow counter of one stored value.
#[derive(Clone, Copy, Debug, PartialEq, Eq, Structural)]
pub struct BorrowFlag {
    count: usize,
}

impl View for BorrowFlag {
    type V = BorrowState;

    closed spec fn view(&self) -> BorrowState {
        if self.count == 0 {
            BorrowState::Free
        } else if self.count == EXCLUSIVE {
            BorrowState::Exclusive
        } else {
            BorrowState::Shared(self.count as nat)
        }
    }
}

impl BorrowFlag {
    /// A flag with no live borrow.
    pub fn new() -> (r: Self)
        ensures
            r@ == BorrowState::Free,
    {
        BorrowFlag { count: 0 }
    }

    /// True when no borrow is live.
    pub fn is_free(&self) -> (r: bool)
        ensures
            r == (self@ == BorrowState::Free),
    {
        self.count == 0
    }

    /// True when the exclusive borrow is live.
    pub fn is_exclusive(&self) -> (r: bool)
        ensures
            r == (self@ == BorrowState::Exclusive),
    {
        self.count == EXCLUSIVE
    }

    /// Number of live shared borrows.
    pub fn shared_count(&self) -> (r: usize)
        ensures
            self@ is Shared ==> self@ == BorrowState::Shared(r as nat),
            !(self@ is Shared) ==> r == 0,
    {
        if self.count == EXCLUSIVE {
            0
        } else {
            self.count
        }
    }

    /// Takes a shared borrow; fails while the exclusive borrow is live.
    pub fn try_borrow(&mut self) -> (r: Result<(), BorrowError>)
        ensures
            match shared_borrow_step(old(self)@) {
                Ok(s) => r is Ok && final(self)@ == s,
                Err(e) => r == Err::<(), BorrowError>(e) && *final(self) == *old(self),
            },
    {
        if self.count == EXCLUSIVE {
            Err(BorrowError::AlreadyBorrowedMutably)
        } else if self.count == MAX_SHARED {
            Err(BorrowError::TooManyShared)
        } else {
            self.count = self.count + 1;
            Ok(())
        }
    }

    /// Takes the exclusive borrow; fails while any borrow is live.
    pub fn try_borrow_mut(&mut self) -> (r: Result<(), BorrowError>)
        ensures
            match exclusive_borrow_step(old(self)@) {
                Ok(s) => r is Ok && final(self)@ == s,
                Err(e) => r == Err::<(), BorrowError>(e) && *final(self) == *old(self),
            },
    {
        if self.count == EXCLUSIVE {
            Err(BorrowError::AlreadyBorrowedMutably)
        } else if self.count != 0 {
            Err(BorrowError::AlreadyBorrowed)
        } else {
            self.count = EXCLUSIVE;
            Ok(())
        }
    }

    /// Releases one shared borrow.
    pub fn release(&mut self)
        ensures
            final(self)@ == shared_release_step(old(self)@),
    {
        if self.count != EXCLUSIVE && self.count != 0 {
            self.count = self.count - 1;
        }
    }

    /// Releases the exclusive borrow.
    pub fn release_mut(&mut self)
        ensures
            final(self)@ == exclusive_release_step(old(self)@),
    {
        if self.count == EXCLUSIVE {
            self.count = 0;
        }
    }
}

} // verus!
