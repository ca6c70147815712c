//! The run/stop signal that every transfer checks between buffers.

use vstd::prelude::*;

verus! {

/// Whether transfers may proceed.
#[derive(Debug, Clone, Copy, PartialEq, Eq, Structural)]
pub enum DownloadThreadControlFlag {
    Stop,
    Go,
}

impl DownloadThreadControlFlag {
    /// `Go` is `true`, `Stop` is `false`.
    pub open spec fn spec_as_bool(self) -> bool {
        self == DownloadThreadControlFlag::Go
    }

    /// The flag as the boolean that a shared atomic cell can hold.
    pub fn as_bool(self) -> (b: bool)
        ensures
            b == self.spec_as_bool(),
    {
        match self {
            DownloadThreadControlFlag::Go => true,
            DownloadThreadControlFlag::Stop => false,
        }
    }

    /// The flag that a stored boolean stands for.
    pub fn from_bool(b: bool) -> (flag: Self)
        ensures
            flag.spec_as_bool() == b,
    {
        if b {
            DownloadThreadControlFlag::Go
        } else {
            DownloadThreadControlFlag::Stop
        }
    }
}

/// The control state of one agent.
///
/// This is the state itself. Sharing it between threads, behind an atomic
/// cell, is left to the caller, who hands each decision the value it read.
#[derive(Debug, Clone, Copy)]
pub struct DownloadThreadControl {
    inner: bool,
}

impl DownloadThreadControl {
    /// The flag a `get` returns.
    pub closed spec fn flag(&self) -> DownloadThreadControlFlag {
        if self.inner {
            DownloadThreadControlFlag::Go
        } else {
            DownloadThreadControlFlag::Stop
        }
    }

    pub fn new(flag: DownloadThreadControlFlag) -> (control: Self)
        ensures
            control.flag() == flag,
    {
        DownloadThreadControl { inner: flag.as_bool() }
    }

    /// The state last installed.
    pub fn get(&self) -> (flag: DownloadThreadControlFlag)
        ensures
            flag == self.flag(),
    {
        DownloadThreadControlFlag::from_bool(self.inner)
    }

    /// Installs a new state.
    pub fn set(&mut self, flag: DownloadThreadControlFlag)
        ensures
            final(self).flag() == flag,
    {
        self.inner = flag.as_bool();
    }
}

} // verus!
