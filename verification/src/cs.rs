use vstd::prelude::*;
use crate::errors::ConfigError;

verus! {

/// Proof of exclusion: a token held only between `InterruptMask::enter`
/// and `InterruptMask::exit`. While a context owns one, no interrupt
/// can be delivered, so it has exclusive access to every `SharedCell`.
/// The field is private: the only way to obtain a token is `enter`.
pub struct CsToken {
    _private: (),
}

/// The model of the global interrupt-enable flag of a single-core
/// machine. Entering a critical section suspends delivery of every
/// maskable interrupt; leaving it resumes delivery, and any interrupt
/// that became pending during the section is delivered then.
///
/// A nested `enter` is prevented by construction: `enter` demands that
/// delivery is currently enabled and hands out the single token, so a
/// second `enter` cannot be expressed without an `exit` first.
pub struct InterruptMask {
    enabled: bool,
}

impl InterruptMask {
    /// Whether maskable interrupt delivery is currently enabled.
    pub closed spec fn interrupts_enabled(self) -> bool {
        self.enabled
    }

    /// The state at startup, before any critical section: delivery
    /// enabled.
    pub fn startup() -> (m: Self)
        ensures
            m.interrupts_enabled(),
    {
        InterruptMask { enabled: true }
    }

    /// Suspend interrupt delivery and take the exclusion token.
    pub fn enter(&mut self) -> (tok: CsToken)
        requires
            old(self).interrupts_enabled(),
        ensures
            !final(self).interrupts_enabled(),
    {
        self.enabled = false;
        CsToken { _private: () }
    }

    /// Give the token back and resume interrupt delivery.
    pub fn exit(&mut self, tok: CsToken)
        requires
            !old(self).interrupts_enabled(),
        ensures
            final(self).interrupts_enabled(),
    {
        let CsToken { _private: () } = tok;
        self.enabled = true;
    }
}

/// A container for a value shared between the foreground loop and an
/// interrupt handler. Every access demands the exclusion token, so no
/// two contexts ever run on the contents at once and no context can
/// observe a torn value. The cell is published exactly once at
/// startup, before interrupts are unmasked, and lives for the process
/// lifetime.
pub struct SharedCell<T> {
    value: Option<T>,
}

impl<T> SharedCell<T> {
    /// The contents, if published.
    pub closed spec fn contents(self) -> Option<T> {
        self.value
    }

    /// Whether a value has been published into the cell.
    pub open spec fn is_published(self) -> bool {
        self.contents() is Some
    }

    /// An empty cell, awaiting its one `publish`.
    pub fn new() -> (c: Self)
        ensures
            !c.is_published(),
    {
        SharedCell { value: None }
    }

    /// Transfer ownership of `v` into the cell. Publishing twice is a
    /// program-construction error: the second call reports it and
    /// leaves the cell unchanged, and startup must halt on it.
    pub fn publish(&mut self, v: T) -> (r: Result<(), ConfigError>)
        ensures
            !old(self).is_published() ==> r is Ok && final(self).contents() == Some(v),
            old(self).is_published() ==> r == Result::<(), ConfigError>::Err(
                ConfigError::AlreadyPublished,
            ) && final(self).contents() == old(self).contents(),
    {
        match self.value {
            Option::Some(_) => Result::Err(ConfigError::AlreadyPublished),
            Option::None => {
                self.value = Option::Some(v);
                Result::Ok(())
            },
        }
    }

    /// Exchange the contents for `v`, returning what was there. Only
    /// possible while holding the exclusion token.
    pub fn replace(&mut self, tok: &CsToken, v: Option<T>) -> (r: Option<T>)
        ensures
            r == old(self).contents(),
            final(self).contents() == v,
    {
        let mut taken = v;
        core::mem::swap(&mut self.value, &mut taken);
        taken
    }

    /// Overwrite the contents. Only possible while holding the
    /// exclusion token.
    pub fn write(&mut self, tok: &CsToken, v: T)
        requires
            old(self).is_published(),
        ensures
            final(self).contents() == Some(v),
    {
        self.value = Option::Some(v);
    }
}

impl<T: Copy> SharedCell<T> {
    /// Read the contents. Only possible while holding the exclusion
    /// token.
    pub fn read(&self, tok: &CsToken) -> (r: T)
        requires
            self.is_published(),
        ensures
            Some(r) == self.contents(),
    {
        self.value.unwrap()
    }
}

} // verus!
