//! The set of action kinds that fired in the current episode.

use crate::config::model::IdleActionKind;
use vstd::prelude::*;

verus! {

/// A set of action kinds, one flag per kind.
#[derive(Clone, Copy, Debug)]
pub struct KindSet {
    lock_screen: bool,
    suspend: bool,
    dpms: bool,
    brightness: bool,
    custom: bool,
}

impl View for KindSet {
    type V = Set<IdleActionKind>;

    closed spec fn view(&self) -> Set<IdleActionKind> {
        Set::new(
            |k: IdleActionKind|
                match k {
                    IdleActionKind::LockScreen => self.lock_screen,
                    IdleActionKind::Suspend => self.suspend,
                    IdleActionKind::Dpms => self.dpms,
                    IdleActionKind::Brightness => self.brightness,
                    IdleActionKind::Custom => self.custom,
                },
        )
    }
}

impl KindSet {
    pub fn new() -> (s: Self)
        ensures
            s@ == Set::<IdleActionKind>::empty(),
    {
        let s = KindSet {
            lock_screen: false,
            suspend: false,
            dpms: false,
            brightness: false,
            custom: false,
        };
        assert(s@ =~= Set::<IdleActionKind>::empty());
        s
    }

    pub fn contains(&self, kind: IdleActionKind) -> (r: bool)
        ensures
            r == self@.contains(kind),
    {
        match kind {
            IdleActionKind::LockScreen => self.lock_screen,
            IdleActionKind::Suspend => self.suspend,
            IdleActionKind::Dpms => self.dpms,
            IdleActionKind::Brightness => self.brightness,
            IdleActionKind::Custom => self.custom,
        }
    }

    pub fn insert(&mut self, kind: IdleActionKind)
        ensures
            final(self)@ == old(self)@.insert(kind),
    {
        match kind {
            IdleActionKind::LockScreen => {
                self.lock_screen = true;
            },
            IdleActionKind::Suspend => {
                self.suspend = true;
            },
            IdleActionKind::Dpms => {
                self.dpms = true;
            },
            IdleActionKind::Brightness => {
                self.brightness = true;
            },
            IdleActionKind::Custom => {
                self.custom = true;
            },
        }
        assert(self@ =~= old(self)@.insert(kind));
    }
}

} // verus!
