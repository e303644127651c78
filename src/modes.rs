//! Cyclic selectors: the focus mode and the top-level screen.

use vstd::prelude::*;

verus! {

/// A closed set of variants laid out on a cycle, each with a fixed position.
pub trait Tab where Self: Clone + Copy + PartialEq + Eq + Sized {
    /// Position of the variant on its cycle.
    spec fn index(&self) -> nat;

    /// Number of variants on the cycle.
    spec fn period() -> nat;

    /// Variant picked for an out-of-range position.
    spec fn fallback() -> nat;

    fn as_int(&self) -> (r: u8)
        ensures
            r as nat == self.index(),
            self.index() < Self::period(),
    ;

    fn to_enum(&self, num: u8) -> (r: Self)
        ensures
            r.index() == if (num as nat) < Self::period() {
                num as nat
            } else {
                Self::fallback()
            },
    ;

    fn next(&self) -> (r: Self)
        ensures
            r.index() == (self.index() + 1) % Self::period(),
    ;

    fn previous(&self) -> (r: Self)
        ensures
            r.index() as int == (self.index() + Self::period() - 1) % (Self::period() as int),
    ;
}

/// The top-level screen: composing a request or reading its response.
#[derive(Clone, Copy, Debug, PartialEq, Eq, Structural)]
pub enum AppMode {
    Request,
    Response,
}

impl Tab for AppMode {
    open spec fn index(&self) -> nat {
        match self {
            AppMode::Request => 0,
            AppMode::Response => 1,
        }
    }

    open spec fn period() -> nat {
        2
    }

    open spec fn fallback() -> nat {
        0
    }

    fn as_int(&self) -> (r: u8) {
        match self {
            AppMode::Request => 0,
            AppMode::Response => 1,
        }
    }

    fn to_enum(&self, num: u8) -> (r: Self) {
        match num {
            0 => AppMode::Request,
            1 => AppMode::Response,
            _ => AppMode::Request,
        }
    }

    fn next(&self) -> (r: Self) {
        self.to_enum((self.as_int() + 1) % 2)
    }

    fn previous(&self) -> (r: Self) {
        self.next()
    }
}

/// Which field receives typed characters: the URI field, none, or the
/// active payload field.
#[derive(Clone, Copy, Debug, PartialEq, Eq, Structural)]
pub enum InputMode {
    UriEditing,
    Normal,
    PayloadEditing,
}

impl Tab for InputMode {
    open spec fn index(&self) -> nat {
        match self {
            InputMode::UriEditing => 0,
            InputMode::Normal => 1,
            InputMode::PayloadEditing => 2,
        }
    }

    open spec fn period() -> nat {
        3
    }

    open spec fn fallback() -> nat {
        1
    }

    fn as_int(&self) -> (r: u8) {
        match self {
            InputMode::UriEditing => 0,
            InputMode::Normal => 1,
            InputMode::PayloadEditing => 2,
        }
    }

    fn to_enum(&self, num: u8) -> (r: Self) {
        match num {
            0 => InputMode::UriEditing,
            1 => InputMode::Normal,
            2 => InputMode::PayloadEditing,
            _ => InputMode::Normal,
        }
    }

    fn next(&self) -> (r: Self) {
        self.to_enum((self.as_int() + 1) % 3)
    }

    fn previous(&self) -> (r: Self) {
        self.to_enum((self.as_int() + 2) % 3)
    }
}

/// The mode that `next` moves to from `m`.
pub open spec fn mode_after(m: InputMode) -> InputMode {
    match m {
        InputMode::UriEditing => InputMode::Normal,
        InputMode::Normal => InputMode::PayloadEditing,
        InputMode::PayloadEditing => InputMode::UriEditing,
    }
}

/// The mode that `previous` moves to from `m`.
pub open spec fn mode_before(m: InputMode) -> InputMode {
    match m {
        InputMode::UriEditing => InputMode::PayloadEditing,
        InputMode::Normal => InputMode::UriEditing,
        InputMode::PayloadEditing => InputMode::Normal,
    }
}

/// `next` and `previous` on a mode are `mode_after` and `mode_before`.
pub proof fn lemma_mode_steps(m: InputMode, n: InputMode, p: InputMode)
    requires
        n.index() == (m.index() + 1) % InputMode::period(),
        p.index() as int == (m.index() + InputMode::period() - 1) % (InputMode::period() as int),
    ensures
        n == mode_after(m),
        p == mode_before(m),
{
}

/// Advancing the focus mode three times returns to where it started, and
/// stepping back undoes a step forward and the other way round.
pub proof fn lemma_focus_cycle(m: InputMode)
    ensures
        mode_after(mode_after(mode_after(m))) == m,
        mode_before(mode_after(m)) == m,
        mode_after(mode_before(m)) == m,
{
}

} // verus!
