//! Cursor over a list: which row, if any, is highlighted, and how the
//! navigation keys move it.

use vstd::prelude::*;

verus! {

/// The highlighted row of a list (`None` when nothing is highlighted).
#[derive(Debug, Clone, Copy, PartialEq, Eq, Structural, Default)]
pub struct ListSelection {
    pub index: Option<usize>,
}

impl ListSelection {
    /// Nothing highlighted.
    pub fn new() -> (s: ListSelection)
        ensures
            s.index is None,
    {
        ListSelection { index: None }
    }

    /// Highlights the given row, or nothing.
    pub fn select(&mut self, index: Option<usize>)
        ensures
            final(self).index == index,
    {
        self.index = index;
    }

    /// The highlighted row.
    pub fn selected(&self) -> (r: Option<usize>)
        ensures
            r == self.index,
    {
        self.index
    }
}

/// The selection kept valid for a list of `len` rows: nothing for an empty
/// list, the first row when nothing was highlighted, otherwise the same row
/// pulled back inside the list.
pub open spec fn clamp_spec(len: nat, sel: Option<usize>) -> Option<usize> {
    if len == 0 {
        None
    } else {
        match sel {
            None => Some(0),
            Some(i) => Some(if i < len { i } else { (len - 1) as usize }),
        }
    }
}

/// One step down, stopping at the last row; nothing moves in an empty list.
pub open spec fn down_spec(len: nat, sel: Option<usize>) -> Option<usize> {
    if len == 0 {
        sel
    } else {
        match sel {
            Some(i) => if i + 1 < len { Some((i + 1) as usize) } else { Some((len - 1) as usize) },
            None => Some(0),
        }
    }
}

/// One step up, stopping at the first row; nothing moves in an empty list.
pub open spec fn up_spec(len: nat, sel: Option<usize>) -> Option<usize> {
    if len == 0 {
        sel
    } else {
        match sel {
            Some(i) => if i > 0 { Some((i - 1) as usize) } else { Some(0) },
            None => Some(0),
        }
    }
}

/// One step down, wrapping from the last row to the first.
pub open spec fn wrap_down_spec(len: nat, sel: Option<usize>) -> Option<usize> {
    if len == 0 {
        sel
    } else {
        let i = match sel {
            Some(i) => i as nat,
            None => 0,
        };
        if i >= len - 1 { Some(0) } else { Some((i + 1) as usize) }
    }
}

/// One step up, wrapping from the first row to the last.
pub open spec fn wrap_up_spec(len: nat, sel: Option<usize>) -> Option<usize> {
    if len == 0 {
        sel
    } else {
        let i = match sel {
            Some(i) => i as nat,
            None => 0,
        };
        if i == 0 { Some((len - 1) as usize) } else { Some((i - 1) as usize) }
    }
}

/// `clamp_spec` computed.
pub fn clamp_selection(len: usize, sel: Option<usize>) -> (r: Option<usize>)
    ensures
        r == clamp_spec(len as nat, sel),
{
    if len == 0 {
        None
    } else {
        match sel {
            None => Some(0),
            Some(i) => Some(if i < len { i } else { len - 1 }),
        }
    }
}

/// `down_spec` computed.
pub fn step_down(len: usize, sel: Option<usize>) -> (r: Option<usize>)
    ensures
        r == down_spec(len as nat, sel),
{
    if len == 0 {
        return sel;
    }
    match sel {
        Some(i) => if i < len - 1 { Some(i + 1) } else { Some(len - 1) },
        None => Some(0),
    }
}

/// `up_spec` computed.
pub fn step_up(len: usize, sel: Option<usize>) -> (r: Option<usize>)
    ensures
        r == up_spec(len as nat, sel),
{
    if len == 0 {
        return sel;
    }
    match sel {
        Some(i) => if i > 0 { Some(i - 1) } else { Some(0) },
        None => Some(0),
    }
}

/// `wrap_down_spec` computed.
pub fn wrap_down(len: usize, sel: Option<usize>) -> (r: Option<usize>)
    ensures
        r == wrap_down_spec(len as nat, sel),
{
    if len == 0 {
        return sel;
    }
    let i = match sel {
        Some(i) => i,
        None => 0,
    };
    if i >= len - 1 { Some(0) } else { Some(i + 1) }
}

/// `wrap_up_spec` computed.
pub fn wrap_up(len: usize, sel: Option<usize>) -> (r: Option<usize>)
    ensures
        r == wrap_up_spec(len as nat, sel),
{
    if len == 0 {
        return sel;
    }
    let i = match sel {
        Some(i) => i,
        None => 0,
    };
    if i == 0 { Some(len - 1) } else { Some(i - 1) }
}

/// After a step in a non-empty list the highlighted row is inside the list.
pub proof fn law_steps_stay_in_range(len: nat, sel: Option<usize>)
    requires
        len > 0,
        len <= usize::MAX,
    ensures
        down_spec(len, sel) matches Some(i) && i < len,
        (sel matches Some(j) ==> j < len) ==> (up_spec(len, sel) matches Some(i) && i < len),
        clamp_spec(len, sel) matches Some(i) && i < len,
        wrap_down_spec(len, sel) matches Some(i) && i < len,
{
}

/// Wrapping navigation is reversible: a step down then a step up gives back
/// any row of the list, and so does a step up then a step down.
pub proof fn law_wrap_steps_invert(len: nat, i: usize)
    requires
        i < len,
        len <= usize::MAX,
    ensures
        wrap_up_spec(len, wrap_down_spec(len, Some(i))) == Some(i),
        wrap_down_spec(len, wrap_up_spec(len, Some(i))) == Some(i),
{
}

/// Inside the list, a step down then a step up comes back, except from the
/// last row, where the step down stays put.
pub proof fn law_down_then_up(len: nat, i: usize)
    requires
        i + 1 < len,
        len <= usize::MAX,
    ensures
        up_spec(len, down_spec(len, Some(i))) == Some(i),
{
}

/// Clamping is idempotent: a valid selection is left as it is.
pub proof fn law_clamp_idempotent(len: nat, sel: Option<usize>)
    requires
        len <= usize::MAX,
    ensures
        clamp_spec(len, clamp_spec(len, sel)) == clamp_spec(len, sel),
{
}

/// The selection of a list that has just been drawn: nothing for an empty
/// list, the first row when nothing or a row past the end was selected,
/// otherwise the same row.
pub open spec fn reset_spec(len: nat, sel: Option<usize>) -> Option<usize> {
    if len == 0 {
        None
    } else {
        match sel {
            None => Some(0),
            Some(i) => if i >= len { Some(0) } else { Some(i) },
        }
    }
}

/// The selection of a list that has just been drawn.
pub fn reset_selection(len: usize, sel: Option<usize>) -> (r: Option<usize>)
    ensures
        r == reset_spec(len as nat, sel),
{
    if len == 0 {
        None
    } else {
        match sel {
            None => Some(0),
            Some(i) => if i >= len { Some(0) } else { Some(i) },
        }
    }
}

} // verus!
