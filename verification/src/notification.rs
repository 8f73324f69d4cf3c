//! The notification area: a fixed number of rows that scroll.

use vstd::prelude::*;
use std::collections::VecDeque;
use crate::message::Notice;

verus! {

/// The number of rows of the notification area.
pub const ROWS: usize = 10;

/// The rows of the notification area, oldest first. A row that was never
/// written is `None`.
#[derive(Debug)]
pub struct Notification {
    rows: VecDeque<Option<Notice>>,
}

impl View for Notification {
    type V = Seq<Option<Notice>>;

    closed spec fn view(&self) -> Seq<Option<Notice>> {
        self.rows@
    }
}

impl Notification {
    #[verifier::type_invariant]
    spec fn full(self) -> bool {
        self.rows@.len() == ROWS
    }

    /// Ten empty rows.
    pub fn new() -> (area: Notification)
        ensures
            area@.len() == ROWS,
            forall|i: int| 0 <= i < ROWS ==> area@[i] is None,
    {
        let mut rows: VecDeque<Option<Notice>> = VecDeque::with_capacity(ROWS);
        let mut i: usize = 0;
        while i < ROWS
            invariant
                i <= ROWS,
                rows@.len() == i,
                forall|j: int| 0 <= j < i ==> rows@[j] is None,
            decreases ROWS - i,
        {
            rows.push_back(None);
            i += 1;
        }
        Notification { rows }
    }

    /// Drops the oldest row and appends a new one.
    pub fn update(&mut self, notice: Notice)
        ensures
            final(self)@ == old(self)@.drop_first().push(Some(notice)),
            final(self)@.len() == ROWS,
    {
        proof {
            use_type_invariant(&*self);
        }
        broadcast use vstd::std_specs::vecdeque::axiom_spec_len;

        let mut rows: VecDeque<Option<Notice>> = VecDeque::with_capacity(ROWS);
        let mut i: usize = 1;
        while i < ROWS
            invariant
                1 <= i <= ROWS,
                self.rows@.len() == ROWS,
                rows@ == self.rows@.subrange(1, i as int),
            decreases ROWS - i,
        {
            let row = match &self.rows[i] {
                Some(kept) => Some(kept.clone()),
                None => None,
            };
            rows.push_back(row);
            i += 1;
        }
        rows.push_back(Some(notice));
        self.rows = rows;
    }

    /// The number of rows.
    pub fn len(&self) -> (n: usize)
        ensures
            n == ROWS,
            n == self@.len(),
    {
        proof {
            use_type_invariant(self);
        }
        ROWS
    }

    /// The row with index `i`, counted from the oldest.
    pub fn row(&self, i: usize) -> (row: Option<&Notice>)
        ensures
            match row {
                Some(notice) => i < ROWS && self@[i as int] == Some(*notice),
                None => i >= ROWS || self@[i as int] is None,
            },
    {
        proof {
            use_type_invariant(self);
        }
        broadcast use vstd::std_specs::vecdeque::axiom_spec_len;

        if i < ROWS {
            match &self.rows[i] {
                Some(notice) => Some(notice),
                None => None,
            }
        } else {
            None
        }
    }
}

impl Default for Notification {
    fn default() -> (area: Self)
        ensures
            area@.len() == ROWS,
            forall|i: int| 0 <= i < ROWS ==> area@[i] is None,
    {
        Notification::new()
    }
}

} // verus!
