use vstd::prelude::*;

verus! {

/// One connection profile: the name shown to the operator, the path of its
/// configuration file, and whether it is the profile the operator activated.
pub struct Connection {
    pub title: String,
    pub path: String,
    pub selected: bool,
}

/// A profile file found in the profile directory.
pub struct VpnFile {
    pub path: String,
    pub title: String,
}

impl Connection {
    pub fn new(selected: bool, title: &str, path: &str) -> (r: Self)
        ensures
            r.selected == selected,
            r.title@ == title@,
            r.path@ == path@,
    {
        Connection { selected, title: title.to_owned(), path: path.to_owned() }
    }

    /// A copy of this profile with the same title, path and flag.
    pub fn duplicate(&self) -> (r: Self)
        ensures
            r.selected == self.selected,
            r.title@ == self.title@,
            r.path@ == self.path@,
    {
        Connection { selected: self.selected, title: self.title.clone(), path: self.path.clone() }
    }
}

/// Cursor after moving forward once over `n` entries, wrapping after the last.
pub open spec fn next_index(h: Option<usize>, n: nat) -> Option<usize> {
    if n == 0 {
        h
    } else {
        match h {
            None => Some(0),
            Some(i) => if i + 1 >= n { Some(0) } else { Some((i + 1) as usize) },
        }
    }
}

/// Cursor after moving back once over `n` entries, wrapping before the first.
pub open spec fn previous_index(h: Option<usize>, n: nat) -> Option<usize> {
    if n == 0 {
        h
    } else {
        match h {
            None => Some((n - 1) as usize),
            Some(i) => if i == 0 || i >= n { Some((n - 1) as usize) } else { Some((i - 1) as usize) },
        }
    }
}

/// Cursor on the first entry, if there is one.
pub open spec fn first_index(h: Option<usize>, n: nat) -> Option<usize> {
    if n == 0 { h } else { Some(0) }
}

/// Cursor on the last entry, if there is one.
pub open spec fn last_index(h: Option<usize>, n: nat) -> Option<usize> {
    if n == 0 { h } else { Some((n - 1) as usize) }
}

/// Cursor after `k` forward moves.
pub open spec fn next_times(h: Option<usize>, n: nat, k: nat) -> Option<usize>
    decreases k,
{
    if k == 0 { h } else { next_index(next_times(h, n, (k - 1) as nat), n) }
}

/// The catalog of profiles with the operator's cursor (`highlighted`) and the
/// activated entry (`confirmed`).
pub struct ConnectionList {
    pub items: Vec<Connection>,
    pub highlighted: Option<usize>,
    pub confirmed: Option<usize>,
}

impl ConnectionList {
    pub open spec fn len(&self) -> nat {
        self.items@.len()
    }

    /// Indices are in range, and the `selected` flags mirror `confirmed`.
    pub open spec fn wf(&self) -> bool {
        &&& self.items@.len() <= usize::MAX
        &&& (self.highlighted matches Some(i) ==> i < self.items@.len())
        &&& (self.confirmed matches Some(i) ==> i < self.items@.len())
        &&& forall|j: int|
            0 <= j < self.items@.len() ==> #[trigger] self.items@[j].selected == (self.confirmed
                == Some(j as usize))
    }

    /// Builds the catalog from the profile files, in their order, with the
    /// cursor on the first entry (none when there is no entry) and nothing
    /// activated.
    pub fn new(files: Vec<VpnFile>) -> (r: Self)
        ensures
            r.wf(),
            r.highlighted == (if files@.len() == 0 { None } else { Some(0usize) }),
            r.confirmed is None,
            r.items@.len() == files@.len(),
            forall|j: int|
                0 <= j < files@.len() ==> {
                    &&& (#[trigger] r.items@[j]).title@ == files@[j].title@
                    &&& r.items@[j].path@ == files@[j].path@
                    &&& !r.items@[j].selected
                },
    {
        let mut items: Vec<Connection> = Vec::new();
        let mut k: usize = 0;
        while k < files.len()
            invariant
                k <= files@.len(),
                items@.len() == k,
                forall|j: int|
                    0 <= j < k ==> {
                        &&& (#[trigger] items@[j]).title@ == files@[j].title@
                        &&& items@[j].path@ == files@[j].path@
                        &&& !items@[j].selected
                    },
            decreases files@.len() - k,
        {
            let f = &files[k];
            items.push(Connection::new(false, f.title.as_str(), f.path.as_str()));
            k = k + 1;
        }
        let highlighted = if items.len() == 0 { None } else { Some(0) };
        ConnectionList { items, highlighted, confirmed: None }
    }

    /// Clears the cursor; the activated entry is kept.
    pub fn select_none(&mut self)
        requires
            old(self).wf(),
        ensures
            final(self).wf(),
            final(self).highlighted is None,
            final(self).confirmed == old(self).confirmed,
            final(self).items == old(self).items,
    {
        self.highlighted = None;
    }

    /// Moves the cursor to the next entry, wrapping after the last.
    pub fn select_next(&mut self)
        requires
            old(self).wf(),
        ensures
            final(self).wf(),
            final(self).highlighted == next_index(old(self).highlighted, old(self).len()),
            final(self).confirmed == old(self).confirmed,
            final(self).items == old(self).items,
    {
        let n = self.items.len();
        if n > 0 {
            self.highlighted = match self.highlighted {
                None => Some(0),
                Some(i) => if i + 1 >= n { Some(0) } else { Some(i + 1) },
            };
        }
    }

    /// Moves the cursor to the previous entry, wrapping before the first.
    pub fn select_previous(&mut self)
        requires
            old(self).wf(),
        ensures
            final(self).wf(),
            final(self).highlighted == previous_index(old(self).highlighted, old(self).len()),
            final(self).confirmed == old(self).confirmed,
            final(self).items == old(self).items,
    {
        let n = self.items.len();
        if n > 0 {
            self.highlighted = match self.highlighted {
                None => Some(n - 1),
                Some(i) => if i == 0 || i >= n { Some(n - 1) } else { Some(i - 1) },
            };
        }
    }

    /// Moves the cursor to the first entry.
    pub fn select_first(&mut self)
        requires
            old(self).wf(),
        ensures
            final(self).wf(),
            final(self).highlighted == first_index(old(self).highlighted, old(self).len()),
            final(self).confirmed == old(self).confirmed,
            final(self).items == old(self).items,
    {
        if self.items.len() > 0 {
            self.highlighted = Some(0);
        }
    }

    /// Moves the cursor to the last entry.
    pub fn select_last(&mut self)
        requires
            old(self).wf(),
        ensures
            final(self).wf(),
            final(self).highlighted == last_index(old(self).highlighted, old(self).len()),
            final(self).confirmed == old(self).confirmed,
            final(self).items == old(self).items,
    {
        let n = self.items.len();
        if n > 0 {
            self.highlighted = Some(n - 1);
        }
    }

    /// Activates the entry under the cursor: it becomes `confirmed` and the only
    /// entry whose `selected` flag is set. Without a cursor nothing changes.
    /// Returns the activated index.
    pub fn select_item(&mut self) -> (r: Option<usize>)
        requires
            old(self).wf(),
        ensures
            final(self).wf(),
            r == old(self).highlighted,
            final(self).highlighted == old(self).highlighted,
            final(self).items@.len() == old(self).items@.len(),
            forall|j: int|
                0 <= j < old(self).items@.len() ==> {
                    &&& (#[trigger] final(self).items@[j]).title == old(self).items@[j].title
                    &&& final(self).items@[j].path == old(self).items@[j].path
                },
            old(self).highlighted is None ==> *final(self) == *old(self),
            old(self).highlighted matches Some(i) ==> {
                &&& final(self).confirmed == Some(i)
                &&& forall|j: int|
                    0 <= j < final(self).items@.len() ==> #[trigger] final(self).items@[j].selected
                        == (j == i)
            },
    {
        match self.highlighted {
            None => None,
            Some(i) => {
                let n = self.items.len();
                let mut k: usize = 0;
                while k < n
                    invariant
                        n == self.items@.len(),
                        i < n,
                        k <= n,
                        self.highlighted == Some(i),
                        self.items@.len() == old(self).items@.len(),
                        forall|j: int|
                            0 <= j < n ==> {
                                &&& (#[trigger] self.items@[j]).title == old(self).items@[j].title
                                &&& self.items@[j].path == old(self).items@[j].path
                            },
                        forall|j: int|
                            0 <= j < k ==> #[trigger] self.items@[j].selected == (j == i),
                    decreases n - k,
                {
                    self.items[k].selected = k == i;
                    k = k + 1;
                }
                self.confirmed = Some(i);
                Some(i)
            },
        }
    }
}

/// From any cursor position on a non-empty catalog, `n` forward moves over
/// `n` entries bring the cursor back where it started.
pub proof fn lemma_next_wraps_around(i: usize, n: nat)
    requires
        1 <= n <= usize::MAX,
        i < n,
    ensures
        next_times(Some(i), n, n) == Some(i),
{
    lemma_next_times_offset(i, n, n);
}

proof fn lemma_next_times_offset(i: usize, n: nat, k: nat)
    requires
        1 <= n <= usize::MAX,
        i < n,
        k <= n,
    ensures
        next_times(Some(i), n, k) == if i + k < n { Some((i + k) as usize) } else { Some((i + k - n) as usize) },
    decreases k,
{
    if k > 0 {
        lemma_next_times_offset(i, n, (k - 1) as nat);
    }
}

/// A backward move followed by a forward move, or a forward move followed by a
/// backward move, leaves a cursor on a non-empty catalog where it was.
pub proof fn lemma_previous_next_cancel(i: usize, n: nat)
    requires
        1 <= n <= usize::MAX,
        i < n,
    ensures
        next_index(previous_index(Some(i), n), n) == Some(i),
        previous_index(next_index(Some(i), n), n) == Some(i),
{
}

} // verus!
