use vstd::prelude::*;

verus! {

/// The list of library paths the operator has added, and which of them is selected.
pub struct DLLManager {
    dlls: Vec<String>,
    selected: Option<usize>,
}

impl DLLManager {
    /// The library paths, in the order they were added.
    pub closed spec fn paths(&self) -> Seq<String> {
        self.dlls@
    }

    /// The selected position in `paths()`, if any.
    pub closed spec fn selection(&self) -> Option<usize> {
        self.selected
    }

    /// A selection always points into the list.
    pub open spec fn wf(&self) -> bool {
        match self.selection() {
            Some(i) => i < self.paths().len(),
            None => true,
        }
    }

    /// An empty list with nothing selected.
    pub fn new() -> (r: Self)
        ensures
            r.wf(),
            r.paths() == Seq::<String>::empty(),
            r.selection() is None,
    {
        DLLManager { dlls: Vec::new(), selected: None }
    }

    /// Appends `path` to the end of the list; the selection is kept.
    pub fn add(&mut self, path: String)
        ensures
            old(self).wf() ==> final(self).wf(),
            final(self).paths() == old(self).paths().push(path),
            final(self).selection() == old(self).selection(),
    {
        self.dlls.push(path);
    }

    /// Removes the entry at `index` when it exists, and keeps the selection on the same
    /// entry: a selection of the removed entry is cleared, one after it moves down by one.
    /// An index past the end changes nothing.
    pub fn remove(&mut self, index: usize)
        ensures
            old(self).wf() ==> final(self).wf(),
            index >= old(self).paths().len() ==> *final(self) == *old(self),
            index < old(self).paths().len() ==> {
                &&& final(self).paths() == old(self).paths().remove(index as int)
                &&& final(self).selection() == shifted_selection(old(self).selection(), index)
            },
    {
        if index < self.dlls.len() {
            self.dlls.remove(index);
            if let Some(selected_idx) = self.selected {
                if selected_idx == index {
                    self.selected = None;
                } else if selected_idx > index {
                    self.selected = Some(selected_idx - 1);
                }
            }
        }
    }

    /// The library paths, in the order they were added.
    pub fn get_dlls(&self) -> (r: &Vec<String>)
        ensures
            r@ == self.paths(),
    {
        &self.dlls
    }

    /// Sets the selection; `None` clears it. Any index is taken; one past the end leaves
    /// the manager without a path to report until the selection changes.
    pub fn select(&mut self, index: Option<usize>)
        ensures
            final(self).paths() == old(self).paths(),
            final(self).selection() == index,
    {
        self.selected = index;
    }

    /// The selected position, if any.
    pub fn selected_dll(&self) -> (r: Option<usize>)
        ensures
            r == self.selection(),
    {
        self.selected
    }

    /// A copy of the selected path, if any; the selection must point into the list.
    pub fn selected_path(&self) -> (r: Option<String>)
        requires
            self.wf(),
        ensures
            match self.selection() {
                Some(i) => r == Some(self.paths()[i as int]),
                None => r is None,
            },
    {
        match self.selected {
            Some(i) => Some(self.dlls[i].clone()),
            None => None,
        }
    }
}

/// Where a selection ends up after the entry at `removed` leaves the list.
pub open spec fn shifted_selection(sel: Option<usize>, removed: usize) -> Option<usize> {
    match sel {
        Some(s) => if s == removed {
            None
        } else if s > removed {
            Some((s - 1) as usize)
        } else {
            Some(s)
        },
        None => None,
    }
}

} // verus!
