use vstd::prelude::*;

verus! {

/// How the extraction root is reshaped once every entry is written.
#[derive(Clone, Copy, Debug, PartialEq, Eq, Structural)]
pub enum Layout {
    /// The root only wraps directories: they move up beside it and the root
    /// is removed.
    MergeUp,
    /// The root holds a file at its top: it is renamed after the archive.
    Rename,
}

/// What to do before moving something onto a path that may be taken.
#[derive(Clone, Copy, Debug, PartialEq, Eq, Structural)]
pub enum Placement {
    /// The path is free: move onto it.
    Move,
    /// The path is taken and overwriting is allowed: remove what is there
    /// (recursively), then move.
    ClearThenMove,
    /// The path is taken and overwriting is not allowed: stop.
    Collision,
}

/// Where a reconciliation stands.
#[derive(Clone, Copy, Debug, PartialEq, Eq, Structural)]
pub enum Stage {
    Created,
    Inspected(Layout),
    Done(Layout),
    Failed,
}

/// Every direct child of the root is a directory (vacuously so for an
/// empty root).
pub open spec fn all_directories(children_are_dirs: Seq<bool>) -> bool {
    forall|i: int| 0 <= i < children_are_dirs.len() ==> #[trigger] children_are_dirs[i]
}

pub open spec fn layout_for(children_are_dirs: Seq<bool>) -> Layout {
    if all_directories(children_are_dirs) {
        Layout::MergeUp
    } else {
        Layout::Rename
    }
}

pub open spec fn placement_for(target_exists: bool, force: bool) -> Placement {
    if !target_exists {
        Placement::Move
    } else if force {
        Placement::ClearThenMove
    } else {
        Placement::Collision
    }
}

/// Chooses the layout from the kinds of the root's direct children.
pub fn choose_layout(children_are_dirs: &[bool]) -> (r: Layout)
    ensures
        r == layout_for(children_are_dirs@),
{
    let mut i: usize = 0;
    while i < children_are_dirs.len()
        invariant
            i <= children_are_dirs@.len(),
            forall|j: int| 0 <= j < i ==> #[trigger] children_are_dirs@[j],
        decreases children_are_dirs@.len() - i,
    {
        if !children_are_dirs[i] {
            return Layout::Rename;
        }
        i = i + 1;
    }
    Layout::MergeUp
}

/// Decides how to treat the path that a move or rename will occupy.
pub fn placement(target_exists: bool, force: bool) -> (r: Placement)
    ensures
        r == placement_for(target_exists, force),
{
    if !target_exists {
        Placement::Move
    } else if force {
        Placement::ClearThenMove
    } else {
        Placement::Collision
    }
}

/// The reshaping of one extraction root: inspected once, then each move
/// or the rename is placed, then it is done; a collision ends it.
pub struct Reconciler {
    force: bool,
    stage: Stage,
}

impl Reconciler {
    pub closed spec fn stage(&self) -> Stage {
        self.stage
    }

    pub closed spec fn force(&self) -> bool {
        self.force
    }

    pub fn new(force: bool) -> (r: Reconciler)
        ensures
            r.stage() == Stage::Created,
            r.force() == force,
    {
        Reconciler { force, stage: Stage::Created }
    }

    /// Takes in the kinds of the root's direct children and fixes the layout.
    pub fn inspect(&mut self, children_are_dirs: &[bool]) -> (r: Layout)
        requires
            old(self).stage() == Stage::Created,
        ensures
            r == layout_for(children_are_dirs@),
            final(self).stage() == Stage::Inspected(r),
            final(self).force() == old(self).force(),
    {
        let layout = choose_layout(children_are_dirs);
        self.stage = Stage::Inspected(layout);
        layout
    }

    /// Places one move (or the rename) onto a path that may be taken; a
    /// collision fails the reconciliation.
    pub fn place(&mut self, target_exists: bool) -> (r: Placement)
        requires
            old(self).stage() is Inspected,
        ensures
            r == placement_for(target_exists, old(self).force()),
            final(self).force() == old(self).force(),
            final(self).stage() == (if r == Placement::Collision {
                Stage::Failed
            } else {
                old(self).stage()
            }),
    {
        let p = placement(target_exists, self.force);
        if p == Placement::Collision {
            self.stage = Stage::Failed;
        }
        p
    }

    /// Records that every move (or the rename) has been made.
    pub fn finish(&mut self) -> (r: Layout)
        requires
            old(self).stage() is Inspected,
        ensures
            old(self).stage() == Stage::Inspected(r),
            final(self).stage() == Stage::Done(r),
            final(self).force() == old(self).force(),
    {
        let layout = match self.stage {
            Stage::Inspected(l) => l,
            _ => Layout::Rename,
        };
        self.stage = Stage::Done(layout);
        layout
    }
}

} // verus!
