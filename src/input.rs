//! Logical actions and their per-sample edge state.

use vstd::prelude::*;

verus! {

/// A logical input, independent of the key or button bound to it.
#[derive(Clone, Copy, Debug, PartialEq, Eq, Structural)]
pub enum Action {
    MoveForward,
    MoveBack,
    MoveLeft,
    MoveRight,
    Jump,
}

/// Whether an action is held, and whether it became held on the latest sample.
#[derive(Clone, Copy, Debug, PartialEq, Eq, Structural)]
pub struct ActionEdge {
    pub is_active: bool,
    pub became_active_this_tick: bool,
}

/// The edge of an action after one sample, given its edge before and whether it is held now.
pub open spec fn next_edge(prev: ActionEdge, present: bool) -> ActionEdge {
    ActionEdge { is_active: present, became_active_this_tick: present && !prev.is_active }
}

/// The edge of an action held for `n` further samples, starting from `start`.
pub open spec fn held_for(start: ActionEdge, n: nat) -> ActionEdge
    decreases n,
{
    if n == 0 {
        start
    } else {
        next_edge(held_for(start, (n - 1) as nat), true)
    }
}

/// Holding an action that was released yields a rising edge on the first sample only.
pub proof fn lemma_held_action_rises_once(start: ActionEdge, n: nat)
    requires
        !start.is_active,
        n >= 1,
    ensures
        held_for(start, n).is_active,
        held_for(start, n).became_active_this_tick == (n == 1),
    decreases n,
{
    if n > 1 {
        lemma_held_action_rises_once(start, (n - 1) as nat);
    } else {
        assert(held_for(start, 0) == start);
    }
}

/// A release followed by a press re-arms the rising edge.
pub proof fn lemma_release_rearms(prev: ActionEdge)
    ensures
        next_edge(next_edge(prev, false), true).became_active_this_tick,
        !next_edge(prev, false).is_active,
        !next_edge(prev, false).became_active_this_tick,
{
}

impl ActionEdge {
    pub fn released() -> (r: ActionEdge)
        ensures
            !r.is_active,
            !r.became_active_this_tick,
    {
        ActionEdge { is_active: false, became_active_this_tick: false }
    }
}

/// The edge table of every logical action.
#[derive(Clone, Copy, Debug, PartialEq, Eq, Structural)]
pub struct ActionState {
    pub move_forward: ActionEdge,
    pub move_back: ActionEdge,
    pub move_left: ActionEdge,
    pub move_right: ActionEdge,
    pub jump: ActionEdge,
}

/// Whether `a` occurs in `active`.
pub fn is_listed(active: &[Action], a: Action) -> (r: bool)
    ensures
        r == active@.contains(a),
{
    let mut i: usize = 0;
    while i < active.len()
        invariant
            i <= active@.len(),
            forall|j: int| 0 <= j < i ==> active@[j] != a,
        decreases active@.len() - i,
    {
        if active[i] == a {
            assert(active@[i as int] == a);
            return true;
        }
        i = i + 1;
    }
    false
}

impl ActionState {
    /// The edge of `a` in this table.
    pub open spec fn edge_of(&self, a: Action) -> ActionEdge {
        match a {
            Action::MoveForward => self.move_forward,
            Action::MoveBack => self.move_back,
            Action::MoveLeft => self.move_left,
            Action::MoveRight => self.move_right,
            Action::Jump => self.jump,
        }
    }

    /// A table in which no action is held.
    pub fn new() -> (r: ActionState)
        ensures
            forall|a: Action| !(#[trigger] r.edge_of(a)).is_active,
            forall|a: Action| !(#[trigger] r.edge_of(a)).became_active_this_tick,
    {
        ActionState {
            move_forward: ActionEdge::released(),
            move_back: ActionEdge::released(),
            move_left: ActionEdge::released(),
            move_right: ActionEdge::released(),
            jump: ActionEdge::released(),
        }
    }

    /// The edge of `a`.
    pub fn edge(&self, a: Action) -> (r: ActionEdge)
        ensures
            r == self.edge_of(a),
    {
        match a {
            Action::MoveForward => self.move_forward,
            Action::MoveBack => self.move_back,
            Action::MoveLeft => self.move_left,
            Action::MoveRight => self.move_right,
            Action::Jump => self.jump,
        }
    }

    /// Whether `a` is held.
    pub fn pressed(&self, a: Action) -> (r: bool)
        ensures
            r == self.edge_of(a).is_active,
    {
        self.edge(a).is_active
    }

    /// Whether `a` became held on the latest sample.
    pub fn just_pressed(&self, a: Action) -> (r: bool)
        ensures
            r == self.edge_of(a).became_active_this_tick,
    {
        self.edge(a).became_active_this_tick
    }

    /// Takes one input sample: `active` lists the actions held now.
    pub fn sample(&mut self, active: &[Action])
        ensures
            forall|a: Action|
                #[trigger] final(self).edge_of(a) == next_edge(old(self).edge_of(a), active@.contains(a)),
    {
        let forward = is_listed(active, Action::MoveForward);
        let back = is_listed(active, Action::MoveBack);
        let left = is_listed(active, Action::MoveLeft);
        let right = is_listed(active, Action::MoveRight);
        let jump = is_listed(active, Action::Jump);
        self.move_forward = ActionEdge {
            is_active: forward,
            became_active_this_tick: forward && !self.move_forward.is_active,
        };
        self.move_back = ActionEdge {
            is_active: back,
            became_active_this_tick: back && !self.move_back.is_active,
        };
        self.move_left = ActionEdge {
            is_active: left,
            became_active_this_tick: left && !self.move_left.is_active,
        };
        self.move_right = ActionEdge {
            is_active: right,
            became_active_this_tick: right && !self.move_right.is_active,
        };
        self.jump = ActionEdge {
            is_active: jump,
            became_active_this_tick: jump && !self.jump.is_active,
        };
    }
}

} // verus!
