use vstd::prelude::*;

use crate::text::text_eq;

verus! {

/// A child node of the state machine, with the callbacks it implements.
pub struct StateNode<N> {
    /// The node's name, by which the state is switched to.
    pub name: String,
    /// The node itself.
    pub node: N,
    /// The node is in the `state` group.
    pub in_state_group: bool,
    pub has_enter: bool,
    pub has_exit: bool,
    pub has_re_enter: bool,
    pub has_update: bool,
    pub has_handle_input: bool,
}

/// A deferred call the engine must make on a state node, given by its
/// index in the machine's state table.
#[derive(Clone, Copy, Debug, PartialEq, Eq, Structural)]
pub enum StateCall {
    Enter(usize),
    Exit(usize),
    ReEnter(usize),
}

/// An enemy's state machine over named state nodes.
pub struct EnemyStateMachine<N> {
    /// The states, each name once.
    pub states: Vec<StateNode<N>>,
    /// Index of the current state.
    pub current_state: Option<usize>,
    /// Index of the state left last, if it had an `exit` callback.
    pub prev_state: Option<usize>,
}

/// Some state in `states` is named `name`.
pub open spec fn spec_names_state<N>(states: Seq<StateNode<N>>, name: Seq<char>) -> bool {
    exists|i: int| 0 <= i < states.len() && #[trigger] states[i].name@ == name
}

/// The calls a state's callback makes when `has_callback`: just `call`.
pub open spec fn spec_call_if(has_callback: bool, call: StateCall) -> Seq<StateCall> {
    if has_callback {
        seq![call]
    } else {
        Seq::empty()
    }
}

/// What a switch to the state named `name` does in a machine with
/// `states`, current state `cur` and previous state `prev`, relating it to
/// the new current state `new_cur`, the new previous state `new_prev` and
/// the returned `calls`: an unknown name changes nothing; the current name
/// re-enters the current state; any other name exits the current state
/// (remembering it as the previous one when it has an `exit` callback) and
/// enters the state with that name.
pub open spec fn spec_switched<N>(
    states: Seq<StateNode<N>>,
    cur: Option<usize>,
    prev: Option<usize>,
    name: Seq<char>,
    new_cur: Option<usize>,
    new_prev: Option<usize>,
    calls: Seq<StateCall>,
) -> bool {
    let cur_name = match cur {
        Some(c) => states[c as int].name@,
        None => Seq::empty(),
    };
    if !spec_names_state(states, name) {
        new_cur == cur && new_prev == prev && calls == Seq::<StateCall>::empty()
    } else if name == cur_name {
        &&& new_cur == cur
        &&& new_prev == prev
        &&& calls == match cur {
            Some(c) => spec_call_if(states[c as int].has_re_enter, StateCall::ReEnter(c)),
            None => Seq::<StateCall>::empty(),
        }
    } else {
        let exit_calls = match cur {
            Some(c) => spec_call_if(states[c as int].has_exit, StateCall::Exit(c)),
            None => Seq::<StateCall>::empty(),
        };
        &&& new_prev == match cur {
            Some(c) => if states[c as int].has_exit {
                Some(c)
            } else {
                prev
            },
            None => prev,
        }
        &&& new_cur matches Some(t) && t < states.len() && states[t as int].name@ == name
            && calls == exit_calls + spec_call_if(states[t as int].has_enter, StateCall::Enter(t))
    }
}

/// `states` with `child` added: it takes the place of the state with its
/// name, or joins at the end when there is none.
pub open spec fn spec_insert_state<N>(states: Seq<StateNode<N>>, child: StateNode<N>) -> Seq<
    StateNode<N>,
> {
    if spec_names_state(states, child.name@) {
        states.update(
            choose|i: int| 0 <= i < states.len() && #[trigger] states[i].name@ == child.name@,
            child,
        )
    } else {
        states.push(child)
    }
}

/// `states` after adding, in order, those of `children` that are in the
/// `state` group.
pub open spec fn spec_register<N>(states: Seq<StateNode<N>>, children: Seq<StateNode<N>>) -> Seq<
    StateNode<N>,
>
    decreases children.len(),
{
    if children.len() == 0 {
        states
    } else {
        let s = spec_register(states, children.drop_last());
        if children.last().in_state_group {
            spec_insert_state(s, children.last())
        } else {
            s
        }
    }
}

impl<N> EnemyStateMachine<N> {
    /// Every name occurs once and the indices point into the table.
    pub open spec fn wf(self) -> bool {
        &&& forall|i: int, j: int|
            0 <= i < j < self.states@.len() ==> #[trigger] self.states@[i].name@
                != #[trigger] self.states@[j].name@
        &&& self.current_state matches Some(c) ==> c < self.states@.len()
        &&& self.prev_state matches Some(p) ==> p < self.states@.len()
    }

    /// Some state is named `name`.
    pub open spec fn spec_has(self, name: Seq<char>) -> bool {
        spec_names_state(self.states@, name)
    }

    /// The name of the current state, or the empty name.
    pub open spec fn spec_current_name(self) -> Seq<char> {
        match self.current_state {
            Some(c) => self.states@[c as int].name@,
            None => Seq::empty(),
        }
    }

    /// A machine with no states.
    pub fn new() -> (m: Self)
        ensures
            m.states@.len() == 0,
            m.current_state is None,
            m.prev_state is None,
            m.wf(),
    {
        EnemyStateMachine { states: Vec::new(), current_state: None, prev_state: None }
    }

    /// The index of the state named `name`, if there is one.
    pub fn find(&self, name: &str) -> (r: Option<usize>)
        ensures
            r matches Some(i) ==> i < self.states@.len() && self.states@[i as int].name@ == name@,
            r is None ==> !self.spec_has(name@),
    {
        let n = self.states.len();
        let mut i: usize = 0;
        while i < n
            invariant
                n == self.states@.len(),
                i <= n,
                forall|k: int| 0 <= k < i ==> self.states@[k].name@ != name@,
            decreases n - i,
        {
            if text_eq(self.states[i].name.as_str(), name) {
                return Some(i);
            }
            i = i + 1;
        }
        None
    }

    /// The state node at `index`.
    pub fn node(&self, index: usize) -> (n: &N)
        requires
            index < self.states@.len(),
        ensures
            *n == self.states@[index as int].node,
    {
        &self.states[index].node
    }

    /// The name of the current state, or the empty name.
    pub fn get_current_state_name(&self) -> (s: String)
        requires
            self.wf(),
        ensures
            s@ == self.spec_current_name(),
    {
        match self.current_state {
            Some(c) => self.states[c].name.clone(),
            None => String::new(),
        }
    }

    /// Switches to the state named `state_name` and returns the calls the
    /// engine must make, in order. An unknown name changes nothing; the
    /// current name re-enters the current state; any other name leaves the
    /// current state (remembering it as the previous one when it has an
    /// `exit` callback) and enters the new one.
    pub fn change_state(&mut self, state_name: &str) -> (calls: Vec<StateCall>)
        requires
            old(self).wf(),
        ensures
            final(self).wf(),
            final(self).states@ == old(self).states@,
            spec_switched(
                old(self).states@,
                old(self).current_state,
                old(self).prev_state,
                state_name@,
                final(self).current_state,
                final(self).prev_state,
                calls@,
            ),
    {
        let mut calls: Vec<StateCall> = Vec::new();
        let target = self.find(state_name);
        match target {
            None => calls,
            Some(t) => {
                let current_name = self.get_current_state_name();
                if text_eq(state_name, current_name.as_str()) {
                    if let Some(c) = self.current_state {
                        if self.states[c].has_re_enter {
                            calls.push(StateCall::ReEnter(c));
                        }
                    }
                    return calls;
                }
                let ghost exit_calls = match self.current_state {
                    Some(c) => spec_call_if(self.states@[c as int].has_exit, StateCall::Exit(c)),
                    None => Seq::<StateCall>::empty(),
                };
                if let Some(c) = self.current_state {
                    if self.states[c].has_exit {
                        calls.push(StateCall::Exit(c));
                        self.prev_state = Some(c);
                    }
                }
                assert(calls@ =~= exit_calls);
                if self.states[t].has_enter {
                    calls.push(StateCall::Enter(t));
                }
                self.current_state = Some(t);
                assert(calls@ =~= exit_calls + spec_call_if(self.states@[t as int].has_enter, StateCall::Enter(t)));
                calls
            },
        }
    }

    /// Adds the children in the `state` group as states (a later child with
    /// the name of an earlier one takes its place), then switches to
    /// `init_state` unless it is empty; returns the calls that switch makes.
    pub fn setup(&mut self, children: Vec<StateNode<N>>, init_state: &str) -> (calls: Vec<StateCall>)
        requires
            old(self).wf(),
        ensures
            final(self).wf(),
            forall|k: int|
                #![trigger children@[k]]
                0 <= k < children@.len() && children@[k].in_state_group ==> exists|i: int|
                    0 <= i < final(self).states@.len() && #[trigger] final(self).states@[i].name@
                        == children@[k].name@,
            init_state@.len() > 0 && final(self).spec_has(init_state@)
                ==> final(self).spec_current_name() == init_state@,
            final(self).states@ == spec_register(old(self).states@, children@),
            init_state@.len() == 0 ==> {
                &&& final(self).current_state == old(self).current_state
                &&& final(self).prev_state == old(self).prev_state
                &&& calls@ == Seq::<StateCall>::empty()
            },
            init_state@.len() > 0 ==> spec_switched(
                final(self).states@,
                old(self).current_state,
                old(self).prev_state,
                init_state@,
                final(self).current_state,
                final(self).prev_state,
                calls@,
            ),
    {
        let ghost kids = children@;
        let mut rest = children;
        let n = rest.len();
        let mut i: usize = 0;
        while i < n
            invariant
                n == kids.len(),
                i <= n,
                rest@ == kids.skip(i as int),
                self.wf(),
                self.states@ == spec_register(old(self).states@, kids.take(i as int)),
                self.current_state == old(self).current_state,
                self.prev_state == old(self).prev_state,
                forall|k: int|
                    #![trigger kids[k]]
                    0 <= k < i && kids[k].in_state_group ==> exists|j: int|
                        0 <= j < self.states@.len() && #[trigger] self.states@[j].name@ == kids[k].name@,
            decreases n - i,
        {
            let child = rest.remove(0);
            proof {
                assert(kids.skip(i as int)[0] == kids[i as int]);
                assert(kids.skip(i as int).remove(0) =~= kids.skip(i + 1));
                assert(kids.take(i + 1).drop_last() =~= kids.take(i as int));
                assert(kids.take(i + 1).last() == kids[i as int]);
            }
            if child.in_state_group {
                self.insert_state(child);
            }
            i = i + 1;
        }
        assert(kids.take(n as int) =~= kids);
        let mut calls: Vec<StateCall> = Vec::new();
        if init_state.unicode_len() > 0 {
            calls = self.change_state(init_state);
        }
        calls
    }

    /// Adds `child` as a state, replacing a state of the same name.
    fn insert_state(&mut self, child: StateNode<N>)
        requires
            old(self).wf(),
        ensures
            final(self).wf(),
            final(self).states@ == spec_insert_state(old(self).states@, child),
            final(self).current_state == old(self).current_state,
            final(self).prev_state == old(self).prev_state,
            exists|j: int|
                0 <= j < final(self).states@.len() && final(self).states@[j].name@ == child.name@,
            forall|k: int|
                #![trigger old(self).states@[k]]
                0 <= k < old(self).states@.len() ==> exists|j: int|
                    0 <= j < final(self).states@.len() && #[trigger] final(self).states@[j].name@
                        == old(self).states@[k].name@,
    {
        let ghost name = child.name@;
        match self.find(child.name.as_str()) {
            Some(k) => {
                self.states.set(k, child);
                proof {
                    assert forall|a: int, b: int| 0 <= a < b < self.states@.len() implies #[trigger] self.states@[a].name@
                        != #[trigger] self.states@[b].name@ by {
                        assert(old(self).states@[a].name@ != old(self).states@[b].name@);
                    }
                    assert forall|a: int| #![trigger old(self).states@[a]] 0 <= a < old(self).states@.len() implies exists|j: int|
                        0 <= j < self.states@.len() && #[trigger] self.states@[j].name@
                            == old(self).states@[a].name@ by {
                        assert(self.states@[a].name@ == old(self).states@[a].name@);
                    }
                    assert(self.states@[k as int].name@ == name);
                    let w = choose|i: int|
                        0 <= i < old(self).states@.len() && #[trigger] old(self).states@[i].name@
                            == name;
                    assert(old(self).states@[k as int].name@ == name);
                    assert(spec_names_state(old(self).states@, name));
                    if w < k {
                        assert(old(self).states@[w].name@ != old(self).states@[k as int].name@);
                    } else if w > k {
                        assert(old(self).states@[k as int].name@ != old(self).states@[w].name@);
                    }
                    assert(w == k);
                }
            },
            None => {
                self.states.push(child);
                proof {
                    assert forall|a: int, b: int| 0 <= a < b < self.states@.len() implies #[trigger] self.states@[a].name@
                        != #[trigger] self.states@[b].name@ by {
                        if b < old(self).states@.len() {
                            assert(old(self).states@[a].name@ != old(self).states@[b].name@);
                        } else {
                            assert(old(self).states@[a].name@ != name);
                        }
                    }
                    let last = self.states@.len() - 1;
                    assert(self.states@[last].name@ == name);
                    assert forall|a: int| #![trigger old(self).states@[a]] 0 <= a < old(self).states@.len() implies exists|j: int|
                        0 <= j < self.states@.len() && #[trigger] self.states@[j].name@
                            == old(self).states@[a].name@ by {
                        assert(self.states@[a] == old(self).states@[a]);
                    }
                }
            },
        }
    }

    /// The state to call `update` on in a physics frame, if any.
    pub fn update_target(&self) -> (r: Option<usize>)
        ensures
            r == (match self.current_state {
                Some(c) => if c < self.states@.len() && self.states@[c as int].has_update {
                    Some(c)
                } else {
                    None
                },
                None => None,
            }),
    {
        match self.current_state {
            Some(c) => {
                if c < self.states.len() && self.states[c].has_update {
                    Some(c)
                } else {
                    None
                }
            },
            None => None,
        }
    }

    /// The state to hand unhandled input to, if any.
    pub fn input_target(&self) -> (r: Option<usize>)
        ensures
            r == (match self.current_state {
                Some(c) => if c < self.states@.len() && self.states@[c as int].has_handle_input {
                    Some(c)
                } else {
                    None
                },
                None => None,
            }),
    {
        match self.current_state {
            Some(c) => {
                if c < self.states.len() && self.states[c].has_handle_input {
                    Some(c)
                } else {
                    None
                }
            },
            None => None,
        }
    }
}

} // verus!
