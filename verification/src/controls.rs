//! The Control-Binding Override for the embedded editor tool.
//!
//! The tool consumes a table mapping abstract editor actions to bindings: a
//! single trigger key with activation conditions. At startup the override
//! takes the default table, removes any existing binding for the "toggle
//! editor pause" action, and inserts one binding for it: a single designated
//! key, gated on the host not currently accepting free-text input. The
//! resulting table holds exactly one binding for that action.

use vstd::prelude::*;

verus! {

/// An abstract action of the embedded editor tool.
#[derive(Clone, Copy, PartialEq, Eq, Structural, Debug)]
pub enum Action {
    /// Toggle the editor's pause state.
    PlayPauseEditor,
    /// Focus the editor camera on the selected entity.
    FocusSelected,
}

/// A keyboard key, as the host's input service reports it.
#[derive(Clone, Copy, PartialEq, Eq, Structural, Debug)]
pub enum Key {
    R,
    E,
    F,
    Escape,
}

/// An activation condition attached to a binding.
#[derive(Clone, Copy, PartialEq, Eq, Structural, Debug)]
pub enum BindingCondition {
    /// The binding fires only when the host's "accepting free-text input"
    /// state equals the given value.
    ListeningForText(bool),
}

/// A binding: a single trigger key and its activation conditions.
#[derive(Debug)]
pub struct Binding {
    pub key: Key,
    pub conditions: Vec<BindingCondition>,
}

/// Whether one condition holds of the host's current input state.
pub open spec fn condition_satisfied(c: BindingCondition, listening_for_text: bool) -> bool {
    match c {
        BindingCondition::ListeningForText(required) => listening_for_text == required,
    }
}

/// Whether a binding fires: its key is the one pressed and every condition
/// holds of the host's current input state.
pub open spec fn binding_active_spec(b: Binding, key: Key, listening_for_text: bool) -> bool {
    &&& b.key == key
    &&& forall|i: int|
        0 <= i < b.conditions@.len() ==> condition_satisfied(
            #[trigger] b.conditions@[i],
            listening_for_text,
        )
}

/// Whether a binding fires for a pressed key under the host's current
/// input state.
pub fn binding_activates(b: &Binding, key: Key, listening_for_text: bool) -> (r: bool)
    ensures
        r == binding_active_spec(*b, key, listening_for_text),
{
    if b.key != key {
        return false;
    }
    let n = b.conditions.len();
    let mut i: usize = 0;
    while i < n
        invariant
            n == b.conditions@.len(),
            0 <= i <= n,
            b.key == key,
            forall|j: int|
                0 <= j < i ==> condition_satisfied(#[trigger] b.conditions@[j], listening_for_text),
        decreases n - i,
    {
        let satisfied = match b.conditions[i] {
            BindingCondition::ListeningForText(required) => listening_for_text == required,
        };
        if !satisfied {
            assert(!condition_satisfied(b.conditions@[i as int], listening_for_text));
            return false;
        }
        i = i + 1;
    }
    true
}

/// The table without any entry for one action, order otherwise kept.
pub open spec fn without_action(s: Seq<(Action, Binding)>, a: Action) -> Seq<(Action, Binding)>
    decreases s.len(),
{
    if s.len() == 0 {
        Seq::empty()
    } else if s.first().0 == a {
        without_action(s.drop_first(), a)
    } else {
        seq![s.first()] + without_action(s.drop_first(), a)
    }
}

/// How many entries a table holds for one action.
pub open spec fn count_action(s: Seq<(Action, Binding)>, a: Action) -> nat
    decreases s.len(),
{
    if s.len() == 0 {
        0
    } else {
        (if s.first().0 == a {
            1nat
        } else {
            0nat
        }) + count_action(s.drop_first(), a)
    }
}

/// A table with an entry for an action has one at some index.
pub proof fn lemma_count_action_pos(s: Seq<(Action, Binding)>, a: Action)
    requires
        count_action(s, a) >= 1,
    ensures
        exists|i: int| 0 <= i < s.len() && (#[trigger] s[i]).0 == a,
    decreases s.len(),
{
    if s.first().0 == a {
        assert((s[0]).0 == a);
    } else {
        lemma_count_action_pos(s.drop_first(), a);
        let i = choose|i: int| 0 <= i < s.drop_first().len() && (#[trigger] s.drop_first()[i]).0
            == a;
        assert((s[i + 1]).0 == a);
    }
}

/// Whether a table triggers an action: some entry for the action has its
/// binding fire under the pressed key and the host's input state.
pub open spec fn action_triggered_spec(
    s: Seq<(Action, Binding)>,
    action: Action,
    key: Key,
    listening_for_text: bool,
) -> bool {
    exists|i: int|
        0 <= i < s.len() && (#[trigger] s[i]).0 == action && binding_active_spec(
            s[i].1,
            key,
            listening_for_text,
        )
}

/// The editor tool's binding table: entries of action and binding, in order.
#[derive(Debug)]
pub struct EditorControls {
    pub bindings: Vec<(Action, Binding)>,
}

impl EditorControls {
    /// The tool's default binding table: the pause toggle on its default key
    /// `E` (gated on not listening for text), and focusing the selection on
    /// `F`.
    pub fn default_bindings() -> (r: EditorControls)
        ensures
            r.bindings@.len() == 2,
            r.bindings@[0].0 == Action::PlayPauseEditor,
            r.bindings@[0].1.key == Key::E,
            r.bindings@[0].1.conditions@ =~= seq![BindingCondition::ListeningForText(false)],
            r.bindings@[1].0 == Action::FocusSelected,
            r.bindings@[1].1.key == Key::F,
            r.bindings@[1].1.conditions@ =~= Seq::<BindingCondition>::empty(),
    {
        let mut pause_conditions: Vec<BindingCondition> = Vec::new();
        pause_conditions.push(BindingCondition::ListeningForText(false));
        let focus_conditions: Vec<BindingCondition> = Vec::new();
        let mut bindings: Vec<(Action, Binding)> = Vec::new();
        bindings.push(
            (Action::PlayPauseEditor, Binding { key: Key::E, conditions: pause_conditions }),
        );
        bindings.push(
            (Action::FocusSelected, Binding { key: Key::F, conditions: focus_conditions }),
        );
        EditorControls { bindings }
    }

    /// Remove every entry for `action`, keeping the rest in order.
    pub fn unbind(&mut self, action: Action)
        ensures
            final(self).bindings@ =~= without_action(old(self).bindings@, action),
    {
        let mut i: usize = 0;
        proof {
            assert(self.bindings@.skip(0) =~= self.bindings@);
            assert(self.bindings@.take(0) + without_action(self.bindings@, action)
                =~= without_action(self.bindings@, action));
        }
        while i < self.bindings.len()
            invariant
                0 <= i <= self.bindings@.len(),
                forall|j: int| 0 <= j < i ==> (#[trigger] self.bindings@[j]).0 != action,
                without_action(old(self).bindings@, action) =~= self.bindings@.take(i as int)
                    + without_action(self.bindings@.skip(i as int), action),
            decreases self.bindings@.len() - i,
        {
            let ghost cur = self.bindings@;
            proof {
                assert(cur.skip(i as int).first() == cur[i as int]);
                assert(cur.skip(i as int).drop_first() =~= cur.skip(i as int + 1));
            }
            let matches_action = {
                let p = &self.bindings[i];
                p.0 == action
            };
            if matches_action {
                self.bindings.remove(i);
                proof {
                    assert(self.bindings@.take(i as int) =~= cur.take(i as int));
                    assert(self.bindings@.skip(i as int) =~= cur.skip(i as int + 1));
                }
            } else {
                proof {
                    assert(cur.take(i as int).push(cur[i as int]) =~= cur.take(i as int + 1));
                    assert(cur.take(i as int) + (seq![cur[i as int]] + without_action(
                        cur.skip(i as int + 1),
                        action,
                    )) =~= cur.take(i as int + 1) + without_action(cur.skip(i as int + 1), action));
                }
                i = i + 1;
            }
        }
        proof {
            assert(self.bindings@.skip(i as int) =~= Seq::<(Action, Binding)>::empty());
            assert(self.bindings@.take(i as int) =~= self.bindings@);
        }
    }

    /// Append an entry binding `action`.
    pub fn insert(&mut self, action: Action, binding: Binding)
        ensures
            final(self).bindings@ =~= old(self).bindings@.push((action, binding)),
    {
        self.bindings.push((action, binding));
    }
}

/// The single-key binding the override installs for the pause toggle:
/// `Escape`, gated on the host not accepting free-text input.
pub open spec fn pause_override_binding(b: Binding) -> bool {
    &&& b.key == Key::Escape
    &&& b.conditions@ =~= seq![BindingCondition::ListeningForText(false)]
}

/// No action maps to two triggers at once: every action has at most one
/// entry in the table.
pub open spec fn one_binding_per_action(s: Seq<(Action, Binding)>) -> bool {
    forall|a: Action| count_action(s, a) <= 1
}

/// The override invariant: exactly one entry binds the pause toggle, and it
/// is the designated single-key binding.
pub open spec fn is_overridden_table(s: Seq<(Action, Binding)>) -> bool {
    &&& count_action(s, Action::PlayPauseEditor) == 1
    &&& forall|i: int|
        0 <= i < s.len() && (#[trigger] s[i]).0 == Action::PlayPauseEditor
            ==> pause_override_binding(s[i].1)
}

/// Control-Binding Override: start from the default table, remove any
/// existing binding for the editor pause toggle, and insert the single
/// designated key for it, gated on the host not currently accepting
/// free-text input. The host adopts the result for the life of the run.
pub fn editor_controls() -> (r: EditorControls)
    ensures
        is_overridden_table(r.bindings@),
        one_binding_per_action(r.bindings@),
        r.bindings@.len() == 2,
        r.bindings@[0].0 == Action::FocusSelected,
        r.bindings@[0].1.key == Key::F,
        r.bindings@[0].1.conditions@ =~= Seq::<BindingCondition>::empty(),
        r.bindings@[1].0 == Action::PlayPauseEditor,
        pause_override_binding(r.bindings@[1].1),
{
    let mut controls = EditorControls::default_bindings();
    let ghost d = controls.bindings@;
    controls.unbind(Action::PlayPauseEditor);
    proof {
        assert(d.drop_first() =~= seq![d[1]]);
        assert(d.drop_first().drop_first() =~= Seq::<(Action, Binding)>::empty());
        assert(without_action(d.drop_first().drop_first(), Action::PlayPauseEditor)
            =~= Seq::<(Action, Binding)>::empty());
        assert(without_action(d.drop_first(), Action::PlayPauseEditor) =~= seq![d[1]]);
        assert(without_action(d, Action::PlayPauseEditor) =~= seq![d[1]]);
        assert(controls.bindings@ =~= seq![d[1]]);
    }
    let mut conditions: Vec<BindingCondition> = Vec::new();
    conditions.push(BindingCondition::ListeningForText(false));
    controls.insert(Action::PlayPauseEditor, Binding { key: Key::Escape, conditions });
    proof {
        let r = controls.bindings@;
        assert(r.drop_first() =~= seq![r[1]]);
        assert(r.drop_first().drop_first() =~= Seq::<(Action, Binding)>::empty());
        assert(count_action(r.drop_first().drop_first(), Action::PlayPauseEditor) == 0);
        assert(count_action(r.drop_first(), Action::PlayPauseEditor) == 1);
        assert(count_action(r, Action::PlayPauseEditor) == 1);
        assert forall|a: Action| count_action(r, a) <= 1 by {
            assert(count_action(r.drop_first().drop_first(), a) == 0);
            assert(count_action(r.drop_first(), a) == (if r[1].0 == a {
                1nat
            } else {
                0nat
            }));
        };
    }
    controls
}

/// Whether the table triggers an action this frame, given the pressed key
/// and whether the host is accepting free-text input.
pub fn action_triggered(
    controls: &EditorControls,
    action: Action,
    key: Key,
    listening_for_text: bool,
) -> (r: bool)
    ensures
        r == action_triggered_spec(controls.bindings@, action, key, listening_for_text),
{
    let n = controls.bindings.len();
    let mut i: usize = 0;
    while i < n
        invariant
            n == controls.bindings@.len(),
            0 <= i <= n,
            forall|j: int|
                0 <= j < i ==> !((#[trigger] controls.bindings@[j]).0 == action
                    && binding_active_spec(controls.bindings@[j].1, key, listening_for_text)),
        decreases n - i,
    {
        let p = &controls.bindings[i];
        if p.0 == action {
            if binding_activates(&p.1, key, listening_for_text) {
                assert((controls.bindings@[i as int]).0 == action && binding_active_spec(
                    controls.bindings@[i as int].1,
                    key,
                    listening_for_text,
                ));
                return true;
            }
        }
        i = i + 1;
    }
    false
}

/// Condition gating law: in an overridden table, the editor pause toggle
/// triggers exactly when its designated key is pressed while the host is not
/// accepting free-text input; while free-text input is active, the key
/// produces no effect.
pub proof fn lemma_pause_toggle_gated(
    s: Seq<(Action, Binding)>,
    key: Key,
    listening_for_text: bool,
)
    requires
        is_overridden_table(s),
    ensures
        action_triggered_spec(s, Action::PlayPauseEditor, key, listening_for_text) <==> (key
            == Key::Escape && !listening_for_text),
{
    if action_triggered_spec(s, Action::PlayPauseEditor, key, listening_for_text) {
        let i = choose|i: int|
            0 <= i < s.len() && (#[trigger] s[i]).0 == Action::PlayPauseEditor
                && binding_active_spec(s[i].1, key, listening_for_text);
        assert(pause_override_binding(s[i].1));
        assert(condition_satisfied(
            s[i].1.conditions@[0],
            listening_for_text,
        ));
    }
    if key == Key::Escape && !listening_for_text {
        lemma_count_action_pos(s, Action::PlayPauseEditor);
        let i = choose|i: int| 0 <= i < s.len() && (#[trigger] s[i]).0 == Action::PlayPauseEditor;
        assert(pause_override_binding(s[i].1));
        assert(binding_active_spec(s[i].1, key, listening_for_text)) by {
            assert forall|j: int| 0 <= j < s[i].1.conditions@.len() implies condition_satisfied(
                #[trigger] s[i].1.conditions@[j],
                listening_for_text,
            ) by {
                assert(s[i].1.conditions@[j] == BindingCondition::ListeningForText(false));
            };
        };
    }
}

} // verus!
