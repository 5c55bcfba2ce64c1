//! Key bindings: which key, under which modifiers, invokes which action.

use crate::actions::Action;
use crate::modifiers::{control_bit, Modifiers};
use vstd::prelude::*;
use vstd::string::StringExecFns;

verus! {

/// A rule that maps a trigger key, held under an exact set of modifiers, to an
/// action.
pub struct Binding {
    pub trigger: String,
    pub mods: Modifiers,
    pub action: Action,
}

/// What a binding says, with the trigger as a sequence of characters.
pub struct BindingRule {
    pub trigger: Seq<char>,
    pub mods: Modifiers,
    pub action: Action,
}

impl BindingRule {
    /// Whether this rule fires for `key` under `mods`: the key is the trigger
    /// and the modifier sets are equal.
    pub open spec fn fires(self, key: Seq<char>, mods: Modifiers) -> bool {
        self.trigger == key && self.mods == mods
    }
}

impl View for Binding {
    type V = BindingRule;

    open spec fn view(&self) -> BindingRule {
        BindingRule { trigger: self.trigger@, mods: self.mods, action: self.action }
    }
}

impl Binding {
    /// A binding of `trigger` under `mods` to `action`.
    pub fn new(trigger: &str, mods: Modifiers, action: Action) -> (binding: Binding)
        ensures
            binding@ == (BindingRule { trigger: trigger@, mods, action }),
    {
        Binding { trigger: String::from_str(trigger), mods, action }
    }

    /// Whether this binding fires for `trigger` under `mods`.
    pub fn is_triggered_by(&self, trigger: &String, mods: &Modifiers) -> (fired: bool)
        ensures
            fired == self@.fires(trigger@, *mods),
    {
        self.trigger == *trigger && self.mods == *mods
    }
}

/// The rules of a table of bindings, in the table's order.
pub open spec fn rules_of(table: Seq<Binding>) -> Seq<BindingRule> {
    table.map_values(|binding: Binding| binding@)
}

/// The action of the first rule of `rules` that fires for `key` under `mods`.
pub open spec fn resolve(rules: Seq<BindingRule>, key: Seq<char>, mods: Modifiers) -> Option<
    Action,
>
    decreases rules.len(),
{
    if rules.len() == 0 {
        None
    } else if rules[0].fires(key, mods) {
        Some(rules[0].action)
    } else {
        resolve(rules.drop_first(), key, mods)
    }
}

/// The declared bindings: Ctrl+Q closes the window, Ctrl+F toggles fullscreen.
pub open spec fn declared_rules() -> Seq<BindingRule> {
    seq![
        BindingRule {
            trigger: "Q"@,
            mods: Modifiers { bits: control_bit() },
            action: Action::CloseWindow,
        },
        BindingRule {
            trigger: "F"@,
            mods: Modifiers { bits: control_bit() },
            action: Action::ToggleFullscreen,
        },
    ]
}

/// The declared bindings, in priority order.
pub fn key_bindings() -> (table: Vec<Binding>)
    ensures
        rules_of(table@) == declared_rules(),
{
    let mut table: Vec<Binding> = Vec::new();
    table.push(Binding::new("Q", Modifiers::control(), Action::CloseWindow));
    table.push(Binding::new("F", Modifiers::control(), Action::ToggleFullscreen));
    assert(rules_of(table@) =~= declared_rules());
    table
}

/// The action that `table` binds to `key` under `mods`: that of the first
/// binding that fires, or none.
pub fn resolve_in(table: &Vec<Binding>, key: &String, mods: &Modifiers) -> (action: Option<Action>)
    ensures
        action == resolve(rules_of(table@), key@, *mods),
{
    let ghost rules = rules_of(table@);
    let mut i: usize = 0;
    assert(rules.skip(0) =~= rules);
    while i < table.len()
        invariant
            i <= table.len(),
            rules == rules_of(table@),
            resolve(rules, key@, *mods) == resolve(rules.skip(i as int), key@, *mods),
        decreases table.len() - i,
    {
        let ghost rest = rules.skip(i as int);
        assert(rest.len() > 0);
        assert(rest[0] == table@[i as int]@);
        assert(rest.drop_first() =~= rules.skip(i + 1));
        if table[i].is_triggered_by(key, mods) {
            return Some(table[i].action);
        }
        i += 1;
    }
    assert(rules.skip(i as int).len() == 0);
    None
}

/// A rule that fires, with no rule before it that fires, decides the
/// resolution; where no rule fires, nothing is resolved.
pub proof fn lemma_resolve_first_match(rules: Seq<BindingRule>, key: Seq<char>, mods: Modifiers)
    ensures
        forall|i: int|
            0 <= i < rules.len() && rules[i].fires(key, mods) && (forall|j: int|
                0 <= j < i ==> !rules[j].fires(key, mods)) ==> resolve(rules, key, mods) == Some(
                rules[i].action,
            ),
        resolve(rules, key, mods) is None <==> forall|i: int|
            0 <= i < rules.len() ==> !rules[i].fires(key, mods),
    decreases rules.len(),
{
    if rules.len() > 0 {
        let rest = rules.drop_first();
        lemma_resolve_first_match(rest, key, mods);
        assert(forall|i: int| 0 <= i < rest.len() ==> rest[i] == rules[i + 1]);
        if !rules[0].fires(key, mods) {
            assert forall|i: int|
                0 <= i < rules.len() && rules[i].fires(key, mods) && (forall|j: int|
                    0 <= j < i ==> !rules[j].fires(key, mods)) implies resolve(rules, key, mods)
                == Some(rules[i].action) by {
                assert(rest[i - 1].fires(key, mods));
                assert forall|j: int| 0 <= j < i - 1 implies !rest[j].fires(key, mods) by {
                    assert(!rules[j + 1].fires(key, mods));
                }
            }
            if resolve(rules, key, mods) is None {
                assert forall|i: int| 0 <= i < rules.len() implies !rules[i].fires(key, mods) by {
                    if i > 0 {
                        assert(!rest[i - 1].fires(key, mods));
                    }
                }
            }
        }
    }
}

/// Each declared binding resolves, on its own trigger and modifiers, to its
/// own action; a key and modifier set that no declared binding has resolves to
/// no action.
pub proof fn lemma_declared_bindings_resolve(key: Seq<char>, mods: Modifiers)
    ensures
        forall|i: int|
            0 <= i < declared_rules().len() ==> resolve(
                declared_rules(),
                #[trigger] declared_rules()[i].trigger,
                declared_rules()[i].mods,
            ) == Some(declared_rules()[i].action),
        (forall|i: int| 0 <= i < declared_rules().len() ==> !declared_rules()[i].fires(key, mods))
            ==> resolve(declared_rules(), key, mods) is None,
{
    reveal_strlit("Q");
    reveal_strlit("F");
    let rules = declared_rules();
    assert(rules[0].trigger[0] == 'Q' && rules[1].trigger[0] == 'F');
    assert(!rules[0].fires(rules[1].trigger, rules[1].mods));
    lemma_resolve_first_match(rules, rules[0].trigger, rules[0].mods);
    lemma_resolve_first_match(rules, rules[1].trigger, rules[1].mods);
    lemma_resolve_first_match(rules, key, mods);
}

} // verus!
