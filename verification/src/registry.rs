//! The module registry as contracts see it: a sequence of slots, each
//! holding one loaded module or nothing, and the rules of the control
//! plane stated over it.
//!
//! A slot is filled when a module is loaded and emptied when it is
//! removed; it is never filled a second time, so the number of a slot
//! names one module for good.

use vstd::prelude::*;
use crate::config::ModuleConfig;
use crate::messages::{
    already_exists, not_found, unable_to_load, ConfigRef, ControlActionView, LoadOutcome,
    ResultView, StepView,
};

verus! {

/// A loaded module as contracts see it: its name, the executable module
/// and the configuration that its initialiser wrote.
pub ghost struct ModuleView<E> {
    pub name: Seq<char>,
    pub ee: E,
    pub config: ModuleConfig,
}

/// Whether slot `i` holds the module called `name`.
pub open spec fn holds<E>(slots: Seq<Option<ModuleView<E>>>, i: int, name: Seq<char>) -> bool {
    &&& 0 <= i < slots.len()
    &&& slots[i] is Some
    &&& slots[i]->0.name == name
}

/// Whether a module called `name` is registered.
pub open spec fn registered<E>(slots: Seq<Option<ModuleView<E>>>, name: Seq<char>) -> bool {
    exists|i: int| holds(slots, i, name)
}

/// The slot of the module called `name`, where one is registered.
pub open spec fn slot_of<E>(slots: Seq<Option<ModuleView<E>>>, name: Seq<char>) -> int {
    choose|i: int| holds(slots, i, name)
}

/// No two slots hold modules of one name.
pub open spec fn unique<E>(slots: Seq<Option<ModuleView<E>>>) -> bool {
    forall|i: int, j: int, name: Seq<char>|
        holds(slots, i, name) && holds(slots, j, name) ==> i == j
}

/// The names of the registered modules, in the order of their slots.
pub open spec fn names<E>(slots: Seq<Option<ModuleView<E>>>) -> Seq<Seq<char>>
    decreases slots.len(),
{
    if slots.len() == 0 {
        Seq::empty()
    } else {
        match slots.last() {
            Some(module) => names(slots.drop_last()).push(module.name),
            None => names(slots.drop_last()),
        }
    }
}

/// What a reference resolves to: the configuration in its slot, or
/// nothing where the slot is empty or was never filled.
pub open spec fn referent<E>(slots: Seq<Option<ModuleView<E>>>, reference: ConfigRef) -> Option<
    ModuleConfig,
> {
    if reference.slot < slots.len() && slots[reference.slot as int] is Some {
        Some(slots[reference.slot as int]->0.config)
    } else {
        None
    }
}

/// The first half of handling an action: the answer, where the registry
/// alone decides it, or the order to compile.
///
/// Loading a registered name is refused before anything is compiled.
pub open spec fn begin_model<E>(
    slots: Seq<Option<ModuleView<E>>>,
    action: ControlActionView,
) -> StepView {
    match action {
        ControlActionView::LoadBitcode(name, bytes) => if registered(slots, name) {
            StepView::Reply(ResultView::Failure(already_exists()))
        } else {
            StepView::Compile { name, bytes }
        },
        ControlActionView::GetModuleConfig(name) => if registered(slots, name) {
            StepView::Reply(
                ResultView::ModuleConfig(ConfigRef { slot: slot_of(slots, name) as usize }),
            )
        } else {
            StepView::Reply(ResultView::Failure(not_found()))
        },
        ControlActionView::GetModuleList => StepView::Reply(ResultView::ModuleList(names(slots))),
    }
}

/// The second half of a load: the answer and the registry after it.
///
/// The registry changes only where the name is free and the module was
/// compiled; it then gains one slot, at the end.
pub open spec fn load_model<E>(
    slots: Seq<Option<ModuleView<E>>>,
    name: Seq<char>,
    outcome: LoadOutcome<E>,
) -> (ResultView, Seq<Option<ModuleView<E>>>) {
    if registered(slots, name) {
        (ResultView::Failure(already_exists()), slots)
    } else {
        match outcome {
            LoadOutcome::CompileFailed => (ResultView::Failure(unable_to_load()), slots),
            LoadOutcome::Initialized { ee, config } => (
                ResultView::Success,
                slots.push(Some(ModuleView { name, ee, config })),
            ),
        }
    }
}

/// The registry after the module called `name` is removed: its slot is
/// emptied and every other slot stays as it is.
pub open spec fn remove_model<E>(slots: Seq<Option<ModuleView<E>>>, name: Seq<char>) -> Seq<
    Option<ModuleView<E>>,
> {
    if registered(slots, name) {
        slots.update(slot_of(slots, name), None)
    } else {
        slots
    }
}

/// Under `unique`, a slot that holds `name` is the slot of `name`.
pub proof fn lemma_slot_of<E>(slots: Seq<Option<ModuleView<E>>>, i: int, name: Seq<char>)
    requires
        unique(slots),
        holds(slots, i, name),
    ensures
        registered(slots, name),
        slot_of(slots, name) == i,
{
    assert(holds(slots, slot_of(slots, name), name));
}

/// How `names` grows with one more slot.
pub proof fn lemma_names_step<E>(slots: Seq<Option<ModuleView<E>>>, n: int)
    requires
        0 <= n < slots.len(),
    ensures
        names(slots.take(n + 1)) == match slots[n] {
            Some(module) => names(slots.take(n)).push(module.name),
            None => names(slots.take(n)),
        },
{
    assert(slots.take(n + 1).drop_last() =~= slots.take(n));
    assert(slots.take(n + 1).last() == slots[n]);
}

/// A name is listed exactly when it is registered.
pub proof fn lemma_names_registered<E>(slots: Seq<Option<ModuleView<E>>>, name: Seq<char>)
    ensures
        names(slots).contains(name) <==> registered(slots, name),
    decreases slots.len(),
{
    if slots.len() == 0 {
        assert(!names(slots).contains(name));
        assert(!registered(slots, name)) by {
            assert forall|i: int| !holds(slots, i, name) by {}
        }
    } else {
        let front = slots.drop_last();
        let last = slots.len() - 1;
        lemma_names_registered(front, name);
        if registered(slots, name) {
            let i = slot_of(slots, name);
            assert(holds(slots, i, name));
            if i < last {
                assert(holds(front, i, name));
                assert(names(front).contains(name));
                let k = choose|k: int| 0 <= k < names(front).len() && names(front)[k] == name;
                assert(names(slots)[k] == name);
            } else {
                let listed = names(slots);
                assert(listed[listed.len() - 1] == name);
            }
        }
        if names(slots).contains(name) {
            let listed = names(slots);
            let k = choose|k: int| 0 <= k < listed.len() && listed[k] == name;
            if k < names(front).len() {
                assert(names(front)[k] == name);
                assert(registered(front, name));
                let i = slot_of(front, name);
                assert(holds(front, i, name));
                assert(holds(slots, i, name));
            } else {
                assert(slots[last] is Some);
                assert(holds(slots, last, name));
            }
        }
    }
}

/// No name is listed twice.
pub proof fn lemma_names_distinct<E>(slots: Seq<Option<ModuleView<E>>>)
    requires
        unique(slots),
    ensures
        names(slots).no_duplicates(),
    decreases slots.len(),
{
    if slots.len() > 0 {
        let front = slots.drop_last();
        let last = slots.len() - 1;
        assert forall|i: int, j: int, name: Seq<char>|
            holds(front, i, name) && holds(front, j, name) implies i == j by {
            assert(holds(slots, i, name) && holds(slots, j, name));
        }
        lemma_names_distinct(front);
        match slots.last() {
            Some(module) => {
                lemma_names_registered(front, module.name);
                if names(front).contains(module.name) {
                    let i = slot_of(front, module.name);
                    assert(holds(front, i, module.name));
                    assert(holds(slots, i, module.name));
                    assert(holds(slots, last, module.name));
                }
                let listed = names(slots);
                assert forall|a: int, b: int|
                    0 <= a < listed.len() && 0 <= b < listed.len() && a != b implies listed[a]
                    != listed[b] by {
                    if a < names(front).len() && b < names(front).len() {
                        assert(names(front)[a] != names(front)[b]);
                    } else if a < names(front).len() {
                        assert(names(front)[a] == listed[a]);
                    } else {
                        assert(names(front)[b] == listed[b]);
                    }
                }
            },
            None => {},
        }
    }
}

/// A load keeps the registry free of double names.
pub proof fn lemma_load_unique<E>(
    slots: Seq<Option<ModuleView<E>>>,
    name: Seq<char>,
    outcome: LoadOutcome<E>,
)
    requires
        unique(slots),
    ensures
        unique(load_model(slots, name, outcome).1),
{
    let after = load_model(slots, name, outcome).1;
    if after != slots {
        assert forall|i: int, j: int, other: Seq<char>|
            holds(after, i, other) && holds(after, j, other) implies i == j by {
            if i < slots.len() {
                assert(holds(slots, i, other));
            }
            if j < slots.len() {
                assert(holds(slots, j, other));
            }
        }
    }
}

/// A removal keeps the registry free of double names.
pub proof fn lemma_remove_unique<E>(slots: Seq<Option<ModuleView<E>>>, name: Seq<char>)
    requires
        unique(slots),
    ensures
        unique(remove_model(slots, name)),
{
    let after = remove_model(slots, name);
    assert forall|i: int, j: int, other: Seq<char>|
        holds(after, i, other) && holds(after, j, other) implies i == j by {
        assert(holds(slots, i, other));
        assert(holds(slots, j, other));
    }
}

/// Loading one name twice. Where the name is free and the engine accepts
/// the bytes, the first load succeeds. The second is then refused as a
/// conflict, before anything is compiled and whatever a compilation would
/// have come to, and it leaves the registry as it was. The name is held
/// by exactly one slot.
pub proof fn law_second_load_conflicts<E>(
    slots: Seq<Option<ModuleView<E>>>,
    name: Seq<char>,
    bytes: Seq<u8>,
    first: LoadOutcome<E>,
    second: LoadOutcome<E>,
)
    requires
        unique(slots),
        !registered(slots, name),
        first is Initialized,
    ensures
        begin_model(slots, ControlActionView::LoadBitcode(name, bytes)) == (StepView::Compile {
            name,
            bytes,
        }),
        load_model(slots, name, first).0 == ResultView::Success,
        begin_model(
            load_model(slots, name, first).1,
            ControlActionView::LoadBitcode(name, bytes),
        ) == StepView::Reply(ResultView::Failure(already_exists())),
        load_model(load_model(slots, name, first).1, name, second) == (
            ResultView::Failure(already_exists()),
            load_model(slots, name, first).1,
        ),
        holds(load_model(slots, name, first).1, slots.len() as int, name),
        forall|i: int| #[trigger]
            holds(load_model(slots, name, first).1, i, name) ==> i == slots.len(),
{
    let after = load_model(slots, name, first).1;
    assert(holds(after, slots.len() as int, name));
    lemma_load_unique(slots, name, first);
}

/// Loading two different names, in this order or the other: where both
/// names are free and the engine accepts both, both loads succeed and a
/// list taken afterwards holds both names.
pub proof fn law_distinct_loads_both_listed<E>(
    slots: Seq<Option<ModuleView<E>>>,
    one: Seq<char>,
    other: Seq<char>,
    first: LoadOutcome<E>,
    second: LoadOutcome<E>,
)
    requires
        unique(slots),
        one != other,
        !registered(slots, one),
        !registered(slots, other),
        first is Initialized,
        second is Initialized,
    ensures
        load_model(slots, one, first).0 == ResultView::Success,
        load_model(load_model(slots, one, first).1, other, second).0 == ResultView::Success,
        ({
            let loaded = load_model(load_model(slots, one, first).1, other, second).1;
            &&& begin_model(loaded, ControlActionView::GetModuleList) == StepView::Reply(
                ResultView::ModuleList(names(loaded)),
            )
            &&& names(loaded).contains(one)
            &&& names(loaded).contains(other)
            &&& names(loaded).no_duplicates()
        }),
{
    let middle = load_model(slots, one, first).1;
    assert(holds(middle, slots.len() as int, one));
    assert(!registered(middle, other)) by {
        if registered(middle, other) {
            let i = slot_of(middle, other);
            assert(holds(middle, i, other));
            if i < slots.len() {
                assert(holds(slots, i, other));
            }
        }
    }
    let loaded = load_model(middle, other, second).1;
    assert(holds(loaded, slots.len() as int, one));
    assert(holds(loaded, slots.len() as int + 1, other));
    lemma_names_registered(loaded, one);
    lemma_names_registered(loaded, other);
    lemma_load_unique(slots, one, first);
    lemma_load_unique(middle, other, second);
    lemma_names_distinct(loaded);
}

/// Asking for the configuration of a name that is not registered is
/// answered with "not found", whatever the registry holds.
pub proof fn law_unregistered_not_found<E>(slots: Seq<Option<ModuleView<E>>>, name: Seq<char>)
    requires
        !registered(slots, name),
    ensures
        begin_model(slots, ControlActionView::GetModuleConfig(name)) == StepView::Reply(
            ResultView::Failure(not_found()),
        ),
{
}

/// The reference that is handed out for a registered name resolves to
/// the configuration that the module was registered with.
pub proof fn law_reference_resolves<E>(slots: Seq<Option<ModuleView<E>>>, name: Seq<char>)
    requires
        unique(slots),
        registered(slots, name),
        slots.len() <= usize::MAX,
    ensures
        begin_model(slots, ControlActionView::GetModuleConfig(name)) matches StepView::Reply(
            ResultView::ModuleConfig(reference),
        ) && referent(slots, reference) == Some(slots[slot_of(slots, name)]->0.config),
{
    assert(holds(slots, slot_of(slots, name), name));
}

/// A reference goes on resolving to the same configuration through any
/// later load, and through the removal of any other module.
pub proof fn law_reference_stable<E>(
    slots: Seq<Option<ModuleView<E>>>,
    reference: ConfigRef,
    name: Seq<char>,
    outcome: LoadOutcome<E>,
)
    requires
        unique(slots),
        referent(slots, reference) is Some,
    ensures
        referent(load_model(slots, name, outcome).1, reference) == referent(slots, reference),
        !holds(slots, reference.slot as int, name) ==> referent(
            remove_model(slots, name),
            reference,
        ) == referent(slots, reference),
{
    if registered(slots, name) {
        assert(holds(slots, slot_of(slots, name), name));
    }
}

/// Once a module is removed, a reference to its configuration dangles:
/// it resolves to nothing, also after later loads of other names, while
/// no slot is ever filled twice.
pub proof fn law_reference_dangles<E>(
    slots: Seq<Option<ModuleView<E>>>,
    name: Seq<char>,
    reference: ConfigRef,
)
    requires
        unique(slots),
        holds(slots, reference.slot as int, name),
    ensures
        referent(remove_model(slots, name), reference) is None,
        !registered(remove_model(slots, name), name),
        forall|later: Seq<char>, outcome: LoadOutcome<E>|
            referent(
                #[trigger] load_model(remove_model(slots, name), later, outcome).1,
                reference,
            ) is None,
{
    lemma_slot_of(slots, reference.slot as int, name);
    let after = remove_model(slots, name);
    assert(!registered(after, name)) by {
        if registered(after, name) {
            let i = slot_of(after, name);
            assert(holds(after, i, name));
            assert(holds(slots, i, name));
        }
    }
}

} // verus!
