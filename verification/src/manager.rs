//! The module control plane: the one owner of the registry of loaded
//! modules.
//!
//! The actor that runs the control plane receives a message, asks the
//! manager what to do, does what only it can do (compile, send), and
//! comes back. The manager decides and keeps the registry; it never
//! blocks and never fails.

use std::sync::Arc;
use vstd::prelude::*;
use crate::config::ModuleConfig;
use crate::messages::{
    texts, ConfigRef, ControlAction, ControlActionView, LoadOutcome, ResultMessage, Step, StepView,
};
use crate::registry::{
    begin_model, holds, lemma_load_unique, lemma_names_step, lemma_remove_unique, lemma_slot_of,
    load_model, names, referent, registered, remove_model, slot_of, unique, ModuleView,
};

verus! {

/// A loaded module with the configuration that its initialiser wrote.
/// The registry owns it; nothing changes it after it is registered.
pub struct ModuleContext<E> {
    name: String,
    ee: E,
    config: Arc<ModuleConfig>,
}

impl<E> View for ModuleContext<E> {
    type V = ModuleView<E>;

    closed spec fn view(&self) -> ModuleView<E> {
        ModuleView { name: self.name@, ee: self.ee, config: *self.config }
    }
}

/// The control plane as contracts see it.
pub ghost struct ManagerView<E> {
    /// Whether the actor has been started.
    pub running: bool,
    /// The registry, slot by slot.
    pub slots: Seq<Option<ModuleView<E>>>,
}

/// The control plane: whether it runs, and the registry.
pub struct Manager<E> {
    running: bool,
    slots: Vec<Option<ModuleContext<E>>>,
}

/// One slot as contracts see it.
pub closed spec fn slot_view<E>(slot: Option<ModuleContext<E>>) -> Option<ModuleView<E>> {
    match slot {
        Some(module) => Some(module@),
        None => None,
    }
}

impl<E> View for Manager<E> {
    type V = ManagerView<E>;

    closed spec fn view(&self) -> ManagerView<E> {
        ManagerView {
            running: self.running,
            slots: Seq::new(self.slots@.len(), |i: int| slot_view(self.slots@[i])),
        }
    }
}

impl<E> ManagerView<E> {
    /// What holds of every control plane: no two slots hold modules of
    /// one name.
    pub open spec fn wf(self) -> bool {
        unique(self.slots)
    }
}

impl<E> Manager<E> {
    /// A control plane that has not been started, with nothing registered.
    pub fn new() -> (manager: Manager<E>)
        ensures
            !manager@.running,
            manager@.slots == Seq::<Option<ModuleView<E>>>::empty(),
            manager@.wf(),
    {
        let manager = Manager { running: false, slots: Vec::new() };
        assert(manager@.slots =~= Seq::<Option<ModuleView<E>>>::empty());
        manager
    }

    /// Whether the control plane has been started.
    pub fn is_running(&self) -> (running: bool)
        ensures
            running == self@.running,
    {
        self.running
    }

    /// Starts the control plane. It can be started once: to start a
    /// running control plane is a fault of the program, which the caller
    /// must rule out.
    pub fn start(&mut self)
        requires
            !old(self)@.running,
        ensures
            final(self)@.running,
            final(self)@.slots == old(self)@.slots,
    {
        self.running = true;
        assert(self@.slots =~= old(self)@.slots);
    }

    /// The slot that holds the module called `name`, if one does.
    fn find(&self, name: &String) -> (found: Option<usize>)
        requires
            self@.wf(),
        ensures
            match found {
                Some(i) => holds(self@.slots, i as int, name@) && registered(self@.slots, name@)
                    && slot_of(self@.slots, name@) == i,
                None => !registered(self@.slots, name@),
            },
    {
        let mut i: usize = 0;
        while i < self.slots.len()
            invariant
                i <= self.slots.len(),
                self.slots@.len() == self@.slots.len(),
                unique(self@.slots),
                forall|k: int| 0 <= k < i ==> !holds(self@.slots, k, name@),
            decreases self.slots.len() - i,
        {
            let here = match &self.slots[i] {
                Some(module) => module.name == *name,
                None => false,
            };
            if here {
                proof {
                    lemma_slot_of(self@.slots, i as int, name@);
                }
                return Some(i);
            }
            i = i + 1;
        }
        None
    }

    /// The names of the registered modules, in the order of their slots.
    pub fn names(&self) -> (list: Vec<String>)
        ensures
            texts(list@) == names(self@.slots),
    {
        let mut list: Vec<String> = Vec::new();
        let mut i: usize = 0;
        assert(self@.slots.take(0) =~= Seq::<Option<ModuleView<E>>>::empty());
        assert(texts(list@) =~= names(self@.slots.take(0)));
        while i < self.slots.len()
            invariant
                i <= self.slots.len(),
                self.slots@.len() == self@.slots.len(),
                texts(list@) == names(self@.slots.take(i as int)),
            decreases self.slots.len() - i,
        {
            proof {
                lemma_names_step(self@.slots, i as int);
            }
            let ghost before = list@;
            match &self.slots[i] {
                Some(module) => {
                    list.push(module.name.clone());
                    assert(texts(list@) =~= texts(before).push(module.name@));
                },
                None => {},
            }
            i = i + 1;
        }
        assert(self@.slots.take(i as int) =~= self@.slots);
        list
    }

    /// The first half of handling an action.
    ///
    /// Where the registry alone decides, the step is the answer: a query
    /// is answered, and loading a registered name is refused before
    /// anything is compiled. Otherwise the step is the order to compile.
    /// The registry is not touched.
    pub fn begin(&self, action: ControlAction) -> (step: Step)
        requires
            self@.running,
            self@.wf(),
        ensures
            step@ == begin_model(self@.slots, action@),
    {
        match action {
            ControlAction::LoadBitcode(name, bytes) => match self.find(&name) {
                Some(_) => Step::Reply(ResultMessage::Failure("Module already exists".to_owned())),
                None => Step::Compile { name, bytes },
            },
            ControlAction::GetModuleConfig(name) => match self.find(&name) {
                Some(slot) => Step::Reply(ResultMessage::ModuleConfig(ConfigRef { slot })),
                None => Step::Reply(ResultMessage::Failure("Module not found".to_owned())),
            },
            ControlAction::GetModuleList => Step::Reply(ResultMessage::ModuleList(self.names())),
        }
    }

    /// The second half of a load: registers the module, unless the
    /// engine rejected the bytes or the name has been taken.
    ///
    /// A module whose initialiser did not mark its configuration as
    /// valid must not get here: the caller ends the process instead.
    pub fn finish_load(&mut self, name: String, outcome: LoadOutcome<E>) -> (reply: ResultMessage)
        requires
            old(self)@.running,
            old(self)@.wf(),
            outcome matches LoadOutcome::Initialized { config, .. } ==> config.valid(),
        ensures
            final(self)@.running,
            final(self)@.wf(),
            (reply@, final(self)@.slots) == load_model(old(self)@.slots, name@, outcome),
    {
        proof {
            lemma_load_unique(self@.slots, name@, outcome);
        }
        if self.find(&name).is_some() {
            return ResultMessage::Failure("Module already exists".to_owned());
        }
        match outcome {
            LoadOutcome::CompileFailed => ResultMessage::Failure(
                "Unable to load bitcode".to_owned(),
            ),
            LoadOutcome::Initialized { ee, config } => {
                let ghost module = ModuleView { name: name@, ee, config };
                self.slots.push(Some(ModuleContext { name, ee, config: Arc::new(config) }));
                assert(self@.slots =~= old(self)@.slots.push(Some(module)));
                ResultMessage::Success
            },
        }
    }

    /// Handles one action from beginning to end and yields the one
    /// answer to it.
    ///
    /// `compile` stands for the execution engine: it compiles the bytes,
    /// runs the module's initialiser and says what that came to. It is
    /// called at most once, and only for a load of a name that is free.
    /// It must not hand back a module whose initialiser did not mark its
    /// configuration as valid: for such a module it ends the process.
    pub fn handle<F>(&mut self, action: ControlAction, compile: F) -> (reply: ResultMessage) where
        F: FnOnce(&String, &Vec<u8>) -> LoadOutcome<E>,

        requires
            old(self)@.running,
            old(self)@.wf(),
            forall|name: &String, bytes: &Vec<u8>|
                action@ == ControlActionView::LoadBitcode(name@, bytes@) ==> call_requires(
                    compile,
                    (name, bytes),
                ),
            forall|name: &String, bytes: &Vec<u8>, outcome: LoadOutcome<E>|
                call_ensures(compile, (name, bytes), outcome) ==> (outcome matches LoadOutcome::Initialized {
                    config,
                    ..
                } ==> config.valid()),
        ensures
            final(self)@.running,
            final(self)@.wf(),
            match begin_model(old(self)@.slots, action@) {
                StepView::Reply(answer) => reply@ == answer && final(self)@.slots == old(
                    self,
                )@.slots,
                StepView::Compile { name, bytes } => exists|
                    given_name: &String,
                    given_bytes: &Vec<u8>,
                    outcome: LoadOutcome<E>,
                |
                    {
                        &&& given_name@ == name
                        &&& given_bytes@ == bytes
                        &&& call_ensures(compile, (given_name, given_bytes), outcome)
                        &&& (reply@, final(self)@.slots) == load_model(
                            old(self)@.slots,
                            name,
                            outcome,
                        )
                    },
            },
    {
        match self.begin(action) {
            Step::Reply(reply) => reply,
            Step::Compile { name, bytes } => {
                let outcome = compile(&name, &bytes);
                let ghost seen = outcome;
                let reply = self.finish_load(name, outcome);
                assert(call_ensures(compile, (&name, &bytes), seen));
                reply
            },
        }
    }

    /// The configuration that a reference stands for, or nothing where
    /// the reference dangles.
    pub fn resolve(&self, reference: &ConfigRef) -> (config: Option<Arc<ModuleConfig>>)
        ensures
            match config {
                Some(shared) => referent(self@.slots, *reference) == Some(*shared),
                None => referent(self@.slots, *reference) is None,
            },
    {
        if reference.slot < self.slots.len() {
            match &self.slots[reference.slot] {
                Some(module) => Some(module.config.clone()),
                None => None,
            }
        } else {
            None
        }
    }

    /// Removes the module called `name` and hands back its executable
    /// module. References to its configuration dangle from then on.
    pub fn remove(&mut self, name: &String) -> (removed: Option<E>)
        requires
            old(self)@.wf(),
        ensures
            final(self)@.running == old(self)@.running,
            final(self)@.wf(),
            final(self)@.slots == remove_model(old(self)@.slots, name@),
            match removed {
                Some(ee) => registered(old(self)@.slots, name@) && ee == old(self)@.slots[slot_of(
                    old(self)@.slots,
                    name@,
                )]->0.ee,
                None => !registered(old(self)@.slots, name@),
            },
    {
        proof {
            lemma_remove_unique(self@.slots, name@);
        }
        match self.find(name) {
            Some(slot) => {
                let mut taken: Option<ModuleContext<E>> = None;
                let ghost before = self@.slots;
                proof {
                    assert(before.update(slot as int, None) =~= Seq::new(
                        self.slots@.len(),
                        |i: int| slot_view(self.slots@.update(slot as int, None)[i]),
                    ));
                }
                std::mem::swap(&mut self.slots[slot], &mut taken);
                match taken {
                    Some(module) => Some(module.ee),
                    None => None,
                }
            },
            None => None,
        }
    }
}

} // verus!
