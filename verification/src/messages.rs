//! The envelope exchanged between callers and the control plane.

use vstd::prelude::*;
use crate::config::ModuleConfig;

verus! {

/// What a caller asks of the control plane.
#[derive(Clone, Debug, PartialEq, Eq)]
pub enum ControlAction {
    /// Load the module made of these bytes under this name.
    LoadBitcode(String, Vec<u8>),
    /// Hand out a reference to the configuration of the module of this name.
    GetModuleConfig(String),
    /// List the names of the loaded modules.
    GetModuleList,
}

/// A `ControlAction` as contracts see it.
pub ghost enum ControlActionView {
    LoadBitcode(Seq<char>, Seq<u8>),
    GetModuleConfig(Seq<char>),
    GetModuleList,
}

impl View for ControlAction {
    type V = ControlActionView;

    open spec fn view(&self) -> ControlActionView {
        match *self {
            ControlAction::LoadBitcode(name, bytes) => ControlActionView::LoadBitcode(
                name@,
                bytes@,
            ),
            ControlAction::GetModuleConfig(name) => ControlActionView::GetModuleConfig(name@),
            ControlAction::GetModuleList => ControlActionView::GetModuleList,
        }
    }
}

/// A reference to a registered configuration that owns nothing.
///
/// It names the registry slot of the module it was made for. It keeps
/// nothing alive: once the module is removed the reference dangles, and
/// resolving it says so.
#[derive(Clone, Copy, Debug, PartialEq, Eq, Structural)]
pub struct ConfigRef {
    pub slot: usize,
}

/// What the control plane answers.
#[derive(Clone, Debug, PartialEq, Eq)]
pub enum ResultMessage {
    /// The action was carried out.
    Success,
    /// The action was refused, for the reason that the text gives.
    Failure(String),
    /// A reference to the configuration that was asked for.
    ModuleConfig(ConfigRef),
    /// The names of the loaded modules.
    ModuleList(Vec<String>),
}

/// A `ResultMessage` as contracts see it.
pub ghost enum ResultView {
    Success,
    Failure(Seq<char>),
    ModuleConfig(ConfigRef),
    ModuleList(Seq<Seq<char>>),
}

/// The texts of a list of strings.
pub open spec fn texts(list: Seq<String>) -> Seq<Seq<char>> {
    Seq::new(list.len(), |i: int| list[i]@)
}

impl View for ResultMessage {
    type V = ResultView;

    open spec fn view(&self) -> ResultView {
        match *self {
            ResultMessage::Success => ResultView::Success,
            ResultMessage::Failure(message) => ResultView::Failure(message@),
            ResultMessage::ModuleConfig(reference) => ResultView::ModuleConfig(reference),
            ResultMessage::ModuleList(names) => ResultView::ModuleList(texts(names@)),
        }
    }
}

/// What the actor has to do next for the message it is working on.
#[derive(Clone, Debug, PartialEq, Eq)]
pub enum Step {
    /// Send this answer to the caller; the message is done.
    Reply(ResultMessage),
    /// Compile these bytes under this name, run the module's initialiser,
    /// and come back with the outcome.
    Compile { name: String, bytes: Vec<u8> },
}

/// A `Step` as contracts see it.
pub ghost enum StepView {
    Reply(ResultView),
    Compile { name: Seq<char>, bytes: Seq<u8> },
}

impl View for Step {
    type V = StepView;

    open spec fn view(&self) -> StepView {
        match *self {
            Step::Reply(message) => StepView::Reply(message@),
            Step::Compile { name, bytes } => StepView::Compile { name: name@, bytes: bytes@ },
        }
    }
}

/// What compiling and initialising a module came to. `E` is the loaded,
/// executable module, which the registry keeps and never looks into.
pub enum LoadOutcome<E> {
    /// The execution engine rejected the bytes.
    CompileFailed,
    /// The module was compiled and its initialiser has run on `config`.
    Initialized { ee: E, config: ModuleConfig },
}

/// The answer to loading a name that is registered already.
pub open spec fn already_exists() -> Seq<char> {
    "Module already exists"@
}

/// The answer to loading bytes that the execution engine rejects.
pub open spec fn unable_to_load() -> Seq<char> {
    "Unable to load bitcode"@
}

/// The answer to asking for a module that is not registered.
pub open spec fn not_found() -> Seq<char> {
    "Module not found"@
}

} // verus!
