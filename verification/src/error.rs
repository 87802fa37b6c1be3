//! Error types returned by plugin loading and processing.

use vstd::prelude::*;

verus! {

/// Labels the phase of plugin loading in which a [`Vst3Error`] was produced.
#[derive(Debug, Clone, Copy, PartialEq, Eq, Structural)]
pub enum LoadStage {
    /// Resolving the plugin bundle on disk.
    Scanning,
    /// Loading the dynamic library.
    Opening,
    /// Calling `GetPluginFactory` / walking `IPluginFactory` classes.
    Factory,
    /// `IPluginFactory::createInstance`.
    Instantiation,
    /// `IPluginBase::initialize` on the component or controller.
    Initialization,
    /// `IAudioProcessor::setupProcessing`.
    Setup,
    /// `IComponent::setActive(1)` / `IAudioProcessor::setProcessing(1)`.
    Activation,
}

/// The human-readable label of each loading stage.
pub open spec fn stage_label(stage: LoadStage) -> Seq<char> {
    match stage {
        LoadStage::Scanning => "scanning"@,
        LoadStage::Opening => "opening library"@,
        LoadStage::Factory => "getting factory"@,
        LoadStage::Instantiation => "creating instance"@,
        LoadStage::Initialization => "initialization"@,
        LoadStage::Setup => "processing setup"@,
        LoadStage::Activation => "activation"@,
    }
}

impl LoadStage {
    /// The label under which the stage is displayed in error messages.
    pub fn label(&self) -> (s: &'static str)
        ensures
            s@ == stage_label(*self),
    {
        match self {
            LoadStage::Scanning => "scanning",
            LoadStage::Opening => "opening library",
            LoadStage::Factory => "getting factory",
            LoadStage::Instantiation => "creating instance",
            LoadStage::Initialization => "initialization",
            LoadStage::Setup => "processing setup",
            LoadStage::Activation => "activation",
        }
    }
}

/// Errors produced while loading, initializing, or driving a VST3 plugin.
#[derive(Debug)]
pub enum Vst3Error {
    /// A file-system or factory-level failure that aborted loading before the
    /// plugin could be instantiated. `stage` pinpoints which step failed.
    LoadFailed { path: String, stage: LoadStage, reason: String },
    /// A plugin call returned a non-OK `tresult`; `code` is that raw code.
    PluginError { stage: LoadStage, code: i32 },
    /// Operation requires the plugin to be in the active (processing) state.
    NotActive,
    /// Feature requested by the host is not supported by this plugin.
    NotSupported(String),
    /// Parameter index, id, or value fell outside the plugin's allowed range.
    InvalidParameter(String),
    /// Saving or restoring plugin state failed.
    StateError(String),
}

} // verus!
