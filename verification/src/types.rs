//! Data model: controls, thresholds, commands, per-key state and activations.

use vstd::prelude::*;

verus! {

/// The three control semantics a physical input element can have.
#[derive(Clone, Copy, Debug, PartialEq, Eq, Structural)]
pub enum CommandKind {
    Encoder,
    Switch,
    Trigger,
}

/// The configured resting polarity of a switch control.
#[derive(Clone, Copy, Debug, PartialEq, Eq, Structural)]
pub enum InitialSwitchState {
    ON,
    OFF,
}

/// Debounce timing configuration, in milliseconds. `activation` is the
/// minimum elapsed time since the window opened for a sample to count as a
/// deliberate actuation; `detection`, when present, is a shorter window below
/// which a sample is pure noise.
#[derive(Clone, Copy, Debug, PartialEq, Eq, Structural)]
pub enum Threshold {
    Base { activation: u64 },
    Full { activation: u64, detection: u64 },
}

impl Threshold {
    /// The activation window, in milliseconds.
    pub open spec fn spec_activation(self) -> u64 {
        match self {
            Threshold::Base { activation } => activation,
            Threshold::Full { activation, .. } => activation,
        }
    }

    /// The secondary noise window, in milliseconds, if one is configured.
    pub open spec fn spec_detection(self) -> Option<u64> {
        match self {
            Threshold::Base { .. } => None,
            Threshold::Full { detection, .. } => Some(detection),
        }
    }

    pub fn activation(&self) -> (r: u64)
        ensures
            r == self.spec_activation(),
    {
        match self {
            Threshold::Base { activation } => *activation,
            Threshold::Full { activation, .. } => *activation,
        }
    }

    pub fn detection(&self) -> (r: Option<u64>)
        ensures
            r == self.spec_detection(),
    {
        match self {
            Threshold::Base { .. } => None,
            Threshold::Full { detection, .. } => Some(*detection),
        }
    }
}

/// One executable binding: a program, its arguments, and an optional
/// placeholder token to substitute with the interpolated sample value.
#[derive(Clone)]
pub struct CommandData {
    pub cmd: String,
    pub args: Vec<String>,
    pub replace: Option<String>,
    pub map_min: Option<i64>,
    pub map_max: Option<i64>,
}

/// Mathematical image of a `CommandData`.
#[verifier::ext_equal]
pub struct CommandDataModel {
    pub cmd: Seq<char>,
    pub args: Seq<Seq<char>>,
    pub replace: Option<Seq<char>>,
    pub map_min: Option<i64>,
    pub map_max: Option<i64>,
}

impl View for CommandData {
    type V = CommandDataModel;

    open spec fn view(&self) -> CommandDataModel {
        CommandDataModel {
            cmd: self.cmd@,
            args: self.args.deep_view(),
            replace: match self.replace {
                Some(ref s) => Some(s@),
                None => None,
            },
            map_min: self.map_min,
            map_max: self.map_max,
        }
    }
}

/// The command bindings of a control, one shape per control kind. A switch
/// carries two bindings plus its configured resting polarity.
pub enum Command {
    Encoder { execute: CommandData },
    Switch { on: CommandData, off: CommandData, initial_state: InitialSwitchState },
    Trigger { execute: CommandData },
}

/// Mathematical image of a `Command`.
#[verifier::ext_equal]
pub enum CommandModel {
    Encoder { execute: CommandDataModel },
    Switch { on: CommandDataModel, off: CommandDataModel, initial_state: InitialSwitchState },
    Trigger { execute: CommandDataModel },
}

impl View for Command {
    type V = CommandModel;

    open spec fn view(&self) -> CommandModel {
        match self {
            Command::Encoder { execute } => CommandModel::Encoder { execute: execute@ },
            Command::Switch { on, off, initial_state } => CommandModel::Switch {
                on: on@,
                off: off@,
                initial_state: *initial_state,
            },
            Command::Trigger { execute } => CommandModel::Trigger { execute: execute@ },
        }
    }
}

impl CommandModel {
    /// The control kind this command shape belongs to.
    pub open spec fn kind(self) -> CommandKind {
        match self {
            CommandModel::Encoder { .. } => CommandKind::Encoder,
            CommandModel::Switch { .. } => CommandKind::Switch,
            CommandModel::Trigger { .. } => CommandKind::Trigger,
        }
    }

    /// The resting polarity, present exactly on switch commands.
    pub open spec fn initial_state(self) -> Option<InitialSwitchState> {
        match self {
            CommandModel::Switch { initial_state, .. } => Some(initial_state),
            _ => None,
        }
    }
}

impl Command {
    pub fn kind(&self) -> (r: CommandKind)
        ensures
            r == self@.kind(),
    {
        match self {
            Command::Encoder { .. } => CommandKind::Encoder,
            Command::Switch { .. } => CommandKind::Switch,
            Command::Trigger { .. } => CommandKind::Trigger,
        }
    }
}

/// One configured control: a named physical input element bound to a key.
pub struct Control {
    pub name: String,
    pub key: u8,
    pub kind: CommandKind,
    pub threshold: Threshold,
    pub command: Command,
}

/// Mathematical image of a `Control`.
#[verifier::ext_equal]
pub struct ControlModel {
    pub name: Seq<char>,
    pub key: u8,
    pub kind: CommandKind,
    pub threshold: Threshold,
    pub command: CommandModel,
}

impl View for Control {
    type V = ControlModel;

    open spec fn view(&self) -> ControlModel {
        ControlModel {
            name: self.name@,
            key: self.key,
            kind: self.kind,
            threshold: self.threshold,
            command: self.command@,
        }
    }
}

impl DeepView for Control {
    type V = ControlModel;

    open spec fn deep_view(&self) -> ControlModel {
        self.view()
    }
}

/// The configuration of one device: its identifier and its controls.
pub struct Config {
    pub device: String,
    pub controls: Vec<Control>,
}

/// Mathematical image of a `Config`.
#[verifier::ext_equal]
pub struct ConfigModel {
    pub device: Seq<char>,
    pub controls: Seq<ControlModel>,
}

impl View for Config {
    type V = ConfigModel;

    open spec fn view(&self) -> ConfigModel {
        ConfigModel { device: self.device@, controls: self.controls.deep_view() }
    }
}

/// Per-key mutable debounce state. `detections` holds the raw samples of the
/// current window (for switches, polarity markers); `start` is the
/// millisecond timestamp at which the window opened.
pub struct KeyState {
    pub control: String,
    pub detection_threshold: Option<u64>,
    pub activation_threshold: u64,
    pub detections: Vec<u8>,
    pub start: u64,
    pub initial_state: Option<InitialSwitchState>,
}

/// Mathematical image of a `KeyState`.
#[verifier::ext_equal]
pub struct KeyStateModel {
    pub control: Seq<char>,
    pub detection_threshold: Option<u64>,
    pub activation_threshold: u64,
    pub detections: Seq<u8>,
    pub start: u64,
    pub initial_state: Option<InitialSwitchState>,
}

impl View for KeyState {
    type V = KeyStateModel;

    open spec fn view(&self) -> KeyStateModel {
        KeyStateModel {
            control: self.control@,
            detection_threshold: self.detection_threshold,
            activation_threshold: self.activation_threshold,
            detections: self.detections@,
            start: self.start,
            initial_state: self.initial_state,
        }
    }
}

/// One sample routed to a configured key: the (possibly freshly seeded)
/// per-key state, the control kind, and the time elapsed since the state
/// window opened (absent when the state was only just seeded).
pub struct KeyEvent {
    pub initialized: bool,
    pub state: KeyState,
    pub kind: CommandKind,
    pub elapsed: Option<u64>,
}

/// The kind-specific payload of an activation verdict.
#[derive(Clone, Copy, Debug, PartialEq, Eq, Structural)]
pub enum ActivationKind {
    Encoder { increase: bool },
    Switch { on: bool },
    Trigger,
}

impl ActivationKind {
    /// The control kind this payload belongs to.
    pub open spec fn spec_kind(self) -> CommandKind {
        match self {
            ActivationKind::Encoder { .. } => CommandKind::Encoder,
            ActivationKind::Switch { .. } => CommandKind::Switch,
            ActivationKind::Trigger => CommandKind::Trigger,
        }
    }

    pub fn get_kind(&self) -> (r: CommandKind)
        ensures
            r == self.spec_kind(),
    {
        match self {
            ActivationKind::Encoder { .. } => CommandKind::Encoder,
            ActivationKind::Switch { .. } => CommandKind::Switch,
            ActivationKind::Trigger => CommandKind::Trigger,
        }
    }
}

/// The engine's verdict on one sample. When `valid` is false the payload is
/// never consulted.
#[derive(Clone, Copy, Debug)]
pub struct Activation {
    pub valid: bool,
    pub kind: Option<ActivationKind>,
}

impl Activation {
    /// An encoder activation with the given direction.
    pub open spec fn spec_encoder(valid: bool, increase: bool) -> Activation {
        Activation { valid, kind: Some(ActivationKind::Encoder { increase }) }
    }

    /// A switch activation with the given polarity.
    pub open spec fn spec_switch(valid: bool, on: bool) -> Activation {
        Activation { valid, kind: Some(ActivationKind::Switch { on }) }
    }

    /// A trigger activation.
    pub open spec fn spec_trigger(valid: bool) -> Activation {
        Activation { valid, kind: Some(ActivationKind::Trigger) }
    }

    /// The non-activation verdict.
    pub open spec fn spec_failed() -> Activation {
        Activation { valid: false, kind: None }
    }

    pub fn encoder(valid: bool, increase: bool) -> (r: Activation)
        ensures
            r == Activation::spec_encoder(valid, increase),
    {
        Activation { valid, kind: Some(ActivationKind::Encoder { increase }) }
    }

    pub fn switch(valid: bool, on: bool) -> (r: Activation)
        ensures
            r == Activation::spec_switch(valid, on),
    {
        Activation { valid, kind: Some(ActivationKind::Switch { on }) }
    }

    pub fn trigger(valid: bool) -> (r: Activation)
        ensures
            r == Activation::spec_trigger(valid),
    {
        Activation { valid, kind: Some(ActivationKind::Trigger) }
    }

    pub fn failed() -> (r: Activation)
        ensures
            r == Activation::spec_failed(),
    {
        Activation { valid: false, kind: None }
    }
}

/// Faults of the debounce engine itself.
#[derive(Clone, Copy, Debug, PartialEq, Eq, Structural)]
pub enum EngineError {
    /// The sampled key is not present in the control registry.
    KeyNotFound,
    /// A switch reached its first transition without a configured resting
    /// polarity.
    MissingInitialState,
}

/// Faults of command resolution. A failed dispatch drops the activation and
/// the device continues.
#[derive(Clone, Copy, Debug, PartialEq, Eq, Structural)]
pub enum DispatchError {
    /// The activation references a control absent from the registry, or
    /// carries no payload.
    ConfigMismatch,
    /// The activation payload and the configured command disagree on kind.
    KindMismatch,
    /// Value substitution was requested without both mapping bounds.
    MissingMapping,
}

/// A fully resolved dispatch: either a command ready to launch, or the
/// informational no-op taken when substitution was requested but no sample
/// value exists.
pub enum Dispatch {
    Run { cmd: String, args: Vec<String> },
    NoValue,
}

/// Mathematical image of a `Dispatch`.
#[verifier::ext_equal]
pub enum DispatchModel {
    Run { cmd: Seq<char>, args: Seq<Seq<char>> },
    NoValue,
}

impl View for Dispatch {
    type V = DispatchModel;

    open spec fn view(&self) -> DispatchModel {
        match self {
            Dispatch::Run { cmd, args } => DispatchModel::Run { cmd: cmd@, args: args.deep_view() },
            Dispatch::NoValue => DispatchModel::NoValue,
        }
    }
}

/// The model of a resolution result: the dispatch abstracted to its image,
/// the error kept as is.
pub open spec fn resolution_model(r: Result<Dispatch, DispatchError>) -> Result<
    DispatchModel,
    DispatchError,
> {
    match r {
        Ok(d) => Ok(d@),
        Err(e) => Err(e),
    }
}

} // verus!
