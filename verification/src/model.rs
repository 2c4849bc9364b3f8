//! The form of the control center: its configuration, its target, and the operations on it.
use crate::config;
use crate::config::{
    Config, ConfigProblem, DeviceRule, DeviceRuleKind, IrScreen, Profile,
    SensorCalibration,
};
use crate::config_text;
use crate::config_text::ConfigError;
use crate::log;
use crate::log::OutputBuffer;
use crate::session;
use crate::text;
use vstd::prelude::*;
use vstd::string::*;

verus! {

/// What an operation on the configuration does.
#[derive(Clone, Copy, Debug, PartialEq, Eq, Structural, Hash)]
pub enum TransactionKind {
    Load,
    Save,
}

/// An operation on the configuration, with everything that it works on.
#[derive(Debug)]
pub struct Transaction {
    pub id: u64,
    pub kind: TransactionKind,
    pub target: String,
    /// The bytes that are saved.
    pub captured: Vec<u8>,
    /// The state of the form when the operation began.
    pub revision: u64,
}

/// Where an operation failed.
#[derive(Clone, Copy, Debug, PartialEq, Eq, Structural, Hash)]
pub enum ConfigFailureStage {
    Load,
    Preparation,
    Validation,
    Persistence,
    Parsing,
    Worker,
    Cancelled,
}

/// Why an operation failed.
#[derive(Debug)]
pub struct ConfigFailure {
    pub stage: ConfigFailureStage,
    pub message: String,
}

/// What an operation gave.
#[derive(Debug)]
pub enum ConfigValue {
    Saved,
    Loaded(Config),
}

/// The end of an operation.
#[derive(Debug)]
pub struct Completion {
    /// The operation that ended.
    pub transaction: u64,
    pub result: Result<ConfigValue, ConfigFailure>,
}

impl Completion {
    /// The end of an operation.
    pub fn new(transaction: &Transaction, result: Result<ConfigValue, ConfigFailure>) -> (completion:
        Completion)
        ensures
            completion == (Completion { transaction: transaction.id, result }),
    {
        Completion { transaction: transaction.id, result }
    }
}

/// What the end of an operation did to the form.
#[derive(Clone, Copy, Debug, PartialEq, Eq, Structural, Hash)]
pub enum ApplyCompletion {
    Applied,
    Stale,
    Failed,
}

/// A calibration that is under way, with what it started from.
#[derive(Debug)]
pub struct CalibrationTransaction {
    pub id: u64,
    pub target: String,
    pub daemon_program: String,
    /// How many seconds are captured.
    pub duration: i32,
    pub revision: u64,
}

/// The form.
pub struct ConfigModel {
    pub config: Config,
    pub config_path: String,
    pub daemon_path: String,
    /// The path that the service loads.
    pub default_path: Option<String>,
    pub dirty: bool,
    /// Counts the changes of the form.
    pub revision: u64,
    /// The operation that is under way.
    pub transaction: Option<Transaction>,
    /// How many operations were begun.
    pub next_transaction: u64,
    /// The calibration that is under way.
    pub calibration: Option<u64>,
    pub output: OutputBuffer,
}

/// The calibration that a new entry starts from.
pub fn calibration_default() -> (calibration: SensorCalibration)
    ensures
        calibration == (SensorCalibration { x: 0, y: 0, z: 0 }),
{
    SensorCalibration { x: 0, y: 0, z: 0 }
}

/// The screen that a new entry starts from: the whole sensor.
pub fn ir_rect_default() -> (screen: IrScreen)
    ensures
        screen == (IrScreen { left: 0, right: 1023, top: 0, bottom: 767 }),
        config::screen_valid(Some(screen)),
{
    IrScreen { left: 0, right: 1023, top: 0, bottom: 767 }
}

/// A device rule.
pub fn rule(kind: DeviceRuleKind, match_text: String, profile: Profile) -> (rule: DeviceRule)
    ensures
        rule == (DeviceRule { kind, match_text, profile }),
{
    DeviceRule { kind, match_text, profile }
}

/// What errors call the configuration that the daemon wrote.
pub const DAEMON_OUTPUT: &'static str = "daemon-output";

/// The configuration that bytes which the daemon wrote describe.
pub fn parse_config_bytes(bytes: &[u8]) -> (result: Result<Config, ConfigError>)
    ensures
        config_text::gives(result, config_text::parsed(DAEMON_OUTPUT@, bytes@)),
{
    Config::parse_bytes(DAEMON_OUTPUT, bytes)
}

impl ConfigModel {
    /// Whether a path is another than the one that the service loads.
    pub open spec fn explicit(self, path: Seq<char>) -> bool {
        session::optional_string(self.default_path) != Some(path)
    }

    /// The bounds that always hold.
    pub open spec fn well_formed(self) -> bool {
        self.output.well_formed()
    }

    /// The form for a path, with the defaults and nothing under way.
    pub fn new(config_path: String, default_path: Option<String>) -> (model: ConfigModel)
        ensures
            model.well_formed(),
            model.config@ == config::default_config(),
            model.config_path == config_path,
            model.default_path == default_path,
            model.daemon_path@ == Seq::<char>::empty(),
            !model.dirty,
            model.revision == 0,
            model.transaction is None,
            model.next_transaction == 0,
            model.calibration is None,
            model.output@ == Seq::<Seq<char>>::empty(),
    {
        ConfigModel {
            config: Config::default(),
            config_path,
            daemon_path: String::new(),
            default_path,
            dirty: false,
            revision: 0,
            transaction: None,
            next_transaction: 0,
            calibration: None,
            output: OutputBuffer::new(),
        }
    }

    /// The program that is the daemon: the one that was entered, or else the installed one.
    pub open spec fn program(self) -> Seq<char> {
        if text::trimmed(self.daemon_path@).len() == 0 {
            "wiilandd"@
        } else {
            text::trimmed(self.daemon_path@)
        }
    }

    /// The program that is the daemon.
    pub fn daemon_program(&self) -> (program: &str)
        ensures
            program@ == self.program(),
    {
        let entered = text::trim(self.daemon_path.as_str());
        if entered.is_empty() {
            "wiilandd"
        } else {
            entered
        }
    }

    /// Notes a change of the form.
    pub fn mark_dirty(&mut self)
        ensures
            *final(self) == (ConfigModel {
                dirty: true,
                revision: old(self).revision.wrapping_add(1),
                ..*old(self)
            }),
    {
        self.dirty = true;
        self.revision = self.revision.wrapping_add(1);
    }

    /// Chooses another target.
    pub fn set_path(&mut self, path: String)
        ensures
            *final(self) == (ConfigModel {
                config_path: path,
                revision: old(self).revision.wrapping_add(1),
                ..*old(self)
            }),
    {
        self.config_path = path;
        self.revision = self.revision.wrapping_add(1);
    }

    /// Whether a target is another than the file that the service loads.
    pub fn is_explicit_target(&self, target: &String) -> (r: bool)
        ensures
            r == self.explicit(target@),
    {
        match &self.default_path {
            Some(path) => *path != *target,
            None => true,
        }
    }

    /// Whether the target is another than the file that the service loads.
    pub fn is_explicit_path(&self) -> (r: bool)
        ensures
            r == self.explicit(self.config_path@),
    {
        self.is_explicit_target(&self.config_path)
    }

    /// Whether the form can be saved, or what is wrong with it.
    pub fn validate_form(&self) -> (result: Result<(), ConfigProblem>)
        ensures
            result == self.config@.checked(),
            result is Ok <==> self.config@.valid(),
    {
        self.config.validate()
    }

    /// The form as a file.
    pub fn render(&self) -> (bytes: Vec<u8>)
        ensures
            bytes@ == vstd::utf8::encode_utf8(config_text::rendered(self.config@)),
    {
        let file = config_text::render(&self.config);
        file.as_str().as_bytes_vec()
    }

    /// Appends to the activity log.
    pub fn append_output(&mut self, s: &str)
        requires
            old(self).well_formed(),
        ensures
            final(self).well_formed(),
            *final(self) == (ConfigModel { output: final(self).output, ..*old(self) }),
            final(self).output@ == log::recent(log::with_text(old(self).output@, s@)),
    {
        self.output.append(s);
    }

    /// Clears the activity log.
    pub fn clear_output(&mut self)
        requires
            old(self).well_formed(),
        ensures
            final(self).well_formed(),
            *final(self) == (ConfigModel { output: final(self).output, ..*old(self) }),
            final(self).output@ == Seq::<Seq<char>>::empty(),
    {
        self.output.clear();
    }

    /// Begins an operation, unless one is under way. It works on the target and the bytes that it
    /// began with, whatever becomes of the form.
    pub fn begin(&mut self, kind: TransactionKind, captured: Vec<u8>) -> (transaction: Option<
        Transaction,
    >)
        requires
            old(self).well_formed(),
        ensures
            final(self).well_formed(),
            match transaction {
                None => old(self).transaction is Some && *final(self) == *old(self),
                Some(t) => {
                    &&& old(self).transaction is None
                    &&& t.id == old(self).next_transaction
                    &&& t.kind == kind
                    &&& t.target@ == old(self).config_path@
                    &&& t.captured == captured
                    &&& t.revision == old(self).revision
                    &&& *final(self) == (ConfigModel {
                        transaction: final(self).transaction,
                        next_transaction: old(self).next_transaction.wrapping_add(1),
                        ..*old(self)
                    })
                    &&& final(self).transaction matches Some(own) && own.id == t.id && own.kind
                        == kind && own.target@ == t.target@ && own.revision == t.revision
                        && own.captured@ == captured@
                },
            },
    {
        if self.transaction.is_some() {
            return None;
        }
        let id: u64 = self.next_transaction;
        self.next_transaction = self.next_transaction.wrapping_add(1);
        let own = captured.clone();
        assert(own@ =~= captured@);
        self.transaction = Some(
            Transaction {
                id,
                kind,
                target: self.config_path.clone(),
                captured: own,
                revision: self.revision,
            },
        );
        Some(
            Transaction {
                id,
                kind,
                target: self.config_path.clone(),
                captured,
                revision: self.revision,
            },
        )
    }

    /// Whether an operation still belongs to the form: neither the form nor the target has changed.
    pub open spec fn current(self, transaction: Transaction) -> bool {
        transaction.revision == self.revision && transaction.target@ == self.config_path@
    }

    /// What the end of an operation does to the form.
    pub open spec fn outcome(self, completion: Completion) -> ApplyCompletion {
        match self.transaction {
            Some(t) if t.id == completion.transaction => match completion.result {
                Err(_) => ApplyCompletion::Failed,
                Ok(ConfigValue::Loaded(_)) => if t.kind is Save {
                    ApplyCompletion::Failed
                } else if self.current(t) {
                    ApplyCompletion::Applied
                } else {
                    ApplyCompletion::Stale
                },
                Ok(ConfigValue::Saved) => if t.kind is Load {
                    ApplyCompletion::Failed
                } else if self.current(t) {
                    ApplyCompletion::Applied
                } else {
                    ApplyCompletion::Stale
                },
            },
            _ => ApplyCompletion::Stale,
        }
    }

    /// Ends the operation that is under way. Only an operation that still belongs to the form
    /// changes it: a load replaces it, and either leaves nothing unsaved.
    pub fn finish(&mut self, completion: Completion) -> (outcome: ApplyCompletion)
        requires
            old(self).well_formed(),
        ensures
            final(self).well_formed(),
            outcome == old(self).outcome(completion),
            old(self).transaction matches Some(t)
                ==> (t.id == completion.transaction ==> final(self).transaction is None),
            !(old(self).transaction matches Some(t) && t.id == completion.transaction)
                ==> *final(self) == *old(self),
            outcome !is Applied ==> *final(self) == (ConfigModel {
                transaction: final(self).transaction,
                ..*old(self)
            }),
            outcome is Applied ==> match completion.result {
                Ok(ConfigValue::Loaded(config)) => *final(self) == (ConfigModel {
                    config,
                    dirty: false,
                    transaction: None,
                    ..*old(self)
                }),
                _ => *final(self) == (ConfigModel {
                    dirty: false,
                    transaction: None,
                    ..*old(self)
                }),
            },
    {
        let (kind, current) = match &self.transaction {
            Some(t) => {
                if t.id != completion.transaction {
                    return ApplyCompletion::Stale;
                }
                (t.kind, t.revision == self.revision && t.target == self.config_path)
            },
            None => {
                return ApplyCompletion::Stale;
            },
        };
        self.transaction = None;
        match completion.result {
            Err(_) => ApplyCompletion::Failed,
            Ok(ConfigValue::Loaded(config)) => {
                if kind == TransactionKind::Save {
                    return ApplyCompletion::Failed;
                }
                if !current {
                    return ApplyCompletion::Stale;
                }
                self.config = config;
                self.dirty = false;
                ApplyCompletion::Applied
            },
            Ok(ConfigValue::Saved) => {
                if kind == TransactionKind::Load {
                    return ApplyCompletion::Failed;
                }
                if !current {
                    return ApplyCompletion::Stale;
                }
                self.dirty = false;
                ApplyCompletion::Applied
            },
        }
    }

    /// Begins a calibration, unless one is under way.
    pub fn begin_calibration(&mut self) -> (transaction: Option<CalibrationTransaction>)
        requires
            old(self).well_formed(),
        ensures
            final(self).well_formed(),
            match transaction {
                None => old(self).calibration is Some && *final(self) == *old(self),
                Some(t) => {
                    &&& old(self).calibration is None
                    &&& t.id == old(self).next_transaction
                    &&& t.target@ == old(self).config_path@
                    &&& t.daemon_program@ == old(self).program()
                    &&& t.duration == old(self).config.aim_calibration_duration
                    &&& t.revision == old(self).revision
                    &&& *final(self) == (ConfigModel {
                        calibration: Some(t.id),
                        next_transaction: old(self).next_transaction.wrapping_add(1),
                        ..*old(self)
                    })
                },
            },
    {
        if self.calibration.is_some() {
            return None;
        }
        let id: u64 = self.next_transaction;
        let transaction = CalibrationTransaction {
            id,
            target: self.config_path.clone(),
            daemon_program: self.daemon_program().to_owned(),
            duration: self.config.aim_calibration_duration,
            revision: self.revision,
        };
        self.next_transaction = self.next_transaction.wrapping_add(1);
        self.calibration = Some(id);
        Some(transaction)
    }

    /// Ends a calibration, and tells whether it still belongs to the form.
    pub fn finish_calibration(&mut self, transaction: &CalibrationTransaction) -> (owned: bool)
        requires
            old(self).well_formed(),
        ensures
            final(self).well_formed(),
            owned
                == (
                    old(self).calibration == Some(transaction.id)
                        && transaction.revision == old(self).revision
                        && transaction.target@ == old(self).config_path@
                ),
            *final(self) == (ConfigModel {
                calibration: if old(self).calibration == Some(transaction.id) {
                    None
                } else {
                    old(self).calibration
                },
                ..*old(self)
            }),
    {
        let active = match self.calibration {
            Some(id) => id == transaction.id,
            None => false,
        };
        if !active {
            return false;
        }
        self.calibration = None;
        transaction.revision == self.revision && transaction.target == self.config_path
    }
}

/// An operation that began before the last edit never changes the form.
pub proof fn edits_outlive_older_operations(
    model: ConfigModel,
    transaction: Transaction,
    completion: Completion,
)
    requires
        model.transaction == Some(transaction),
        transaction.revision != model.revision || transaction.target@ != model.config_path@,
    ensures
        model.outcome(completion) !is Applied,
{
}

/// An operation that is not the one under way never changes the form.
pub proof fn foreign_completions_are_ignored(model: ConfigModel, completion: Completion)
    requires
        model.transaction matches Some(t) ==> t.id != completion.transaction,
    ensures
        model.outcome(completion) is Stale,
{
}

} // verus!
