//! The output pipeline: what is written to the two key files, in which order
//! and with which permissions, and when the buffers that hold key bytes are
//! wiped.
//!
//! The pipeline does no I/O itself. A [`KeyWriter`] says what to do next; the
//! caller does it and reports how it went.

use crate::catalog::{builtin_table, Language};
use crate::i18n::{load_translations_default, Translations};
use crate::keygen::KeyMaterial;
use crate::pem::{
    base64_standard, encodable, pem_text, to_pem, PUBLIC_LABEL, SECRET_LABEL,
};
use crate::report::{success_lines, success_report};
use crate::wipe::{wipe_bytes, wipe_text};
use vstd::prelude::*;
use vstd::string::*;
use vstd::utf8::encode_utf8;

verus! {

/// One of the two files of a keypair.
#[derive(Debug, Clone, Copy, PartialEq, Eq, Hash, Structural)]
pub enum KeyFile {
    Public,
    Secret,
}

/// The permissions that a file is created with.
#[derive(Debug, Clone, Copy, PartialEq, Eq, Hash, Structural)]
pub enum FileMode {
    /// The platform's default permissions.
    Default,
    /// Readable and writable by the owner alone, from the moment the file
    /// exists: the mode is part of the creation, not a later change.
    OwnerOnly,
}

/// What the caller of a [`KeyWriter`] has to do next.
#[derive(Debug, Clone, Copy, PartialEq, Eq, Hash, Structural)]
pub enum Stage {
    /// Create the public key file, emptying it if it exists.
    CreatePublic,
    /// Write the payload to the public key file.
    WritePublic,
    /// Create the secret key file, emptying it if it exists.
    CreateSecret,
    /// Write the payload to the secret key file.
    WriteSecret,
    /// Nothing: both files are written, or one step has failed.
    Finished,
}

/// The step that failed and the reason the system gave.
#[derive(Debug)]
pub enum IoError {
    CreateFailed { file: KeyFile, path: String, cause: String },
    WriteFailed { file: KeyFile, path: String, cause: String },
}

/// An [`IoError`] as plain values.
pub struct IoFault {
    pub creating: bool,
    pub file: KeyFile,
    pub path: Seq<char>,
    pub cause: Seq<char>,
}

impl View for IoError {
    type V = IoFault;

    open spec fn view(&self) -> IoFault {
        match self {
            IoError::CreateFailed { file, path, cause } => IoFault {
                creating: true,
                file: *file,
                path: path@,
                cause: cause@,
            },
            IoError::WriteFailed { file, path, cause } => IoFault {
                creating: false,
                file: *file,
                path: path@,
                cause: cause@,
            },
        }
    }
}

/// What a writer was asked to write: fixed when it is made.
pub struct Plan {
    pub public_path: Seq<char>,
    pub public_bytes: Seq<u8>,
    pub secret_path: Seq<char>,
    pub secret_bytes: Seq<u8>,
}

/// A [`KeyWriter`] as plain values.
pub struct WriterState {
    pub plan: Plan,
    pub stage: Stage,
    pub failure: Option<IoFault>,
    /// Content of the buffer for the public key file, as held in memory now.
    pub public_held: Seq<u8>,
    /// Content of the buffer for the secret key file, as held in memory now.
    pub secret_held: Seq<u8>,
}

/// The content of a key file: the key itself, or the bytes of its PEM-like text.
pub open spec fn file_bytes(key: Seq<u8>, label: Seq<char>, as_text: bool) -> Seq<u8> {
    if as_text {
        encode_utf8(pem_text(label, base64_standard(key)))
    } else {
        key
    }
}

/// The plan for a keypair.
pub open spec fn plan_for(
    public: Seq<u8>,
    secret: Seq<u8>,
    pk_path: Seq<char>,
    sk_path: Seq<char>,
    pk_text: bool,
    sk_text: bool,
) -> Plan {
    Plan {
        public_path: pk_path,
        public_bytes: file_bytes(public, PUBLIC_LABEL@, pk_text),
        secret_path: sk_path,
        secret_bytes: file_bytes(secret, SECRET_LABEL@, sk_text),
    }
}

/// The state in which a writer starts.
pub open spec fn initial(plan: Plan) -> WriterState {
    WriterState {
        plan,
        stage: Stage::CreatePublic,
        failure: None,
        public_held: plan.public_bytes,
        secret_held: plan.secret_bytes,
    }
}

/// The file that a stage works on.
pub open spec fn file_of(stage: Stage) -> KeyFile {
    match stage {
        Stage::CreatePublic | Stage::WritePublic => KeyFile::Public,
        _ => KeyFile::Secret,
    }
}

/// The permissions that a file is created with: the secret key file is the
/// owner's alone.
pub open spec fn mode_of(file: KeyFile) -> FileMode {
    match file {
        KeyFile::Public => FileMode::Default,
        KeyFile::Secret => FileMode::OwnerOnly,
    }
}

/// The path of a file of the plan.
pub open spec fn path_of(plan: Plan, file: KeyFile) -> Seq<char> {
    match file {
        KeyFile::Public => plan.public_path,
        KeyFile::Secret => plan.secret_path,
    }
}

/// The error for a step that failed with `cause`.
pub open spec fn fault_at(plan: Plan, stage: Stage, cause: Seq<char>) -> IoFault {
    IoFault {
        creating: stage == Stage::CreatePublic || stage == Stage::CreateSecret,
        file: file_of(stage),
        path: path_of(plan, file_of(stage)),
        cause,
    }
}

/// The state after the step of `s` went as `outcome` says.
///
/// A success leads to the next step, and a buffer is wiped as soon as its
/// file is written. A failure ends the run at once, with both buffers wiped.
pub open spec fn after(s: WriterState, outcome: Result<(), Seq<char>>) -> WriterState {
    match s.stage {
        Stage::Finished => s,
        stage => match outcome {
            Err(cause) => WriterState {
                plan: s.plan,
                stage: Stage::Finished,
                failure: Some(fault_at(s.plan, stage, cause)),
                public_held: Seq::empty(),
                secret_held: Seq::empty(),
            },
            Ok(_) => match stage {
                Stage::CreatePublic => WriterState { stage: Stage::WritePublic, ..s },
                Stage::WritePublic => WriterState {
                    stage: Stage::CreateSecret,
                    public_held: Seq::empty(),
                    ..s
                },
                Stage::CreateSecret => WriterState { stage: Stage::WriteSecret, ..s },
                _ => WriterState { stage: Stage::Finished, secret_held: Seq::empty(), ..s },
            },
        },
    }
}

/// The states that a writer can be in: a buffer holds its planned content
/// until its file is written and nothing after that, and a finished writer
/// holds no key bytes at all.
pub open spec fn consistent(s: WriterState) -> bool {
    match s.stage {
        Stage::CreatePublic | Stage::WritePublic => {
            &&& s.failure is None
            &&& s.public_held == s.plan.public_bytes
            &&& s.secret_held == s.plan.secret_bytes
        },
        Stage::CreateSecret | Stage::WriteSecret => {
            &&& s.failure is None
            &&& s.public_held.len() == 0
            &&& s.secret_held == s.plan.secret_bytes
        },
        Stage::Finished => {
            &&& s.public_held.len() == 0
            &&& s.secret_held.len() == 0
        },
    }
}

/// Turns a key into the content of its file and wipes every buffer that held
/// the key on the way.
fn into_file_bytes(key: Vec<u8>, label: &str, as_text: bool) -> (out: Vec<u8>)
    requires
        as_text ==> encodable(key@.len()),
    ensures
        out@ == file_bytes(key@, label@, as_text),
{
    if as_text {
        let mut key = key;
        let mut text = to_pem(label, key.as_slice());
        let out = text.as_str().as_bytes_vec();
        wipe_text(&mut text);
        wipe_bytes(&mut key);
        out
    } else {
        key
    }
}

/// Writes a keypair to its two files, step by step.
pub struct KeyWriter {
    public_path: String,
    secret_path: String,
    public_out: Vec<u8>,
    secret_out: Vec<u8>,
    stage: Stage,
    failure: Option<IoError>,
    plan: Ghost<Plan>,
}

impl View for KeyWriter {
    type V = WriterState;

    closed spec fn view(&self) -> WriterState {
        WriterState {
            plan: self.plan@,
            stage: self.stage,
            failure: match self.failure {
                Some(e) => Some(e@),
                None => None,
            },
            public_held: self.public_out@,
            secret_held: self.secret_out@,
        }
    }
}

impl KeyWriter {
    /// The writer is in one of its states and its paths are those of its plan.
    pub closed spec fn wf(&self) -> bool {
        &&& consistent(self@)
        &&& self.public_path@ == self.plan@.public_path
        &&& self.secret_path@ == self.plan@.secret_path
    }

    /// A writer for the keypair `material`, which it takes over.
    ///
    /// A key that goes out as text is encoded here, and the buffer that held
    /// it is wiped before this returns.
    pub fn new(
        material: KeyMaterial,
        pk_path: &str,
        sk_path: &str,
        pk_text: bool,
        sk_text: bool,
    ) -> (w: KeyWriter)
        requires
            pk_text ==> encodable(material.public@.len()),
            sk_text ==> encodable(material.secret@.len()),
        ensures
            w.wf(),
            w@ == initial(
                plan_for(material.public@, material.secret@, pk_path@, sk_path@, pk_text, sk_text),
            ),
    {
        let ghost plan = plan_for(
            material.public@,
            material.secret@,
            pk_path@,
            sk_path@,
            pk_text,
            sk_text,
        );
        let KeyMaterial { public, secret } = material;
        let public_out = into_file_bytes(public, PUBLIC_LABEL, pk_text);
        let secret_out = into_file_bytes(secret, SECRET_LABEL, sk_text);
        KeyWriter {
            public_path: pk_path.to_owned(),
            secret_path: sk_path.to_owned(),
            public_out,
            secret_out,
            stage: Stage::CreatePublic,
            failure: None,
            plan: Ghost(plan),
        }
    }

    /// What to do next.
    pub fn stage(&self) -> (stage: Stage)
        ensures
            stage == self@.stage,
    {
        self.stage
    }

    /// The file that the next step works on.
    pub fn file(&self) -> (file: KeyFile)
        ensures
            file == file_of(self@.stage),
    {
        match self.stage {
            Stage::CreatePublic | Stage::WritePublic => KeyFile::Public,
            _ => KeyFile::Secret,
        }
    }

    /// The path of the file that the next step works on.
    pub fn path(&self) -> (path: &str)
        requires
            self.wf(),
        ensures
            path@ == path_of(self@.plan, file_of(self@.stage)),
    {
        match self.stage {
            Stage::CreatePublic | Stage::WritePublic => self.public_path.as_str(),
            _ => self.secret_path.as_str(),
        }
    }

    /// The permissions with which the next step creates its file.
    pub fn mode(&self) -> (mode: FileMode)
        ensures
            mode == mode_of(file_of(self@.stage)),
    {
        match self.stage {
            Stage::CreatePublic | Stage::WritePublic => FileMode::Default,
            _ => FileMode::OwnerOnly,
        }
    }

    /// The bytes that a write step writes; empty at the other steps.
    pub fn payload(&self) -> (bytes: &[u8])
        requires
            self.wf(),
        ensures
            self@.stage == Stage::WritePublic ==> bytes@ == self@.plan.public_bytes,
            self@.stage == Stage::WriteSecret ==> bytes@ == self@.plan.secret_bytes,
            self@.stage != Stage::WritePublic && self@.stage != Stage::WriteSecret
                ==> bytes@.len() == 0,
    {
        match self.stage {
            Stage::WritePublic => self.public_out.as_slice(),
            Stage::WriteSecret => self.secret_out.as_slice(),
            _ => {
                let nothing: &[u8] = &[];
                nothing
            },
        }
    }

    /// Takes the outcome of the step just done: `Ok` where it succeeded, the
    /// system's reason where it failed.
    pub fn advance(&mut self, outcome: Result<(), String>)
        requires
            old(self).wf(),
        ensures
            final(self).wf(),
            final(self)@ == after(
                old(self)@,
                match outcome {
                    Ok(_) => Ok(()),
                    Err(cause) => Err(cause@),
                },
            ),
    {
        match self.stage {
            Stage::Finished => {},
            stage => match outcome {
                Err(cause) => {
                    let path = match stage {
                        Stage::CreatePublic | Stage::WritePublic => self.public_path.clone(),
                        _ => self.secret_path.clone(),
                    };
                    let error = match stage {
                        Stage::CreatePublic => IoError::CreateFailed {
                            file: KeyFile::Public,
                            path,
                            cause,
                        },
                        Stage::WritePublic => IoError::WriteFailed {
                            file: KeyFile::Public,
                            path,
                            cause,
                        },
                        Stage::CreateSecret => IoError::CreateFailed {
                            file: KeyFile::Secret,
                            path,
                            cause,
                        },
                        _ => IoError::WriteFailed { file: KeyFile::Secret, path, cause },
                    };
                    wipe_bytes(&mut self.public_out);
                    wipe_bytes(&mut self.secret_out);
                    self.failure = Some(error);
                    self.stage = Stage::Finished;
                },
                Ok(_) => match stage {
                    Stage::CreatePublic => {
                        self.stage = Stage::WritePublic;
                    },
                    Stage::WritePublic => {
                        wipe_bytes(&mut self.public_out);
                        self.stage = Stage::CreateSecret;
                    },
                    Stage::CreateSecret => {
                        self.stage = Stage::WriteSecret;
                    },
                    _ => {
                        wipe_bytes(&mut self.secret_out);
                        self.stage = Stage::Finished;
                    },
                },
            },
        }
    }

    /// Gives the run up: wipes both buffers and finishes without an error.
    pub fn abandon(&mut self)
        requires
            old(self).wf(),
        ensures
            final(self).wf(),
            final(self)@ == (WriterState {
                stage: Stage::Finished,
                public_held: Seq::empty(),
                secret_held: Seq::empty(),
                ..old(self)@
            }),
    {
        wipe_bytes(&mut self.public_out);
        wipe_bytes(&mut self.secret_out);
        self.stage = Stage::Finished;
    }

    /// How the run ended: `None` while steps are left, then `Ok` where both
    /// files were written and the error of the step that failed otherwise.
    pub fn result(&self) -> (r: Option<Result<(), IoError>>)
        ensures
            self@.stage != Stage::Finished <==> r is None,
            match r {
                Some(Ok(_)) => self@.failure is None,
                Some(Err(e)) => self@.failure == Some(e@),
                None => true,
            },
    {
        match self.stage {
            Stage::Finished => match &self.failure {
                None => Some(Ok(())),
                Some(IoError::CreateFailed { file, path, cause }) => Some(
                    Err(
                        IoError::CreateFailed {
                            file: *file,
                            path: path.clone(),
                            cause: cause.clone(),
                        },
                    ),
                ),
                Some(IoError::WriteFailed { file, path, cause }) => Some(
                    Err(
                        IoError::WriteFailed {
                            file: *file,
                            path: path.clone(),
                            cause: cause.clone(),
                        },
                    ),
                ),
            },
            _ => None,
        }
    }

    /// Whether no buffer of the writer holds a byte any more.
    pub fn is_wiped(&self) -> (wiped: bool)
        ensures
            wiped == (self@.public_held.len() == 0 && self@.secret_held.len() == 0),
    {
        self.public_out.len() == 0 && self.secret_out.len() == 0
    }
}

/// A keypair on its way to its files: the writer that says what to do, and
/// the lines to print once both files are written.
pub struct SaveJob {
    pub writer: KeyWriter,
    pub report: Vec<String>,
}

/// Prepares the saving of a keypair, which it takes over.
///
/// Nothing is written here. The caller runs the steps of the writer and
/// prints the report if they all succeed. `algorithm` and `variant` are the
/// names that the report shows.
pub fn save_keys(
    pk_bytes: Vec<u8>,
    sk_bytes: Vec<u8>,
    pk_path: &str,
    sk_path: &str,
    algorithm: &str,
    variant: &str,
    pk_text: bool,
    sk_text: bool,
    tr: &Translations,
) -> (job: SaveJob)
    requires
        pk_text ==> encodable(pk_bytes@.len()),
        sk_text ==> encodable(sk_bytes@.len()),
    ensures
        job.writer.wf(),
        job.writer@ == initial(
            plan_for(pk_bytes@, sk_bytes@, pk_path@, sk_path@, pk_text, sk_text),
        ),
        job.report.deep_view() == success_lines(
            tr@,
            algorithm@,
            variant@,
            pk_path@,
            sk_path@,
            pk_bytes@,
        ),
{
    let report = success_report(tr, algorithm, variant, pk_path, sk_path, pk_bytes.as_slice());
    let material = KeyMaterial::new(pk_bytes, sk_bytes);
    let writer = KeyWriter::new(material, pk_path, sk_path, pk_text, sk_text);
    SaveJob { writer, report }
}

/// [`save_keys`] with the table of the default language, Korean.
pub fn save_keys_default(
    pk_bytes: Vec<u8>,
    sk_bytes: Vec<u8>,
    pk_path: &str,
    sk_path: &str,
    algorithm: &str,
    variant: &str,
    pk_text: bool,
    sk_text: bool,
) -> (job: SaveJob)
    requires
        pk_text ==> encodable(pk_bytes@.len()),
        sk_text ==> encodable(sk_bytes@.len()),
    ensures
        job.writer.wf(),
        job.writer@ == initial(
            plan_for(pk_bytes@, sk_bytes@, pk_path@, sk_path@, pk_text, sk_text),
        ),
        job.report.deep_view() == success_lines(
            builtin_table(Language::Korean),
            algorithm@,
            variant@,
            pk_path@,
            sk_path@,
            pk_bytes@,
        ),
{
    let tr = load_translations_default();
    save_keys(pk_bytes, sk_bytes, pk_path, sk_path, algorithm, variant, pk_text, sk_text, &tr)
}

/// The state after a list of outcomes, taken one after the other.
pub open spec fn run(s: WriterState, outcomes: Seq<Result<(), Seq<char>>>) -> WriterState
    decreases outcomes.len(),
{
    if outcomes.len() == 0 {
        s
    } else {
        run(after(s, outcomes[0]), outcomes.skip(1))
    }
}

/// The step that is due after `done` successes in a row.
pub open spec fn stage_after(done: int) -> Stage {
    if done <= 0 {
        Stage::CreatePublic
    } else if done == 1 {
        Stage::WritePublic
    } else if done == 2 {
        Stage::CreateSecret
    } else if done == 3 {
        Stage::WriteSecret
    } else {
        Stage::Finished
    }
}

/// Every step keeps the writer in one of its states, and the plan is never
/// changed.
pub proof fn lemma_after_is_consistent(s: WriterState, outcome: Result<(), Seq<char>>)
    requires
        consistent(s),
    ensures
        consistent(after(s, outcome)),
        after(s, outcome).plan == s.plan,
{
}

/// A writer that has finished holds no key bytes, whether it finished by
/// writing both files or by a failure at any step, and a failure finishes it
/// at once.
pub proof fn lemma_finished_is_wiped(s: WriterState, outcome: Result<(), Seq<char>>)
    requires
        consistent(s),
    ensures
        s.stage == Stage::Finished ==> s.public_held.len() == 0 && s.secret_held.len() == 0,
        outcome is Err ==> after(s, outcome).stage == Stage::Finished,
        after(s, outcome).stage == Stage::Finished ==> after(s, outcome).public_held.len() == 0
            && after(s, outcome).secret_held.len() == 0,
{
}

/// Whatever the outcomes are, the writer stays in one of its states: at no
/// point of any run does a finished writer hold a byte of a key.
pub proof fn lemma_every_run_is_consistent(s: WriterState, outcomes: Seq<Result<(), Seq<char>>>)
    requires
        consistent(s),
    ensures
        consistent(run(s, outcomes)),
        run(s, outcomes).plan == s.plan,
        run(s, outcomes).stage == Stage::Finished ==> run(s, outcomes).public_held.len() == 0
            && run(s, outcomes).secret_held.len() == 0,
    decreases outcomes.len(),
{
    if outcomes.len() > 0 {
        lemma_after_is_consistent(s, outcomes[0]);
        lemma_every_run_is_consistent(after(s, outcomes[0]), outcomes.skip(1));
    }
}

/// A finished writer stays as it is: no later outcome changes its result.
pub proof fn lemma_finished_is_final(s: WriterState, outcomes: Seq<Result<(), Seq<char>>>)
    requires
        s.stage == Stage::Finished,
    ensures
        run(s, outcomes) == s,
    decreases outcomes.len(),
{
    if outcomes.len() > 0 {
        lemma_finished_is_final(s, outcomes.skip(1));
    }
}

/// A run of successes goes through the steps in their order: the public key
/// file is created and written, then the secret key file, and after the
/// fourth success the run has ended without an error.
pub proof fn lemma_successes_in_order(plan: Plan, outcomes: Seq<Result<(), Seq<char>>>)
    requires
        forall|i: int| 0 <= i < outcomes.len() ==> outcomes[i] is Ok,
    ensures
        run(initial(plan), outcomes).stage == stage_after(outcomes.len() as int),
        run(initial(plan), outcomes).failure is None,
{
    lemma_successes_from(initial(plan), 0, outcomes);
}

proof fn lemma_successes_from(s: WriterState, done: int, outcomes: Seq<Result<(), Seq<char>>>)
    requires
        0 <= done,
        s.stage == stage_after(done),
        s.failure is None,
        forall|i: int| 0 <= i < outcomes.len() ==> outcomes[i] is Ok,
    ensures
        run(s, outcomes).stage == stage_after(done + outcomes.len()),
        run(s, outcomes).failure is None,
    decreases outcomes.len(),
{
    if outcomes.len() > 0 {
        lemma_successes_from(after(s, outcomes[0]), done + 1, outcomes.skip(1));
    }
}

/// The first failure decides the result: where the outcomes before position
/// `at` are successes and the one at `at` is a failure, with fewer than four
/// successes before it, the run ends with the error of the step that was due
/// then, whatever outcomes follow. No partial success is reported.
pub proof fn lemma_first_failure_decides(
    plan: Plan,
    outcomes: Seq<Result<(), Seq<char>>>,
    at: int,
)
    requires
        0 <= at < outcomes.len(),
        at < 4,
        forall|i: int| 0 <= i < at ==> outcomes[i] is Ok,
        outcomes[at] is Err,
    ensures
        run(initial(plan), outcomes).stage == Stage::Finished,
        run(initial(plan), outcomes).failure == Some(
            fault_at(plan, stage_after(at), outcomes[at]->Err_0),
        ),
        run(initial(plan), outcomes).public_held.len() == 0,
        run(initial(plan), outcomes).secret_held.len() == 0,
{
    lemma_failure_from(initial(plan), 0, outcomes, at);
}

proof fn lemma_failure_from(
    s: WriterState,
    done: int,
    outcomes: Seq<Result<(), Seq<char>>>,
    at: int,
)
    requires
        0 <= done,
        0 <= at < outcomes.len(),
        done + at < 4,
        s.stage == stage_after(done),
        forall|i: int| 0 <= i < at ==> outcomes[i] is Ok,
        outcomes[at] is Err,
    ensures
        run(s, outcomes).stage == Stage::Finished,
        run(s, outcomes).failure == Some(
            fault_at(s.plan, stage_after(done + at), outcomes[at]->Err_0),
        ),
        run(s, outcomes).public_held.len() == 0,
        run(s, outcomes).secret_held.len() == 0,
    decreases at,
{
    let rest = outcomes.skip(1);
    if at == 0 {
        lemma_finished_is_final(after(s, outcomes[0]), rest);
    } else {
        lemma_failure_from(after(s, outcomes[0]), done + 1, rest, at - 1);
    }
}

} // verus!
