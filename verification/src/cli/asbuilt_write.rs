//! The `asbuilt write` and `asbuilt restore` commands: change one feature of a module's
//! as-built block, or write back the blocks of a snapshot, with the safety steps around.
//!
//! The command reads the block, shows the change and asks for confirmation, saves a
//! snapshot of the block as read, writes the new contents (unless it is a dry run) and
//! appends an audit record. It is a state machine: each report of its driver (the block
//! was read, the user answered, the snapshot was saved, ...) is answered with the next
//! step, so the order of these steps is decided, and verified, here.

use vstd::prelude::*;
use crate::asbuilt::types::{AsBuiltBlock, Feature};
use crate::cli::args::{module_of, ModuleArg};
use crate::cli::asbuilt::{
    find_feature, found_at, has_feature, is_catalog_of, known_blocks, lemma_catalog_positions,
    module_from_can_id, module_with_can_id, prepare_write, prepared_change,
    unknown_feature_message,
};
use crate::error::{error_text, Error};
use crate::transport::isotp::copy_range;
use crate::types::Module;

verus! {

/// How a write command ended when nothing failed.
#[derive(Clone, Copy, Debug, PartialEq, Eq, Structural)]
pub enum WriteOutcome {
    /// The user declined the change: nothing was saved, written or recorded.
    Aborted,
    /// A dry run: the snapshot was saved and the audit recorded, nothing was written.
    DryRun,
    /// The new contents were written and the audit recorded.
    Written,
}

/// What the write command asks its driver to do next.
#[derive(Debug)]
pub enum WriteStep {
    /// Read the current contents of block `did` of `module`, then report them.
    ReadBlock { module: Module, did: u16 },
    /// Show the contents before and after the change; when `ask`, ask the user to confirm.
    /// Then report the answer.
    Review { ask: bool },
    /// Save a snapshot holding the block as read, then report whether it was saved.
    SaveSnapshot,
    /// Write `data` to block `did` of `module`, then report the result.
    WriteBlock { module: Module, did: u16, data: Vec<u8> },
    /// Append the audit record of the change, with this dry-run flag and result text,
    /// then report whether it was appended.
    Audit { dry_run: bool, result: String },
    /// The command is over, with its outcome or the message of its failure.
    Finished(Result<WriteOutcome, String>),
}

/// Where a write command stands.
#[derive(Clone, Copy, Debug, PartialEq, Eq, Structural)]
pub enum WriteStage {
    Reading,
    Reviewing,
    Saving,
    Writing,
    Auditing,
    Finished,
}

/// A result with its message taken by its view.
pub open spec fn outcome_view(r: Result<WriteOutcome, String>) -> Result<WriteOutcome, Seq<char>> {
    match r {
        Ok(o) => Ok(o),
        Err(m) => Err(m@),
    }
}

/// `s` finishes the command with `outcome`.
pub open spec fn finishes_with(s: WriteStep, outcome: Result<WriteOutcome, Seq<char>>) -> bool {
    s matches WriteStep::Finished(r) && outcome_view(r) == outcome
}

/// `s` asks for the audit record with this dry-run flag and result text.
pub open spec fn audits_with(s: WriteStep, dry_run: bool, result: Seq<char>) -> bool {
    s matches WriteStep::Audit { dry_run: d, result: t } && d == dry_run && t@ == result
}

/// The state of one `asbuilt write` command.
pub struct FeatureWrite {
    stage: WriteStage,
    module: Module,
    feature: Feature,
    value: String,
    dry_run: bool,
    ask: bool,
    block: AsBuiltBlock,
    before: Vec<u8>,
    after: Vec<u8>,
    confirmed: bool,
    snapshot_saved: bool,
    pending: Result<WriteOutcome, String>,
}

impl FeatureWrite {
    pub closed spec fn spec_stage(&self) -> WriteStage {
        self.stage
    }

    /// The module written to.
    pub closed spec fn spec_module(&self) -> Module {
        self.module
    }

    /// The feature changed.
    pub closed spec fn spec_feature(&self) -> Feature {
        self.feature
    }

    /// The text of the new value.
    pub closed spec fn spec_value(&self) -> Seq<char> {
        self.value@
    }

    pub closed spec fn spec_dry_run(&self) -> bool {
        self.dry_run
    }

    /// Whether the user is asked to confirm (neither pre-confirmed nor a dry run).
    pub closed spec fn spec_ask(&self) -> bool {
        self.ask
    }

    /// The block of the feature; once read, holding the contents read.
    pub closed spec fn spec_block(&self) -> AsBuiltBlock {
        self.block
    }

    /// The contents read from the module.
    pub closed spec fn spec_before(&self) -> Seq<u8> {
        self.before@
    }

    /// The contents with the change applied.
    pub closed spec fn spec_after(&self) -> Seq<u8> {
        self.after@
    }

    /// The change was confirmed (or needed no confirmation).
    pub closed spec fn spec_confirmed(&self) -> bool {
        self.confirmed
    }

    /// The snapshot of the block as read was saved.
    pub closed spec fn spec_snapshot_saved(&self) -> bool {
        self.snapshot_saved
    }

    /// The outcome reported once the audit record is appended.
    pub closed spec fn spec_pending(&self) -> Result<WriteOutcome, Seq<char>> {
        outcome_view(self.pending)
    }

    /// The state is consistent: the change applies to what was read, and the write stage
    /// is reached only through a confirmation, a saved snapshot, and not in a dry run.
    pub closed spec fn wf(&self) -> bool {
        &&& self.feature.bit_position.byte < 8
        &&& self.stage != WriteStage::Reading && self.stage != WriteStage::Finished
            ==> self.block.data@ == self.before@
        &&& self.stage != WriteStage::Reading && self.stage != WriteStage::Finished
            ==> prepared_change(
            self.feature.feature_type,
            self.feature.bit_position,
            self.value@,
            self.before@,
        ) == Ok::<Seq<u8>, Seq<char>>(self.after@)
        &&& (self.stage == WriteStage::Saving || self.stage == WriteStage::Writing || self.stage
            == WriteStage::Auditing) ==> self.confirmed
        &&& (self.stage == WriteStage::Writing || self.stage == WriteStage::Auditing)
            ==> self.snapshot_saved
        &&& self.stage == WriteStage::Writing ==> !self.dry_run
    }

    /// The fields that no step changes.
    pub open spec fn same_request(&self, other: &FeatureWrite) -> bool {
        &&& other.spec_module() == self.spec_module()
        &&& other.spec_feature() == self.spec_feature()
        &&& other.spec_value() == self.spec_value()
        &&& other.spec_dry_run() == self.spec_dry_run()
        &&& other.spec_ask() == self.spec_ask()
        &&& other.spec_block().id == self.spec_block().id
        &&& other.spec_block().did == self.spec_block().did
        &&& other.spec_block().features == self.spec_block().features
    }

    /// Starts the write of `value` into the feature called `feature_name` of a module's
    /// catalog: fails when no block of the catalog has that feature, else asks to read the
    /// first block that has it. The user is asked to confirm unless `yes` or `dry_run`.
    pub fn start(module_arg: ModuleArg, feature_name: &str, value: &str, dry_run: bool, yes: bool) -> (r:
        Result<(FeatureWrite, WriteStep), String>)
        ensures
            r matches Err(m) ==> {
                &&& m@ == "unknown feature: "@ + feature_name@
                &&& exists|cat: Seq<AsBuiltBlock>|
                    is_catalog_of(module_arg, cat) && forall|i: int|
                        0 <= i < cat.len() ==> !has_feature(#[trigger] cat[i], feature_name@)
            },
            r matches Ok((w, step)) ==> {
                &&& w.wf()
                &&& w.spec_stage() == WriteStage::Reading
                &&& w.spec_module() == module_of(module_arg)
                &&& w.spec_value() == value@
                &&& w.spec_dry_run() == dry_run
                &&& w.spec_ask() == (!yes && !dry_run)
                &&& exists|cat: Seq<AsBuiltBlock>, i: int, j: int|
                    is_catalog_of(module_arg, cat) && #[trigger] found_at(
                        cat,
                        feature_name@,
                        i,
                        j,
                        w.spec_block(),
                        w.spec_feature(),
                    )
                &&& step == (WriteStep::ReadBlock {
                    module: module_of(module_arg),
                    did: w.spec_block().did,
                })
            },
    {
        let blocks = known_blocks(module_arg);
        let ghost cat = blocks@;
        match find_feature(blocks, feature_name) {
            None => Err(unknown_feature_message(feature_name)),
            Some((block, feature)) => {
                proof {
                    lemma_catalog_positions(module_arg, cat);
                    let (i, j) = choose|i: int, j: int|
                        found_at(cat, feature_name@, i, j, block, feature);
                    assert(feature.bit_position == cat[i].features@[j].bit_position);
                    assert(cat[i].features@[j].bit_position.byte < 8);
                }
                let module = Module::from(module_arg);
                let did = block.did;
                let w = FeatureWrite {
                    stage: WriteStage::Reading,
                    module,
                    feature,
                    value: String::from_str(value),
                    dry_run,
                    ask: !yes && !dry_run,
                    block,
                    before: Vec::new(),
                    after: Vec::new(),
                    confirmed: false,
                    snapshot_saved: false,
                    pending: Ok(WriteOutcome::Aborted),
                };
                Ok((w, WriteStep::ReadBlock { module, did }))
            },
        }
    }

    /// Takes the contents read from the module (or the error of the read) and prepares the
    /// change: a failed read or a refused value ends the command, else the change is shown
    /// for review.
    pub fn on_block_read(&mut self, data: Result<Vec<u8>, Error>) -> (r: WriteStep)
        requires
            old(self).wf(),
            old(self).spec_stage() == WriteStage::Reading,
        ensures
            final(self).wf(),
            old(self).same_request(final(self)),
            !(r is WriteBlock),
            match data {
                Err(e) => final(self).spec_stage() == WriteStage::Finished && finishes_with(
                    r,
                    Err(error_text(e)),
                ),
                Ok(d) => match prepared_change(
                    old(self).spec_feature().feature_type,
                    old(self).spec_feature().bit_position,
                    old(self).spec_value(),
                    d@,
                ) {
                    Err(m) => final(self).spec_stage() == WriteStage::Finished && finishes_with(
                        r,
                        Err(m),
                    ),
                    Ok(new) => {
                        &&& final(self).spec_stage() == WriteStage::Reviewing
                        &&& final(self).spec_before() == d@
                        &&& final(self).spec_after() == new
                        &&& final(self).spec_block().data@ == d@
                        &&& r == (WriteStep::Review { ask: old(self).spec_ask() })
                    },
                },
            },
    {
        match data {
            Err(e) => {
                self.stage = WriteStage::Finished;
                WriteStep::Finished(Err(e.to_string()))
            },
            Ok(current) => match prepare_write(&self.feature, self.value.as_str(), &current) {
                Err(m) => {
                    self.stage = WriteStage::Finished;
                    WriteStep::Finished(Err(m))
                },
                Ok((_, new_data)) => {
                    self.before = copy_range(&current, 0, current.len());
                    proof {
                        assert(self.before@ =~= current@);
                    }
                    self.after = new_data;
                    self.block.data = current;
                    self.stage = WriteStage::Reviewing;
                    WriteStep::Review { ask: self.ask }
                },
            },
        }
    }

    /// Takes the user's answer to the review (ignored when no question was asked): a
    /// refusal ends the command, else the snapshot is saved next.
    pub fn on_reviewed(&mut self, confirmed: bool) -> (r: WriteStep)
        requires
            old(self).wf(),
            old(self).spec_stage() == WriteStage::Reviewing,
        ensures
            final(self).wf(),
            old(self).same_request(final(self)),
            final(self).spec_before() == old(self).spec_before(),
            final(self).spec_after() == old(self).spec_after(),
            final(self).spec_block() == old(self).spec_block(),
            !(r is WriteBlock),
            if old(self).spec_ask() && !confirmed {
                final(self).spec_stage() == WriteStage::Finished && finishes_with(
                    r,
                    Ok(WriteOutcome::Aborted),
                )
            } else {
                &&& final(self).spec_stage() == WriteStage::Saving
                &&& final(self).spec_confirmed()
                &&& r is SaveSnapshot
            },
    {
        if self.ask && !confirmed {
            self.stage = WriteStage::Finished;
            WriteStep::Finished(Ok(WriteOutcome::Aborted))
        } else {
            self.confirmed = true;
            self.stage = WriteStage::Saving;
            WriteStep::SaveSnapshot
        }
    }

    /// Takes the result of saving the snapshot: a failure ends the command; after a saved
    /// snapshot a dry run goes to its audit record and any other run writes the new
    /// contents.
    ///
    /// This is the only step that asks for a write, and it does so only with the change
    /// confirmed, the snapshot saved and outside a dry run.
    pub fn on_snapshot_saved(&mut self, saved: Result<(), String>) -> (r: WriteStep)
        requires
            old(self).wf(),
            old(self).spec_stage() == WriteStage::Saving,
        ensures
            final(self).wf(),
            old(self).same_request(final(self)),
            final(self).spec_before() == old(self).spec_before(),
            final(self).spec_after() == old(self).spec_after(),
            match saved {
                Err(e) => final(self).spec_stage() == WriteStage::Finished && finishes_with(
                    r,
                    Err("failed to save snapshot: "@ + e@),
                ),
                Ok(()) => if old(self).spec_dry_run() {
                    &&& final(self).spec_stage() == WriteStage::Auditing
                    &&& final(self).spec_pending() == Ok::<WriteOutcome, Seq<char>>(
                        WriteOutcome::DryRun,
                    )
                    &&& audits_with(r, true, "ok"@)
                } else {
                    &&& final(self).spec_stage() == WriteStage::Writing
                    &&& r matches WriteStep::WriteBlock { module, did, data } && module
                        == old(self).spec_module() && did == old(self).spec_block().did && data@
                        == old(self).spec_after()
                },
            },
            r is WriteBlock ==> {
                &&& final(self).spec_confirmed()
                &&& final(self).spec_snapshot_saved()
                &&& !final(self).spec_dry_run()
            },
    {
        match saved {
            Err(e) => {
                self.stage = WriteStage::Finished;
                let mut m = String::from_str("failed to save snapshot: ");
                m.append(e.as_str());
                WriteStep::Finished(Err(m))
            },
            Ok(()) => {
                self.snapshot_saved = true;
                if self.dry_run {
                    self.stage = WriteStage::Auditing;
                    self.pending = Ok(WriteOutcome::DryRun);
                    WriteStep::Audit { dry_run: true, result: String::from_str("ok") }
                } else {
                    self.stage = WriteStage::Writing;
                    let data = copy_range(&self.after, 0, self.after.len());
                    proof {
                        assert(data@ =~= self.after@);
                    }
                    WriteStep::WriteBlock { module: self.module, did: self.block.did, data }
                }
            },
        }
    }

    /// Takes the result of the write; either way its audit record comes next, with `"ok"`
    /// or the error, and the command then reports success or `"write failed: "` and the
    /// error.
    pub fn on_written(&mut self, written: Result<(), Error>) -> (r: WriteStep)
        requires
            old(self).wf(),
            old(self).spec_stage() == WriteStage::Writing,
        ensures
            final(self).wf(),
            old(self).same_request(final(self)),
            final(self).spec_before() == old(self).spec_before(),
            final(self).spec_after() == old(self).spec_after(),
            final(self).spec_stage() == WriteStage::Auditing,
            !(r is WriteBlock),
            match written {
                Ok(()) => final(self).spec_pending() == Ok::<WriteOutcome, Seq<char>>(
                    WriteOutcome::Written,
                ) && audits_with(r, false, "ok"@),
                Err(e) => final(self).spec_pending() == Err::<WriteOutcome, Seq<char>>(
                    "write failed: "@ + error_text(e),
                ) && audits_with(r, false, "error: "@ + error_text(e)),
            },
    {
        self.stage = WriteStage::Auditing;
        match written {
            Ok(()) => {
                self.pending = Ok(WriteOutcome::Written);
                WriteStep::Audit { dry_run: false, result: String::from_str("ok") }
            },
            Err(e) => {
                let text = e.to_string();
                let mut failure = String::from_str("write failed: ");
                failure.append(text.as_str());
                self.pending = Err(failure);
                let mut result = String::from_str("error: ");
                result.append(text.as_str());
                WriteStep::Audit { dry_run: false, result }
            },
        }
    }

    /// Takes the result of appending the audit record: its failure is the command's, else
    /// the command ends as the earlier steps decided.
    pub fn on_audited(&mut self, appended: Result<(), String>) -> (r: WriteStep)
        requires
            old(self).wf(),
            old(self).spec_stage() == WriteStage::Auditing,
        ensures
            final(self).wf(),
            old(self).same_request(final(self)),
            final(self).spec_stage() == WriteStage::Finished,
            match appended {
                Err(e) => finishes_with(r, Err(e@)),
                Ok(()) => finishes_with(r, old(self).spec_pending()),
            },
    {
        self.stage = WriteStage::Finished;
        match appended {
            Err(e) => WriteStep::Finished(Err(e)),
            Ok(()) => {
                let outcome = match &self.pending {
                    Ok(o) => Ok(*o),
                    Err(m) => Err(m.clone()),
                };
                WriteStep::Finished(outcome)
            },
        }
    }

    /// The module written to.
    pub fn module(&self) -> (r: Module)
        ensures
            r == self.spec_module(),
    {
        self.module
    }

    /// The block of the feature; once read, holding the contents read (the snapshot).
    pub fn block(&self) -> (r: &AsBuiltBlock)
        ensures
            *r == self.spec_block(),
    {
        &self.block
    }

    /// The contents read from the module.
    pub fn before(&self) -> (r: &[u8])
        ensures
            r@ == self.spec_before(),
    {
        self.before.as_slice()
    }

    /// The contents with the change applied.
    pub fn after(&self) -> (r: &[u8])
        ensures
            r@ == self.spec_after(),
    {
        self.after.as_slice()
    }
}

/// What the restore command asks its driver to do next.
#[derive(Debug)]
pub enum RestoreStep {
    /// Read the current contents of block `did` of `module`, then report them.
    ReadBlock { module: Module, did: u16 },
    /// Write `data` to block `did` of `module`, then report the result.
    WriteBlock { module: Module, did: u16, data: Vec<u8> },
    /// Append the audit record of the current block's restore with this result text, then
    /// report whether it was appended.
    Audit { result: String },
    /// Block `index` of the snapshot was restored; report it, then continue.
    Restored(usize),
    /// The restore is over: every block restored, or the message of the first failure.
    Finished(Result<(), String>),
}

/// Where a restore stands with its current block.
#[derive(Clone, Copy, Debug, PartialEq, Eq, Structural)]
pub enum RestoreStage {
    Reading,
    Writing,
    Auditing,
    Reported,
    Finished,
}

/// `s` ends the restore with `outcome`.
pub open spec fn restore_finishes_with(s: RestoreStep, outcome: Result<(), Seq<char>>) -> bool {
    s matches RestoreStep::Finished(r) && match (r, outcome) {
        (Ok(()), Ok(())) => true,
        (Err(m), Err(t)) => m@ == t,
        _ => false,
    }
}

/// The step that begins the restore of block `i` of `blocks`: read it from the module its
/// identifier names, or fail when it names none, or finish when no block is left.
pub open spec fn begins_block(s: RestoreStep, blocks: Seq<AsBuiltBlock>, i: int) -> bool {
    if i >= blocks.len() {
        restore_finishes_with(s, Ok(()))
    } else {
        match module_with_can_id(blocks[i].id.module@) {
            None => restore_finishes_with(s, Err("unknown module CAN ID: "@ + blocks[i].id.module@)),
            Some(m) => s == (RestoreStep::ReadBlock { module: m, did: blocks[i].did }),
        }
    }
}

/// The state of one `asbuilt restore` command over the blocks of a snapshot.
pub struct SnapshotRestore {
    blocks: Vec<AsBuiltBlock>,
    index: usize,
    stage: RestoreStage,
    module: Module,
    current: Vec<u8>,
    failure: Option<String>,
}

impl SnapshotRestore {
    /// The blocks of the snapshot, in the order they are restored.
    pub closed spec fn spec_blocks(&self) -> Seq<AsBuiltBlock> {
        self.blocks@
    }

    /// The position of the block being restored.
    pub closed spec fn spec_index(&self) -> int {
        self.index as int
    }

    pub closed spec fn spec_stage(&self) -> RestoreStage {
        self.stage
    }

    /// The module of the block being restored.
    pub closed spec fn spec_module(&self) -> Module {
        self.module
    }

    /// The contents the module held before the block was written back.
    pub closed spec fn spec_current(&self) -> Seq<u8> {
        self.current@
    }

    /// The message the restore fails with once the audit record is appended, if the write
    /// of the current block failed.
    pub closed spec fn spec_failure(&self) -> Option<Seq<char>> {
        match self.failure {
            Some(m) => Some(m@),
            None => None,
        }
    }

    /// The state is consistent: a block in progress lies within the snapshot and its
    /// module is the one its identifier names.
    pub closed spec fn wf(&self) -> bool {
        &&& self.stage != RestoreStage::Finished ==> {
            &&& self.index < self.blocks@.len()
            &&& module_with_can_id(self.blocks@[self.index as int].id.module@) == Some(self.module)
        }
    }

    /// The step for block `index`, with the state set up for it.
    fn begin(&mut self, index: usize) -> (r: RestoreStep)
        requires
            index <= old(self).blocks@.len(),
        ensures
            final(self).wf(),
            final(self).blocks@ == old(self).blocks@,
            final(self).index == index || (final(self).stage == RestoreStage::Finished),
            index < old(self).blocks@.len() ==> final(self).index == index,
            begins_block(r, old(self).blocks@, index as int),
            r is ReadBlock ==> final(self).stage == RestoreStage::Reading && final(self).module
                == (r->ReadBlock_module),
            !(r is ReadBlock) ==> final(self).stage == RestoreStage::Finished,
    {
        if index >= self.blocks.len() {
            self.stage = RestoreStage::Finished;
            return RestoreStep::Finished(Ok(()));
        }
        self.index = index;
        match module_from_can_id(self.blocks[index].id.module.as_str()) {
            None => {
                self.stage = RestoreStage::Finished;
                let mut m = String::from_str("unknown module CAN ID: ");
                m.append(self.blocks[index].id.module.as_str());
                RestoreStep::Finished(Err(m))
            },
            Some(module) => {
                self.module = module;
                self.stage = RestoreStage::Reading;
                RestoreStep::ReadBlock { module, did: self.blocks[index].did }
            },
        }
    }

    /// Starts restoring the blocks of a snapshot, first to last.
    pub fn start(blocks: Vec<AsBuiltBlock>) -> (r: (SnapshotRestore, RestoreStep))
        ensures
            r.0.wf(),
            r.0.spec_blocks() == blocks@,
            begins_block(r.1, blocks@, 0),
            r.1 is ReadBlock ==> r.0.spec_index() == 0 && r.0.spec_stage() == RestoreStage::Reading,
    {
        let mut run = SnapshotRestore {
            blocks,
            index: 0,
            stage: RestoreStage::Finished,
            module: Module::Pcm,
            current: Vec::new(),
            failure: None,
        };
        let step = run.begin(0);
        (run, step)
    }

    /// Takes the contents read from the module: a failed read ends the restore, else the
    /// snapshot's contents of the block are written back.
    pub fn on_block_read(&mut self, data: Result<Vec<u8>, Error>) -> (r: RestoreStep)
        requires
            old(self).wf(),
            old(self).spec_stage() == RestoreStage::Reading,
        ensures
            final(self).wf(),
            final(self).spec_blocks() == old(self).spec_blocks(),
            final(self).spec_index() == old(self).spec_index(),
            match data {
                Err(e) => final(self).spec_stage() == RestoreStage::Finished && restore_finishes_with(
                    r,
                    Err(error_text(e)),
                ),
                Ok(d) => {
                    &&& final(self).spec_stage() == RestoreStage::Writing
                    &&& final(self).spec_current() == d@
                    &&& r matches RestoreStep::WriteBlock { module, did, data: w } && module
                        == old(self).spec_module() && did == old(self).spec_blocks()[old(
                        self,
                    ).spec_index()].did && w@ == old(self).spec_blocks()[old(
                        self,
                    ).spec_index()].data@
                },
            },
    {
        match data {
            Err(e) => {
                self.stage = RestoreStage::Finished;
                RestoreStep::Finished(Err(e.to_string()))
            },
            Ok(current) => {
                self.current = current;
                self.stage = RestoreStage::Writing;
                let b = &self.blocks[self.index];
                let data = copy_range(&b.data, 0, b.data.len());
                proof {
                    assert(data@ =~= b.data@);
                }
                RestoreStep::WriteBlock { module: self.module, did: b.did, data }
            },
        }
    }

    /// Takes the result of the write; either way its audit record comes next, with `"ok"`
    /// or the error.
    pub fn on_written(&mut self, written: Result<(), Error>) -> (r: RestoreStep)
        requires
            old(self).wf(),
            old(self).spec_stage() == RestoreStage::Writing,
        ensures
            final(self).wf(),
            final(self).spec_blocks() == old(self).spec_blocks(),
            final(self).spec_index() == old(self).spec_index(),
            final(self).spec_module() == old(self).spec_module(),
            final(self).spec_current() == old(self).spec_current(),
            final(self).spec_stage() == RestoreStage::Auditing,
            match written {
                Ok(()) => {
                    &&& final(self).spec_failure() is None
                    &&& r matches RestoreStep::Audit { result } && result@ == "ok"@
                },
                Err(e) => {
                    &&& final(self).spec_failure() == Some("restore failed for "@
                        + old(self).spec_blocks()[old(self).spec_index()].id.module@ + "-"@
                        + old(self).spec_blocks()[old(self).spec_index()].id.id@ + ": "@
                        + error_text(e))
                    &&& r matches RestoreStep::Audit { result } && result@ == "error: "@
                        + error_text(e)
                },
            },
    {
        self.stage = RestoreStage::Auditing;
        match written {
            Ok(()) => {
                self.failure = None;
                RestoreStep::Audit { result: String::from_str("ok") }
            },
            Err(e) => {
                let text = e.to_string();
                let mut m = String::from_str("restore failed for ");
                let id = self.blocks[self.index].id.to_string();
                m.append(id.as_str());
                m.append(": ");
                m.append(text.as_str());
                self.failure = Some(m);
                let mut result = String::from_str("error: ");
                result.append(text.as_str());
                RestoreStep::Audit { result }
            },
        }
    }

    /// Takes the result of appending the audit record: its failure, or the write's, ends
    /// the restore; else the block is reported restored.
    pub fn on_audited(&mut self, appended: Result<(), String>) -> (r: RestoreStep)
        requires
            old(self).wf(),
            old(self).spec_stage() == RestoreStage::Auditing,
        ensures
            final(self).wf(),
            final(self).spec_blocks() == old(self).spec_blocks(),
            final(self).spec_index() == old(self).spec_index(),
            match appended {
                Err(e) => final(self).spec_stage() == RestoreStage::Finished && restore_finishes_with(
                    r,
                    Err(e@),
                ),
                Ok(()) => match old(self).spec_failure() {
                    Some(m) => final(self).spec_stage() == RestoreStage::Finished
                        && restore_finishes_with(r, Err(m)),
                    None => {
                        &&& final(self).spec_stage() == RestoreStage::Reported
                        &&& r matches RestoreStep::Restored(k) && k == old(self).spec_index()
                    },
                },
            },
    {
        match appended {
            Err(e) => {
                self.stage = RestoreStage::Finished;
                RestoreStep::Finished(Err(e))
            },
            Ok(()) => match &self.failure {
                Some(m) => {
                    let m = m.clone();
                    self.stage = RestoreStage::Finished;
                    RestoreStep::Finished(Err(m))
                },
                None => {
                    self.stage = RestoreStage::Reported;
                    RestoreStep::Restored(self.index)
                },
            },
        }
    }

    /// Moves on to the next block once the restored one was reported; after the last,
    /// the restore is complete.
    pub fn on_reported(&mut self) -> (r: RestoreStep)
        requires
            old(self).wf(),
            old(self).spec_stage() == RestoreStage::Reported,
        ensures
            final(self).wf(),
            final(self).spec_blocks() == old(self).spec_blocks(),
            begins_block(r, old(self).spec_blocks(), old(self).spec_index() + 1),
            r is ReadBlock ==> final(self).spec_index() == old(self).spec_index() + 1
                && final(self).spec_stage() == RestoreStage::Reading,
    {
        let n = self.blocks.len();
        assert(self.index < n);
        let next = self.index + 1;
        self.begin(next)
    }

    /// The block being restored.
    pub fn block(&self) -> (r: &AsBuiltBlock)
        requires
            self.wf(),
            self.spec_stage() != RestoreStage::Finished,
        ensures
            *r == self.spec_blocks()[self.spec_index()],
    {
        &self.blocks[self.index]
    }

    /// The module of the block being restored.
    pub fn module(&self) -> (r: Module)
        ensures
            r == self.spec_module(),
    {
        self.module
    }

    /// The contents the module held before the block was written back.
    pub fn current(&self) -> (r: &[u8])
        ensures
            r@ == self.spec_current(),
    {
        self.current.as_slice()
    }
}

} // verus!
