//! The run as a state machine. The caller performs each action: it opens
//! the connection, executes statements, commits, reads the clock. The
//! machine decides what comes next and stops the run at the first failure.

use vstd::prelude::*;
use crate::batches::{
    batch_bounds, batch_end_of, batch_start_of, lemma_batch_starts_inside,
    lemma_batches_are_consecutive, lemma_num_batches_cases, num_batches, num_batches_of,
    total_records,
};
use crate::config::RunConfig;
use crate::errors::AppError;
use crate::workload::{lemma_records_concatenate, records_in, RowView};

verus! {

/// Where a run stands: the action that is being performed.
#[derive(Clone, Copy, Debug, PartialEq, Eq, Structural)]
pub enum Phase {
    /// Opening the connection.
    Connecting,
    /// Creating the tables of the layout.
    Preparing,
    /// Drawing the tag pool and starting the clock.
    Starting,
    /// Inserting the batch with this index, in a transaction of its own.
    Inserting(u64),
    /// Closing the connection and stopping the clock.
    Closing,
    /// Measuring the file and writing the report.
    Reporting,
    /// The run is complete.
    Finished,
    /// The run failed.
    Aborted,
}

/// What the caller does next.
#[derive(Debug)]
pub enum Action {
    /// Open the connection to the layout's database file.
    Connect,
    /// Execute the layout's preparation statements.
    Prepare,
    /// Draw the tag pool, then start the clock.
    StartClock,
    /// Generate the records of `start..end` and insert them in one
    /// transaction: begin, execute the layout's steps, commit.
    InsertBatch { index: u64, start: u64, end: u64 },
    /// Close the connection, then stop the clock.
    Close,
    /// Read the size of the database file and write the report.
    Report,
    /// Nothing is left to do.
    Stop,
    /// Give up with this error; nothing is reported.
    Abort(AppError),
}

/// Number of batches of a run with this configuration.
pub open spec fn batches_of(config: RunConfig) -> nat {
    num_batches_of(config.total(), config.batch_size as nat)
}

/// The phase that follows `phase` when its action succeeded.
pub open spec fn next_phase(config: RunConfig, phase: Phase) -> Phase {
    match phase {
        Phase::Connecting => Phase::Preparing,
        Phase::Preparing => Phase::Starting,
        Phase::Starting => if batches_of(config) == 0 {
            Phase::Closing
        } else {
            Phase::Inserting(0)
        },
        Phase::Inserting(b) => if b + 1 < batches_of(config) {
            Phase::Inserting((b + 1) as u64)
        } else {
            Phase::Closing
        },
        Phase::Closing => Phase::Reporting,
        Phase::Reporting => Phase::Finished,
        Phase::Finished => Phase::Finished,
        Phase::Aborted => Phase::Aborted,
    }
}

/// The action that `phase` asks for.
pub open spec fn action_of(config: RunConfig, phase: Phase) -> Action {
    match phase {
        Phase::Connecting => Action::Connect,
        Phase::Preparing => Action::Prepare,
        Phase::Starting => Action::StartClock,
        Phase::Inserting(b) => Action::InsertBatch {
            index: b,
            start: batch_start_of(b as nat, config.batch_size as nat) as u64,
            end: batch_end_of(b as nat, config.batch_size as nat, config.total()) as u64,
        },
        Phase::Closing => Action::Close,
        Phase::Reporting => Action::Report,
        Phase::Finished => Action::Stop,
        Phase::Aborted => Action::Stop,
    }
}

/// The phase of a run after `k` actions that all succeeded.
pub open spec fn phase_after(config: RunConfig, k: nat) -> Phase
    decreases k,
{
    if k == 0 {
        Phase::Connecting
    } else {
        next_phase(config, phase_after(config, (k - 1) as nat))
    }
}

/// A run.
pub struct Driver {
    config: RunConfig,
    total: u64,
    batches: u64,
    phase: Phase,
}

impl Driver {
    /// The configuration of the run.
    pub closed spec fn config(&self) -> RunConfig {
        self.config
    }

    /// The phase the run is in.
    pub closed spec fn phase(&self) -> Phase {
        self.phase
    }

    /// The run is planned from a valid configuration, and no batch is in
    /// flight that the plan does not have.
    #[verifier::type_invariant]
    closed spec fn wf(&self) -> bool {
        &&& self.config.valid()
        &&& self.total == self.config.total()
        &&& self.batches == batches_of(self.config)
        &&& self.phase matches Phase::Inserting(b) ==> b < self.batches
    }

    /// A run of `config` about to connect, or `None` where `config` is not
    /// valid.
    pub fn new(config: RunConfig) -> (driver: Option<Driver>)
        ensures
            driver is Some <==> config.valid(),
            driver matches Some(d) ==> d.config() == config && d.phase() == Phase::Connecting,
    {
        if !config.is_valid() {
            return None;
        }
        match total_records(config.count) {
            Some(total) => Some(
                Driver {
                    config,
                    total,
                    batches: num_batches(total, config.batch_size),
                    phase: Phase::Connecting,
                },
            ),
            None => None,
        }
    }

    /// The configuration of the run.
    pub fn run_config(&self) -> (config: RunConfig)
        ensures
            config == self.config(),
            config.valid(),
    {
        proof {
            use_type_invariant(self);
        }
        self.config
    }

    /// The phase the run is in.
    pub fn current_phase(&self) -> (phase: Phase)
        ensures
            phase == self.phase(),
    {
        self.phase
    }

    /// Total number of records of the run.
    pub fn total_records(&self) -> (total: u64)
        ensures
            total == self.config().total(),
    {
        proof {
            use_type_invariant(self);
        }
        self.total
    }

    /// Number of batches of the run.
    pub fn batch_count(&self) -> (n: u64)
        ensures
            n == batches_of(self.config()),
    {
        proof {
            use_type_invariant(self);
        }
        self.batches
    }

    /// The action of the current phase.
    pub fn action(&self) -> (action: Action)
        ensures
            action == action_of(self.config(), self.phase()),
    {
        proof {
            use_type_invariant(self);
        }
        match self.phase {
            Phase::Connecting => Action::Connect,
            Phase::Preparing => Action::Prepare,
            Phase::Starting => Action::StartClock,
            Phase::Inserting(b) => {
                let range: (u64, u64) = batch_bounds(b, self.config.batch_size, self.total);
                Action::InsertBatch { index: b, start: range.0, end: range.1 }
            },
            Phase::Closing => Action::Close,
            Phase::Reporting => Action::Report,
            Phase::Finished => Action::Stop,
            Phase::Aborted => Action::Stop,
        }
    }

    /// Takes the outcome of the action just performed and says what to do
    /// next. After a success the run moves to the next phase and asks for
    /// its action. After a failure the run is aborted, whatever phase it
    /// was in, and the error is handed back unchanged.
    pub fn advance(&mut self, outcome: Result<(), AppError>) -> (action: Action)
        ensures
            final(self).config() == old(self).config(),
            outcome is Ok ==> final(self).phase() == next_phase(old(self).config(), old(self).phase())
                && action == action_of(final(self).config(), final(self).phase()),
            outcome matches Err(error) ==> final(self).phase() == Phase::Aborted && action
                == Action::Abort(error),
    {
        proof {
            use_type_invariant(&*self);
        }
        match outcome {
            Ok(_) => {
                let next: Phase = match self.phase {
                    Phase::Connecting => Phase::Preparing,
                    Phase::Preparing => Phase::Starting,
                    Phase::Starting => if self.batches == 0 {
                        Phase::Closing
                    } else {
                        Phase::Inserting(0)
                    },
                    Phase::Inserting(b) => if b + 1 < self.batches {
                        Phase::Inserting(b + 1)
                    } else {
                        Phase::Closing
                    },
                    Phase::Closing => Phase::Reporting,
                    Phase::Reporting => Phase::Finished,
                    Phase::Finished => Phase::Finished,
                    Phase::Aborted => Phase::Aborted,
                };
                self.phase = next;
                self.action()
            },
            Err(error) => {
                self.phase = Phase::Aborted;
                Action::Abort(error)
            },
        }
    }
}

/// The schedule of a run without failure: connect, prepare, start the
/// clock, insert the batches `0, 1, ..` in order, each once, close, report,
/// and then nothing more.
pub proof fn lemma_run_schedule(config: RunConfig, k: nat)
    requires
        config.valid(),
    ensures
        k == 0 ==> phase_after(config, k) == Phase::Connecting,
        k == 1 ==> phase_after(config, k) == Phase::Preparing,
        k == 2 ==> phase_after(config, k) == Phase::Starting,
        3 <= k < 3 + batches_of(config) ==> phase_after(config, k) == Phase::Inserting(
            (k - 3) as u64,
        ),
        k == 3 + batches_of(config) ==> phase_after(config, k) == Phase::Closing,
        k == 4 + batches_of(config) ==> phase_after(config, k) == Phase::Reporting,
        k >= 5 + batches_of(config) ==> phase_after(config, k) == Phase::Finished,
    decreases k,
{
    lemma_batch_count_fits(config);
    if k > 0 {
        lemma_run_schedule(config, (k - 1) as nat);
    }
}

/// A run that has finished or was aborted stays so: no success moves it on,
/// and it asks for nothing more.
pub proof fn lemma_terminal_phases_stay(config: RunConfig, phase: Phase)
    requires
        phase == Phase::Finished || phase == Phase::Aborted,
    ensures
        next_phase(config, phase) == phase,
        action_of(config, phase) == Action::Stop,
{
}

/// A valid run has fewer than `2^63` batches.
pub proof fn lemma_batch_count_fits(config: RunConfig)
    requires
        config.valid(),
    ensures
        batches_of(config) <= config.total() <= i64::MAX,
{
    let n: nat = batches_of(config);
    if n > 0 {
        lemma_batch_starts_inside((n - 1) as nat, config.total(), config.batch_size as nat);
        assert((n - 1) * config.batch_size >= n - 1) by (nonlinear_arith)
            requires
                n >= 1,
                config.batch_size >= 1,
        ;
    }
}

/// The batches a run inserts are those of its plan: the action of the
/// phase `Inserting(b)` carries the offsets that batch `b` holds, which lie
/// inside the run and are not empty.
pub proof fn lemma_insert_action_range(config: RunConfig, b: u64)
    requires
        config.valid(),
        b < batches_of(config),
    ensures
        action_of(config, Phase::Inserting(b)) matches Action::InsertBatch { index, start, end }
            && index == b && start == batch_start_of(b as nat, config.batch_size as nat) && end
            == batch_end_of(b as nat, config.batch_size as nat, config.total()) && start < end
            <= config.total(),
{
    lemma_batches_are_consecutive(config.total(), config.batch_size as nat, b as nat);
}

/// The records that the first `k` batches of a run insert, in the order of
/// insertion.
pub open spec fn records_inserted(config: RunConfig, pool: Seq<Seq<char>>, k: nat) -> Seq<RowView>
    decreases k,
{
    if k == 0 {
        Seq::empty()
    } else {
        records_inserted(config, pool, (k - 1) as nat) + records_in(
            pool,
            batch_start_of((k - 1) as nat, config.batch_size as nat),
            batch_end_of((k - 1) as nat, config.batch_size as nat, config.total()),
        )
    }
}

/// After its first `k` batches a run has inserted the records of all the
/// offsets below the end of batch `k - 1`, each once and in order.
pub proof fn lemma_records_inserted_prefix(config: RunConfig, pool: Seq<Seq<char>>, k: nat)
    requires
        config.valid(),
        1 <= k <= batches_of(config),
    ensures
        records_inserted(config, pool, k) == records_in(
            pool,
            0,
            batch_end_of((k - 1) as nat, config.batch_size as nat, config.total()),
        ),
    decreases k,
{
    let size: nat = config.batch_size as nat;
    let total: nat = config.total();
    lemma_batches_are_consecutive(total, size, (k - 1) as nat);
    if k == 1 {
        assert(records_inserted(config, pool, 0) =~= Seq::<RowView>::empty());
    } else {
        lemma_records_inserted_prefix(config, pool, (k - 1) as nat);
        lemma_batches_are_consecutive(total, size, (k - 2) as nat);
        lemma_records_concatenate(
            pool,
            0,
            batch_start_of((k - 1) as nat, size),
            batch_end_of((k - 1) as nat, size, total),
        );
    }
}

/// A run without failure inserts exactly the records of the offsets
/// `0..total`, each once and in the order of their offsets: as many records
/// as were asked for.
pub proof fn lemma_run_inserts_every_record(config: RunConfig, pool: Seq<Seq<char>>)
    requires
        config.valid(),
    ensures
        records_inserted(config, pool, batches_of(config)) == records_in(pool, 0, config.total()),
        records_inserted(config, pool, batches_of(config)).len() == config.total(),
{
    let n: nat = batches_of(config);
    lemma_num_batches_cases(config.total(), config.batch_size as nat);
    if n > 0 {
        lemma_records_inserted_prefix(config, pool, n);
        lemma_batches_are_consecutive(config.total(), config.batch_size as nat, (n - 1) as nat);
    }
}

} // verus!
