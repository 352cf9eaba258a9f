//! The once-per-block inclusion step and the guard that records it.
use vstd::prelude::*;
use crate::freed::{CoreIndex, FreedReason, merge_freed_cores, merged_freed};
use crate::weight_limit::{block_weight_remaining, limit_backed_candidates, remaining_weight, retained_count};

verus! {

/// Who dispatched a call.
#[derive(Clone, Copy, Debug, PartialEq, Eq, Structural)]
pub enum Origin {
    /// The block author itself, putting data into the block without a signature.
    Inherent,
    /// The privileged root origin.
    Root,
    /// A signed transaction from the given account.
    Signed(u64),
}

/// Why an admission, or a block, was refused.
#[derive(Debug, PartialEq, Eq)]
pub enum AdmissionError<E> {
    /// The call did not come from the block author as inherent data.
    BadOrigin,
    /// Work was already admitted in this block.
    DuplicateAdmission,
    /// The inclusion collaborator refused the bitfields.
    BitfieldProcessingFailed(E),
    /// The inclusion collaborator refused the candidates.
    CandidateProcessingFailed(E),
    /// The block ended without any admitted work.
    MissingAdmission,
}

/// The collaborators that the inclusion step drives: availability
/// inclusion, core scheduling, upward messages and configuration.
///
/// The collaborators are deterministic: each operation's result and the state
/// it leaves are given by the spec functions below, as functions of the state
/// and the arguments. An implementation promises that its methods agree with
/// them.
pub trait Config: Sized {
    /// A signed availability bitfield.
    type Bitfield;
    /// A backed candidate.
    type Candidate;
    /// The scheduler's rule for when pending availability has timed out.
    type Predicate;
    /// The scheduler's current assignment of cores.
    type Schedule;
    /// An error of the inclusion collaborator.
    type Error;

    /// What processing `bitfields` returns: the cores whose availability concluded.
    spec fn bitfields_result(&self, bitfields: Seq<Self::Bitfield>) -> Result<Seq<CoreIndex>, Self::Error>;

    /// The state after processing `bitfields`.
    spec fn after_bitfields(&self, bitfields: Seq<Self::Bitfield>) -> Self;

    /// The availability timeout rule in force.
    spec fn timeout_rule(&self) -> Option<Self::Predicate>;

    /// The cores that time out under `pred`.
    spec fn pending_result(&self, pred: Self::Predicate) -> Seq<CoreIndex>;

    /// The state after collecting the cores that time out under `pred`.
    spec fn after_collect(&self, pred: Self::Predicate) -> Self;

    /// The state after scheduling again with `freed`.
    spec fn after_schedule(&self, freed: Seq<(CoreIndex, FreedReason)>) -> Self;

    /// The current assignment of cores.
    spec fn current_schedule(&self) -> Self::Schedule;

    /// What processing `candidates` against `scheduled` returns: the cores they occupy.
    spec fn candidates_result(
        &self,
        candidates: Seq<Self::Candidate>,
        scheduled: Self::Schedule,
    ) -> Result<Seq<CoreIndex>, Self::Error>;

    /// The state after processing `candidates` against `scheduled`.
    spec fn after_candidates(&self, candidates: Seq<Self::Candidate>, scheduled: Self::Schedule) -> Self;

    /// The state after noting that `cores` were occupied.
    spec fn after_occupied(&self, cores: Seq<CoreIndex>) -> Self;

    /// The state after dispatching pending upward messages.
    spec fn after_upward(&self) -> Self;

    /// The configured weight of processing one backed candidate.
    spec fn candidate_weight(&self) -> u64;

    /// The weight limit of a block.
    spec fn max_weight(&self) -> u64;

    /// The weight already consumed in the current block.
    spec fn consumed_weight(&self) -> u64;

    /// A copy of the state, to work on without touching this one.
    fn duplicate(&self) -> (r: Self)
        ensures
            r == *self,
    ;

    /// A copy of a list of bitfields.
    fn duplicate_bitfields(&self, bitfields: &Vec<Self::Bitfield>) -> (r: Vec<Self::Bitfield>)
        ensures
            r@ == bitfields@,
    ;

    /// A copy of a list of candidates.
    fn duplicate_candidates(&self, candidates: &Vec<Self::Candidate>) -> (r: Vec<Self::Candidate>)
        ensures
            r@ == candidates@,
    ;

    /// Processes the bitfields and returns the cores whose availability concluded.
    fn process_bitfields(&mut self, bitfields: Vec<Self::Bitfield>) -> (r: Result<Vec<CoreIndex>, Self::Error>)
        ensures
            cores_view(r) == old(self).bitfields_result(bitfields@),
            *final(self) == old(self).after_bitfields(bitfields@),
    ;

    /// The availability timeout rule currently in force, if any.
    fn availability_timeout_predicate(&self) -> (r: Option<Self::Predicate>)
        ensures
            r == self.timeout_rule(),
    ;

    /// Frees and returns the cores whose pending availability timed out under `pred`.
    fn collect_pending(&mut self, pred: Self::Predicate) -> (r: Vec<CoreIndex>)
        ensures
            r@ == old(self).pending_result(pred),
            *final(self) == old(self).after_collect(pred),
    ;

    /// Schedules cores again, given the freed cores and why each was freed.
    fn schedule(&mut self, freed: Vec<(CoreIndex, FreedReason)>)
        ensures
            *final(self) == old(self).after_schedule(freed@),
    ;

    /// The current assignment of cores.
    fn scheduled(&self) -> (r: Self::Schedule)
        ensures
            r == self.current_schedule(),
    ;

    /// Processes the candidates against the schedule and returns the cores
    /// that they now occupy.
    fn process_candidates(
        &mut self,
        candidates: Vec<Self::Candidate>,
        scheduled: Self::Schedule,
    ) -> (r: Result<Vec<CoreIndex>, Self::Error>)
        ensures
            cores_view(r) == old(self).candidates_result(candidates@, scheduled),
            *final(self) == old(self).after_candidates(candidates@, scheduled),
    ;

    /// Notes which scheduled cores were occupied.
    fn occupied(&mut self, cores: &Vec<CoreIndex>)
        ensures
            *final(self) == old(self).after_occupied(cores@),
    ;

    /// Dispatches a bounded slice of pending upward messages.
    fn process_pending_upward_messages(&mut self)
        ensures
            *final(self) == old(self).after_upward(),
    ;

    /// The configured weight of processing one backed candidate; zero turns limiting off.
    fn backed_candidate_block_weight(&self) -> (r: u64)
        ensures
            r == self.candidate_weight(),
    ;

    /// The weight limit of a block.
    fn maximum_block_weight(&self) -> (r: u64)
        ensures
            r == self.max_weight(),
    ;

    /// The weight already consumed in the current block.
    fn block_weight(&self) -> (r: u64)
        ensures
            r == self.consumed_weight(),
    ;
}

/// The view of a collaborator's list of cores, or its error.
pub open spec fn cores_view<E>(r: Result<Vec<CoreIndex>, E>) -> Result<Seq<CoreIndex>, E> {
    match r {
        Ok(v) => Ok(v@),
        Err(e) => Err(e),
    }
}

/// The cores that time out in state `env`, and the state after collecting
/// them; none, and the state unchanged, without a timeout rule.
pub open spec fn timed_out_stage<T: Config>(env: T) -> (Seq<CoreIndex>, T) {
    match env.timeout_rule() {
        Some(pred) => (env.pending_result(pred), env.after_collect(pred)),
        None => (Seq::empty(), env),
    }
}

/// The candidates that fit in the block's remaining weight in state `env`.
pub open spec fn candidates_within_budget<T: Config>(env: T, candidates: Seq<T::Candidate>) -> Seq<
    T::Candidate,
> {
    candidates.take(
        retained_count(
            candidates.len(),
            env.candidate_weight(),
            remaining_weight(env.max_weight(), env.consumed_weight()),
        ) as int,
    )
}

/// What an admission of `bitfields` and `candidates` from state `env` returns,
/// and the state it leaves, once the origin and the guard allow it. The
/// bitfields are processed; the concluded cores, then the timed-out ones, go
/// to rescheduling; the candidates that fit in the remaining weight are
/// processed against the schedule; the cores they occupy are noted; upward
/// messages are dispatched. A refusal of the bitfields or of the candidates
/// is returned as an error and leaves the state as it was.
pub open spec fn admission_outcome<T: Config>(
    env: T,
    bitfields: Seq<T::Bitfield>,
    candidates: Seq<T::Candidate>,
) -> (Result<(), AdmissionError<T::Error>>, T) {
    match env.bitfields_result(bitfields) {
        Err(e) => (Err(AdmissionError::BitfieldProcessingFailed(e)), env),
        Ok(concluded) => {
            let (timed_out, s2) = timed_out_stage(env.after_bitfields(bitfields));
            let s3 = s2.after_schedule(merged_freed(concluded, timed_out));
            let kept = candidates_within_budget(s3, candidates);
            let sched = s3.current_schedule();
            match s3.candidates_result(kept, sched) {
                Err(e) => (Err(AdmissionError::CandidateProcessingFailed(e)), env),
                Ok(occupied) => (
                    Ok(()),
                    s3.after_candidates(kept, sched).after_occupied(occupied).after_upward(),
                ),
            }
        },
    }
}

/// Where the collaborators take empty input in every state, an admission of
/// empty bitfields and no candidates succeeds.
pub proof fn lemma_empty_admission_succeeds<T: Config>(env: T)
    requires
        forall|s: T| (#[trigger] s.bitfields_result(Seq::empty())) is Ok,
        forall|s: T, sched: T::Schedule| (#[trigger] s.candidates_result(Seq::empty(), sched)) is Ok,
    ensures
        admission_outcome(env, Seq::<T::Bitfield>::empty(), Seq::<T::Candidate>::empty()).0 is Ok,
{
    let (timed_out, s2) = timed_out_stage(env.after_bitfields(Seq::empty()));
    let concluded = env.bitfields_result(Seq::empty())->Ok_0;
    let s3 = s2.after_schedule(merged_freed(concluded, timed_out));
    assert(candidates_within_budget(s3, Seq::<T::Candidate>::empty()) =~= Seq::<T::Candidate>::empty());
    assert(s3.candidates_result(Seq::empty(), s3.current_schedule()) is Ok);
}

/// How one admission attempt may move the guard: a success moves it from
/// clear to set, a failure leaves it as it was.
pub open spec fn admission_step(before: bool, succeeded: bool, after: bool) -> bool {
    if succeeded {
        !before && after
    } else {
        after == before
    }
}

/// How many of the attempts succeeded.
pub open spec fn successes(ok: Seq<bool>) -> nat
    decreases ok.len(),
{
    if ok.len() == 0 {
        0
    } else {
        successes(ok.drop_last()) + if ok.last() {
            1nat
        } else {
            0nat
        }
    }
}

proof fn lemma_prefix_run(guards: Seq<bool>, ok: Seq<bool>, n: int)
    requires
        guards.len() == ok.len() + 1,
        !guards[0],
        forall|i: int| 0 <= i < ok.len() ==> #[trigger] admission_step(guards[i], ok[i], guards[i + 1]),
        0 <= n <= ok.len(),
    ensures
        successes(ok.take(n)) <= 1,
        guards[n] <==> successes(ok.take(n)) == 1,
    decreases n,
{
    if n > 0 {
        lemma_prefix_run(guards, ok, n - 1);
        assert(ok.take(n).drop_last() =~= ok.take(n - 1));
        let k = n - 1;
        assert(admission_step(guards[k], ok[k], guards[k + 1]));
    } else {
        assert(ok.take(0) =~= Seq::<bool>::empty());
    }
}

/// Over one block whose guard starts clear, and in which each admission
/// attempt moves the guard as `inclusion` allows, at most one attempt
/// succeeds, and the guard is set at the end (so that finalization accepts
/// the block) exactly when one did.
pub proof fn lemma_admitted_once_per_block(guards: Seq<bool>, ok: Seq<bool>)
    requires
        guards.len() == ok.len() + 1,
        !guards[0],
        forall|i: int| 0 <= i < ok.len() ==> #[trigger] admission_step(guards[i], ok[i], guards[i + 1]),
    ensures
        successes(ok) <= 1,
        guards.last() <==> successes(ok) == 1,
{
    lemma_prefix_run(guards, ok, ok.len() as int);
    assert(ok.take(ok.len() as int) =~= ok);
}

/// The per-block record of whether inclusion work was admitted.
#[derive(Clone, Copy)]
pub struct ParasInclusion {
    included: bool,
}

impl View for ParasInclusion {
    type V = bool;

    closed spec fn view(&self) -> bool {
        self.included
    }
}

impl ParasInclusion {
    /// A guard at the start of a block: nothing admitted yet.
    pub fn new() -> (r: Self)
        ensures
            !r@,
    {
        ParasInclusion { included: false }
    }

    /// Whether work was admitted in this block.
    pub fn is_included(&self) -> (r: bool)
        ensures
            r == self@,
    {
        self.included
    }

    /// Ends the block: accepts it only if work was admitted, and clears the
    /// guard for the next block either way.
    pub fn on_finalize<E>(&mut self) -> (r: Result<(), AdmissionError<E>>)
        ensures
            !final(self)@,
            old(self)@ ==> r == Ok::<(), AdmissionError<E>>(()),
            !old(self)@ ==> r == Err::<(), AdmissionError<E>>(AdmissionError::MissingAdmission),
    {
        let was = self.included;
        self.included = false;
        if was {
            Ok(())
        } else {
            Err(AdmissionError::MissingAdmission)
        }
    }

    /// Admits the bitfields and backed candidates of this block: processes the
    /// bitfields, collects timed-out cores, reschedules the freed cores,
    /// limits the candidates to the remaining block weight, processes them,
    /// marks the occupied cores, dispatches upward messages, and records the
    /// admission. On any failure neither the guard nor `env` changes.
    pub fn inclusion<T: Config>(
        &mut self,
        env: &mut T,
        origin: Origin,
        signed_bitfields: Vec<T::Bitfield>,
        backed_candidates: Vec<T::Candidate>,
    ) -> (r: Result<(), AdmissionError<T::Error>>)
        ensures
            admission_step(old(self)@, r is Ok, final(self)@),
            r is Ok ==> final(self)@,
            origin != Origin::Inherent ==> r == Err::<(), AdmissionError<T::Error>>(
                AdmissionError::BadOrigin,
            ),
            origin == Origin::Inherent && old(self)@ ==> r == Err::<(), AdmissionError<T::Error>>(
                AdmissionError::DuplicateAdmission,
            ),
            origin == Origin::Inherent && !old(self)@ ==> (r is Ok || r matches Err(
                AdmissionError::BitfieldProcessingFailed(_),
            ) || r matches Err(AdmissionError::CandidateProcessingFailed(_))),
            origin == Origin::Inherent && !old(self)@ ==> r == admission_outcome(
                *old(env),
                signed_bitfields@,
                backed_candidates@,
            ).0 && *final(env) == admission_outcome(*old(env), signed_bitfields@, backed_candidates@).1,
            r is Err ==> *final(env) == *old(env) && final(self)@ == old(self)@,
            r matches Err(AdmissionError::BitfieldProcessingFailed(_)) ==> origin == Origin::Inherent
                && !old(self)@,
            r matches Err(AdmissionError::CandidateProcessingFailed(_)) ==> origin == Origin::Inherent
                && !old(self)@,
            r != Err::<(), AdmissionError<T::Error>>(AdmissionError::MissingAdmission),
    {
        if origin != Origin::Inherent {
            return Err(AdmissionError::BadOrigin);
        }
        if self.included {
            return Err(AdmissionError::DuplicateAdmission);
        }
        let mut work = env.duplicate();
        let freed_concluded = match work.process_bitfields(signed_bitfields) {
            Ok(cores) => cores,
            Err(e) => {
                return Err(AdmissionError::BitfieldProcessingFailed(e));
            },
        };
        let freed_timeout = match work.availability_timeout_predicate() {
            Some(pred) => work.collect_pending(pred),
            None => Vec::new(),
        };
        let freed = merge_freed_cores(&freed_concluded, &freed_timeout);
        work.schedule(freed);

        let mut candidates = backed_candidates;
        let remaining = block_weight_remaining(work.maximum_block_weight(), work.block_weight());
        limit_backed_candidates(&mut candidates, work.backed_candidate_block_weight(), remaining);

        let scheduled = work.scheduled();
        let occupied = match work.process_candidates(candidates, scheduled) {
            Ok(cores) => cores,
            Err(e) => {
                return Err(AdmissionError::CandidateProcessingFailed(e));
            },
        };
        work.occupied(&occupied);
        work.process_pending_upward_messages();
        *env = work;
        self.included = true;
        Ok(())
    }
}

} // verus!
