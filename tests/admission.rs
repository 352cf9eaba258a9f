use inclusion_inherent::freed::{CoreIndex, FreedReason};
use inclusion_inherent::inclusion::{AdmissionError, Config, Origin, ParasInclusion};
use vstd::seq::Seq;

#[derive(Clone, Debug, PartialEq)]
struct FakeRuntime {
    log: Vec<String>,
    reject_bitfields: bool,
    reject_candidates: bool,
    timeout_rule: Option<u32>,
    concluded: Vec<u32>,
    pending: Vec<u32>,
    per_candidate: u64,
    maximum: u64,
    consumed: u64,
}

impl FakeRuntime {
    fn new() -> FakeRuntime {
        FakeRuntime {
            log: Vec::new(),
            reject_bitfields: false,
            reject_candidates: false,
            timeout_rule: None,
            concluded: Vec::new(),
            pending: Vec::new(),
            per_candidate: 0,
            maximum: 1000,
            consumed: 0,
        }
    }
}

impl Config for FakeRuntime {
    type Bitfield = u32;
    type Candidate = u32;
    type Predicate = u32;
    type Schedule = Vec<u32>;
    type Error = String;

    // The model functions over sequences exist for the verifier only and are never run.
    fn bitfields_result(&self, _bitfields: Seq<u32>) -> Result<Seq<CoreIndex>, String> {
        panic!("model only")
    }

    fn after_bitfields(&self, _bitfields: Seq<u32>) -> FakeRuntime {
        panic!("model only")
    }

    fn timeout_rule(&self) -> Option<u32> {
        self.timeout_rule
    }

    fn pending_result(&self, _pred: u32) -> Seq<CoreIndex> {
        panic!("model only")
    }

    fn after_collect(&self, _pred: u32) -> FakeRuntime {
        panic!("model only")
    }

    fn after_schedule(&self, _freed: Seq<(CoreIndex, FreedReason)>) -> FakeRuntime {
        panic!("model only")
    }

    fn current_schedule(&self) -> Vec<u32> {
        self.scheduled()
    }

    fn candidates_result(&self, _candidates: Seq<u32>, _scheduled: Vec<u32>) -> Result<Seq<CoreIndex>, String> {
        panic!("model only")
    }

    fn after_candidates(&self, _candidates: Seq<u32>, _scheduled: Vec<u32>) -> FakeRuntime {
        panic!("model only")
    }

    fn after_occupied(&self, _cores: Seq<CoreIndex>) -> FakeRuntime {
        panic!("model only")
    }

    fn after_upward(&self) -> FakeRuntime {
        panic!("model only")
    }

    fn candidate_weight(&self) -> u64 {
        self.per_candidate
    }

    fn max_weight(&self) -> u64 {
        self.maximum
    }

    fn consumed_weight(&self) -> u64 {
        self.consumed
    }

    fn duplicate(&self) -> FakeRuntime {
        self.clone()
    }

    fn duplicate_bitfields(&self, bitfields: &Vec<u32>) -> Vec<u32> {
        bitfields.clone()
    }

    fn duplicate_candidates(&self, candidates: &Vec<u32>) -> Vec<u32> {
        candidates.clone()
    }

    fn process_bitfields(&mut self, bitfields: Vec<u32>) -> Result<Vec<CoreIndex>, String> {
        self.log.push(format!("bitfields {:?}", bitfields));
        if self.reject_bitfields && !bitfields.is_empty() {
            return Err("stale bitfields".to_string());
        }
        Ok(self.concluded.iter().map(|c| CoreIndex(*c)).collect())
    }

    fn availability_timeout_predicate(&self) -> Option<u32> {
        self.timeout_rule
    }

    fn collect_pending(&mut self, pred: u32) -> Vec<CoreIndex> {
        self.log.push(format!("collect {}", pred));
        self.pending.iter().map(|c| CoreIndex(*c)).collect()
    }

    fn schedule(&mut self, freed: Vec<(CoreIndex, FreedReason)>) {
        self.log.push(format!("schedule {:?}", freed));
    }

    fn scheduled(&self) -> Vec<u32> {
        vec![0, 1, 2, 3, 4, 5]
    }

    fn process_candidates(&mut self, candidates: Vec<u32>, scheduled: Vec<u32>) -> Result<Vec<CoreIndex>, String> {
        self.log.push(format!("candidates {:?} on {:?}", candidates, scheduled));
        if self.reject_candidates && !candidates.is_empty() {
            return Err("unscheduled candidate".to_string());
        }
        Ok((0..candidates.len() as u32).map(CoreIndex).collect())
    }

    fn occupied(&mut self, cores: &Vec<CoreIndex>) {
        self.log.push(format!("occupied {:?}", cores));
    }

    fn process_pending_upward_messages(&mut self) {
        self.log.push("upward".to_string());
    }

    fn backed_candidate_block_weight(&self) -> u64 {
        self.per_candidate
    }

    fn maximum_block_weight(&self) -> u64 {
        self.maximum
    }

    fn block_weight(&self) -> u64 {
        self.consumed
    }
}

#[test]
fn admission_runs_the_steps_in_order() {
    let mut env = FakeRuntime::new();
    env.concluded = vec![3, 1];
    env.pending = vec![7];
    env.timeout_rule = Some(12);
    let mut guard = ParasInclusion::new();
    assert!(!guard.is_included());
    let r = guard.inclusion(&mut env, Origin::Inherent, vec![11, 12], vec![100, 200]);
    assert_eq!(r, Ok(()));
    assert!(guard.is_included());
    assert_eq!(
        env.log,
        vec![
            "bitfields [11, 12]".to_string(),
            "collect 12".to_string(),
            "schedule [(CoreIndex(3), Concluded), (CoreIndex(1), Concluded), (CoreIndex(7), TimedOut)]".to_string(),
            "candidates [100, 200] on [0, 1, 2, 3, 4, 5]".to_string(),
            "occupied [CoreIndex(0), CoreIndex(1)]".to_string(),
            "upward".to_string(),
        ]
    );
}

#[test]
fn admission_without_timeout_rule_collects_nothing() {
    let mut env = FakeRuntime::new();
    env.concluded = vec![2];
    env.pending = vec![7];
    let mut guard = ParasInclusion::new();
    assert_eq!(guard.inclusion(&mut env, Origin::Inherent, vec![], vec![]), Ok(()));
    assert_eq!(env.log[1], "schedule [(CoreIndex(2), Concluded)]".to_string());
    assert_eq!(env.log.len(), 5);
}

#[test]
fn admission_limits_candidates_by_block_weight() {
    let mut env = FakeRuntime::new();
    env.per_candidate = 300;
    env.maximum = 1500;
    env.consumed = 500;
    let mut guard = ParasInclusion::new();
    let r = guard.inclusion(&mut env, Origin::Inherent, vec![], vec![1, 2, 3, 4, 5]);
    assert_eq!(r, Ok(()));
    assert_eq!(env.log[2], "candidates [1, 2, 3] on [0, 1, 2, 3, 4, 5]".to_string());
}

#[test]
fn second_admission_is_a_duplicate() {
    let mut env = FakeRuntime::new();
    let mut guard = ParasInclusion::new();
    assert_eq!(guard.inclusion(&mut env, Origin::Inherent, vec![1], vec![2]), Ok(()));
    let before = env.clone();
    let r = guard.inclusion(&mut env, Origin::Inherent, vec![3], vec![4]);
    assert_eq!(r, Err(AdmissionError::DuplicateAdmission));
    assert_eq!(env, before);
    assert!(guard.is_included());
}

#[test]
fn signed_or_root_origin_is_refused() {
    let mut env = FakeRuntime::new();
    let mut guard = ParasInclusion::new();
    assert_eq!(guard.inclusion(&mut env, Origin::Signed(42), vec![], vec![]), Err(AdmissionError::BadOrigin));
    assert_eq!(guard.inclusion(&mut env, Origin::Root, vec![], vec![]), Err(AdmissionError::BadOrigin));
    assert!(!guard.is_included());
    assert_eq!(env, FakeRuntime::new());
}

#[test]
fn bitfield_failure_changes_nothing() {
    let mut env = FakeRuntime::new();
    env.reject_bitfields = true;
    let before = env.clone();
    let mut guard = ParasInclusion::new();
    let r = guard.inclusion(&mut env, Origin::Inherent, vec![1], vec![2]);
    assert_eq!(r, Err(AdmissionError::BitfieldProcessingFailed("stale bitfields".to_string())));
    assert!(!guard.is_included());
    assert_eq!(env, before);
}

#[test]
fn candidate_failure_changes_nothing() {
    let mut env = FakeRuntime::new();
    env.reject_candidates = true;
    let before = env.clone();
    let mut guard = ParasInclusion::new();
    let r = guard.inclusion(&mut env, Origin::Inherent, vec![1], vec![2]);
    assert_eq!(r, Err(AdmissionError::CandidateProcessingFailed("unscheduled candidate".to_string())));
    assert!(!guard.is_included());
    assert_eq!(env, before);
}

#[test]
fn finalize_accepts_an_admitted_block_and_resets() {
    let mut env = FakeRuntime::new();
    let mut guard = ParasInclusion::new();
    assert_eq!(guard.inclusion(&mut env, Origin::Inherent, vec![], vec![]), Ok(()));
    assert_eq!(guard.on_finalize::<String>(), Ok(()));
    assert!(!guard.is_included());
    assert_eq!(guard.on_finalize::<String>(), Err(AdmissionError::MissingAdmission));
    assert_eq!(guard.inclusion(&mut env, Origin::Inherent, vec![], vec![]), Ok(()));
}

#[test]
fn finalize_rejects_a_block_without_admission() {
    let mut guard = ParasInclusion::new();
    assert_eq!(guard.on_finalize::<String>(), Err(AdmissionError::MissingAdmission));
    assert!(!guard.is_included());
}

#[test]
fn no_inherent_data_means_no_admission() {
    let env = FakeRuntime::new();
    let mut guard = ParasInclusion::new();
    assert_eq!(guard.create_inherent(&env, None), None);
    assert_eq!(guard.on_finalize::<String>(), Err(AdmissionError::MissingAdmission));
}

#[test]
fn valid_inherent_data_is_kept_and_trial_is_discarded() {
    let env = FakeRuntime::new();
    let guard = ParasInclusion::new();
    assert!(guard.should_include_inherent(&env, &vec![1], &vec![2]));
    let r = guard.create_inherent(&env, Some((vec![1, 2], vec![3])));
    assert_eq!(r, Some((vec![1, 2], vec![3])));
    assert_eq!(env, FakeRuntime::new());
    assert!(!guard.is_included());
}

#[test]
fn failed_trial_falls_back_to_empty_payload() {
    for which in 0..2 {
        let mut env = FakeRuntime::new();
        if which == 0 {
            env.reject_bitfields = true;
        } else {
            env.reject_candidates = true;
        }
        let mut guard = ParasInclusion::new();
        assert!(!guard.should_include_inherent(&env, &vec![1], &vec![2]));
        let r = guard.create_inherent(&env, Some((vec![1], vec![2])));
        assert_eq!(r, Some((Vec::new(), Vec::new())));
        let (bitfields, candidates) = r.unwrap();
        assert_eq!(guard.inclusion(&mut env, Origin::Inherent, bitfields, candidates), Ok(()));
        assert_eq!(guard.on_finalize::<String>(), Ok(()));
    }
}

#[test]
fn trial_after_admission_falls_back_to_empty_payload() {
    let mut env = FakeRuntime::new();
    let mut guard = ParasInclusion::new();
    assert_eq!(guard.inclusion(&mut env, Origin::Inherent, vec![], vec![]), Ok(()));
    assert!(!guard.should_include_inherent(&env, &vec![1], &vec![2]));
    assert_eq!(guard.create_inherent(&env, Some((vec![1], vec![2]))), Some((Vec::new(), Vec::new())));
}
