//! Choosing, while a block is built, the inclusion payload to put into it.
use vstd::prelude::*;
use crate::inclusion::{Config, Origin, ParasInclusion, admission_outcome};

verus! {

/// The payload to include: nothing without inherent data; the proposed data
/// when a trial admission of it succeeds; else empty bitfields and no candidates.
pub open spec fn selected_payload<B, C>(
    proposed: Option<(Seq<B>, Seq<C>)>,
    trial_ok: bool,
) -> Option<(Seq<B>, Seq<C>)> {
    match proposed {
        None => None,
        Some(p) => if trial_ok {
            Some(p)
        } else {
            Some((Seq::empty(), Seq::empty()))
        },
    }
}

/// The view of an optional payload.
pub open spec fn payload_view<B, C>(p: Option<(Vec<B>, Vec<C>)>) -> Option<(Seq<B>, Seq<C>)> {
    match p {
        None => None,
        Some((b, c)) => Some((b@, c@)),
    }
}

/// Picks the payload given the outcome of the trial admission: the proposed
/// data unchanged if the trial succeeded, an empty payload if it failed.
pub fn inherent_payload<B, C>(proposed: Option<(Vec<B>, Vec<C>)>, trial_ok: bool) -> (r: Option<
    (Vec<B>, Vec<C>),
>)
    ensures
        payload_view(r) == selected_payload(payload_view(proposed), trial_ok),
{
    match proposed {
        None => None,
        Some(p) => if trial_ok {
            Some(p)
        } else {
            Some((Vec::new(), Vec::new()))
        },
    }
}

/// Whether a trial admission of the proposed data, from the guard `guard` and
/// the state `env`, succeeds.
pub open spec fn trial_succeeds<T: Config>(
    guard: ParasInclusion,
    env: T,
    data: Option<(Vec<T::Bitfield>, Vec<T::Candidate>)>,
) -> bool {
    match data {
        None => false,
        Some((b, c)) => !guard@ && admission_outcome(env, b@, c@).0 is Ok,
    }
}

impl ParasInclusion {
    /// Tries the admission of the proposed data on copies of the guard and of
    /// the collaborators' state, and reports whether it succeeded; nothing of
    /// the trial is kept.
    pub fn should_include_inherent<T: Config>(
        &self,
        env: &T,
        signed_bitfields: &Vec<T::Bitfield>,
        backed_candidates: &Vec<T::Candidate>,
    ) -> (r: bool)
        ensures
            r == (!self@ && admission_outcome(*env, signed_bitfields@, backed_candidates@).0 is Ok),
    {
        let mut trial_guard = *self;
        let mut trial_env = env.duplicate();
        let bitfields = env.duplicate_bitfields(signed_bitfields);
        let candidates = env.duplicate_candidates(backed_candidates);
        let r = trial_guard.inclusion(&mut trial_env, Origin::Inherent, bitfields, candidates);
        r.is_ok()
    }

    /// The payload to put into the block being built: nothing without inherent
    /// data, the data itself when a trial admission of it succeeds, and an
    /// empty payload otherwise, so that building the block never fails on it.
    pub fn create_inherent<T: Config>(
        &self,
        env: &T,
        data: Option<(Vec<T::Bitfield>, Vec<T::Candidate>)>,
    ) -> (r: Option<(Vec<T::Bitfield>, Vec<T::Candidate>)>)
        ensures
            payload_view(r) == selected_payload(payload_view(data), trial_succeeds(*self, *env, data)),
    {
        match data {
            None => None,
            Some((signed_bitfields, backed_candidates)) => {
                let ok = self.should_include_inherent(env, &signed_bitfields, &backed_candidates);
                inherent_payload(Some((signed_bitfields, backed_candidates)), ok)
            },
        }
    }
}

} // verus!
