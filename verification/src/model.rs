//! A CPU model candidate: the guest CPUID policy together with the stable MSR feature values,
//! each owned by the candidate.
use crate::kvm::cpu::GuestCpuPolicy;
use crate::kvm::msr::HostMsrModelCandidate;
use vstd::prelude::*;

verus! {

#[derive(Debug, Clone, PartialEq, Eq)]
pub struct CpuModelCandidate {
    pub guest_cpu_policy: GuestCpuPolicy,
    pub host_msr_model_candidate: HostMsrModelCandidate,
}

impl CpuModelCandidate {
    /// A candidate holding copies of both parts.
    pub fn new(guest_cpu_policy: &GuestCpuPolicy, host_msr_model_candidate: &HostMsrModelCandidate) -> (r: Self)
        ensures
            r.guest_cpu_policy.entries@ == guest_cpu_policy.entries@,
            r.host_msr_model_candidate.values@ == host_msr_model_candidate.values@,
            r.host_msr_model_candidate.source_observation.values@
                == host_msr_model_candidate.source_observation.values@,
    {
        CpuModelCandidate {
            guest_cpu_policy: guest_cpu_policy.duplicate(),
            host_msr_model_candidate: host_msr_model_candidate.duplicate(),
        }
    }

    pub fn guest_cpu_policy(&self) -> (r: &GuestCpuPolicy)
        ensures r == &self.guest_cpu_policy,
    {
        &self.guest_cpu_policy
    }

    pub fn host_msr_model_candidate(&self) -> (r: &HostMsrModelCandidate)
        ensures r == &self.host_msr_model_candidate,
    {
        &self.host_msr_model_candidate
    }
}

} // verus!
