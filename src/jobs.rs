//! The job tracker: each long model operation is a job that goes from
//! pending to running, then to completed or failed, and never back.
use vstd::prelude::*;

verus! {

/// Where a job stands.
#[derive(Debug, Clone, Copy, PartialEq, Eq, Structural)]
pub enum JobStatus {
    Pending,
    Running,
    Completed,
    Failed,
}

/// What happens to a job.
#[derive(Debug, Clone, Copy, PartialEq, Eq, Structural)]
pub enum JobEvent {
    Start,
    Complete,
    Fail,
}

/// The status after an event, when the event is allowed in the current one.
pub open spec fn transition(s: JobStatus, e: JobEvent) -> Option<JobStatus> {
    match (s, e) {
        (JobStatus::Pending, JobEvent::Start) => Some(JobStatus::Running),
        (JobStatus::Running, JobEvent::Complete) => Some(JobStatus::Completed),
        (JobStatus::Running, JobEvent::Fail) => Some(JobStatus::Failed),
        _ => None,
    }
}

impl JobStatus {
    pub open spec fn name_spec(self) -> Seq<char> {
        match self {
            JobStatus::Pending => "pending"@,
            JobStatus::Running => "running"@,
            JobStatus::Completed => "completed"@,
            JobStatus::Failed => "failed"@,
        }
    }

    /// The name under which the status is stored.
    pub fn as_str(&self) -> (r: &'static str)
        ensures
            r@ == self.name_spec(),
    {
        match self {
            JobStatus::Pending => "pending",
            JobStatus::Running => "running",
            JobStatus::Completed => "completed",
            JobStatus::Failed => "failed",
        }
    }

    /// Whether the job has ended.
    pub fn is_final(&self) -> (r: bool)
        ensures
            r == (*self == JobStatus::Completed || *self == JobStatus::Failed),
    {
        match self {
            JobStatus::Completed | JobStatus::Failed => true,
            _ => false,
        }
    }
}

/// A tracked model operation. Times are milliseconds since the Unix epoch.
#[derive(Debug, Clone)]
pub struct ProcessingJob {
    pub id: i64,
    pub job_type: String,
    pub entity_id: i64,
    pub status: JobStatus,
    pub llm_model: String,
    pub error_message: Option<String>,
    pub created_at: i64,
    pub started_at: Option<i64>,
    pub completed_at: Option<i64>,
    pub prompt_tokens: Option<usize>,
    pub completion_tokens: Option<usize>,
    pub processing_time_ms: Option<i64>,
}

/// A transition that the job's status does not allow.
#[derive(Debug, Clone, Copy, PartialEq, Eq, Structural)]
pub struct InvalidTransition {
    pub from: JobStatus,
    pub event: JobEvent,
}

/// The status that follows `e`, or the refusal of a transition that the
/// tracker does not allow.
pub fn next_status(s: JobStatus, e: JobEvent) -> (r: Result<JobStatus, InvalidTransition>)
    ensures
        match transition(s, e) {
            Some(t) => r == Ok::<JobStatus, InvalidTransition>(t),
            None => r == Err::<JobStatus, InvalidTransition>(InvalidTransition { from: s, event: e }),
        },
{
    match (s, e) {
        (JobStatus::Pending, JobEvent::Start) => Ok(JobStatus::Running),
        (JobStatus::Running, JobEvent::Complete) => Ok(JobStatus::Completed),
        (JobStatus::Running, JobEvent::Fail) => Ok(JobStatus::Failed),
        _ => Err(InvalidTransition { from: s, event: e }),
    }
}

impl ProcessingJob {
    /// A new pending job.
    pub fn new(id: i64, job_type: String, entity_id: i64, llm_model: String, created_at: i64) -> (r: ProcessingJob)
        ensures
            r.id == id,
            r.job_type == job_type,
            r.entity_id == entity_id,
            r.llm_model == llm_model,
            r.created_at == created_at,
            r.status == JobStatus::Pending,
            r.error_message is None,
            r.started_at is None,
            r.completed_at is None,
    {
        ProcessingJob {
            id,
            job_type,
            entity_id,
            status: JobStatus::Pending,
            llm_model,
            error_message: None,
            created_at,
            started_at: None,
            completed_at: None,
            prompt_tokens: None,
            completion_tokens: None,
            processing_time_ms: None,
        }
    }

    /// Marks a pending job as running from time `now`.
    pub fn start(&mut self, now: i64) -> (r: Result<(), InvalidTransition>)
        ensures
            old(self).status == JobStatus::Pending ==> r is Ok && final(self).status == JobStatus::Running
                && final(self).started_at == Some(now),
            old(self).status != JobStatus::Pending ==> r is Err && final(self).status == old(self).status
                && final(self).started_at == old(self).started_at,
            final(self).id == old(self).id,
            final(self).entity_id == old(self).entity_id,
            final(self).completed_at == old(self).completed_at,
    {
        let s = next_status(self.status, JobEvent::Start)?;
        self.status = s;
        self.started_at = Some(now);
        Ok(())
    }

    /// Marks a running job as completed at time `now`, with its token counts
    /// and duration.
    pub fn complete(
        &mut self,
        now: i64,
        prompt_tokens: usize,
        completion_tokens: usize,
        processing_time_ms: i64,
    ) -> (r: Result<(), InvalidTransition>)
        ensures
            old(self).status == JobStatus::Running ==> r is Ok && final(self).status == JobStatus::Completed
                && final(self).completed_at == Some(now) && final(self).prompt_tokens == Some(prompt_tokens)
                && final(self).completion_tokens == Some(completion_tokens)
                && final(self).processing_time_ms == Some(processing_time_ms),
            old(self).status != JobStatus::Running ==> r is Err && final(self).status == old(self).status
                && final(self).completed_at == old(self).completed_at,
            final(self).id == old(self).id,
            final(self).entity_id == old(self).entity_id,
            final(self).started_at == old(self).started_at,
    {
        let s = next_status(self.status, JobEvent::Complete)?;
        self.status = s;
        self.completed_at = Some(now);
        self.prompt_tokens = Some(prompt_tokens);
        self.completion_tokens = Some(completion_tokens);
        self.processing_time_ms = Some(processing_time_ms);
        Ok(())
    }

    /// Marks a running job as failed at time `now`, with the reason.
    pub fn fail(&mut self, now: i64, error_message: String) -> (r: Result<(), InvalidTransition>)
        ensures
            old(self).status == JobStatus::Running ==> r is Ok && final(self).status == JobStatus::Failed
                && final(self).completed_at == Some(now) && final(self).error_message == Some(error_message),
            old(self).status != JobStatus::Running ==> r is Err && final(self).status == old(self).status
                && final(self).completed_at == old(self).completed_at,
            final(self).id == old(self).id,
            final(self).entity_id == old(self).entity_id,
            final(self).started_at == old(self).started_at,
    {
        let s = next_status(self.status, JobEvent::Fail)?;
        self.status = s;
        self.completed_at = Some(now);
        self.error_message = Some(error_message);
        Ok(())
    }
}

/// An ended job stays as it is: no event moves a completed or failed job.
pub proof fn lemma_final_is_final(s: JobStatus, e: JobEvent)
    requires
        s == JobStatus::Completed || s == JobStatus::Failed,
    ensures
        transition(s, e) is None,
{
}

} // verus!
