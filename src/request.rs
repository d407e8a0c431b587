use vstd::prelude::*;

verus! {

/// How long, in seconds, the engine may hold a lock-and-fetch request open
/// while it waits for a task to appear.
pub const ASYNC_RESPONSE_TIMEOUT: i64 = 60;

/// One topic of a lock-and-fetch request, with the lock duration asked for.
#[derive(Clone, Debug)]
pub struct TopicLock {
    pub topic_name: String,
    pub lock_duration: Option<i64>,
}

/// A lock-and-fetch request: which worker asks, for how many tasks, of which
/// topics.
#[derive(Clone, Debug)]
pub struct FetchRequest {
    pub worker_id: String,
    pub max_tasks: Option<i32>,
    pub use_priority: Option<bool>,
    pub async_response_timeout: Option<i64>,
    pub topics: Vec<TopicLock>,
}

/// `r` asks, on behalf of `worker_id`, for at most `max_tasks` tasks of the
/// one topic `topic`, each locked for `lock_duration`.
pub open spec fn is_fetch_request(
    r: FetchRequest,
    topic: Seq<char>,
    worker_id: Seq<char>,
    lock_duration: Option<i64>,
    max_tasks: i32,
) -> bool {
    &&& r.worker_id@ == worker_id
    &&& r.max_tasks == Some(max_tasks)
    &&& r.use_priority.is_none()
    &&& r.async_response_timeout == Some(ASYNC_RESPONSE_TIMEOUT)
    &&& r.topics@.len() == 1
    &&& r.topics@[0].topic_name@ == topic
    &&& r.topics@[0].lock_duration == lock_duration
}

/// Builds the lock-and-fetch request for a single topic.
pub fn fetch_and_lock_dto(
    topic: &str,
    worker_id: &str,
    lock_duration: Option<i64>,
    max_tasks: i32,
) -> (r: FetchRequest)
    ensures
        is_fetch_request(r, topic@, worker_id@, lock_duration, max_tasks),
{
    let lock = TopicLock { topic_name: topic.to_owned(), lock_duration };
    let mut topics: Vec<TopicLock> = Vec::new();
    topics.push(lock);
    FetchRequest {
        worker_id: worker_id.to_owned(),
        max_tasks: Some(max_tasks),
        use_priority: None,
        async_response_timeout: Some(ASYNC_RESPONSE_TIMEOUT),
        topics,
    }
}

} // verus!
