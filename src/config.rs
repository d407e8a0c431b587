use vstd::prelude::*;

verus! {

/// Poll interval, in seconds, that a new configuration starts with.
pub const DEFAULT_WAIT_INTERVAL: u64 = 60;

/// Lock duration, in seconds, that a new configuration asks the engine for.
pub const DEFAULT_LOCK_DURATION: i64 = 60;

/// Settings shared, read-only, by every topic worker of a process.
#[derive(Clone, Debug)]
pub struct Config {
    pub wait_interval: u64,
    pub base_path: String,
    pub camunda_username: String,
    pub camunda_password: String,
    pub topics: Vec<TopicConfig>,
    pub lock_duration: Option<i64>,
    pub worker_id: String,
}

impl Config {
    /// A configuration with the default poll interval and lock duration.
    pub fn new(
        camunda_base_url: String,
        camunda_username: String,
        camunda_password: String,
        topics: Vec<TopicConfig>,
        worker_id: String,
    ) -> (r: Self)
        ensures
            r.wait_interval == DEFAULT_WAIT_INTERVAL,
            r.base_path@ == camunda_base_url@,
            r.camunda_username@ == camunda_username@,
            r.camunda_password@ == camunda_password@,
            r.topics@ == topics@,
            r.lock_duration == Some(DEFAULT_LOCK_DURATION),
            r.worker_id@ == worker_id@,
    {
        Self {
            wait_interval: DEFAULT_WAIT_INTERVAL,
            base_path: camunda_base_url,
            camunda_username,
            camunda_password,
            topics,
            lock_duration: Some(DEFAULT_LOCK_DURATION),
            worker_id,
        }
    }

    /// The poll interval that applies to `topic`: its own override where it
    /// has one, else the global default.
    pub open spec fn spec_interval_for(&self, topic: TopicConfig) -> u64 {
        match topic.wait_interval {
            Some(t) => t,
            None => self.wait_interval,
        }
    }

    pub fn interval_for(&self, topic: &TopicConfig) -> (r: u64)
        ensures
            r == self.spec_interval_for(*topic),
    {
        match topic.wait_interval {
            Some(t) => t,
            None => self.wait_interval,
        }
    }
}

/// One topic that the worker subscribes to, with an optional poll interval
/// that overrides the global one.
#[derive(Clone, Debug)]
pub struct TopicConfig {
    pub topic_id: String,
    pub wait_interval: Option<u64>,
}

impl TopicConfig {
    /// A topic without its own poll interval.
    pub fn new(topic_id: String) -> (r: Self)
        ensures
            r.topic_id@ == topic_id@,
            r.wait_interval.is_none(),
    {
        Self { topic_id, wait_interval: None }
    }
}

} // verus!
