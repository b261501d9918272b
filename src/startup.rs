//! Startup bookkeeping: named steps, the time the application took to start,
//! and scheduled tasks.
use vstd::prelude::*;

verus! {

/// A key/value annotation of a startup step.
pub struct Tag {
    pub key: String,
    pub value: String,
}

/// A startup step that records only its name.
pub struct DefaultStartupStep {
    name: String,
}

impl DefaultStartupStep {
    pub closed spec fn name(&self) -> Seq<char> {
        self.name@
    }

    pub fn get_name(&self) -> (r: String)
        ensures
            r@ == self.name(),
    {
        self.name.clone()
    }

    /// Steps of this kind are not numbered: always 0.
    pub fn get_id(&self) -> (r: u64)
        ensures
            r == 0,
    {
        0
    }

    /// Steps of this kind have no parent.
    pub fn get_parent_id(&self) -> (r: Option<u64>)
        ensures
            r is None,
    {
        None
    }

    /// Steps of this kind carry no tags.
    pub fn get_tags(&self) -> (r: Vec<Tag>)
        ensures
            r@.len() == 0,
    {
        Vec::new()
    }

    /// Ends the step; there is nothing to record.
    pub fn end(&self) {
    }
}

/// Hands out startup steps that record nothing but their name.
pub struct DefaultApplicationStartup;

impl DefaultApplicationStartup {
    pub fn start(&self, name: &str) -> (r: DefaultStartupStep)
        ensures
            r.name() == name@,
    {
        DefaultStartupStep { name: String::from_str(name) }
    }
}

/// When the run began and how long it took until started, in milliseconds.
pub struct StandardStartup {
    pub start_time: u128,
    pub time_taken_to_started: u128,
}

impl StandardStartup {
    pub fn new(start_time: u128) -> (r: StandardStartup)
        ensures
            r.start_time == start_time,
            r.time_taken_to_started == 0,
    {
        StandardStartup { start_time, time_taken_to_started: 0 }
    }

    /// Records that the application started at `now`; a clock that went
    /// back counts as no time taken.
    pub fn started(&mut self, now: u128)
        ensures
            final(self).start_time == old(self).start_time,
            final(self).time_taken_to_started == if now >= old(self).start_time {
                (now - old(self).start_time) as u128
            } else {
                0
            },
    {
        if now >= self.start_time {
            self.time_taken_to_started = now - self.start_time;
        } else {
            self.time_taken_to_started = 0;
        }
    }

    pub fn get_process_up_time(&self) -> (r: u128)
        ensures
            r == self.time_taken_to_started,
    {
        self.time_taken_to_started
    }

    pub fn get_start_time(&self) -> (r: u128)
        ensures
            r == self.start_time,
    {
        self.start_time
    }
}

/// A unit of scheduled work.
pub struct Task<R> {
    runnable: R,
}

impl<R> Task<R> {
    pub closed spec fn runnable(&self) -> R {
        self.runnable
    }

    pub fn new(runnable: R) -> (r: Task<R>)
        ensures
            r.runnable() == runnable,
    {
        Task { runnable }
    }

    pub fn get_runnable(&self) -> (r: &R)
        ensures
            *r == self.runnable(),
    {
        &self.runnable
    }
}

} // verus!

verus! {

/// A step of the startup sequence.
pub trait StartupStep {
    spec fn step_name(&self) -> Seq<char>;

    fn get_name(&self) -> (r: String)
        ensures
            r@ == self.step_name(),
    ;

    fn get_id(&self) -> u64;

    fn get_parent_id(&self) -> Option<u64>;

    fn get_tags(&self) -> Vec<Tag>;

    fn end(&self);
}

/// Hands out startup steps.
pub trait ApplicationStartup {
    fn start(&self, name: &str) -> (r: DefaultStartupStep)
        ensures
            r.name() == name@,
    ;
}

impl StartupStep for DefaultStartupStep {
    open spec fn step_name(&self) -> Seq<char> {
        self.name()
    }

    fn get_name(&self) -> (r: String) {
        DefaultStartupStep::get_name(self)
    }

    fn get_id(&self) -> u64 {
        DefaultStartupStep::get_id(self)
    }

    fn get_parent_id(&self) -> Option<u64> {
        DefaultStartupStep::get_parent_id(self)
    }

    fn get_tags(&self) -> Vec<Tag> {
        DefaultStartupStep::get_tags(self)
    }

    fn end(&self) {
        DefaultStartupStep::end(self)
    }
}

impl ApplicationStartup for DefaultApplicationStartup {
    fn start(&self, name: &str) -> (r: DefaultStartupStep) {
        DefaultApplicationStartup::start(self, name)
    }
}

} // verus!
