use vstd::prelude::*;
use std::collections::VecDeque;
use crate::ids::fresh_uuid;

verus! {

/// The most requests that may wait in a queue.
pub const MAX_QUEUE_SIZE: usize = 50;

/// The slowest playback speed, in percent of normal.
pub const MIN_SPEED_PERCENT: u32 = 50;

/// The fastest playback speed, in percent of normal.
pub const MAX_SPEED_PERCENT: u32 = 200;

/// A request to speak a text.
#[derive(Debug)]
pub struct TTSRequest {
    /// Identifier of this request
    pub message_id: u128,
    /// Text to synthesize
    pub text: String,
    /// Voice model to use
    pub voice_id: String,
    /// Playback speed in percent of normal, from 50 to 200
    pub speed_percent: u32,
}

/// `speed` brought into the allowed range.
pub open spec fn clamped_speed(speed: u32) -> u32 {
    if speed < MIN_SPEED_PERCENT {
        MIN_SPEED_PERCENT
    } else if speed > MAX_SPEED_PERCENT {
        MAX_SPEED_PERCENT
    } else {
        speed
    }
}

impl TTSRequest {
    /// A request with a fresh identifier, its speed brought into range.
    pub fn new(text: String, voice_id: String, speed_percent: u32) -> (r: Self)
        ensures
            r.text == text,
            r.voice_id == voice_id,
            r.speed_percent == clamped_speed(speed_percent),
    {
        let speed = if speed_percent < MIN_SPEED_PERCENT {
            MIN_SPEED_PERCENT
        } else if speed_percent > MAX_SPEED_PERCENT {
            MAX_SPEED_PERCENT
        } else {
            speed_percent
        };
        TTSRequest { message_id: fresh_uuid(), text, voice_id, speed_percent: speed }
    }

    /// A copy of this request.
    pub fn duplicate(&self) -> (r: Self)
        ensures
            r == *self,
    {
        TTSRequest {
            message_id: self.message_id,
            text: self.text.clone(),
            voice_id: self.voice_id.clone(),
            speed_percent: self.speed_percent,
        }
    }
}

/// A copy of an optional request.
fn duplicate_opt(r: &Option<TTSRequest>) -> (c: Option<TTSRequest>)
    ensures
        c == *r,
{
    match r {
        Some(x) => Some(x.duplicate()),
        None => None,
    }
}

/// A snapshot of a queue.
#[derive(Debug)]
pub struct QueueStatus {
    /// The request taken last, until it completes
    pub current: Option<TTSRequest>,
    /// Number of waiting requests
    pub queue_length: usize,
    /// Whether audio is playing
    pub playing: bool,
}

impl Default for QueueStatus {
    fn default() -> (r: Self)
        ensures
            r.current is None,
            r.queue_length == 0,
            !r.playing,
    {
        QueueStatus { current: None, queue_length: 0, playing: false }
    }
}

/// Requests waiting to be spoken, first in first out, with the one taken last.
pub struct TTSQueue {
    queue: VecDeque<TTSRequest>,
    current: Option<TTSRequest>,
    playing: bool,
}

impl TTSQueue {
    /// The waiting requests, oldest first.
    pub closed spec fn waiting(&self) -> Seq<TTSRequest> {
        self.queue@
    }

    /// The request taken last, until it completes.
    pub closed spec fn current_request(&self) -> Option<TTSRequest> {
        self.current
    }

    /// Whether audio is playing.
    pub closed spec fn is_playing(&self) -> bool {
        self.playing
    }

    /// The queue never holds more than its limit.
    pub closed spec fn wf(&self) -> bool {
        self.queue@.len() <= MAX_QUEUE_SIZE
    }

    /// An empty queue, with nothing current and nothing playing.
    pub fn new() -> (r: Self)
        ensures
            r.wf(),
            r.waiting().len() == 0,
            r.current_request() is None,
            !r.is_playing(),
    {
        TTSQueue { queue: VecDeque::new(), current: None, playing: false }
    }

    /// Adds a request at the back; a full queue refuses it.
    pub fn enqueue(&mut self, request: TTSRequest) -> (r: Result<(), String>)
        requires
            old(self).wf(),
        ensures
            final(self).wf(),
            old(self).waiting().len() < MAX_QUEUE_SIZE ==> r is Ok && final(self).waiting()
                == old(self).waiting().push(request),
            old(self).waiting().len() >= MAX_QUEUE_SIZE ==> (r matches Err(e) && e@
                == "Queue is full (max 50)"@) && final(self).waiting() == old(self).waiting(),
            final(self).current_request() == old(self).current_request(),
            final(self).is_playing() == old(self).is_playing(),
    {
        if self.queue.len() >= MAX_QUEUE_SIZE {
            return Err(String::from_str("Queue is full (max 50)"));
        }
        self.queue.push_back(request);
        Ok(())
    }

    /// Takes the oldest request, which becomes the current one.
    pub fn dequeue(&mut self) -> (r: Option<TTSRequest>)
        requires
            old(self).wf(),
        ensures
            final(self).wf(),
            old(self).waiting().len() == 0 ==> r is None && final(self).waiting() == old(self).waiting()
                && final(self).current_request() == old(self).current_request(),
            old(self).waiting().len() > 0 ==> r == Some(old(self).waiting()[0]) && final(self).waiting()
                == old(self).waiting().drop_first() && final(self).current_request() == r,
            final(self).is_playing() == old(self).is_playing(),
    {
        let request = self.queue.pop_front();
        match &request {
            Some(req) => {
                self.current = Some(req.duplicate());
            },
            None => {},
        }
        request
    }

    /// Drops every waiting request.
    pub fn clear(&mut self)
        ensures
            final(self).wf(),
            final(self).waiting().len() == 0,
            final(self).current_request() == old(self).current_request(),
            final(self).is_playing() == old(self).is_playing(),
    {
        self.queue.clear();
    }

    /// A snapshot: the current request, how many wait, and whether audio plays.
    pub fn status(&self) -> (r: QueueStatus)
        ensures
            r.current == self.current_request(),
            r.queue_length == self.waiting().len(),
            r.playing == self.is_playing(),
    {
        QueueStatus { current: duplicate_opt(&self.current), queue_length: self.queue.len(), playing: self.playing }
    }

    /// Records whether audio is playing.
    pub fn set_playing(&mut self, playing: bool)
        ensures
            final(self).is_playing() == playing,
            final(self).waiting() == old(self).waiting(),
            final(self).current_request() == old(self).current_request(),
            final(self).wf() == old(self).wf(),
    {
        self.playing = playing;
    }

    /// Whether no request waits.
    pub fn is_empty(&self) -> (r: bool)
        ensures
            r == (self.waiting().len() == 0),
    {
        self.queue.len() == 0
    }

    /// How many requests wait.
    pub fn len(&self) -> (r: usize)
        ensures
            r == self.waiting().len(),
    {
        self.queue.len()
    }

    /// Marks the current request as done and playback as stopped.
    pub fn complete_current(&mut self)
        ensures
            final(self).current_request() is None,
            !final(self).is_playing(),
            final(self).waiting() == old(self).waiting(),
            final(self).wf() == old(self).wf(),
    {
        self.current = None;
        self.set_playing(false);
    }
}

impl Default for TTSQueue {
    fn default() -> (r: Self)
        ensures
            r.wf(),
            r.waiting().len() == 0,
    {
        TTSQueue::new()
    }
}

} // verus!
