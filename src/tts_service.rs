use vstd::prelude::*;
use crate::tts::AudioPlayer;
use crate::tts_queue::{QueueStatus, TTSQueue, TTSRequest, MAX_QUEUE_SIZE};

verus! {

/// Commands that the speech service accepts.
#[derive(Debug)]
pub enum TTSCommand {
    /// Speak the given text
    Speak(TTSRequest),
    /// Stop current playback
    Stop,
    /// Skip to the next request
    Skip,
    /// Clear the queue
    ClearQueue,
    /// Report the current status
    GetStatus,
    /// Shut the service down
    Shutdown,
}

/// Answers of the speech service.
#[derive(Debug)]
pub enum TTSResponse {
    /// Status report
    Status(QueueStatus),
    /// The command was carried out
    Done,
    /// The command failed
    Error(String),
}

/// The decisions of the speech service: its queue, its player, and whether
/// a request is being spoken. The service loop hands it each command and
/// asks it for the next request when it is idle.
pub struct ServiceState {
    queue: TTSQueue,
    player: AudioPlayer,
    processing: bool,
}

impl ServiceState {
    /// The waiting requests, oldest first.
    pub closed spec fn waiting(&self) -> Seq<TTSRequest> {
        self.queue.waiting()
    }

    /// The request being spoken, if any.
    pub closed spec fn current(&self) -> Option<TTSRequest> {
        self.queue.current_request()
    }

    /// Whether a request is being spoken.
    pub closed spec fn busy(&self) -> bool {
        self.processing
    }

    /// Whether audio is playing.
    pub closed spec fn playing(&self) -> bool {
        self.player.playing()
    }

    /// The queue keeps its bound.
    pub closed spec fn wf(&self) -> bool {
        self.queue.wf()
    }

    /// An idle service with an empty queue.
    pub fn new() -> (r: Self)
        ensures
            r.wf(),
            r.waiting().len() == 0,
            r.current() is None,
            !r.busy(),
            !r.playing(),
    {
        ServiceState { queue: TTSQueue::new(), player: AudioPlayer::new(), processing: false }
    }

    /// Carries out a command. Returns the answer to send, and whether the
    /// service is to stop, which only a shutdown asks for.
    pub fn handle(&mut self, command: TTSCommand) -> (r: (Option<TTSResponse>, bool))
        requires
            old(self).wf(),
        ensures
            final(self).wf(),
            r.1 == (command is Shutdown),
            command is Shutdown ==> (r.0 is None) && !final(self).playing()
                && final(self).waiting() == old(self).waiting(),
            command matches TTSCommand::Speak(req) ==> final(self).busy() == old(self).busy() && if old(
                self,
            ).waiting().len() < MAX_QUEUE_SIZE {
                (r.0 matches Some(TTSResponse::Done)) && final(self).waiting() == old(self).waiting().push(req)
            } else {
                (r.0 matches Some(TTSResponse::Error(_))) && final(self).waiting() == old(self).waiting()
            },
            (command is Stop || command is Skip) ==> {
                &&& r.0 matches Some(TTSResponse::Done)
                &&& !final(self).playing()
                &&& !final(self).busy()
                &&& final(self).current() is None
                &&& final(self).waiting() == old(self).waiting()
            },
            command is ClearQueue ==> (r.0 matches Some(TTSResponse::Done)) && final(self).waiting().len()
                == 0 && final(self).busy() == old(self).busy(),
            command is GetStatus ==> (r.0 matches Some(TTSResponse::Status(s)) && s.queue_length
                == old(self).waiting().len() && s.current == old(self).current())
                && final(self).waiting() == old(self).waiting() && final(self).busy() == old(self).busy(),
    {
        match command {
            TTSCommand::Speak(request) => {
                match self.queue.enqueue(request) {
                    Ok(()) => (Some(TTSResponse::Done), false),
                    Err(e) => (Some(TTSResponse::Error(e)), false),
                }
            },
            TTSCommand::Stop | TTSCommand::Skip => {
                self.player.stop();
                self.queue.complete_current();
                self.processing = false;
                (Some(TTSResponse::Done), false)
            },
            TTSCommand::ClearQueue => {
                self.queue.clear();
                (Some(TTSResponse::Done), false)
            },
            TTSCommand::GetStatus => (Some(TTSResponse::Status(self.queue.status())), false),
            TTSCommand::Shutdown => {
                self.player.stop();
                (None, true)
            },
        }
    }

    /// When idle with requests waiting, takes the oldest one to speak.
    pub fn start_next(&mut self) -> (r: Option<TTSRequest>)
        requires
            old(self).wf(),
        ensures
            final(self).wf(),
            (old(self).busy() || old(self).waiting().len() == 0) ==> (r is None) && final(self).waiting()
                == old(self).waiting() && final(self).busy() == old(self).busy(),
            (!old(self).busy() && old(self).waiting().len() > 0) ==> {
                &&& r == Some(old(self).waiting()[0])
                &&& final(self).waiting() == old(self).waiting().drop_first()
                &&& final(self).current() == r
                &&& final(self).busy()
            },
    {
        if self.processing || self.queue.is_empty() {
            return None;
        }
        self.processing = true;
        let request = self.queue.dequeue();
        self.queue.set_playing(true);
        request
    }

    /// The current request is done, spoken or not.
    pub fn finish_current(&mut self)
        requires
            old(self).wf(),
        ensures
            final(self).wf(),
            final(self).current() is None,
            !final(self).busy(),
            final(self).waiting() == old(self).waiting(),
    {
        self.queue.complete_current();
        self.processing = false;
    }

    /// The voice of the current request could not be loaded: it is dropped
    /// and the error is answered.
    pub fn load_failed(&mut self, error: String) -> (r: TTSResponse)
        requires
            old(self).wf(),
        ensures
            final(self).wf(),
            (r matches TTSResponse::Error(e) && e == error),
            final(self).current() is None,
            !final(self).busy(),
            final(self).waiting() == old(self).waiting(),
    {
        self.finish_current();
        TTSResponse::Error(error)
    }
}

} // verus!
