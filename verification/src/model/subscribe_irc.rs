use vstd::prelude::*;

verus! {

/// What the IRC subscription reports to the application.
#[derive(Debug, PartialEq, Eq)]
pub enum Progress {
    Started,
    /// One line read from the server, as text.
    Advanced(String),
    Finished,
    Errored,
}

impl Clone for Progress {
    fn clone(&self) -> (r: Self)
        ensures
            r == *self,
    {
        match self {
            Progress::Started => Progress::Started,
            Progress::Advanced(text) => Progress::Advanced(text.clone()),
            Progress::Finished => Progress::Finished,
            Progress::Errored => Progress::Errored,
        }
    }
}

/// What one read of the client stream gave.
#[derive(Debug, Clone, PartialEq, Eq)]
pub enum StreamEvent {
    /// A message, as the text that the server sent.
    Line(String),
    /// The stream has ended.
    Ended,
    /// Reading the stream failed.
    Failed,
}

/// The phase of the IRC subscription. The client stream that it reads is held beside it by
/// whoever runs the subscription.
#[derive(Debug, Clone, PartialEq, Eq)]
pub enum SubscribeIrcState {
    Ready { some_input: String },
    Incoming { message_text: String },
    Finished,
}

/// What the subscription does next in a phase.
#[derive(Debug, Clone, PartialEq, Eq)]
pub enum Step {
    /// Report `Progress` and go on in the given phase, without reading the stream.
    Emit(Progress, SubscribeIrcState),
    /// Read the stream once and hand the result to `SubscribeIrcState::receive`.
    Read,
    /// Report nothing more, ever.
    Idle,
}

impl SubscribeIrcState {
    /// The subscription's next move: a ready subscription reports that it started and waits
    /// for lines, one that waits for lines reads the stream, and a finished one stays silent.
    pub fn step(self) -> (r: Step)
        ensures
            self is Ready ==> (r matches Step::Emit(p, SubscribeIrcState::Incoming { message_text })
                && p == Progress::Started && message_text@ == Seq::<char>::empty()),
            self is Incoming ==> r == Step::Read,
            self is Finished ==> r == Step::Idle,
    {
        match self {
            SubscribeIrcState::Ready { .. } => Step::Emit(
                Progress::Started,
                SubscribeIrcState::Incoming { message_text: String::new() },
            ),
            SubscribeIrcState::Incoming { .. } => Step::Read,
            SubscribeIrcState::Finished => Step::Idle,
        }
    }

    /// The report and the next phase after one read of the stream: a line is reported as
    /// it was read and reading goes on; the end of the stream reports `Finished`, a failed read
    /// reports `Errored`, and both finish the subscription.
    pub fn receive(event: StreamEvent) -> (r: (Progress, SubscribeIrcState))
        ensures
            match event {
                StreamEvent::Line(text) => r == (
                    Progress::Advanced(text),
                    SubscribeIrcState::Incoming { message_text: text },
                ),
                StreamEvent::Ended => r == (Progress::Finished, SubscribeIrcState::Finished),
                StreamEvent::Failed => r == (Progress::Errored, SubscribeIrcState::Finished),
            },
    {
        match event {
            StreamEvent::Line(text) => {
                let reported = text.clone();
                (Progress::Advanced(reported), SubscribeIrcState::Incoming { message_text: text })
            },
            StreamEvent::Ended => (Progress::Finished, SubscribeIrcState::Finished),
            StreamEvent::Failed => (Progress::Errored, SubscribeIrcState::Finished),
        }
    }
}

} // verus!
