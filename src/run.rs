use vstd::prelude::*;

use crate::destination::{denotes, is_destination_text, parse_recipient, Destination, InvalidDestination};
use crate::message::{construct_message, message_text, record_line, PriceRecord};

verus! {

/// Why fetching one asset's quote failed.
pub enum FetchError {
    /// The request could not be completed.
    Network(String),
    /// The response was not a ticker with a symbol and a USD price.
    Decode(String),
}

/// Why a run ended without delivering its message.
pub enum RunError {
    Fetch { asset: String, error: FetchError },
    InvalidDestination(InvalidDestination),
    Delivery(String),
}

/// What the caller of a run does next.
pub enum Action {
    /// Fetch the quote of this asset and report it with `on_fetched`.
    Fetch(String),
    /// Send this message to this destination and report it with `on_sent`.
    Send { destination: Destination, message: String },
    /// Stop: the run failed.
    Abort(RunError),
    /// Stop: the message was delivered.
    Done,
}

/// Where a run stands: waiting for quotes, for the delivery, or over.
pub enum Phase {
    Fetching,
    Sending,
    Finished,
    Failed,
}

/// One publishing pass: fetch each asset in the declared order, stop at the
/// first failure, then deliver the whole message once.
pub struct Run {
    pub assets: Vec<String>,
    pub destination: String,
    pub message: String,
    pub fetched: usize,
    pub records: Ghost<Seq<PriceRecord>>,
    pub phase: Phase,
}

impl Run {
    pub open spec fn wf(&self) -> bool {
        &&& self.fetched == self.records@.len()
        &&& self.fetched <= self.assets@.len()
        &&& self.message@ == message_text(self.records@)
        &&& self.phase is Sending ==> self.fetched == self.assets@.len() && is_destination_text(
            self.destination@,
        )
    }

    /// What a fetching run does once `fetched` quotes are in: fetch the next
    /// asset, or, with all of them in, send the whole message if the
    /// destination can be read and fail otherwise.
    pub open spec fn next_action(&self, r: Action) -> bool {
        if self.fetched < self.assets@.len() {
            &&& self.phase is Fetching
            &&& r matches Action::Fetch(a) && a@ == self.assets@[self.fetched as int]@
        } else if is_destination_text(self.destination@) {
            &&& self.phase is Sending
            &&& r matches Action::Send { destination, message } && denotes(
                destination,
                self.destination@,
            ) && message@ == self.message@
        } else {
            &&& self.phase is Failed
            &&& r matches Action::Abort(RunError::InvalidDestination(e)) && e.raw@
                == self.destination@
        }
    }

    pub fn new(assets: Vec<String>, destination: String) -> (r: Run)
        ensures
            r.wf(),
            r.assets == assets,
            r.destination == destination,
            r.fetched == 0,
            r.phase is Fetching,
    {
        Run {
            assets,
            destination,
            message: String::new(),
            fetched: 0,
            records: Ghost(Seq::empty()),
            phase: Phase::Fetching,
        }
    }

    fn advance(&mut self) -> (r: Action)
        requires
            old(self).wf(),
            old(self).phase is Fetching,
        ensures
            final(self).wf(),
            final(self).next_action(r),
            final(self).assets == old(self).assets,
            final(self).destination == old(self).destination,
            final(self).message == old(self).message,
            final(self).fetched == old(self).fetched,
            final(self).records == old(self).records,
    {
        if self.fetched < self.assets.len() {
            Action::Fetch(self.assets[self.fetched].clone())
        } else {
            match parse_recipient(self.destination.as_str()) {
                Ok(d) => {
                    self.phase = Phase::Sending;
                    Action::Send { destination: d, message: self.message.clone() }
                },
                Err(e) => {
                    self.phase = Phase::Failed;
                    Action::Abort(RunError::InvalidDestination(e))
                },
            }
        }
    }

    /// The first step of a fresh run.
    pub fn start(&mut self) -> (r: Action)
        requires
            old(self).wf(),
            old(self).phase is Fetching,
            old(self).fetched == 0,
        ensures
            final(self).wf(),
            final(self).next_action(r),
            final(self).assets == old(self).assets,
            final(self).destination == old(self).destination,
            final(self).fetched == 0,
    {
        self.advance()
    }

    /// Takes the outcome of the fetch that the last action asked for. A quote
    /// adds its line to the message; a failure ends the run before anything
    /// is sent.
    pub fn on_fetched(&mut self, outcome: Result<PriceRecord, FetchError>) -> (r: Action)
        requires
            old(self).wf(),
            old(self).phase is Fetching,
            old(self).fetched < old(self).assets@.len(),
        ensures
            final(self).wf(),
            final(self).assets == old(self).assets,
            final(self).destination == old(self).destination,
            match outcome {
                Ok(record) => {
                    &&& final(self).fetched == old(self).fetched + 1
                    &&& final(self).records@ == old(self).records@.push(record)
                    &&& final(self).message@ == old(self).message@ + record_line(record)
                    &&& final(self).next_action(r)
                },
                Err(error) => {
                    &&& final(self).phase is Failed
                    &&& final(self).fetched == old(self).fetched
                    &&& r matches Action::Abort(RunError::Fetch { asset, error: e }) && asset@
                        == old(self).assets@[old(self).fetched as int]@ && e == error
                },
            },
    {
        match outcome {
            Ok(record) => {
                let n = self.assets.len();
                proof {
                    assert(self.fetched < n);
                }
                let line = construct_message(&record);
                self.message.append(line.as_str());
                self.records = Ghost(self.records@.push(record));
                self.fetched = self.fetched + 1;
                proof {
                    assert(self.records@.drop_last() =~= old(self).records@);
                }
                self.advance()
            },
            Err(error) => {
                self.phase = Phase::Failed;
                Action::Abort(
                    RunError::Fetch { asset: self.assets[self.fetched].clone(), error },
                )
            },
        }
    }

    /// Takes the outcome of the delivery that the last action asked for.
    pub fn on_sent(&mut self, outcome: Result<(), String>) -> (r: Action)
        requires
            old(self).wf(),
            old(self).phase is Sending,
        ensures
            final(self).wf(),
            final(self).assets == old(self).assets,
            final(self).message == old(self).message,
            final(self).fetched == old(self).fetched,
            match outcome {
                Ok(()) => final(self).phase is Finished && r is Done,
                Err(m) => {
                    &&& final(self).phase is Failed
                    &&& r matches Action::Abort(RunError::Delivery(e)) && e == m
                },
            },
    {
        match outcome {
            Ok(()) => {
                self.phase = Phase::Finished;
                Action::Done
            },
            Err(m) => {
                self.phase = Phase::Failed;
                Action::Abort(RunError::Delivery(m))
            },
        }
    }
}

/// A run sends once, after every asset's quote is in, and what it sends is
/// the line of each quote in the order the assets were declared.
pub proof fn send_carries_every_line(run: Run, r: Action)
    requires
        run.wf(),
        run.next_action(r),
        r is Send,
    ensures
        run.records@.len() == run.assets@.len(),
        r->message@ == message_text(run.records@),
{
}

/// A destination that cannot be read stops the run before any send.
pub proof fn unreadable_destination_never_sends(run: Run, r: Action)
    requires
        run.wf(),
        run.next_action(r),
        !is_destination_text(run.destination@),
    ensures
        r !is Send,
        run.fetched == run.assets@.len() ==> r is Abort && run.phase is Failed,
{
}

} // verus!
