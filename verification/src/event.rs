//! Events and their classification: an event belongs to one category, and
//! the detector of that category gives its threat level.

use vstd::prelude::*;
use crate::file::{detect_file_threat, file_threat, lemma_file_threat_bounded, FileEvent, FileFacts};
use crate::network::{
    detect_network_threat, lemma_network_threat_bounded, network_threat, NetworkEvent,
    NetworkFacts,
};
use crate::process::{
    detect_process_threat, lemma_process_threat_bounded, process_threat, ProcessEvent,
    ProcessFacts,
};

verus! {

/// One telemetry event. `Unknown` stands for every event whose declared type
/// is none of process, network and file, or that declares none.
#[derive(Clone, Copy, Debug, PartialEq, Eq)]
pub enum Event<'a> {
    Process(ProcessEvent<'a>),
    Network(NetworkEvent<'a>),
    File(FileEvent<'a>),
    Unknown,
}

/// The mathematical content of an event.
pub enum EventFacts {
    Process(ProcessFacts),
    Network(NetworkFacts),
    File(FileFacts),
    Unknown,
}

impl<'a> View for Event<'a> {
    type V = EventFacts;

    open spec fn view(&self) -> EventFacts {
        match *self {
            Event::Process(event) => EventFacts::Process(event@),
            Event::Network(event) => EventFacts::Network(event@),
            Event::File(event) => EventFacts::File(event@),
            Event::Unknown => EventFacts::Unknown,
        }
    }
}

/// The threat level of an event: that of its category's detector, and 0 for
/// an event of unknown category.
pub open spec fn threat_level(facts: EventFacts) -> int {
    match facts {
        EventFacts::Process(process) => process_threat(process),
        EventFacts::Network(network) => network_threat(network),
        EventFacts::File(file) => file_threat(file),
        EventFacts::Unknown => 0,
    }
}

/// No event has a threat level above 10; only a process event can have one
/// below 0, and none has one below -2.
pub proof fn lemma_threat_level_bounded(facts: EventFacts)
    ensures
        -2 <= threat_level(facts) <= 10,
        !(facts is Process) ==> 0 <= threat_level(facts),
{
    match facts {
        EventFacts::Process(process) => lemma_process_threat_bounded(process),
        EventFacts::Network(network) => lemma_network_threat_bounded(network),
        EventFacts::File(file) => lemma_file_threat_bounded(file),
        EventFacts::Unknown => {},
    }
}

/// Scores an event.
pub fn score(event: &Event) -> (level: i32)
    ensures
        level == threat_level(event@),
        -2 <= level <= 10,
        !(event@ is Process) ==> 0 <= level,
{
    match event {
        Event::Process(process) => detect_process_threat(process),
        Event::Network(network) => detect_network_threat(network),
        Event::File(file) => detect_file_threat(file),
        Event::Unknown => 0,
    }
}

/// Scoring keeps no state: whatever `score` returns for an event is fixed by
/// the content of the event, so that scoring the same event twice, or two
/// events of the same content, gives the same level.
pub proof fn lemma_score_is_repeatable(first: Event, second: Event, once: i32, again: i32)
    requires
        first@ == second@,
        call_ensures(score, (&first,), once),
        call_ensures(score, (&second,), again),
    ensures
        once == again,
{
}

} // verus!
