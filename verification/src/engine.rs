//! The entry point of the engine: from the bytes of an encoded event to its
//! threat level.

use vstd::prelude::*;
use crate::event::{lemma_threat_level_bounded, score, threat_level, Event, EventFacts};
use crate::file::{FileEvent, FileFacts};
use crate::json::{content, decoded, integer_of, member_of, parse_document, text_of, Json};
use crate::network::{NetworkEvent, NetworkFacts};
use crate::process::{ProcessEvent, ProcessFacts};
use crate::text::{chars_of, same_text};

verus! {

/// The process event that the `data` member of a document describes.
pub open spec fn process_facts_of(data: Json) -> ProcessFacts {
    let process = data.member("process"@);
    ProcessFacts {
        executable: process.member("executable"@).text(),
        name: process.member("name"@).text(),
        command_line: process.member("command_line"@).text(),
        user: process.member("user"@).text(),
        action: data.member("action"@).text(),
    }
}

/// The network event that the `data` member of a document describes.
pub open spec fn network_facts_of(data: Json) -> NetworkFacts {
    let network = data.member("network"@);
    NetworkFacts {
        dest_port: network.member("dest_port"@).integer(),
        dest_ip: network.member("dest_ip"@).text(),
        protocol: network.member("protocol"@).text(),
        direction: network.member("direction"@).text(),
    }
}

/// The file event that the `data` member of a document describes.
pub open spec fn file_facts_of(data: Json) -> FileFacts {
    let file = data.member("file"@);
    FileFacts {
        path: file.member("path"@).text(),
        operation: file.member("operation"@).text(),
    }
}

/// The event that a document describes. Its `type` member names the category;
/// the fields are read from its `data` member. A member that is missing, or
/// that holds a value of another kind than the field, leaves the field absent.
pub open spec fn event_of(document: Json) -> EventFacts {
    let declared = document.member("type"@).text();
    let data = document.member("data"@);
    if declared == Some("process"@) {
        EventFacts::Process(process_facts_of(data))
    } else if declared == Some("network"@) {
        EventFacts::Network(network_facts_of(data))
    } else if declared == Some("file"@) {
        EventFacts::File(file_facts_of(data))
    } else {
        EventFacts::Unknown
    }
}

/// Whether `declared` is the type name `name`.
fn declares(declared: Option<&str>, name: &str) -> (same: bool)
    ensures
        same == (declared.deep_view() == Some(name@)),
{
    match declared {
        Some(declared) => {
            let declared = chars_of(declared);
            let name = chars_of(name);
            same_text(declared.as_slice(), name.as_slice())
        },
        None => false,
    }
}

/// Reads the event that `document` describes.
pub fn read_event<'a>(document: &'a serde_json::Value) -> (event: Event<'a>)
    ensures
        event@ == event_of(content(*document)),
{
    let declared = text_of(member_of(document, "type"));
    let data = member_of(document, "data");
    if declares(declared, "process") {
        let process = member_of(data, "process");
        Event::Process(
            ProcessEvent {
                executable: text_of(member_of(process, "executable")),
                name: text_of(member_of(process, "name")),
                command_line: text_of(member_of(process, "command_line")),
                user: text_of(member_of(process, "user")),
                action: text_of(member_of(data, "action")),
            },
        )
    } else if declares(declared, "network") {
        let network = member_of(data, "network");
        Event::Network(
            NetworkEvent {
                dest_port: integer_of(member_of(network, "dest_port")),
                dest_ip: text_of(member_of(network, "dest_ip")),
                protocol: text_of(member_of(network, "protocol")),
                direction: text_of(member_of(network, "direction")),
            },
        )
    } else if declares(declared, "file") {
        let file = member_of(data, "file");
        Event::File(
            FileEvent {
                path: text_of(member_of(file, "path")),
                operation: text_of(member_of(file, "operation")),
            },
        )
    } else {
        Event::Unknown
    }
}

/// The threat level of the event that `bytes` encode: that of the event which
/// the decoded document describes, and 0 where `bytes` is empty or cannot be
/// decoded.
pub open spec fn detect_level(bytes: Seq<u8>) -> int {
    if bytes.len() == 0 {
        0
    } else {
        match decoded(bytes) {
            Some(document) => threat_level(event_of(document)),
            None => 0,
        }
    }
}

/// The type that a document declares is one of the three that the engine
/// knows.
pub open spec fn declares_known_type(document: Json) -> bool {
    let declared = document.member("type"@).text();
    declared == Some("process"@) || declared == Some("network"@) || declared == Some("file"@)
}

/// A document that declares no type, or one that the engine does not know,
/// describes an event of unknown category, and its threat level is 0.
pub proof fn lemma_unknown_type_scores_zero(document: Json)
    requires
        !declares_known_type(document),
    ensures
        event_of(document) is Unknown,
        threat_level(event_of(document)) == 0,
{
}

/// Input that is empty, that cannot be decoded, or that decodes to a document
/// of no known type has threat level 0.
pub proof fn lemma_unusable_input_scores_zero(bytes: Seq<u8>)
    requires
        bytes.len() == 0 || (match decoded(bytes) {
            Some(document) => !declares_known_type(document),
            None => true,
        }),
    ensures
        detect_level(bytes) == 0,
{
}

/// The threat level of any input lies between -2 and 10, and it is negative
/// only where the input describes a process event.
pub proof fn lemma_detect_level_bounded(bytes: Seq<u8>)
    ensures
        -2 <= detect_level(bytes) <= 10,
        detect_level(bytes) < 0 ==> (decoded(bytes) matches Some(document) && event_of(
            document,
        ) is Process),
{
    if let Some(document) = decoded(bytes) {
        lemma_threat_level_bounded(event_of(document));
    }
}

/// Detection keeps no state: whatever `detect` returns for an input is fixed
/// by the bytes of the input, so that two calls on the same bytes return the
/// same level.
pub proof fn lemma_detect_is_repeatable(first: &[u8], second: &[u8], once: i32, again: i32)
    requires
        first@ == second@,
        call_ensures(detect, (first,), once),
        call_ensures(detect, (second,), again),
    ensures
        once == again,
{
}

/// Scores the event that `event` encodes as JSON text.
pub fn detect(event: &[u8]) -> (level: i32)
    ensures
        level == detect_level(event@),
        event@.len() == 0 ==> level == 0,
        decoded(event@) is None ==> level == 0,
        decoded(event@) matches Some(document) && !declares_known_type(document) ==> level == 0,
        -2 <= level <= 10,
{
    proof {
        lemma_detect_level_bounded(event@);
    }
    if event.len() == 0 {
        return 0;
    }
    match parse_document(event) {
        Ok(document) => {
            let event = read_event(&document);
            score(&event)
        },
        Err(_) => 0,
    }
}

} // verus!
