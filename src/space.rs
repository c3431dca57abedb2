//! A tracked space, the messages about it, and change detection.

use vstd::prelude::*;
use crate::normalize::{safe_entity_name, to_safe_entity_name};
use crate::status::FetchError;

verus! {

/// The display label from which a space's entity name is derived.
pub open spec fn entity_label(name: Seq<char>) -> Seq<char> {
    name + " Spacestate"@
}

pub open spec fn state_topic(entity_name: Seq<char>) -> Seq<char> {
    "spacestate/"@ + entity_name + "/state"@
}

pub open spec fn discovery_topic(entity_name: Seq<char>) -> Seq<char> {
    "homeassistant/binary_sensor/spacestate/"@ + entity_name + "/config"@
}

pub open spec fn state_payload(is_open: bool) -> Seq<char> {
    if is_open {
        "OPEN"@
    } else {
        "CLOSED"@
    }
}

/// A space as the contracts see it.
pub ghost struct SpaceView {
    pub name: Seq<char>,
    pub entity_name: Seq<char>,
    pub endpoint: Seq<char>,
    pub state: bool,
}

/// A tracked space: its directory name, the entity name derived from it, the
/// endpoint that is polled and the last state observed.
#[derive(Debug)]
pub struct Space {
    pub name: String,
    pub entity_name: String,
    pub endpoint: String,
    pub state: bool,
}

impl View for Space {
    type V = SpaceView;

    open spec fn view(&self) -> SpaceView {
        SpaceView {
            name: self.name@,
            entity_name: self.entity_name@,
            endpoint: self.endpoint@,
            state: self.state,
        }
    }
}

/// Metadata that announces a space's sensor to the automation platform.
#[derive(Debug)]
pub struct Discovery {
    pub name: String,
    pub unique_id: String,
    pub state_topic: String,
    pub payload_on: String,
    pub payload_off: String,
}

/// The entity name belongs to the space's name.
pub open spec fn space_wf(s: SpaceView) -> bool {
    s.entity_name == safe_entity_name(entity_label(s.name))
}

/// Whether an outcome of a fetch is a transition from `state`.
pub open spec fn publishes(state: bool, outcome: Result<bool, FetchError>) -> bool {
    match outcome {
        Ok(observed) => observed != state,
        Err(_) => false,
    }
}

/// The state kept after a fetch: the observed one, or the old one on failure.
pub open spec fn next_state(state: bool, outcome: Result<bool, FetchError>) -> bool {
    match outcome {
        Ok(observed) => observed,
        Err(_) => state,
    }
}

/// The state message for a space: its state topic and payload.
pub open spec fn state_message(s: SpaceView) -> (Seq<char>, Seq<char>) {
    (state_topic(s.entity_name), state_payload(s.state))
}

fn concat3(a: &str, b: &str, c: &str) -> (r: String)
    ensures
        r@ == a@ + b@ + c@,
{
    String::from_str(a).concat(b).concat(c)
}

impl Space {
    pub fn new(name: &str, endpoint: &str, state: bool) -> (r: Space)
        ensures
            r.name@ == name@,
            r.endpoint@ == endpoint@,
            r.state == state,
            space_wf(r@),
    {
        let label = String::from_str(name).concat(" Spacestate");
        Space {
            name: String::from_str(name),
            entity_name: to_safe_entity_name(label.as_str()),
            endpoint: String::from_str(endpoint),
            state,
        }
    }

    /// The retained state message: topic and payload.
    pub fn build_state_packet(&self) -> (r: (String, String))
        ensures
            r.deep_view() == state_message(self@),
    {
        let payload = if self.state {
            String::from_str("OPEN")
        } else {
            String::from_str("CLOSED")
        };
        (concat3("spacestate/", self.entity_name.as_str(), "/state"), payload)
    }

    /// The retained discovery message: topic and descriptor.
    pub fn build_discovery_packet(&self) -> (r: (String, Discovery))
        ensures
            r.0@ == discovery_topic(self.entity_name@),
            r.1.name@ == entity_label(self.name@),
            r.1.unique_id@ == self.entity_name@,
            r.1.state_topic@ == state_topic(self.entity_name@),
            r.1.payload_on@ == state_payload(true),
            r.1.payload_off@ == state_payload(false),
    {
        let topic = concat3(
            "homeassistant/binary_sensor/spacestate/",
            self.entity_name.as_str(),
            "/config",
        );
        let descriptor = Discovery {
            name: String::from_str(self.name.as_str()).concat(" Spacestate"),
            unique_id: self.entity_name.clone(),
            state_topic: concat3("spacestate/", self.entity_name.as_str(), "/state"),
            payload_on: String::from_str("OPEN"),
            payload_off: String::from_str("CLOSED"),
        };
        (topic, descriptor)
    }

    /// Takes the outcome of one fetch: on an observed change the state is
    /// updated and the new state message is returned for publishing; a failed
    /// fetch or an unchanged state leaves the space as it was.
    pub fn observe(&mut self, outcome: Result<bool, FetchError>) -> (r: Option<(String, String)>)
        ensures
            final(self).name == old(self).name,
            final(self).entity_name == old(self).entity_name,
            final(self).endpoint == old(self).endpoint,
            final(self).state == next_state(old(self).state, outcome),
            r.deep_view() == (if publishes(old(self).state, outcome) {
                Some(state_message(final(self)@))
            } else {
                None
            }),
    {
        match outcome {
            Ok(observed) => {
                if observed != self.state {
                    self.state = observed;
                    Some(self.build_state_packet())
                } else {
                    None
                }
            },
            Err(_) => None,
        }
    }
}

} // verus!
