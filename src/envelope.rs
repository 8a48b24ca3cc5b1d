use vstd::prelude::*;
use crate::record::{IdPayload, NodePayload, Payload, PayloadView, PortPayload};

verus! {

#[derive(Clone, Copy, Debug, PartialEq, Eq, Structural)]
pub enum EventKind {
    Add,
    Remove,
}

pub open spec fn kind_word(k: EventKind) -> Seq<char> {
    match k {
        EventKind::Add => "add"@,
        EventKind::Remove => "remove"@,
    }
}

pub open spec fn type_word(p: PayloadView) -> Seq<char> {
    match p {
        PayloadView::Node(_) => "node"@,
        PayloadView::Port(_) => "port"@,
        PayloadView::Link(_) => "link"@,
        PayloadView::Id(_) => "id"@,
    }
}

/// The name under which the UI receives an event: `{kind}_{type}`.
pub open spec fn event_name_of(k: EventKind, p: PayloadView) -> Seq<char> {
    kind_word(k) + "_"@ + type_word(p)
}

fn copy_text(t: &Option<String>) -> (r: Option<String>)
    ensures
        r.deep_view() == t.deep_view(),
{
    match t {
        Some(s) => Some(s.clone()),
        None => None,
    }
}

impl Payload {
    /// The record's type tag, the second half of its event name.
    pub fn type_tag(&self) -> (r: String)
        ensures
            r@ == type_word(self@),
    {
        match self {
            Payload::Node(_) => String::from_str("node"),
            Payload::Port(_) => String::from_str("port"),
            Payload::Link(_) => String::from_str("link"),
            Payload::Id(_) => String::from_str("id"),
        }
    }

    /// A copy of the record, field for field.
    pub fn duplicate(&self) -> (r: Payload)
        ensures
            r@ == self@,
    {
        match self {
            Payload::Node(p) => Payload::Node(NodePayload {
                id: p.id,
                serial: p.serial,
                nick: copy_text(&p.nick),
                name: copy_text(&p.name),
                description: copy_text(&p.description),
            }),
            Payload::Port(p) => Payload::Port(PortPayload {
                id: p.id,
                serial: p.serial,
                node_id: p.node_id,
                secondary_id: p.secondary_id,
                format_dsp: copy_text(&p.format_dsp),
                audio_channel: copy_text(&p.audio_channel),
                name: copy_text(&p.name),
                direction: copy_text(&p.direction),
            }),
            Payload::Link(p) => Payload::Link(*p),
            Payload::Id(p) => Payload::Id(*p),
        }
    }
}

/// A named event with the record it carries, as the UI receives it.
pub struct Envelope {
    pub kind: EventKind,
    pub payload: Payload,
}

pub struct EnvelopeView {
    pub kind: EventKind,
    pub payload: PayloadView,
}

impl View for Envelope {
    type V = EnvelopeView;

    open spec fn view(&self) -> EnvelopeView {
        EnvelopeView { kind: self.kind, payload: self.payload@ }
    }
}

pub open spec fn add_envelope(p: PayloadView) -> EnvelopeView {
    EnvelopeView { kind: EventKind::Add, payload: p }
}

/// A removal names the id alone, whatever kind of object held it.
pub open spec fn remove_envelope(id: u32) -> EnvelopeView {
    EnvelopeView { kind: EventKind::Remove, payload: PayloadView::Id(IdPayload { id }) }
}

impl Envelope {
    pub fn add(payload: Payload) -> (e: Envelope)
        ensures
            e@ == add_envelope(payload@),
    {
        Envelope { kind: EventKind::Add, payload }
    }

    pub fn remove(id: u32) -> (e: Envelope)
        ensures
            e@ == remove_envelope(id),
    {
        Envelope { kind: EventKind::Remove, payload: Payload::Id(IdPayload { id }) }
    }

    pub fn event_name(&self) -> (r: String)
        ensures
            r@ == event_name_of(self.kind, self.payload@),
    {
        let mut name = match self.kind {
            EventKind::Add => String::from_str("add"),
            EventKind::Remove => String::from_str("remove"),
        };
        name.append("_");
        let tag = self.payload.type_tag();
        name.append(tag.as_str());
        name
    }

    pub fn event_payload(&self) -> (r: Payload)
        ensures
            r@ == self.payload@,
    {
        self.payload.duplicate()
    }
}

} // verus!
