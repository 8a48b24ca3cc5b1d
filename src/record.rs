use vstd::prelude::*;
use crate::dict::PropertyDict;

verus! {

/// The kind of a global object as the registry announces it.
#[derive(Clone, Copy, Debug, PartialEq, Eq, Structural)]
pub enum ObjectKind {
    Node,
    Port,
    Link,
    Other,
}

/// A global object as a registry notification hands it over.
pub struct RawObject {
    pub id: u32,
    pub kind: ObjectKind,
    pub props: PropertyDict,
}

pub struct NodePayload {
    pub id: u32,
    pub serial: u32,
    pub nick: Option<String>,
    pub name: Option<String>,
    pub description: Option<String>,
}

pub struct NodeView {
    pub id: u32,
    pub serial: u32,
    pub nick: Option<Seq<char>>,
    pub name: Option<Seq<char>>,
    pub description: Option<Seq<char>>,
}

impl View for NodePayload {
    type V = NodeView;

    open spec fn view(&self) -> NodeView {
        NodeView {
            id: self.id,
            serial: self.serial,
            nick: self.nick.deep_view(),
            name: self.name.deep_view(),
            description: self.description.deep_view(),
        }
    }
}

pub struct PortPayload {
    pub id: u32,
    pub serial: u32,
    pub node_id: u32,
    /// The port's position on its node's input or output side; not its global id.
    pub secondary_id: u32,
    pub format_dsp: Option<String>,
    pub audio_channel: Option<String>,
    pub name: Option<String>,
    pub direction: Option<String>,
}

pub struct PortView {
    pub id: u32,
    pub serial: u32,
    pub node_id: u32,
    pub secondary_id: u32,
    pub format_dsp: Option<Seq<char>>,
    pub audio_channel: Option<Seq<char>>,
    pub name: Option<Seq<char>>,
    pub direction: Option<Seq<char>>,
}

impl View for PortPayload {
    type V = PortView;

    open spec fn view(&self) -> PortView {
        PortView {
            id: self.id,
            serial: self.serial,
            node_id: self.node_id,
            secondary_id: self.secondary_id,
            format_dsp: self.format_dsp.deep_view(),
            audio_channel: self.audio_channel.deep_view(),
            name: self.name.deep_view(),
            direction: self.direction.deep_view(),
        }
    }
}

#[derive(Clone, Copy, Debug, PartialEq, Eq, Structural)]
pub struct LinkPayload {
    pub id: u32,
    pub serial: u32,
    pub input_port_id: u32,
    pub output_port_id: u32,
    pub input_node_id: u32,
    pub output_node_id: u32,
}

impl View for LinkPayload {
    type V = LinkPayload;

    open spec fn view(&self) -> LinkPayload {
        *self
    }
}

/// What a removal carries: the registry id alone.
#[derive(Clone, Copy, Debug, PartialEq, Eq, Structural)]
pub struct IdPayload {
    pub id: u32,
}

/// A translated record, of one of the kinds that reach the UI.
pub enum Payload {
    Node(NodePayload),
    Port(PortPayload),
    Link(LinkPayload),
    Id(IdPayload),
}

pub enum PayloadView {
    Node(NodeView),
    Port(PortView),
    Link(LinkPayload),
    Id(IdPayload),
}

impl View for Payload {
    type V = PayloadView;

    open spec fn view(&self) -> PayloadView {
        match self {
            Payload::Node(p) => PayloadView::Node(p@),
            Payload::Port(p) => PayloadView::Port(p@),
            Payload::Link(p) => PayloadView::Link(*p),
            Payload::Id(p) => PayloadView::Id(*p),
        }
    }
}

/// A required numeric property that was absent or not a `u32`.
pub enum TranslationError {
    MissingOrInvalidField { object_id: u32, field_name: String },
}

pub struct MissingField {
    pub object_id: u32,
    pub field_name: Seq<char>,
}

impl View for TranslationError {
    type V = MissingField;

    open spec fn view(&self) -> MissingField {
        match self {
            TranslationError::MissingOrInvalidField { object_id, field_name } => MissingField {
                object_id: *object_id,
                field_name: field_name@,
            },
        }
    }
}

pub open spec fn view_result<T: View>(r: Result<T, TranslationError>) -> Result<T::V, MissingField> {
    match r {
        Ok(v) => Ok(v@),
        Err(e) => Err(e@),
    }
}

} // verus!
