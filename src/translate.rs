use vstd::prelude::*;
use crate::dict::{lookup, PropertyDict};
use crate::number::{parse_u32, u32_of};
use crate::record::{
    view_result, IdPayload, LinkPayload, MissingField, NodePayload, NodeView, ObjectKind, Payload,
    PayloadView, PortPayload, PortView, RawObject, TranslationError,
};

verus! {

/// The value of a required numeric property: present, and a `u32`.
pub open spec fn required_u32(props: Seq<(Seq<char>, Seq<char>)>, key: Seq<char>) -> Option<u32> {
    match lookup(props, key) {
        Some(v) => u32_of(v),
        None => None,
    }
}

pub open spec fn missing(object_id: u32, key: Seq<char>) -> MissingField {
    MissingField { object_id, field_name: key }
}

pub open spec fn node_of(id: u32, props: Seq<(Seq<char>, Seq<char>)>) -> Result<NodeView, MissingField> {
    match required_u32(props, "object.serial"@) {
        None => Err(missing(id, "object.serial"@)),
        Some(serial) => Ok(
            NodeView {
                id,
                serial,
                nick: lookup(props, "node.nick"@),
                name: lookup(props, "node.name"@),
                description: lookup(props, "node.description"@),
            },
        ),
    }
}

/// Required fields are read in declaration order; the first that fails is reported.
pub open spec fn port_of(id: u32, props: Seq<(Seq<char>, Seq<char>)>) -> Result<PortView, MissingField> {
    match (
        required_u32(props, "object.serial"@),
        required_u32(props, "node.id"@),
        required_u32(props, "port.id"@),
    ) {
        (None, _, _) => Err(missing(id, "object.serial"@)),
        (Some(_), None, _) => Err(missing(id, "node.id"@)),
        (Some(_), Some(_), None) => Err(missing(id, "port.id"@)),
        (Some(serial), Some(node_id), Some(secondary_id)) => Ok(
            PortView {
                id,
                serial,
                node_id,
                secondary_id,
                format_dsp: lookup(props, "format.dsp"@),
                audio_channel: lookup(props, "audio.channel"@),
                name: lookup(props, "port.name"@),
                direction: lookup(props, "port.direction"@),
            },
        ),
    }
}

/// Required fields are read in declaration order; the first that fails is reported.
pub open spec fn link_of(id: u32, props: Seq<(Seq<char>, Seq<char>)>) -> Result<LinkPayload, MissingField> {
    match (
        required_u32(props, "object.serial"@),
        required_u32(props, "link.input.port"@),
        required_u32(props, "link.output.port"@),
        required_u32(props, "link.input.node"@),
        required_u32(props, "link.output.node"@),
    ) {
        (None, _, _, _, _) => Err(missing(id, "object.serial"@)),
        (Some(_), None, _, _, _) => Err(missing(id, "link.input.port"@)),
        (Some(_), Some(_), None, _, _) => Err(missing(id, "link.output.port"@)),
        (Some(_), Some(_), Some(_), None, _) => Err(missing(id, "link.input.node"@)),
        (Some(_), Some(_), Some(_), Some(_), None) => Err(missing(id, "link.output.node"@)),
        (Some(serial), Some(ip), Some(op), Some(inode), Some(onode)) => Ok(
            LinkPayload {
                id,
                serial,
                input_port_id: ip,
                output_port_id: op,
                input_node_id: inode,
                output_node_id: onode,
            },
        ),
    }
}

/// What an announced object becomes: a record for nodes, ports and links,
/// nothing for any other kind.
pub open spec fn translation_of(raw: &RawObject) -> Result<Option<PayloadView>, MissingField> {
    match raw.kind {
        ObjectKind::Node => match node_of(raw.id, raw.props@) {
            Ok(v) => Ok(Some(PayloadView::Node(v))),
            Err(e) => Err(e),
        },
        ObjectKind::Port => match port_of(raw.id, raw.props@) {
            Ok(v) => Ok(Some(PayloadView::Port(v))),
            Err(e) => Err(e),
        },
        ObjectKind::Link => match link_of(raw.id, raw.props@) {
            Ok(v) => Ok(Some(PayloadView::Link(v))),
            Err(e) => Err(e),
        },
        ObjectKind::Other => Ok(None),
    }
}

/// Reads a required numeric property.
pub fn required_field(object_id: u32, props: &PropertyDict, key: &str) -> (r: Result<u32, TranslationError>)
    ensures
        match r {
            Ok(v) => required_u32(props@, key@) == Some(v),
            Err(e) => required_u32(props@, key@) is None && e@ == missing(object_id, key@),
        },
{
    match props.get(key) {
        Some(text) => match parse_u32(text.as_str()) {
            Some(v) => Ok(v),
            None => Err(TranslationError::MissingOrInvalidField { object_id, field_name: String::from_str(key) }),
        },
        None => Err(TranslationError::MissingOrInvalidField { object_id, field_name: String::from_str(key) }),
    }
}

pub fn node_payload(node: &RawObject) -> (r: Result<NodePayload, TranslationError>)
    ensures
        view_result(r) == node_of(node.id, node.props@),
{
    let serial = match required_field(node.id, &node.props, "object.serial") {
        Ok(v) => v,
        Err(e) => return Err(e),
    };
    Ok(NodePayload {
        id: node.id,
        serial,
        nick: node.props.get("node.nick"),
        name: node.props.get("node.name"),
        description: node.props.get("node.description"),
    })
}

pub fn port_payload(port: &RawObject) -> (r: Result<PortPayload, TranslationError>)
    ensures
        view_result(r) == port_of(port.id, port.props@),
{
    let serial = match required_field(port.id, &port.props, "object.serial") {
        Ok(v) => v,
        Err(e) => return Err(e),
    };
    let node_id = match required_field(port.id, &port.props, "node.id") {
        Ok(v) => v,
        Err(e) => return Err(e),
    };
    let secondary_id = match required_field(port.id, &port.props, "port.id") {
        Ok(v) => v,
        Err(e) => return Err(e),
    };
    Ok(PortPayload {
        id: port.id,
        serial,
        node_id,
        secondary_id,
        format_dsp: port.props.get("format.dsp"),
        audio_channel: port.props.get("audio.channel"),
        name: port.props.get("port.name"),
        direction: port.props.get("port.direction"),
    })
}

pub fn link_payload(link: &RawObject) -> (r: Result<LinkPayload, TranslationError>)
    ensures
        view_result(r) == link_of(link.id, link.props@),
{
    let serial = match required_field(link.id, &link.props, "object.serial") {
        Ok(v) => v,
        Err(e) => return Err(e),
    };
    let input_port_id = match required_field(link.id, &link.props, "link.input.port") {
        Ok(v) => v,
        Err(e) => return Err(e),
    };
    let output_port_id = match required_field(link.id, &link.props, "link.output.port") {
        Ok(v) => v,
        Err(e) => return Err(e),
    };
    let input_node_id = match required_field(link.id, &link.props, "link.input.node") {
        Ok(v) => v,
        Err(e) => return Err(e),
    };
    let output_node_id = match required_field(link.id, &link.props, "link.output.node") {
        Ok(v) => v,
        Err(e) => return Err(e),
    };
    Ok(LinkPayload { id: link.id, serial, input_port_id, output_port_id, input_node_id, output_node_id })
}

/// Turns an announced object into the record that the UI receives.
pub fn translate(raw: &RawObject) -> (r: Result<Option<Payload>, TranslationError>)
    ensures
        match (r, translation_of(raw)) {
            (Ok(None), Ok(None)) => true,
            (Ok(Some(p)), Ok(Some(v))) => p@ == v,
            (Err(e), Err(m)) => e@ == m,
            _ => false,
        },
{
    match raw.kind {
        ObjectKind::Node => match node_payload(raw) {
            Ok(p) => Ok(Some(Payload::Node(p))),
            Err(e) => Err(e),
        },
        ObjectKind::Port => match port_payload(raw) {
            Ok(p) => Ok(Some(Payload::Port(p))),
            Err(e) => Err(e),
        },
        ObjectKind::Link => match link_payload(raw) {
            Ok(p) => Ok(Some(Payload::Link(p))),
            Err(e) => Err(e),
        },
        ObjectKind::Other => Ok(None),
    }
}


/// The numeric properties that an object of each kind must carry, in the
/// order they are read.
pub open spec fn required_keys(kind: ObjectKind) -> Seq<Seq<char>> {
    match kind {
        ObjectKind::Node => seq!["object.serial"@],
        ObjectKind::Port => seq!["object.serial"@, "node.id"@, "port.id"@],
        ObjectKind::Link => seq![
            "object.serial"@,
            "link.input.port"@,
            "link.output.port"@,
            "link.input.node"@,
            "link.output.node"@,
        ],
        ObjectKind::Other => seq![],
    }
}

/// A node whose serial is present and numeric translates, each field taken
/// from its own property.
pub proof fn lemma_node_total(id: u32, props: Seq<(Seq<char>, Seq<char>)>, serial: Seq<char>)
    requires
        lookup(props, "object.serial"@) == Some(serial),
        u32_of(serial) is Some,
    ensures
        node_of(id, props) == Ok::<NodeView, MissingField>(
            NodeView {
                id,
                serial: u32_of(serial).unwrap(),
                nick: lookup(props, "node.nick"@),
                name: lookup(props, "node.name"@),
                description: lookup(props, "node.description"@),
            },
        ),
{
}

/// A port whose required properties are present and numeric translates,
/// each field taken from its own property.
pub proof fn lemma_port_total(
    id: u32,
    props: Seq<(Seq<char>, Seq<char>)>,
    serial: Seq<char>,
    node_id: Seq<char>,
    port_id: Seq<char>,
)
    requires
        lookup(props, "object.serial"@) == Some(serial),
        lookup(props, "node.id"@) == Some(node_id),
        lookup(props, "port.id"@) == Some(port_id),
        u32_of(serial) is Some,
        u32_of(node_id) is Some,
        u32_of(port_id) is Some,
    ensures
        port_of(id, props) == Ok::<PortView, MissingField>(
            PortView {
                id,
                serial: u32_of(serial).unwrap(),
                node_id: u32_of(node_id).unwrap(),
                secondary_id: u32_of(port_id).unwrap(),
                format_dsp: lookup(props, "format.dsp"@),
                audio_channel: lookup(props, "audio.channel"@),
                name: lookup(props, "port.name"@),
                direction: lookup(props, "port.direction"@),
            },
        ),
{
}

/// A link whose required properties are present and numeric translates,
/// each id taken from its own property; the output port from `link.output.port`.
pub proof fn lemma_link_total(
    id: u32,
    props: Seq<(Seq<char>, Seq<char>)>,
    serial: Seq<char>,
    input_port: Seq<char>,
    output_port: Seq<char>,
    input_node: Seq<char>,
    output_node: Seq<char>,
)
    requires
        lookup(props, "object.serial"@) == Some(serial),
        lookup(props, "link.input.port"@) == Some(input_port),
        lookup(props, "link.output.port"@) == Some(output_port),
        lookup(props, "link.input.node"@) == Some(input_node),
        lookup(props, "link.output.node"@) == Some(output_node),
        u32_of(serial) is Some,
        u32_of(input_port) is Some,
        u32_of(output_port) is Some,
        u32_of(input_node) is Some,
        u32_of(output_node) is Some,
    ensures
        link_of(id, props) == Ok::<LinkPayload, MissingField>(
            LinkPayload {
                id,
                serial: u32_of(serial).unwrap(),
                input_port_id: u32_of(input_port).unwrap(),
                output_port_id: u32_of(output_port).unwrap(),
                input_node_id: u32_of(input_node).unwrap(),
                output_node_id: u32_of(output_node).unwrap(),
            },
        ),
{
}

/// An object of a translated kind that lacks a required numeric property, or
/// holds one that is not a `u32`, fails; the error names the object and a
/// required property of its kind that is indeed missing or invalid.
pub proof fn lemma_missing_field_fails(raw: &RawObject, key: Seq<char>)
    requires
        required_keys(raw.kind).contains(key),
        required_u32(raw.props@, key) is None,
    ensures
        match translation_of(raw) {
            Err(e) => {
                &&& e.object_id == raw.id
                &&& required_keys(raw.kind).contains(e.field_name)
                &&& required_u32(raw.props@, e.field_name) is None
            },
            Ok(_) => false,
        },
{
    let keys = required_keys(raw.kind);
    match raw.kind {
        ObjectKind::Node => {
            assert(keys[0] == "object.serial"@);
        },
        ObjectKind::Port => {
            assert(keys[0] == "object.serial"@);
            assert(keys[1] == "node.id"@);
            assert(keys[2] == "port.id"@);
        },
        ObjectKind::Link => {
            assert(keys[0] == "object.serial"@);
            assert(keys[1] == "link.input.port"@);
            assert(keys[2] == "link.output.port"@);
            assert(keys[3] == "link.input.node"@);
            assert(keys[4] == "link.output.node"@);
        },
        ObjectKind::Other => {},
    }
}

/// Each optional property of a node decides its own field and no other:
/// two nodes with the same required values translate alike but for the
/// optional fields, each of which agrees exactly when its property does.
pub proof fn lemma_node_optional_fields(id: u32, a: Seq<(Seq<char>, Seq<char>)>, b: Seq<(Seq<char>, Seq<char>)>)
    requires
        required_u32(a, "object.serial"@) == required_u32(b, "object.serial"@),
    ensures
        node_of(id, a) is Ok == node_of(id, b) is Ok,
        node_of(id, a) is Ok ==> {
            let x = node_of(id, a)->Ok_0;
            let y = node_of(id, b)->Ok_0;
            &&& x.id == y.id && x.serial == y.serial
            &&& (x.nick == y.nick) == (lookup(a, "node.nick"@) == lookup(b, "node.nick"@))
            &&& (x.name == y.name) == (lookup(a, "node.name"@) == lookup(b, "node.name"@))
            &&& (x.description == y.description) == (lookup(a, "node.description"@) == lookup(
                b,
                "node.description"@,
            ))
        },
{
}

/// Each optional property of a port decides its own field and no other.
pub proof fn lemma_port_optional_fields(id: u32, a: Seq<(Seq<char>, Seq<char>)>, b: Seq<(Seq<char>, Seq<char>)>)
    requires
        required_u32(a, "object.serial"@) == required_u32(b, "object.serial"@),
        required_u32(a, "node.id"@) == required_u32(b, "node.id"@),
        required_u32(a, "port.id"@) == required_u32(b, "port.id"@),
    ensures
        port_of(id, a) is Ok == port_of(id, b) is Ok,
        port_of(id, a) is Ok ==> {
            let x = port_of(id, a)->Ok_0;
            let y = port_of(id, b)->Ok_0;
            &&& x.id == y.id && x.serial == y.serial
            &&& x.node_id == y.node_id && x.secondary_id == y.secondary_id
            &&& (x.format_dsp == y.format_dsp) == (lookup(a, "format.dsp"@) == lookup(b, "format.dsp"@))
            &&& (x.audio_channel == y.audio_channel) == (lookup(a, "audio.channel"@) == lookup(
                b,
                "audio.channel"@,
            ))
            &&& (x.name == y.name) == (lookup(a, "port.name"@) == lookup(b, "port.name"@))
            &&& (x.direction == y.direction) == (lookup(a, "port.direction"@) == lookup(
                b,
                "port.direction"@,
            ))
        },
{
}

} // verus!
