//! The human-readable text of every transfer refusal.

use vstd::prelude::*;

use crate::text::{debug_quote, debug_quoted, decimal, push_decimal};
use crate::transfer::{ContainerKind, Side, TransferError, ValueKind};

verus! {

pub open spec fn side_text(side: Side) -> Seq<char> {
    match side {
        Side::Source => "source"@,
        Side::Target => "target"@,
    }
}

pub open spec fn container_text(kind: ContainerKind) -> Seq<char> {
    match kind {
        ContainerKind::YMap => "map"@,
        ContainerKind::Array => "array"@,
    }
}

pub open spec fn value_text(kind: ValueKind) -> Seq<char> {
    match kind {
        ValueKind::YMap => "map"@,
        ValueKind::Array => "array"@,
        ValueKind::Text => "text"@,
        ValueKind::XmlElement => "xml element"@,
        ValueKind::XmlFragment => "xml fragment"@,
        ValueKind::XmlText => "xml text"@,
        ValueKind::Subdocument => "subdocument"@,
        ValueKind::NonContainer => "non-container value"@,
    }
}

impl Side {
    /// `source` or `target`.
    pub fn label(self) -> (text: &'static str)
        ensures
            text@ == side_text(self),
    {
        match self {
            Side::Source => "source",
            Side::Target => "target",
        }
    }
}

impl ContainerKind {
    /// `map` or `array`.
    pub fn label(self) -> (text: &'static str)
        ensures
            text@ == container_text(self),
    {
        match self {
            ContainerKind::YMap => "map",
            ContainerKind::Array => "array",
        }
    }
}

impl ValueKind {
    /// The kind's name in an error message; never a Rust type name.
    pub fn label(self) -> (text: &'static str)
        ensures
            text@ == value_text(self),
    {
        match self {
            ValueKind::YMap => "map",
            ValueKind::Array => "array",
            ValueKind::Text => "text",
            ValueKind::XmlElement => "xml element",
            ValueKind::XmlFragment => "xml fragment",
            ValueKind::XmlText => "xml text",
            ValueKind::Subdocument => "subdocument",
            ValueKind::NonContainer => "non-container value",
        }
    }
}

/// `path[i]` as a message names a position.
pub open spec fn position_text(position: usize) -> Seq<char> {
    "path["@ + decimal(position as nat) + "]"@
}

/// The text of each refusal.
pub open spec fn message_text(error: TransferError) -> Seq<char> {
    match error {
        TransferError::PathEmpty { side } => side_text(side) + " path must not be empty"@,
        TransferError::PathStartsWithIndex { side } => side_text(side)
            + " path[0] must be a root-container key"@,
        TransferError::RootMissing { side, kind, root } => side_text(side) + " root "@
            + container_text(kind) + " "@ + debug_quoted(root@) + " does not exist"@,
        TransferError::RootUndeclared { side, root } => side_text(side) + " root "@
            + debug_quoted(root@)
            + " has no declared kind; read it once through the matching accessor before transferring into or out of it"@,
        TransferError::RootWrongKind { side, root, found, expected } => side_text(side)
            + " root "@ + debug_quoted(root@) + " has kind "@ + value_text(found) + ", not "@
            + container_text(expected),
        TransferError::StepNeedsKey { side, position } => side_text(side) + " "@
            + position_text(position) + " must be a map key"@,
        TransferError::StepNeedsIndex { side, position } => side_text(side) + " "@
            + position_text(position) + " must be an array index"@,
        TransferError::StepUnresolved { side, position } => side_text(side) + " "@
            + position_text(position) + " does not resolve"@,
        TransferError::StepNotContainer { side, position, found } => side_text(side) + " "@
            + position_text(position) + " resolves to "@ + value_text(found)
            + ", not a container"@,
        TransferError::PathWrongKind { side, expected } => side_text(side)
            + " path does not resolve to a "@ + container_text(expected),
        TransferError::KeyNotArray { side, key, found } => side_text(side) + " map key "@
            + debug_quoted(key@) + " resolves to "@ + value_text(found) + ", not an array"@,
        TransferError::Descends => "target path descends into the source entry"@,
        TransferError::SourceIndexOutOfRange { index, len } => "source array index "@ + decimal(
            index as nat,
        ) + " is outside entry range 0.."@ + decimal(len as nat),
        TransferError::SourceKeyMissing { key } => "source map key "@ + debug_quoted(key@)
            + " does not exist"@,
        TransferError::SourceDestinationOnly => "array-at-map-key is a destination-only location"@,
        TransferError::TargetIndexOutOfRange { index, len } => "target array index "@ + decimal(
            index as nat,
        ) + " is outside insertion range 0..="@ + decimal(len as nat),
        TransferError::TargetKeyOccupied { key } => "target map key "@ + debug_quoted(key@)
            + " is already occupied"@,
        TransferError::SourceDisappeared => "source entry disappeared before mutation"@,
        TransferError::TooDeep { limit } => "source entry nests deeper than "@ + decimal(
            limit as nat,
        ) + " levels"@,
        TransferError::UndeclaredNested => "source entry contains a container of undeclared kind"@,
    }
}

fn push_position(out: &mut String, position: usize)
    ensures
        final(out)@ == old(out)@ + position_text(position),
{
    out.append("path[");
    push_decimal(out, position as u64);
    out.append("]");
    assert(final(out)@ =~= old(out)@ + position_text(position));
}

impl TransferError {
    /// The refusal as the text a caller sees.
    pub fn message(&self) -> (text: String)
        ensures
            text@ == message_text(*self),
    {
        let mut out = String::new();
        match self {
            TransferError::PathEmpty { side } => {
                out.append(side.label());
                out.append(" path must not be empty");
            },
            TransferError::PathStartsWithIndex { side } => {
                out.append(side.label());
                out.append(" path[0] must be a root-container key");
            },
            TransferError::RootMissing { side, kind, root } => {
                out.append(side.label());
                out.append(" root ");
                out.append(kind.label());
                out.append(" ");
                out.append(debug_quote(root.as_str()).as_str());
                out.append(" does not exist");
            },
            TransferError::RootUndeclared { side, root } => {
                out.append(side.label());
                out.append(" root ");
                out.append(debug_quote(root.as_str()).as_str());
                out.append(
                    " has no declared kind; read it once through the matching accessor before transferring into or out of it",
                );
            },
            TransferError::RootWrongKind { side, root, found, expected } => {
                out.append(side.label());
                out.append(" root ");
                out.append(debug_quote(root.as_str()).as_str());
                out.append(" has kind ");
                out.append(found.label());
                out.append(", not ");
                out.append(expected.label());
            },
            TransferError::StepNeedsKey { side, position } => {
                out.append(side.label());
                out.append(" ");
                push_position(&mut out, *position);
                out.append(" must be a map key");
            },
            TransferError::StepNeedsIndex { side, position } => {
                out.append(side.label());
                out.append(" ");
                push_position(&mut out, *position);
                out.append(" must be an array index");
            },
            TransferError::StepUnresolved { side, position } => {
                out.append(side.label());
                out.append(" ");
                push_position(&mut out, *position);
                out.append(" does not resolve");
            },
            TransferError::StepNotContainer { side, position, found } => {
                out.append(side.label());
                out.append(" ");
                push_position(&mut out, *position);
                out.append(" resolves to ");
                out.append(found.label());
                out.append(", not a container");
            },
            TransferError::PathWrongKind { side, expected } => {
                out.append(side.label());
                out.append(" path does not resolve to a ");
                out.append(expected.label());
            },
            TransferError::KeyNotArray { side, key, found } => {
                out.append(side.label());
                out.append(" map key ");
                out.append(debug_quote(key.as_str()).as_str());
                out.append(" resolves to ");
                out.append(found.label());
                out.append(", not an array");
            },
            TransferError::Descends => {
                out.append("target path descends into the source entry");
            },
            TransferError::SourceIndexOutOfRange { index, len } => {
                out.append("source array index ");
                push_decimal(&mut out, *index as u64);
                out.append(" is outside entry range 0..");
                push_decimal(&mut out, *len as u64);
            },
            TransferError::SourceKeyMissing { key } => {
                out.append("source map key ");
                out.append(debug_quote(key.as_str()).as_str());
                out.append(" does not exist");
            },
            TransferError::SourceDestinationOnly => {
                out.append("array-at-map-key is a destination-only location");
            },
            TransferError::TargetIndexOutOfRange { index, len } => {
                out.append("target array index ");
                push_decimal(&mut out, *index as u64);
                out.append(" is outside insertion range 0..=");
                push_decimal(&mut out, *len as u64);
            },
            TransferError::TargetKeyOccupied { key } => {
                out.append("target map key ");
                out.append(debug_quote(key.as_str()).as_str());
                out.append(" is already occupied");
            },
            TransferError::SourceDisappeared => {
                out.append("source entry disappeared before mutation");
            },
            TransferError::TooDeep { limit } => {
                out.append("source entry nests deeper than ");
                push_decimal(&mut out, *limit as u64);
                out.append(" levels");
            },
            TransferError::UndeclaredNested => {
                out.append("source entry contains a container of undeclared kind");
            },
        }
        assert(out@ =~= message_text(*self));
        out
    }
}

} // verus!
