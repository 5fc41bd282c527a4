//! The status embed: the one message per destination that always shows the
//! latest confirmed status.

use crate::data::ResourceStatus;
use crate::text::{decimal, push_signed_decimal};
use vstd::prelude::*;

verus! {

/// A colour by its red, green and blue parts.
#[derive(Debug, Clone, Copy, PartialEq, Eq, Structural)]
pub struct Colour {
    pub red: u8,
    pub green: u8,
    pub blue: u8,
}

impl Colour {
    /// The colour that marks a status: green for up, red for down, amber
    /// for unknown.
    pub open spec fn spec_of(status: ResourceStatus) -> Colour {
        match status {
            ResourceStatus::Up => Colour { red: 21, green: 250, blue: 59 },
            ResourceStatus::Down => Colour { red: 220, green: 23, blue: 30 },
            ResourceStatus::Unknown => Colour { red: 215, green: 187, blue: 10 },
        }
    }

    #[verifier::when_used_as_spec(spec_of)]
    pub fn of(status: ResourceStatus) -> (colour: Colour)
        ensures
            colour == Colour::spec_of(status),
    {
        match status {
            ResourceStatus::Up => Colour { red: 21, green: 250, blue: 59 },
            ResourceStatus::Down => Colour { red: 220, green: 23, blue: 30 },
            ResourceStatus::Unknown => Colour { red: 215, green: 187, blue: 10 },
        }
    }
}

pub const TITLE_UP: &'static str = " is online!";

pub const TITLE_DOWN: &'static str = " is offline!";

pub const TITLE_UNKNOWN: &'static str = " status is unknown...";

pub const UNKNOWN_NOTE: &'static str = "Some kind of error occured. Notify maintainers!";

pub const FIELD_SINCE: &'static str = "Since";

pub const FIELD_ADDRESS: &'static str = "Address";

/// One name/value line of an embed.
#[derive(Debug, Clone, PartialEq, Eq)]
pub struct EmbedField {
    pub name: String,
    pub value: String,
    pub inline: bool,
}

/// The mathematical content of an [`EmbedField`].
pub struct EmbedFieldView {
    pub name: Seq<char>,
    pub value: Seq<char>,
    pub inline: bool,
}

impl View for EmbedField {
    type V = EmbedFieldView;

    open spec fn view(&self) -> EmbedFieldView {
        EmbedFieldView { name: self.name@, value: self.value@, inline: self.inline }
    }
}

/// What an embed shows: a colour, a title, an optional description and its
/// fields in order.
#[derive(Debug, Clone, PartialEq, Eq)]
pub struct EmbedContent {
    pub colour: Colour,
    pub title: String,
    pub description: Option<String>,
    pub fields: Vec<EmbedField>,
}

/// The mathematical content of an [`EmbedContent`].
pub struct EmbedView {
    pub colour: Colour,
    pub title: Seq<char>,
    pub description: Option<Seq<char>>,
    pub fields: Seq<EmbedFieldView>,
}

impl View for EmbedContent {
    type V = EmbedView;

    open spec fn view(&self) -> EmbedView {
        EmbedView {
            colour: self.colour,
            title: self.title@,
            description: match self.description {
                Some(text) => Some(text@),
                None => None,
            },
            fields: self.fields@.map_values(|field: EmbedField| field@),
        }
    }
}

/// The relative-time tag that clients render as "... ago".
pub open spec fn since_tag(unix_seconds: int) -> Seq<char> {
    "<t:"@ + decimal(unix_seconds) + ":R>"@
}

/// The status embed for a resource, as a value.
pub open spec fn status_embed(
    resource_name: Seq<char>,
    status: ResourceStatus,
    addr: Seq<char>,
    last_status_change: int,
) -> EmbedView {
    EmbedView {
        colour: Colour::of(status),
        title: resource_name + match status {
            ResourceStatus::Up => TITLE_UP@,
            ResourceStatus::Down => TITLE_DOWN@,
            ResourceStatus::Unknown => TITLE_UNKNOWN@,
        },
        description: match status {
            ResourceStatus::Unknown => Some(UNKNOWN_NOTE@),
            _ => None,
        },
        fields: seq![
            EmbedFieldView {
                name: FIELD_SINCE@,
                value: since_tag(last_status_change),
                inline: false,
            },
            EmbedFieldView { name: FIELD_ADDRESS@, value: addr, inline: false },
        ],
    }
}

/// Builds the status embed: the resource's name with a status-specific
/// title and colour, a note when the status is unknown, the time of the
/// last confirmed change and the resource's address.
pub fn generate_embed(
    resource_name: &str,
    new_status: ResourceStatus,
    addr: String,
    last_status_change: i64,
) -> (embed: EmbedContent)
    ensures
        embed@ == status_embed(resource_name@, new_status, addr@, last_status_change as int),
{
    let mut title = String::from_str(resource_name);
    let colour = Colour::of(new_status);
    let description;
    match new_status {
        ResourceStatus::Up => {
            title.append(TITLE_UP);
            description = None;
        },
        ResourceStatus::Down => {
            title.append(TITLE_DOWN);
            description = None;
        },
        ResourceStatus::Unknown => {
            title.append(TITLE_UNKNOWN);
            description = Some(String::from_str(UNKNOWN_NOTE));
        },
    }
    let mut since = String::from_str("<t:");
    push_signed_decimal(&mut since, last_status_change);
    since.append(":R>");
    let mut fields: Vec<EmbedField> = Vec::new();
    fields.push(EmbedField { name: String::from_str(FIELD_SINCE), value: since, inline: false });
    fields.push(EmbedField { name: String::from_str(FIELD_ADDRESS), value: addr, inline: false });
    let embed = EmbedContent { colour, title, description, fields };
    assert(embed@.fields =~= status_embed(
        resource_name@,
        new_status,
        addr@,
        last_status_change as int,
    ).fields);
    embed
}

} // verus!
