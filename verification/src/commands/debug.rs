//! Commands that tell about the running program.

use crate::commands::{reply_colour, spec_reply_colour};
use crate::config::DEFAULT_REPOSITORY;
use crate::embed::{since_tag, EmbedContent, EmbedField, EmbedFieldView, EmbedView};
use crate::text::push_signed_decimal;
use vstd::prelude::*;

verus! {

/// What `info` shows for a program of version `version` that has been
/// running since `run_start`.
pub open spec fn info_embed(version: Seq<char>, run_start: int) -> EmbedView {
    EmbedView {
        colour: spec_reply_colour(),
        title: "**Discord Watchdog v"@ + version + "**"@,
        description: None,
        fields: seq![
            EmbedFieldView {
                name: "Running since"@,
                value: since_tag(run_start),
                inline: false,
            },
            EmbedFieldView {
                name: "Repository"@,
                value: "[Github]("@ + DEFAULT_REPOSITORY@ + ")"@,
                inline: false,
            },
        ],
    }
}

/// The program's version, since when it has been running, in seconds
/// since the Unix epoch, and where its source is kept.
pub fn info(version: &str, run_start: i64) -> (embed: EmbedContent)
    ensures
        embed@ == info_embed(version@, run_start as int),
{
    let mut title = String::from_str("**Discord Watchdog v");
    title.append(version);
    title.append("**");
    let mut since = String::from_str("<t:");
    push_signed_decimal(&mut since, run_start);
    since.append(":R>");
    let mut repository = String::from_str("[Github](");
    repository.append(DEFAULT_REPOSITORY);
    repository.append(")");
    let mut fields: Vec<EmbedField> = Vec::new();
    fields.push(
        EmbedField { name: String::from_str("Running since"), value: since, inline: false },
    );
    fields.push(
        EmbedField { name: String::from_str("Repository"), value: repository, inline: false },
    );
    let embed = EmbedContent { colour: reply_colour(), title, description: None, fields };
    assert(embed@.fields =~= info_embed(version@, run_start as int).fields);
    embed
}

} // verus!
