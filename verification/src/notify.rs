//! Delivery of a confirmed status change to the destinations, one step at
//! a time. Every call to the outside (fetching a channel, sending or
//! deleting a message) is made by the driver; the functions here decide
//! what to do next from what the last call returned.

use crate::config::{ServerConfig, ServerConfigView};
use crate::data::{AppData, ResourceStatus, ServerUsedMessages};
use crate::embed::{generate_embed, status_embed, EmbedContent};
use crate::order::{ascending, sorted_keys};
use crate::templates::{replace_templates, substitute};
use std::collections::BTreeMap;
use vstd::prelude::*;

verus! {

/// What came back from the outside call that the last step asked for.
#[derive(Debug, Clone, Copy, PartialEq, Eq, Structural)]
pub enum Reply {
    /// The call failed.
    Failed,
    /// The call succeeded.
    Done,
    /// The call succeeded and created the message with this identifier.
    Created(u64),
}

/// How far the reconciliation of one destination's status message has
/// come. Each of the first three stages names the outside call whose
/// result is awaited.
#[derive(Debug, Clone, Copy, PartialEq, Eq, Structural)]
pub enum EmbedStage {
    /// The previous status message is being fetched.
    FetchingOld { message: u64 },
    /// The previous status message is being deleted.
    DeletingOld { message: u64 },
    /// The new status message is being sent.
    SendingNew,
    /// The previous message could not be deleted: nothing was sent and the
    /// stored message stays as it was.
    Kept,
    /// The new message was sent and is now the stored one.
    Replaced { message: u64 },
    /// The new message could not be sent: the stored message stays as it
    /// was.
    SendFailed,
}

/// The status message stored for `server_id`, if any.
pub open spec fn pointer_of(used: Map<u64, ServerUsedMessages>, server_id: u64) -> Option<u64> {
    if used.contains_key(server_id) {
        used[server_id].status
    } else {
        None
    }
}

/// The first stage of a reconciliation: a stored message is fetched
/// first, and without one the new message is sent at once.
pub open spec fn embed_start(pointer: Option<u64>) -> EmbedStage {
    match pointer {
        Some(message) => EmbedStage::FetchingOld { message },
        None => EmbedStage::SendingNew,
    }
}

/// The stored status messages once a reconciliation has started: the
/// destination has an entry, an empty one if it had none before.
pub open spec fn used_at_start(server_id: u64, used: Map<u64, ServerUsedMessages>) -> Map<
    u64,
    ServerUsedMessages,
> {
    if used.contains_key(server_id) {
        used
    } else {
        used.insert(server_id, ServerUsedMessages { status: None })
    }
}

/// The stored status messages after the transition from `stage` on
/// `reply`: a successful send stores the new message, and nothing else is
/// ever written.
pub open spec fn used_after(
    stage: EmbedStage,
    reply: Reply,
    server_id: u64,
    used: Map<u64, ServerUsedMessages>,
) -> Map<u64, ServerUsedMessages> {
    match (stage, reply) {
        (EmbedStage::SendingNew, Reply::Created(message)) => used.insert(
            server_id,
            ServerUsedMessages { status: Some(message) },
        ),
        _ => used,
    }
}

impl EmbedStage {
    /// The reconciliation has ended: no further call will be asked for.
    pub open spec fn spec_is_final(self) -> bool {
        self is Kept || self is Replaced || self is SendFailed
    }

    #[verifier::when_used_as_spec(spec_is_final)]
    pub fn is_final(self) -> (ended: bool)
        ensures
            ended == self.spec_is_final(),
    {
        match self {
            EmbedStage::Kept | EmbedStage::Replaced { .. } | EmbedStage::SendFailed => true,
            _ => false,
        }
    }

    /// The stage that follows `self` once `reply` has come back.
    ///
    /// If the fetch fails the message is taken to be gone and a new one is
    /// sent all the same. If the deletion fails the reconciliation ends
    /// for this cycle. A send counts as successful only if it reports the
    /// message that it created. A final stage stays as it is.
    pub open spec fn next(self, reply: Reply) -> EmbedStage {
        match self {
            EmbedStage::FetchingOld { message } => if reply is Failed {
                EmbedStage::SendingNew
            } else {
                EmbedStage::DeletingOld { message }
            },
            EmbedStage::DeletingOld { message } => if reply is Failed {
                EmbedStage::Kept
            } else {
                EmbedStage::SendingNew
            },
            EmbedStage::SendingNew => match reply {
                Reply::Created(message) => EmbedStage::Replaced { message },
                _ => EmbedStage::SendFailed,
            },
            _ => self,
        }
    }

    /// Takes the result of the call that the stage awaited, stores the new
    /// message if one was created, and returns the stage that follows.
    pub fn advance(
        self,
        server_id: u64,
        reply: Reply,
        used_messages: &mut BTreeMap<u64, ServerUsedMessages>,
    ) -> (next: EmbedStage)
        ensures
            next == self.next(reply),
            final(used_messages)@ == used_after(self, reply, server_id, old(used_messages)@),
    {
        match self {
            EmbedStage::FetchingOld { message } => match reply {
                Reply::Failed => EmbedStage::SendingNew,
                _ => EmbedStage::DeletingOld { message },
            },
            EmbedStage::DeletingOld { message: _ } => match reply {
                Reply::Failed => EmbedStage::Kept,
                _ => EmbedStage::SendingNew,
            },
            EmbedStage::SendingNew => match reply {
                Reply::Created(message) => {
                    used_messages.insert(server_id, ServerUsedMessages::new(Some(message)));
                    EmbedStage::Replaced { message }
                },
                _ => EmbedStage::SendFailed,
            },
            EmbedStage::Kept => EmbedStage::Kept,
            EmbedStage::Replaced { message } => EmbedStage::Replaced { message },
            EmbedStage::SendFailed => EmbedStage::SendFailed,
        }
    }
}

/// Starts the reconciliation of a destination's status message: reads the
/// stored message, giving the destination an empty entry if it had none,
/// and says which call comes first. [`EmbedStage::advance`] takes it from
/// there.
pub fn update_embed(server_id: u64, used_messages: &mut BTreeMap<u64, ServerUsedMessages>) -> (first:
    EmbedStage)
    ensures
        first == embed_start(pointer_of(old(used_messages)@, server_id)),
        final(used_messages)@ == used_at_start(server_id, old(used_messages)@),
{
    let stored = match used_messages.get(&server_id) {
        Some(messages) => Some(messages.status),
        None => None,
    };
    match stored {
        Some(Some(message)) => EmbedStage::FetchingOld { message },
        Some(None) => EmbedStage::SendingNew,
        None => {
            used_messages.insert(server_id, ServerUsedMessages::new(None));
            EmbedStage::SendingNew
        },
    }
}

/// Why a destination got no update in this cycle.
#[derive(Debug, Clone, Copy, PartialEq, Eq, Structural)]
pub enum SkipReason {
    /// No channel is configured for the destination.
    NoChannel,
    /// The configured channel could not be fetched.
    ChannelUnavailable,
    /// The transition announcement could not be sent.
    AnnouncementFailed,
}

/// How far the delivery to one destination has come. Every stage but
/// `Skipped` names, directly or through its [`EmbedStage`], the outside
/// call whose result is awaited.
#[derive(Debug, Clone, PartialEq, Eq)]
pub enum Stage {
    /// The destination is left out of this cycle.
    Skipped(SkipReason),
    /// The channel is being fetched; `announcement` is what will be sent
    /// into it before the status message is reconciled, if anything.
    FetchingChannel { channel: u64, announcement: Option<String> },
    /// The transition announcement is being sent.
    Announcing { channel: u64, content: String },
    /// The status message is being reconciled.
    Embed { channel: u64, stage: EmbedStage },
}

/// The outside call that the driver has to make next.
#[derive(Debug, Clone, PartialEq, Eq)]
pub enum Step {
    FetchChannel { channel: u64 },
    SendText { channel: u64, content: String },
    FetchMessage { channel: u64, message: u64 },
    DeleteMessage { channel: u64, message: u64 },
    SendEmbed { channel: u64 },
    /// Nothing is left to do for this destination.
    Finished,
}

/// The delivery of one status change to one destination.
#[derive(Debug, Clone, PartialEq, Eq)]
pub struct Delivery {
    pub server_id: u64,
    pub stage: Stage,
}

impl Stage {
    /// The stage that follows `self` once `reply` has come back, where
    /// `pointer` is the status message stored for the destination.
    ///
    /// A channel that cannot be fetched and an announcement that cannot be
    /// sent both end the delivery. Once the channel is there and the
    /// announcement, if any, is out, the status message is reconciled.
    pub open spec fn next(self, reply: Reply, pointer: Option<u64>) -> Stage {
        match self {
            Stage::Skipped(_) => self,
            Stage::FetchingChannel { channel, announcement } => if reply is Failed {
                Stage::Skipped(SkipReason::ChannelUnavailable)
            } else {
                match announcement {
                    Some(content) => Stage::Announcing { channel, content },
                    None => Stage::Embed { channel, stage: embed_start(pointer) },
                }
            },
            Stage::Announcing { channel, content } => if reply is Failed {
                Stage::Skipped(SkipReason::AnnouncementFailed)
            } else {
                Stage::Embed { channel, stage: embed_start(pointer) }
            },
            Stage::Embed { channel, stage } => Stage::Embed { channel, stage: stage.next(reply) },
        }
    }

    /// Whether the transition from `self` on `reply` starts the
    /// reconciliation of the status message.
    pub open spec fn starts_embed(self, reply: Reply) -> bool {
        match self {
            Stage::FetchingChannel { announcement, .. } => !(reply is Failed)
                && announcement is None,
            Stage::Announcing { .. } => !(reply is Failed),
            _ => false,
        }
    }

    /// The stored status messages after the transition from `self` on
    /// `reply`.
    pub open spec fn used_next(
        self,
        reply: Reply,
        server_id: u64,
        used: Map<u64, ServerUsedMessages>,
    ) -> Map<u64, ServerUsedMessages> {
        if self.starts_embed(reply) {
            used_at_start(server_id, used)
        } else {
            match self {
                Stage::Embed { stage, .. } => used_after(stage, reply, server_id, used),
                _ => used,
            }
        }
    }

    /// The call that the stage awaits.
    pub open spec fn step(self) -> Step {
        match self {
            Stage::Skipped(_) => Step::Finished,
            Stage::FetchingChannel { channel, .. } => Step::FetchChannel { channel },
            Stage::Announcing { channel, content } => Step::SendText { channel, content },
            Stage::Embed { channel, stage } => match stage {
                EmbedStage::FetchingOld { message } => Step::FetchMessage { channel, message },
                EmbedStage::DeletingOld { message } => Step::DeleteMessage { channel, message },
                EmbedStage::SendingNew => Step::SendEmbed { channel },
                _ => Step::Finished,
            },
        }
    }
}

impl Delivery {
    /// The outside call to make next, or `Finished`.
    pub fn step(&self) -> (step: Step)
        ensures
            step == self.stage.step(),
    {
        match &self.stage {
            Stage::Skipped(_) => Step::Finished,
            Stage::FetchingChannel { channel, .. } => Step::FetchChannel { channel: *channel },
            Stage::Announcing { channel, content } => Step::SendText {
                channel: *channel,
                content: content.clone(),
            },
            Stage::Embed { channel, stage } => match stage {
                EmbedStage::FetchingOld { message } => Step::FetchMessage {
                    channel: *channel,
                    message: *message,
                },
                EmbedStage::DeletingOld { message } => Step::DeleteMessage {
                    channel: *channel,
                    message: *message,
                },
                EmbedStage::SendingNew => Step::SendEmbed { channel: *channel },
                _ => Step::Finished,
            },
        }
    }

    /// Takes the result of the call that [`Delivery::step`] asked for and
    /// moves the delivery on. The stored status messages are read and
    /// written only here, between two outside calls.
    pub fn advance(
        self,
        reply: Reply,
        used_messages: &mut BTreeMap<u64, ServerUsedMessages>,
    ) -> (moved: Delivery)
        ensures
            moved.server_id == self.server_id,
            moved.stage == self.stage.next(
                reply,
                pointer_of(old(used_messages)@, self.server_id),
            ),
            final(used_messages)@ == self.stage.used_next(
                reply,
                self.server_id,
                old(used_messages)@,
            ),
    {
        let server_id = self.server_id;
        let failed = match reply {
            Reply::Failed => true,
            _ => false,
        };
        let stage = match self.stage {
            Stage::Skipped(reason) => Stage::Skipped(reason),
            Stage::FetchingChannel { channel, announcement } => {
                if failed {
                    Stage::Skipped(SkipReason::ChannelUnavailable)
                } else {
                    match announcement {
                        Some(content) => Stage::Announcing { channel, content },
                        None => Stage::Embed {
                            channel,
                            stage: update_embed(server_id, used_messages),
                        },
                    }
                }
            },
            Stage::Announcing { channel, content } => {
                if failed {
                    Stage::Skipped(SkipReason::AnnouncementFailed)
                } else {
                    Stage::Embed { channel, stage: update_embed(server_id, used_messages) }
                }
            },
            Stage::Embed { channel, stage } => Stage::Embed {
                channel,
                stage: stage.advance(server_id, reply, used_messages),
            },
        };
        Delivery { server_id, stage }
    }
}

/// The stage and the stored status messages after the replies of a whole
/// run have been taken in, oldest first.
pub open spec fn run(
    stage: Stage,
    replies: Seq<Reply>,
    server_id: u64,
    used: Map<u64, ServerUsedMessages>,
) -> (Stage, Map<u64, ServerUsedMessages>)
    decreases replies.len(),
{
    if replies.len() == 0 {
        (stage, used)
    } else {
        run(
            stage.next(replies[0], pointer_of(used, server_id)),
            replies.skip(1),
            server_id,
            stage.used_next(replies[0], server_id, used),
        )
    }
}

/// How many status messages are sent in the course of a run: the number
/// of replies that answer a send of the embed.
pub open spec fn embeds_sent(
    stage: Stage,
    replies: Seq<Reply>,
    server_id: u64,
    used: Map<u64, ServerUsedMessages>,
) -> nat
    decreases replies.len(),
{
    if replies.len() == 0 {
        0
    } else {
        let rest = embeds_sent(
            stage.next(replies[0], pointer_of(used, server_id)),
            replies.skip(1),
            server_id,
            stage.used_next(replies[0], server_id, used),
        );
        if stage.step() is SendEmbed {
            rest + 1
        } else {
            rest
        }
    }
}

/// `other` has in `after` the entry, or the lack of one, that it has in
/// `before`.
pub open spec fn untouched(
    before: Map<u64, ServerUsedMessages>,
    after: Map<u64, ServerUsedMessages>,
    other: u64,
) -> bool {
    &&& after.contains_key(other) == before.contains_key(other)
    &&& before.contains_key(other) ==> after[other] == before[other]
}

/// One transition never leaves a stored message that this code made up.
/// The entries of the other destinations stay as they are. The
/// destination's own stored message stays as it is, unless the reply is
/// that of a successful send of the embed: then it is the message that the
/// send has just created.
pub proof fn lemma_step_keeps_or_replaces(
    stage: Stage,
    reply: Reply,
    server_id: u64,
    used: Map<u64, ServerUsedMessages>,
)
    ensures
        forall|other: u64|
            other != server_id ==> untouched(
                used,
                stage.used_next(reply, server_id, used),
                other,
            ),
        pointer_of(stage.used_next(reply, server_id, used), server_id) == pointer_of(
            used,
            server_id,
        ) || (stage.step() is SendEmbed && reply is Created && pointer_of(
            stage.used_next(reply, server_id, used),
            server_id,
        ) == Some(reply->Created_0)),
{
}

/// The delivery has ended with `message` as the new status message.
pub open spec fn replaced_with(stage: Stage, message: u64) -> bool {
    stage matches Stage::Embed { stage: embed, .. } && embed == (EmbedStage::Replaced { message })
}

/// The same over a whole run, whatever the replies and wherever the run
/// stops: the other destinations' entries stay as they are, and the
/// destination's own stored message is either the one it had before, or
/// the message that a send of the embed created during the run, in which
/// case the run has ended in `Replaced` with that message.
pub proof fn lemma_run_keeps_or_replaces(
    stage: Stage,
    replies: Seq<Reply>,
    server_id: u64,
    used: Map<u64, ServerUsedMessages>,
)
    ensures
        forall|other: u64|
            other != server_id ==> untouched(used, run(stage, replies, server_id, used).1, other),
        pointer_of(run(stage, replies, server_id, used).1, server_id) == pointer_of(used, server_id)
            || exists|i: int|
            {
                &&& 0 <= i < replies.len()
                &&& (#[trigger] replies[i]) is Created
                &&& pointer_of(run(stage, replies, server_id, used).1, server_id) == Some(
                    replies[i]->Created_0,
                )
                &&& replaced_with(run(stage, replies, server_id, used).0, replies[i]->Created_0)
            },
    decreases replies.len(),
{
    if replies.len() > 0 {
        let pointer = pointer_of(used, server_id);
        let next = stage.next(replies[0], pointer);
        let used_next = stage.used_next(replies[0], server_id, used);
        let rest = replies.skip(1);
        let end = run(stage, replies, server_id, used);
        lemma_step_keeps_or_replaces(stage, replies[0], server_id, used);
        lemma_run_keeps_or_replaces(next, rest, server_id, used_next);
        assert forall|other: u64| other != server_id implies untouched(used, end.1, other) by {
            assert(untouched(used, used_next, other));
            assert(untouched(used_next, end.1, other));
        }
        if pointer_of(end.1, server_id) != pointer {
            if pointer_of(end.1, server_id) == pointer_of(used_next, server_id) {
                lemma_final_stage_stays(next, rest, server_id, used_next);
                assert(replies[0] is Created);
            } else {
                let i = choose|i: int|
                    {
                        &&& 0 <= i < rest.len()
                        &&& (#[trigger] rest[i]) is Created
                        &&& pointer_of(end.1, server_id) == Some(rest[i]->Created_0)
                        &&& replaced_with(end.0, rest[i]->Created_0)
                    };
                assert(replies[i + 1] == rest[i]);
            }
        }
    }
}

/// A delivery that has ended stays where it is and writes nothing,
/// whatever replies it is handed.
pub proof fn lemma_final_stage_stays(
    stage: Stage,
    replies: Seq<Reply>,
    server_id: u64,
    used: Map<u64, ServerUsedMessages>,
)
    requires
        stage.step() is Finished,
    ensures
        run(stage, replies, server_id, used) == (stage, used),
        embeds_sent(stage, replies, server_id, used) == 0,
    decreases replies.len(),
{
    if replies.len() > 0 {
        lemma_final_stage_stays(stage, replies.skip(1), server_id, used);
    }
}

/// A delivery sends at most one status message, whatever the replies.
pub proof fn lemma_one_embed_at_most(
    stage: Stage,
    replies: Seq<Reply>,
    server_id: u64,
    used: Map<u64, ServerUsedMessages>,
)
    ensures
        embeds_sent(stage, replies, server_id, used) <= 1,
    decreases replies.len(),
{
    if replies.len() > 0 {
        let next = stage.next(replies[0], pointer_of(used, server_id));
        let used_next = stage.used_next(replies[0], server_id, used);
        if stage.step() is SendEmbed {
            lemma_final_stage_stays(next, replies.skip(1), server_id, used_next);
        } else {
            lemma_one_embed_at_most(next, replies.skip(1), server_id, used_next);
        }
    }
}

/// Everything that one confirmed status change sets in motion: the status
/// embed, the same for every destination, and one delivery for each.
#[derive(Debug, Clone, PartialEq, Eq)]
pub struct Dispatch {
    pub embed: EmbedContent,
    pub deliveries: Vec<Delivery>,
}

/// The text of an optional string.
pub open spec fn text_of(text: Option<String>) -> Option<Seq<char>> {
    match text {
        Some(text) => Some(text@),
        None => None,
    }
}

/// The announcement that a transition calls for at one destination: its
/// down message when the resource goes from up to down, its up message
/// when it comes back, and none when either side is unknown.
pub open spec fn announcement_for(
    old_status: ResourceStatus,
    new_status: ResourceStatus,
    resource_name: Seq<char>,
    server: ServerConfigView,
) -> Option<Seq<char>> {
    match (old_status, new_status) {
        (ResourceStatus::Up, ResourceStatus::Down) => Some(
            substitute(server.down_message, resource_name, server.role_to_notify),
        ),
        (ResourceStatus::Down, ResourceStatus::Up) => Some(
            substitute(server.up_message, resource_name, server.role_to_notify),
        ),
        _ => None,
    }
}

/// `delivery` is the delivery planned for the destination `server_id`
/// with configuration `server`: skipped where no channel is configured,
/// and else about to fetch the channel, with the announcement that the
/// transition calls for.
pub open spec fn planned(
    delivery: Delivery,
    server_id: u64,
    server: ServerConfigView,
    old_status: ResourceStatus,
    new_status: ResourceStatus,
    resource_name: Seq<char>,
) -> bool {
    &&& delivery.server_id == server_id
    &&& match server.channel {
        None => delivery.stage == Stage::Skipped(SkipReason::NoChannel),
        Some(id) => {
            &&& delivery.stage matches Stage::FetchingChannel { channel, announcement }
            &&& channel == id
            &&& text_of(announcement) == announcement_for(
                old_status,
                new_status,
                resource_name,
                server,
            )
        },
    }
}

/// The identifiers of the destinations of `deliveries`, in order.
pub open spec fn destinations(deliveries: Seq<Delivery>) -> Seq<u64> {
    deliveries.map_values(|delivery: Delivery| delivery.server_id)
}

/// Plans the delivery to one destination.
pub fn plan_delivery(
    server_id: u64,
    server: &ServerConfig,
    old_status: ResourceStatus,
    new_status: ResourceStatus,
    resource_name: &str,
) -> (delivery: Delivery)
    ensures
        planned(delivery, server_id, server@, old_status, new_status, resource_name@),
{
    let stage = match server.channel {
        None => Stage::Skipped(SkipReason::NoChannel),
        Some(channel) => {
            let announcement = match (old_status, new_status) {
                (ResourceStatus::Up, ResourceStatus::Down) => Some(
                    replace_templates(
                        server.down_message.as_str(),
                        resource_name,
                        &server.role_to_notify,
                    ),
                ),
                (ResourceStatus::Down, ResourceStatus::Up) => Some(
                    replace_templates(
                        server.up_message.as_str(),
                        resource_name,
                        &server.role_to_notify,
                    ),
                ),
                _ => None,
            };
            Stage::FetchingChannel { channel, announcement }
        },
    };
    Delivery { server_id, stage }
}

/// Plans the notification of a confirmed change from `old_status` to
/// `new_status`: the status embed for the new status, and one delivery
/// for every registered destination, in ascending order of identifier.
/// Making the calls that the deliveries ask for is left to the driver, and
/// what happens to one destination has no bearing on another.
pub fn notify_status_change(
    old_status: ResourceStatus,
    new_status: ResourceStatus,
    data: &AppData,
) -> (dispatch: Dispatch)
    requires
        old_status != new_status,
    ensures
        dispatch.embed@ == status_embed(
            data.config.ping_config.resource_name@,
            new_status,
            data.config.ping_config.resource_addr@,
            data.last_status_change as int,
        ),
        destinations(dispatch.deliveries@).to_set() == data.config.server_configs@.dom(),
        dispatch.deliveries@.len() == data.config.server_configs@.dom().len(),
        ascending(destinations(dispatch.deliveries@)),
        forall|i: int|
            0 <= i < dispatch.deliveries@.len() ==> {
                let delivery = #[trigger] dispatch.deliveries@[i];
                &&& data.config.server_configs@.contains_key(delivery.server_id)
                &&& planned(
                    delivery,
                    delivery.server_id,
                    data.config.server_configs@[delivery.server_id]@,
                    old_status,
                    new_status,
                    data.config.ping_config.resource_name@,
                )
            },
{
    let resource_name = data.config.ping_config.resource_name.as_str();
    let embed = generate_embed(
        resource_name,
        new_status,
        data.config.ping_config.resource_addr.clone(),
        data.last_status_change,
    );
    let ids = sorted_keys(&data.config.server_configs);
    let mut deliveries: Vec<Delivery> = Vec::new();
    let mut at: usize = 0;
    while at < ids.len()
        invariant
            at <= ids.len(),
            deliveries@.len() == at,
            ids@.to_set() == data.config.server_configs@.dom(),
            resource_name@ == data.config.ping_config.resource_name@,
            forall|i: int|
                0 <= i < at ==> {
                    let delivery = #[trigger] deliveries@[i];
                    &&& delivery.server_id == ids@[i]
                    &&& data.config.server_configs@.contains_key(delivery.server_id)
                    &&& planned(
                        delivery,
                        delivery.server_id,
                        data.config.server_configs@[delivery.server_id]@,
                        old_status,
                        new_status,
                        data.config.ping_config.resource_name@,
                    )
                },
        decreases ids.len() - at,
    {
        let server_id = ids[at];
        assert(ids@.to_set().contains(ids@[at as int]));
        match data.config.server_configs.get(&server_id) {
            Some(server) => {
                deliveries.push(
                    plan_delivery(server_id, server, old_status, new_status, resource_name),
                );
            },
            None => {
                assert(false);
            },
        }
        at = at + 1;
    }
    assert(destinations(deliveries@) =~= ids@);
    Dispatch { embed, deliveries }
}

} // verus!
