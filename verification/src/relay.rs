//! The mirror relay: the core state machine that keeps a mirror message
//! consistent with its source over create, edit and delete, together with
//! the event-ingest filters that rule out bot-authored messages and
//! unsubscribed channels before any expensive work.
//!
//! Each lifecycle notification is turned into a decision — what to post,
//! edit or delete through which identity — and the embedding program
//! performs the network calls. Per source id, states run
//! `untracked -> mirrored -> edited* -> removed`: a binding is inserted
//! only after the initial post succeeded (`track_edits`), patched in place
//! by updates, and removed by a delete or by the passive-expiry sweep.

use vstd::prelude::*;

use crate::config::Config;
use crate::lang::{other_lang, spec_detect_language, TargetLanguage};
use crate::message::{spec_patched, MessagePatch, MessageSnapshot};
use crate::normalize::{nothing_to_translate, residual, Translation};
use crate::registry::{no_subscriptions, Channel, ChannelRegistry};
use crate::tracker::{binding, no_bindings, swept, EditTracker, TrackedMessage};
use crate::webhook::TranslateHook;

verus! {

/// The relay's running state: the subscription registry, the tracking
/// table, and the core configuration.
pub struct Data {
    pub autotranslate_channels: ChannelRegistry,
    pub autotranslate_edit_tracker: EditTracker,
    pub config: Config,
}

/// An update notification: the source id and channel it concerns, and a
/// partial patch of the changed fields.
pub struct UpdateEvent {
    pub id: u64,
    pub channel_id: u64,
    pub patch: MessagePatch,
}

/// Whether `id` is tracked in `d`'s table.
pub open spec fn tracked_at(d: Data, id: u64) -> bool {
    d.autotranslate_edit_tracker.contents().dom().contains(id)
}

/// The binding tracked for `id`.
pub open spec fn tracked_binding(d: Data, id: u64) -> TrackedMessage {
    d.autotranslate_edit_tracker.contents()[id]
}

/// Whether `channel_id` is subscribed in `d`'s registry.
pub open spec fn subscribed(d: Data, channel_id: u64) -> bool {
    d.autotranslate_channels.contents().dom().contains(channel_id)
}

/// The delivery identity of a subscribed channel.
pub open spec fn channel_hook(d: Data, channel_id: u64) -> TranslateHook {
    d.autotranslate_channels.contents()[channel_id].webhook
}

/// A created message that the ingest filters or the normalizer rule out:
/// bot-authored, empty, in an unsubscribed channel, or with nothing to
/// translate.
pub open spec fn create_skips(d: Data, msg: MessageSnapshot) -> bool {
    ||| msg.author.bot
    ||| msg.content@.len() == 0
    ||| !subscribed(d, msg.channel_id)
    ||| nothing_to_translate(msg.content@)
}

/// An update notification that the ingest filters rule out before the
/// table is consulted: a field missing, bot-authored, or empty content.
pub open spec fn update_precheck_skips(ev: UpdateEvent) -> bool {
    ||| ev.patch.author is None
    ||| ev.patch.author->0.bot
    ||| ev.patch.content is None
    ||| ev.patch.content->0@.len() == 0
}

/// The snapshot an update leaves tracked: the prior snapshot under the
/// event's patch.
pub open spec fn updated_snapshot(d: Data, ev: UpdateEvent) -> MessageSnapshot {
    spec_patched(tracked_binding(d, ev.id).message, ev.patch)
}

/// What the relay decides for a created message.
pub enum CreateAction {
    /// Silently ruled out: nothing is posted and nothing is tracked.
    Skip,
    /// Post a placeholder mirror through this identity, then edit it in
    /// place with the translation into `target`.
    Post { webhook: TranslateHook, target: TargetLanguage },
}

/// What the relay decides for an update notification.
pub enum EditAction {
    /// Silently ruled out, or the id is not tracked: no error, no new
    /// entry.
    Skip,
    /// The event's channel has no identity to edit through.
    MissingIdentity,
    /// Re-translate into `target` and edit this mirror message in place.
    Edit { webhook: TranslateHook, response: u64, target: TargetLanguage },
}

/// What the relay decides for a delete notification.
pub enum DeleteAction {
    /// The id was not tracked: nothing to delete.
    Skip,
    /// The tracked channel has no identity to delete through.
    MissingIdentity,
    /// Issue exactly one best-effort delete of this mirror.
    DeleteMirror { webhook: TranslateHook, response: u64, channel_id: u64 },
}

impl Data {
    /// A fresh relay: nothing subscribed, nothing tracked.
    pub fn new(config: Config) -> (d: Data)
        ensures
            d.autotranslate_channels.contents() == no_subscriptions(),
            d.autotranslate_edit_tracker.contents() == no_bindings(),
            d.config == config,
    {
        Data {
            autotranslate_channels: ChannelRegistry::new(),
            autotranslate_edit_tracker: EditTracker::new(),
            config,
        }
    }

    /// Subscribe a channel, binding it to its delivery identity.
    pub fn enable_autotranslate(&mut self, channel_id: u64, webhook: TranslateHook)
        ensures
            final(self).autotranslate_channels.contents() == old(
                self,
            ).autotranslate_channels.contents().insert(channel_id, (Channel { webhook })),
            final(self).autotranslate_edit_tracker == old(self).autotranslate_edit_tracker,
            final(self).config == old(self).config,
    {
        self.autotranslate_channels.insert(channel_id, Channel::new(webhook));
    }

    /// Unsubscribe a channel.
    pub fn disable_autotranslate(&mut self, channel_id: u64)
        ensures
            final(self).autotranslate_channels.contents() == old(
                self,
            ).autotranslate_channels.contents().remove(channel_id),
            final(self).autotranslate_edit_tracker == old(self).autotranslate_edit_tracker,
            final(self).config == old(self).config,
    {
        self.autotranslate_channels.remove(channel_id);
    }

    /// Whether a channel is subscribed.
    pub fn is_enabled(&self, channel_id: u64) -> (r: bool)
        ensures
            r == subscribed(*self, channel_id),
    {
        self.autotranslate_channels.contains(channel_id)
    }

    /// The delivery identity of a channel, if it is subscribed.
    pub fn get_webhook(&self, channel_id: u64) -> (r: Option<TranslateHook>)
        ensures
            r == (if subscribed(*self, channel_id) {
                Some(channel_hook(*self, channel_id))
            } else {
                None::<TranslateHook>
            }),
    {
        match self.autotranslate_channels.get(channel_id) {
            Some(channel) => Some(channel.webhook),
            None => None,
        }
    }

    /// How many mirrors are tracked right now. The table's size is bounded
    /// by the message volume within the observation window: the sweep
    /// reclaims everything older, whether or not its delete ever arrived.
    pub fn tracked_count(&self) -> (n: usize)
        ensures
            n == self.autotranslate_edit_tracker.contents().dom().len(),
    {
        self.autotranslate_edit_tracker.len()
    }

    /// Record a successful mirror post or edit: bind the source id to the
    /// latest snapshot and its mirror message, created at tick `now`.
    pub fn track_edits(&mut self, message: MessageSnapshot, response: u64, now: u64)
        ensures
            final(self).autotranslate_edit_tracker.contents() == old(
                self,
            ).autotranslate_edit_tracker.contents().insert(
                message.id,
                binding(message, response, now),
            ),
            final(self).autotranslate_channels == old(self).autotranslate_channels,
            final(self).config == old(self).config,
    {
        let id = message.id;
        let t = TrackedMessage::new(message, response, now);
        self.autotranslate_edit_tracker.insert(id, t);
    }

    /// Complete a create with the outcome of the initial post: a mirror
    /// that was posted successfully (`Some` of its message id) is recorded
    /// as a binding created at tick `now`; a failed post records nothing —
    /// no partial tracked state is ever created.
    pub fn record_post_outcome(&mut self, message: MessageSnapshot, outcome: Option<u64>, now: u64)
        ensures
            (outcome matches Some(response) ==> final(self).autotranslate_edit_tracker.contents()
                == old(self).autotranslate_edit_tracker.contents().insert(
                message.id,
                binding(message, response, now),
            )),
            outcome is None ==> *final(self) == *old(self),
            final(self).autotranslate_channels == old(self).autotranslate_channels,
            final(self).config == old(self).config,
    {
        if let Some(response) = outcome {
            self.track_edits(message, response, now);
        }
    }

    /// The create decision for a message posted in some channel. A
    /// bot-authored or empty message, an unsubscribed channel, or a text
    /// with nothing to translate is skipped silently: nothing is posted and
    /// no tracked state is created. Otherwise the mirror is posted through
    /// the channel's identity and translated into the target classified
    /// from the normalized residual.
    pub fn on_message_created(&self, msg: &MessageSnapshot) -> (r: CreateAction)
        ensures
            (r is Skip) == create_skips(*self, *msg),
            r matches CreateAction::Post { webhook, target } ==> {
                &&& webhook == channel_hook(*self, msg.channel_id)
                &&& target.lang == other_lang(spec_detect_language(residual(msg.content@)))
                &&& target.wf()
            },
    {
        if msg.author.bot {
            return CreateAction::Skip;
        }
        if msg.content.len() == 0 {
            return CreateAction::Skip;
        }
        match self.autotranslate_channels.get(msg.channel_id) {
            None => CreateAction::Skip,
            Some(channel) => {
                match Translation::new(&msg.content) {
                    Err(_) => CreateAction::Skip,
                    Ok(tr) => CreateAction::Post { webhook: channel.webhook, target: tr.target },
                }
            },
        }
    }

    /// The edit decision for an update notification. An update missing its
    /// author or content, bot-authored, or with empty content is skipped;
    /// so is one for an untracked id — a legitimate race with create or an
    /// already-reclaimed mirror, never an error. For a tracked id the patch
    /// is applied over the stored snapshot and the patched snapshot is
    /// stored unconditionally, whatever is decided afterwards; the mirror
    /// is then edited with the re-translation, when the patched text still
    /// offers something to translate and the channel still has an identity.
    pub fn on_message_updated(&mut self, ev: UpdateEvent) -> (r: EditAction)
        ensures
            update_precheck_skips(ev) || !tracked_at(*old(self), ev.id) ==> *final(self) == *old(
                self,
            ) && r is Skip,
            !update_precheck_skips(ev) && tracked_at(*old(self), ev.id) ==> {
                &&& final(self).autotranslate_edit_tracker.contents() == old(
                    self,
                ).autotranslate_edit_tracker.contents().insert(
                    ev.id,
                    binding(
                        updated_snapshot(*old(self), ev),
                        tracked_binding(*old(self), ev.id).response,
                        tracked_binding(*old(self), ev.id).start_time,
                    ),
                )
                &&& final(self).autotranslate_channels == old(self).autotranslate_channels
                &&& final(self).config == old(self).config
            },
            !update_precheck_skips(ev) && tracked_at(*old(self), ev.id) && nothing_to_translate(
                updated_snapshot(*old(self), ev).content@,
            ) ==> r is Skip,
            !update_precheck_skips(ev) && tracked_at(*old(self), ev.id) && !nothing_to_translate(
                updated_snapshot(*old(self), ev).content@,
            ) && !subscribed(*old(self), ev.channel_id) ==> r is MissingIdentity,
            !update_precheck_skips(ev) && tracked_at(*old(self), ev.id) && !nothing_to_translate(
                updated_snapshot(*old(self), ev).content@,
            ) && subscribed(*old(self), ev.channel_id) ==> r is Edit,
            r matches EditAction::Edit { webhook, response, target } ==> {
                &&& !update_precheck_skips(ev)
                &&& tracked_at(*old(self), ev.id)
                &&& !nothing_to_translate(updated_snapshot(*old(self), ev).content@)
                &&& webhook == channel_hook(*old(self), ev.channel_id)
                &&& response == tracked_binding(*old(self), ev.id).response
                &&& target.lang == other_lang(
                    spec_detect_language(residual(updated_snapshot(*old(self), ev).content@)),
                )
                &&& target.wf()
            },
    {
        match &ev.patch.author {
            Some(author) => {
                if author.bot {
                    return EditAction::Skip;
                }
            },
            None => {
                return EditAction::Skip;
            },
        }
        match &ev.patch.content {
            Some(content) => {
                if content.len() == 0 {
                    return EditAction::Skip;
                }
            },
            None => {
                return EditAction::Skip;
            },
        }
        let entry = match self.autotranslate_edit_tracker.get(ev.id) {
            Some(t) => t,
            None => {
                return EditAction::Skip;
            },
        };
        let response = entry.response;
        let start_time = entry.start_time;
        let mut message = entry.message;
        message.apply_patch(ev.patch);
        let translation = Translation::new(&message.content);
        self.autotranslate_edit_tracker.insert(
            ev.id,
            TrackedMessage::new(message, response, start_time),
        );
        match translation {
            Err(_) => EditAction::Skip,
            Ok(tr) => {
                match self.autotranslate_channels.get(ev.channel_id) {
                    None => EditAction::MissingIdentity,
                    Some(channel) => EditAction::Edit {
                        webhook: channel.webhook,
                        response,
                        target: tr.target,
                    },
                }
            },
        }
    }

    /// The delete decision for a deleted source message: the binding is
    /// removed, and exactly one best-effort delete of the mirror is issued
    /// through the tracked channel's identity. A missing binding — already
    /// deleted or reclaimed — is tolerated silently.
    pub fn on_message_deleted(&mut self, id: u64) -> (r: DeleteAction)
        ensures
            final(self).autotranslate_edit_tracker.contents() == old(
                self,
            ).autotranslate_edit_tracker.contents().remove(id),
            final(self).autotranslate_channels == old(self).autotranslate_channels,
            final(self).config == old(self).config,
            !tracked_at(*old(self), id) ==> r is Skip,
            tracked_at(*old(self), id) && !subscribed(
                *old(self),
                tracked_binding(*old(self), id).message.channel_id,
            ) ==> r is MissingIdentity,
            tracked_at(*old(self), id) && subscribed(
                *old(self),
                tracked_binding(*old(self), id).message.channel_id,
            ) ==> (r matches DeleteAction::DeleteMirror { webhook, response, channel_id } && webhook
                == channel_hook(*old(self), tracked_binding(*old(self), id).message.channel_id)
                && response == tracked_binding(*old(self), id).response && channel_id
                == tracked_binding(*old(self), id).message.channel_id),
    {
        let entry = match self.autotranslate_edit_tracker.remove(id) {
            Some(t) => t,
            None => {
                return DeleteAction::Skip;
            },
        };
        let channel_id = entry.message.channel_id;
        match self.autotranslate_channels.get(channel_id) {
            None => DeleteAction::MissingIdentity,
            Some(channel) => DeleteAction::DeleteMirror {
                webhook: channel.webhook,
                response: entry.response,
                channel_id,
            },
        }
    }

    /// One pass of the passive-expiry sweep: every binding older than the
    /// observation window is removed, every younger one kept unchanged, and
    /// the backing store compacted. This runs on a fixed interval and is
    /// the sole guarantee of bounded memory when deletes are missed.
    pub fn sweep(&mut self, now: u64)
        ensures
            final(self).autotranslate_edit_tracker.contents() == swept(
                old(self).autotranslate_edit_tracker.contents(),
                now,
                old(self).config.observation_window,
            ),
            final(self).autotranslate_channels == old(self).autotranslate_channels,
            final(self).config == old(self).config,
            forall|id: u64| #[trigger]
                final(self).autotranslate_edit_tracker.contents().dom().contains(id)
                    ==> !final(self).autotranslate_edit_tracker.contents()[id].spec_expired(
                    now,
                    final(self).config.observation_window,
                ),
    {
        let window = self.config.observation_window;
        self.autotranslate_edit_tracker.sweep(now, window);
    }
}

} // verus!
