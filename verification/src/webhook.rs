//! The delivery-identity manager's decision logic: the deterministic
//! identity name derived from the bot's stable account id, thread-aware
//! routing, discovery by name among listed identities, and the fixed texts
//! a mirror shows while loading or after a failure.
//!
//! The platform calls themselves (listing, creating, posting through an
//! identity) are made by the embedding program; everything it needs to
//! decide is computed here.

use vstd::prelude::*;

use crate::lang::TargetLanguage;
use crate::text::{chars_of, dec_digits, push_chars, push_decimal};

verus! {

/// A proxy posting identity, able to impersonate a display name and an
/// avatar in its channel.
#[derive(Clone, Copy, PartialEq, Eq, Structural, Debug)]
pub struct TranslateHook {
    pub id: u64,
}

// ---------------------------------------------------------------------------
// Identity naming: deterministic, so that rediscovery needs no persisted
// mapping and restarts never duplicate identities.
// ---------------------------------------------------------------------------
/// The identity name derived from the bot's account id.
pub open spec fn webhook_name_seq(bot_id: u64) -> Seq<char> {
    "auto-translate-"@ + dec_digits(bot_id as nat)
}

/// Derive the identity name for this deployment from the bot's account id.
pub fn webhook_name(bot_id: u64) -> (r: Vec<char>)
    ensures
        r@ == webhook_name_seq(bot_id),
{
    let mut out = chars_of("auto-translate-");
    push_decimal(&mut out, bot_id);
    out
}

// ---------------------------------------------------------------------------
// Thread-aware routing.
// ---------------------------------------------------------------------------
/// What the routing logic discriminates of a channel's kind.
#[derive(Clone, Copy, PartialEq, Eq, Structural, Debug)]
pub enum ChannelKind {
    PublicThread,
    PrivateThread,
    Other,
}

/// What the routing logic reads of a channel: whether it belongs to a
/// guild, its kind, and its parent if it is a thread.
#[derive(Clone, Copy, Debug)]
pub struct ChannelInfo {
    pub id: u64,
    pub guild: bool,
    pub kind: ChannelKind,
    pub parent_id: Option<u64>,
}

pub open spec fn spec_parent(c: ChannelInfo) -> Option<u64> {
    if c.guild && (c.kind == ChannelKind::PublicThread || c.kind == ChannelKind::PrivateThread) {
        c.parent_id
    } else {
        None
    }
}

/// The parent of a guild thread; anything else has none.
pub fn get_parent(channel: &ChannelInfo) -> (r: Option<u64>)
    ensures
        r == spec_parent(*channel),
{
    if channel.guild && (matches!(channel.kind, ChannelKind::PublicThread
        | ChannelKind::PrivateThread)) {
        channel.parent_id
    } else {
        None
    }
}

/// The physical channel that identity operations target, and the thread to
/// tag them with: a thread routes to its parent, tagged "within this
/// thread"; any other channel routes to itself, untagged.
pub fn routing_target(channel: &ChannelInfo) -> (r: (u64, Option<u64>))
    ensures
        r.0 == (match spec_parent(*channel) {
            Some(p) => p,
            None => channel.id,
        }),
        r.1 == (match spec_parent(*channel) {
            Some(_) => Some(channel.id),
            None => None::<u64>,
        }),
{
    match get_parent(channel) {
        Some(p) => (p, Some(channel.id)),
        None => (channel.id, None),
    }
}

// ---------------------------------------------------------------------------
// Discovery by name.
// ---------------------------------------------------------------------------
/// One existing identity on a routing target, as the discovery scan reads
/// it: its id, and its name if it has one.
pub struct WebhookInfo {
    pub id: u64,
    pub name: Option<Vec<char>>,
}

pub open spec fn name_matches(w: WebhookInfo, name: Seq<char>) -> bool {
    w.name is Some && w.name->0@ == name
}

fn chars_eq(a: &Vec<char>, b: &Vec<char>) -> (r: bool)
    ensures
        r == (a@ == b@),
{
    if a.len() != b.len() {
        return false;
    }
    let mut i: usize = 0;
    while i < a.len()
        invariant
            i <= a@.len(),
            a@.len() == b@.len(),
            forall|j: int| 0 <= j < i ==> a@[j] == b@[j],
        decreases a@.len() - i,
    {
        if a[i] != b[i] {
            return false;
        }
        i = i + 1;
    }
    proof {
        assert(a@ =~= b@);
    }
    true
}

/// The discovery scan: the first listed identity bearing the wanted name,
/// to be reused instead of creating a duplicate.
pub fn find_webhook_by_name(hooks: &Vec<WebhookInfo>, name: &Vec<char>) -> (r: Option<usize>)
    ensures
        r matches Some(k) ==> k < hooks@.len() && name_matches(hooks@[k as int], name@) && (forall|
            j: int,
        | 0 <= j < k ==> !name_matches(hooks@[j], name@)),
        r is None ==> (forall|j: int| 0 <= j < hooks@.len() ==> !name_matches(hooks@[j], name@)),
{
    let mut i: usize = 0;
    while i < hooks.len()
        invariant
            i <= hooks@.len(),
            forall|j: int| 0 <= j < i ==> !name_matches(hooks@[j], name@),
        decreases hooks@.len() - i,
    {
        match &hooks[i].name {
            Some(n) => {
                if chars_eq(n, name) {
                    return Some(i);
                }
            },
            None => {},
        }
        i = i + 1;
    }
    None
}

// ---------------------------------------------------------------------------
// The fixed texts of a mirror.
// ---------------------------------------------------------------------------
pub open spec fn translation_failed_text() -> Seq<char> {
    "Translation failed."@
}

pub open spec fn translation_too_long_text() -> Seq<char> {
    "Translation too long."@
}

/// The placeholder shown when translation produced nothing.
pub fn translation_failed_placeholder() -> (r: &'static str)
    ensures
        r@ == translation_failed_text(),
{
    "Translation failed."
}

/// The placeholder shown when the translated text exceeds the platform
/// size limit.
pub fn translation_too_long_placeholder() -> (r: &'static str)
    ensures
        r@ == translation_too_long_text(),
{
    "Translation too long."
}

/// The impersonated display name shown on a mirror: the author's resolved
/// name, a space, and the target language's flag indicator.
pub fn mirror_username(display_name: &Vec<char>, target: &TargetLanguage) -> (r: Vec<char>)
    ensures
        r@ == display_name@ + seq![' '] + target.flag@,
{
    let mut out: Vec<char> = Vec::new();
    push_chars(&mut out, display_name);
    out.push(' ');
    push_chars(&mut out, &target.flag);
    proof {
        assert(out@ =~= display_name@ + seq![' '] + target.flag@);
    }
    out
}

/// The transient loading placeholder posted before the translation
/// arrives: the loading emoji's rendered form and a zero-width space.
pub fn loading_content(emoji: &Vec<char>) -> (r: Vec<char>)
    ensures
        r@ == emoji@ + seq!['\u{200B}'],
{
    let mut out: Vec<char> = Vec::new();
    push_chars(&mut out, emoji);
    out.push('\u{200B}');
    proof {
        assert(out@ =~= emoji@ + seq!['\u{200B}']);
    }
    out
}

/// Why the platform refused an edit of the mirror's content.
pub enum EditFailure {
    /// The new content exceeds the platform size limit.
    TooLarge,
    /// Any other refusal.
    Other,
}

/// The fixed fallback a mirror is left showing after a failed content
/// edit: a size-limit failure gives the "too long" placeholder — never a
/// propagated error — and any other failure the generic one.
pub fn edit_fallback(failure: &EditFailure) -> (r: &'static str)
    ensures
        r@ == (match failure {
            EditFailure::TooLarge => translation_too_long_text(),
            EditFailure::Other => translation_failed_text(),
        }),
{
    match failure {
        EditFailure::TooLarge => "Translation too long.",
        EditFailure::Other => "Translation failed.",
    }
}

/// The content of a mirror edit: the translated text when translation
/// succeeded, else the failure placeholder.
pub fn edit_content(translated: Option<Vec<char>>) -> (r: Vec<char>)
    ensures
        translated matches Some(t) ==> r@ == t@,
        translated is None ==> r@ == translation_failed_text(),
{
    match translated {
        Some(t) => t,
        None => chars_of(translation_failed_placeholder()),
    }
}

} // verus!
