use autotranslate::lang::{Lang, TargetLanguage};
use autotranslate::message::{Author, MessagePatch, MessageSnapshot};
use autotranslate::tracker::TrackedMessage;
use autotranslate::webhook::{
    edit_content, edit_fallback, find_webhook_by_name, get_parent, loading_content,
    mirror_username, routing_target, translation_failed_placeholder,
    translation_too_long_placeholder, webhook_name, ChannelInfo, ChannelKind, EditFailure,
    WebhookInfo,
};

fn cv(s: &str) -> Vec<char> {
    s.chars().collect()
}

fn sv(v: &[char]) -> String {
    v.iter().collect()
}

#[test]
fn identity_name_is_derived_from_the_account_id() {
    assert_eq!(sv(&webhook_name(1234567890)), "auto-translate-1234567890");
    assert_eq!(sv(&webhook_name(0)), "auto-translate-0");
    assert_eq!(sv(&webhook_name(u64::MAX)), "auto-translate-18446744073709551615");
}

#[test]
fn identity_name_is_deterministic() {
    assert_eq!(webhook_name(42), webhook_name(42));
}

#[test]
fn thread_routes_to_its_parent() {
    let thread = ChannelInfo { id: 5, guild: true, kind: ChannelKind::PublicThread, parent_id: Some(4) };
    assert_eq!(get_parent(&thread), Some(4));
    assert_eq!(routing_target(&thread), (4, Some(5)));

    let private = ChannelInfo { id: 6, guild: true, kind: ChannelKind::PrivateThread, parent_id: Some(4) };
    assert_eq!(routing_target(&private), (4, Some(6)));
}

#[test]
fn plain_channels_route_to_themselves() {
    let plain = ChannelInfo { id: 7, guild: true, kind: ChannelKind::Other, parent_id: Some(4) };
    assert_eq!(get_parent(&plain), None);
    assert_eq!(routing_target(&plain), (7, None));

    let direct = ChannelInfo { id: 8, guild: false, kind: ChannelKind::PublicThread, parent_id: Some(4) };
    assert_eq!(routing_target(&direct), (8, None));
}

#[test]
fn discovery_finds_the_first_name_match() {
    let wanted = webhook_name(9);
    let hooks = vec![
        WebhookInfo { id: 1, name: None },
        WebhookInfo { id: 2, name: Some(cv("other")) },
        WebhookInfo { id: 3, name: Some(sv(&wanted).chars().collect()) },
        WebhookInfo { id: 4, name: Some(sv(&wanted).chars().collect()) },
    ];
    assert_eq!(find_webhook_by_name(&hooks, &wanted), Some(2));
    assert_eq!(find_webhook_by_name(&hooks, &cv("absent")), None);
    assert_eq!(find_webhook_by_name(&Vec::new(), &wanted), None);
}

#[test]
fn mirror_username_carries_the_target_flag() {
    let target = TargetLanguage::from_lang(Lang::En);
    let name = mirror_username(&cv("alice"), &target);
    assert_eq!(sv(&name), "alice \u{1F1EF}\u{1F1F5}");
}

#[test]
fn loading_placeholder_ends_with_a_zero_width_space() {
    let c = loading_content(&cv("<a:loading:1>"));
    assert_eq!(sv(&c), "<a:loading:1>\u{200B}");
}

#[test]
fn size_limit_failure_gives_the_fixed_too_long_placeholder() {
    assert_eq!(edit_fallback(&EditFailure::TooLarge), "Translation too long.");
    assert_eq!(edit_fallback(&EditFailure::Other), "Translation failed.");
    assert_eq!(translation_too_long_placeholder(), "Translation too long.");
    assert_eq!(translation_failed_placeholder(), "Translation failed.");
}

#[test]
fn edit_content_falls_back_when_translation_failed() {
    assert_eq!(sv(&edit_content(Some(cv("Bonjour")))), "Bonjour");
    assert_eq!(sv(&edit_content(None)), "Translation failed.");
}

#[test]
fn tracked_message_expiry_is_measured_from_creation() {
    let m = MessageSnapshot {
        id: 1,
        channel_id: 7,
        author: Author { id: 5, bot: false, name: cv("alice") },
        content: cv("hello"),
    };
    let t = TrackedMessage::new(m, 900, 100);
    assert!(!t.is_expired(100, 300));
    assert!(!t.is_expired(400, 300));
    assert!(t.is_expired(401, 300));
    // far below the window nothing expires
    assert!(!t.is_expired(0, 300));
}

#[test]
fn apply_patch_keeps_omitted_fields() {
    let mut m = MessageSnapshot {
        id: 1,
        channel_id: 7,
        author: Author { id: 5, bot: false, name: cv("alice") },
        content: cv("hello"),
    };
    m.apply_patch(MessagePatch { author: None, content: Some(cv("edited")) });
    assert_eq!(sv(&m.content), "edited");
    assert_eq!(m.author.id, 5);
    m.apply_patch(MessagePatch {
        author: Some(Author { id: 5, bot: false, name: cv("alicia") }),
        content: None,
    });
    assert_eq!(sv(&m.content), "edited");
    assert_eq!(sv(&m.author.name), "alicia");
    assert_eq!(m.id, 1);
    assert_eq!(m.channel_id, 7);
}
