use autotranslate::config::Config;
use autotranslate::lang::Lang;
use autotranslate::message::{Author, MessagePatch, MessageSnapshot};
use autotranslate::relay::{CreateAction, Data, DeleteAction, EditAction, UpdateEvent};
use autotranslate::webhook::TranslateHook;

fn cv(s: &str) -> Vec<char> {
    s.chars().collect()
}

fn sv(v: &[char]) -> String {
    v.iter().collect()
}

fn config() -> Config {
    Config::new(300, 10)
}

fn msg(id: u64, channel_id: u64, author_id: u64, bot: bool, content: &str) -> MessageSnapshot {
    MessageSnapshot {
        id,
        channel_id,
        author: Author { id: author_id, bot, name: cv("alice") },
        content: cv(content),
    }
}

#[test]
fn create_skips_when_nothing_to_translate() {
    let mut d = Data::new(config());
    d.enable_autotranslate(7, TranslateHook { id: 70 });
    // residual is empty: mention and URL stripped away
    let a = d.on_message_created(&msg(1, 7, 5, false, "<@123> https://x.com"));
    assert!(matches!(a, CreateAction::Skip));
    // residual has no alphabetic character
    let a = d.on_message_created(&msg(2, 7, 5, false, "12 34"));
    assert!(matches!(a, CreateAction::Skip));
    // and no tracked state came of either
    assert_eq!(d.tracked_count(), 0);
}

#[test]
fn create_skips_bot_empty_and_unsubscribed() {
    let mut d = Data::new(config());
    d.enable_autotranslate(7, TranslateHook { id: 70 });
    assert!(matches!(d.on_message_created(&msg(1, 7, 5, true, "hi there")), CreateAction::Skip));
    assert!(matches!(d.on_message_created(&msg(2, 7, 5, false, "")), CreateAction::Skip));
    assert!(matches!(d.on_message_created(&msg(3, 8, 5, false, "hi there")), CreateAction::Skip));
}

#[test]
fn create_posts_through_the_channel_identity() {
    let mut d = Data::new(config());
    d.enable_autotranslate(7, TranslateHook { id: 70 });
    match d.on_message_created(&msg(1, 7, 5, false, "Hello world")) {
        CreateAction::Post { webhook, target } => {
            assert_eq!(webhook.id, 70);
            assert_eq!(target.lang, Lang::Ja);
        }
        _ => panic!("expected a post"),
    }
}

#[test]
fn scenario_create_edit_delete_lifecycle() {
    let mut d = Data::new(config());
    d.enable_autotranslate(7, TranslateHook { id: 70 });
    let m = msg(1, 7, 5, false, "Hello <@123> see https://x.com ```code```");
    match d.on_message_created(&m) {
        CreateAction::Post { webhook, target } => {
            assert_eq!(webhook.id, 70);
            // residual "Hello  see" classifies as the first member; the
            // mirror is translated into the second
            assert_eq!(target.lang, Lang::Ja);
        }
        _ => panic!("expected a post"),
    }
    // the mirror post succeeded as message 900: insert the binding
    d.track_edits(m, 900, 0);
    assert_eq!(d.tracked_count(), 1);

    // a later edit updates the same mirror message in place
    let ev = UpdateEvent {
        id: 1,
        channel_id: 7,
        patch: MessagePatch {
            author: Some(Author { id: 5, bot: false, name: cv("alice") }),
            content: Some(cv("Hello again")),
        },
    };
    match d.on_message_updated(ev) {
        EditAction::Edit { webhook, response, target } => {
            assert_eq!(webhook.id, 70);
            assert_eq!(response, 900);
            assert_eq!(target.lang, Lang::Ja);
        }
        _ => panic!("expected an edit"),
    }
    let entry = d.autotranslate_edit_tracker.get(1).unwrap();
    assert_eq!(sv(&entry.message.content), "Hello again");
    assert_eq!(entry.response, 900);

    // deleting the source removes both the mirror and its tracked entry
    match d.on_message_deleted(1) {
        DeleteAction::DeleteMirror { webhook, response, channel_id } => {
            assert_eq!(webhook.id, 70);
            assert_eq!(response, 900);
            assert_eq!(channel_id, 7);
        }
        _ => panic!("expected a mirror delete"),
    }
    assert_eq!(d.tracked_count(), 0);
}

#[test]
fn edit_for_untracked_id_is_a_no_op() {
    let mut d = Data::new(config());
    d.enable_autotranslate(7, TranslateHook { id: 70 });
    let ev = UpdateEvent {
        id: 42,
        channel_id: 7,
        patch: MessagePatch {
            author: Some(Author { id: 5, bot: false, name: cv("alice") }),
            content: Some(cv("edited text")),
        },
    };
    assert!(matches!(d.on_message_updated(ev), EditAction::Skip));
    assert_eq!(d.tracked_count(), 0);
}

#[test]
fn edit_skips_partial_bot_or_empty_updates() {
    let mut d = Data::new(config());
    d.enable_autotranslate(7, TranslateHook { id: 70 });
    d.track_edits(msg(1, 7, 5, false, "hello"), 900, 0);
    let author = Author { id: 5, bot: false, name: cv("alice") };
    let bot = Author { id: 6, bot: true, name: cv("bot") };
    let cases = vec![
        MessagePatch { author: None, content: Some(cv("x")) },
        MessagePatch { author: Some(author.clone()), content: None },
        MessagePatch { author: Some(bot), content: Some(cv("x")) },
        MessagePatch { author: Some(author), content: Some(cv("")) },
    ];
    for patch in cases {
        let ev = UpdateEvent { id: 1, channel_id: 7, patch };
        assert!(matches!(d.on_message_updated(ev), EditAction::Skip));
    }
    // the binding is still the original one
    let entry = d.autotranslate_edit_tracker.get(1).unwrap();
    assert_eq!(sv(&entry.message.content), "hello");
}

#[test]
fn edit_stores_the_patched_snapshot_even_when_it_skips() {
    let mut d = Data::new(config());
    d.enable_autotranslate(7, TranslateHook { id: 70 });
    d.track_edits(msg(1, 7, 5, false, "hello"), 900, 0);
    // the new content offers nothing to translate, so no edit goes out,
    // but later edits must diff against the true latest source state
    let ev = UpdateEvent {
        id: 1,
        channel_id: 7,
        patch: MessagePatch {
            author: Some(Author { id: 5, bot: false, name: cv("alice") }),
            content: Some(cv("1234")),
        },
    };
    assert!(matches!(d.on_message_updated(ev), EditAction::Skip));
    let entry = d.autotranslate_edit_tracker.get(1).unwrap();
    assert_eq!(sv(&entry.message.content), "1234");
}

#[test]
fn edit_without_identity_reports_it() {
    let mut d = Data::new(config());
    d.enable_autotranslate(7, TranslateHook { id: 70 });
    d.track_edits(msg(1, 7, 5, false, "hello"), 900, 0);
    d.disable_autotranslate(7);
    let ev = UpdateEvent {
        id: 1,
        channel_id: 7,
        patch: MessagePatch {
            author: Some(Author { id: 5, bot: false, name: cv("alice") }),
            content: Some(cv("hello again")),
        },
    };
    assert!(matches!(d.on_message_updated(ev), EditAction::MissingIdentity));
}

#[test]
fn delete_of_missing_binding_is_tolerated() {
    let mut d = Data::new(config());
    assert!(matches!(d.on_message_deleted(99), DeleteAction::Skip));
    assert_eq!(d.tracked_count(), 0);
}

#[test]
fn at_most_one_binding_per_source_id() {
    let mut d = Data::new(config());
    d.enable_autotranslate(7, TranslateHook { id: 70 });
    // two create attempts for the same id both record: one binding remains,
    // the one recorded last
    d.track_edits(msg(1, 7, 5, false, "first"), 900, 0);
    d.track_edits(msg(1, 7, 5, false, "second"), 901, 1);
    assert_eq!(d.tracked_count(), 1);
    let entry = d.autotranslate_edit_tracker.get(1).unwrap();
    assert_eq!(sv(&entry.message.content), "second");
    assert_eq!(entry.response, 901);
}

#[test]
fn two_channels_same_author_are_independent() {
    let mut d = Data::new(config());
    d.enable_autotranslate(7, TranslateHook { id: 70 });
    d.enable_autotranslate(8, TranslateHook { id: 80 });
    let m7 = msg(1, 7, 5, false, "hello from seven");
    let m8 = msg(2, 8, 5, false, "hello from eight");
    match d.on_message_created(&m7) {
        CreateAction::Post { webhook, .. } => assert_eq!(webhook.id, 70),
        _ => panic!("expected a post"),
    }
    match d.on_message_created(&m8) {
        CreateAction::Post { webhook, .. } => assert_eq!(webhook.id, 80),
        _ => panic!("expected a post"),
    }
    d.track_edits(m7, 900, 0);
    d.track_edits(m8, 901, 0);
    assert_eq!(d.tracked_count(), 2);
    // deleting one leaves the other untouched
    assert!(matches!(d.on_message_deleted(1), DeleteAction::DeleteMirror { .. }));
    let entry = d.autotranslate_edit_tracker.get(2).unwrap();
    assert_eq!(entry.response, 901);
}

#[test]
fn sweep_removes_expired_bindings_only() {
    let mut d = Data::new(config());
    d.enable_autotranslate(7, TranslateHook { id: 70 });
    d.track_edits(msg(1, 7, 5, false, "old"), 900, 0);
    d.track_edits(msg(2, 7, 5, false, "young"), 901, 200);
    // at the window's edge nothing has expired yet
    d.sweep(300);
    assert_eq!(d.tracked_count(), 2);
    // one tick past the edge the old binding goes, with no source activity
    d.sweep(301);
    assert_eq!(d.tracked_count(), 1);
    assert!(d.autotranslate_edit_tracker.get(1).is_none());
    assert!(d.autotranslate_edit_tracker.get(2).is_some());
    d.sweep(501);
    assert_eq!(d.tracked_count(), 0);
}

#[test]
fn failed_post_records_no_partial_state() {
    let mut d = Data::new(config());
    d.enable_autotranslate(7, TranslateHook { id: 70 });
    let m = msg(1, 7, 5, false, "hello");
    // the initial post failed: nothing may be tracked
    d.record_post_outcome(m, None, 0);
    assert_eq!(d.tracked_count(), 0);
    // a successful one is recorded as the binding
    let m = msg(1, 7, 5, false, "hello");
    d.record_post_outcome(m, Some(900), 0);
    assert_eq!(d.tracked_count(), 1);
    let entry = d.autotranslate_edit_tracker.get(1).unwrap();
    assert_eq!(entry.response, 900);
}

#[test]
fn subscription_toggles_are_immediately_visible() {
    let mut d = Data::new(config());
    assert!(!d.is_enabled(7));
    d.enable_autotranslate(7, TranslateHook { id: 70 });
    assert!(d.is_enabled(7));
    assert_eq!(d.get_webhook(7).unwrap().id, 70);
    d.disable_autotranslate(7);
    assert!(!d.is_enabled(7));
    assert!(d.get_webhook(7).is_none());
}

#[test]
fn largest_ids_are_handled() {
    let mut d = Data::new(config());
    d.enable_autotranslate(u64::MAX, TranslateHook { id: u64::MAX });
    let m = msg(u64::MAX, u64::MAX, u64::MAX, false, "edge of the id space");
    assert!(matches!(d.on_message_created(&m), CreateAction::Post { .. }));
    d.track_edits(m, u64::MAX, u64::MAX);
    // a binding created at the far end of time has not expired
    d.sweep(u64::MAX);
    assert_eq!(d.tracked_count(), 1);
}
