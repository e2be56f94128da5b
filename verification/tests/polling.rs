use fred::db::basic::{entry_user, expired_message, is_expired, Entry as BasicEntry};
use fred::db::entries::Entry;
use fred::db::guilds::Guild;
use fred::db::reminders::Reminder;
use fred::db::{
    entry_callout_action, entry_is_overdue, entry_needs_reminder, entry_reminder_action,
    overdue_entry_message, reminder_message, EntryAction,
};
use fred::fred_db::boop::stored_score;
use fred::fred_db::{
    announcement_channel, overdue_reminder_message, reminder_callout_action, reminder_is_due,
    reminder_is_overdue, reminder_send_action, ReminderAction,
};
use fred::time::Timestamp;

fn ts(secs: i64) -> Timestamp {
    Timestamp::from_parts(secs, 0).unwrap()
}

fn entry(end: i64, remind: bool, active: bool) -> Entry {
    Entry { id: 1, end_time: ts(end), user_id: 2, description: "essay".to_string(), remind, active }
}

#[test]
fn entry_reminders_go_out_thirty_minutes_before() {
    let now = ts(1_000_000);
    assert!(entry_needs_reminder(&entry(1_000_000 + 29 * 60, true, true), &now));
    assert!(!entry_needs_reminder(&entry(1_000_000 + 30 * 60, true, true), &now));
    assert!(!entry_needs_reminder(&entry(1_000_000 + 29 * 60, false, true), &now));
    assert!(entry_needs_reminder(&entry(1_000_000 - 60, true, false), &now));
}

#[test]
fn entries_expire_after_their_deadline() {
    let now = ts(1_000_000);
    assert!(entry_is_overdue(&entry(999_999, false, true), &now));
    assert!(!entry_is_overdue(&entry(1_000_000, false, true), &now));
    assert!(!entry_is_overdue(&entry(999_999, false, false), &now));
}

#[test]
fn poll_messages() {
    assert_eq!(reminder_message("essay"), "Do your entry: essay");
    assert_eq!(
        overdue_entry_message(5, "essay", 3),
        "\n                                **User:** <@5> \n                                **Description:** essay \n                                **Total missed entries:** 3 \n\n                                common <@5> L\n                                "
    );
    assert_eq!(
        overdue_reminder_message(5, "essay", None),
        "\n                                **User:** <@5> \n                                **Description:** essay \n                                **Total missed reminders:** 0 \n                                "
    );
    assert_eq!(
        overdue_reminder_message(5, "essay", Some(4)),
        "\n                                **User:** <@5> \n                                **Description:** essay \n                                **Total missed reminders:** 4 \n                                "
    );
}

#[test]
fn reminder_polling() {
    let now = ts(1_000_000);
    let mut r = Reminder {
        id: 1,
        end_time: ts(1_000_100),
        user_id: 3,
        guild_id: 4,
        description: "x".to_string(),
        remind_time: Some(ts(999_000)),
        active: true,
    };
    assert!(reminder_is_due(&r, &now));
    assert!(!reminder_is_overdue(&r, &now));
    assert!(reminder_is_overdue(&r, &ts(1_000_101)));
    r.remind_time = None;
    assert!(!reminder_is_due(&r, &now));
    r.remind_time = Some(ts(999_000));
    r.active = false;
    assert!(!reminder_is_due(&r, &now));
    assert!(!reminder_is_overdue(&r, &ts(2_000_000)));
}

#[test]
fn announcement_channels() {
    let g = Guild { id: 1, guild_id: 2, reminder_master_role: None, reminder_channel: Some(-1) };
    assert_eq!(announcement_channel(&g), Some(u64::MAX));
    let g = Guild { id: 1, guild_id: 2, reminder_master_role: None, reminder_channel: None };
    assert_eq!(announcement_channel(&g), None);
}

#[test]
fn stored_scores() {
    assert_eq!(stored_score(Some(8)), 8);
    assert_eq!(stored_score(None), 0);
}

#[test]
fn basic_entries() {
    let e = BasicEntry { id: 1, end_time: ts(10), user_id: 77, active: true };
    assert!(is_expired(&e, &ts(11)));
    assert!(!is_expired(&e, &ts(10)));
    assert_eq!(entry_user(&e), Some(77));
    assert_eq!(entry_user(&BasicEntry { user_id: -1, ..e }), None);
    assert_eq!(expired_message(77), "Oops! Looks like <@77> forgot to complete their entry in time!");
}

#[test]
fn entry_actions() {
    let now = ts(1_000_000);
    let e = Entry { id: 9, end_time: ts(1_000_060), user_id: 2, description: "essay".to_string(), remind: true, active: true };
    match entry_reminder_action(&e, &now) {
        Some(EntryAction::Remind { user_db_id, entry_id, text }) => {
            assert_eq!((user_db_id, entry_id), (2, 9));
            assert_eq!(text, "Do your entry: essay");
        }
        _ => panic!("expected a reminder"),
    }
    assert!(entry_callout_action(&e, &now).is_none());
    match entry_callout_action(&e, &ts(1_000_061)) {
        Some(EntryAction::CallOut { user_db_id, description }) => {
            assert_eq!(user_db_id, 2);
            assert_eq!(description, "essay");
        }
        _ => panic!("expected a call-out"),
    }
    let quiet = Entry { remind: false, ..e };
    assert!(entry_reminder_action(&quiet, &now).is_none());
}

#[test]
fn reminder_actions() {
    let now = ts(1_000_000);
    let r = Reminder {
        id: 1,
        end_time: ts(1_000_100),
        user_id: 3,
        guild_id: 4,
        description: "x".to_string(),
        remind_time: Some(ts(999_000)),
        active: true,
    };
    match reminder_send_action(&r, &now) {
        Some(ReminderAction::Remind { user_db_id, reminder_id, text }) => {
            assert_eq!((user_db_id, reminder_id), (3, 1));
            assert_eq!(text, "Do your entry: x");
        }
        _ => panic!("expected a reminder"),
    }
    assert!(reminder_callout_action(&r, &now).is_none());
    match reminder_callout_action(&r, &ts(1_000_101)) {
        Some(ReminderAction::CallOut { user_db_id, reminder_id, guild_db_id, description }) => {
            assert_eq!((user_db_id, reminder_id, guild_db_id), (3, 1, 4));
            assert_eq!(description, "x");
        }
        _ => panic!("expected a call-out"),
    }
}

#[test]
fn reminder_is_sent_and_announced_once_over_a_run() {
    let mut r = Reminder {
        id: 1,
        end_time: ts(1_000_300),
        user_id: 3,
        guild_id: 4,
        description: "x".to_string(),
        remind_time: Some(ts(1_000_100)),
        active: true,
    };
    let (mut sent, mut announced) = (0, 0);
    for pass in 0..20 {
        let now = ts(1_000_000 + pass * 30);
        if reminder_send_action(&r, &now).is_some() {
            sent += 1;
            r.remind_time = None;
        }
        if reminder_callout_action(&r, &now).is_some() {
            announced += 1;
            r.active = false;
        }
    }
    assert_eq!((sent, announced), (1, 1));
}

#[test]
fn entry_is_reminded_and_announced_once_over_a_run() {
    let mut e = entry(1_000_000 + 45 * 60, true, true);
    let (mut sent, mut announced) = (0, 0);
    for pass in 0..200 {
        let now = ts(1_000_000 + pass * 30);
        if entry_reminder_action(&e, &now).is_some() {
            sent += 1;
            e.remind = false;
        }
        if entry_callout_action(&e, &now).is_some() {
            announced += 1;
            e.active = false;
        }
    }
    assert_eq!((sent, announced), (1, 1));
}

#[test]
fn each_reminder_of_a_user_is_sent_when_its_time_comes() {
    let reminder = |id: i64, remind_at: i64| Reminder {
        id,
        end_time: ts(1_001_000),
        user_id: 3,
        guild_id: 4,
        description: format!("task {}", id),
        remind_time: Some(ts(remind_at)),
        active: true,
    };
    let mut rs = vec![reminder(1, 1_000_100), reminder(2, 1_000_500)];
    let mut sent = Vec::new();
    for pass in 0..30 {
        let now = ts(1_000_000 + pass * 30);
        for r in rs.iter_mut() {
            if let Some(ReminderAction::Remind { reminder_id, text, .. }) = reminder_send_action(r, &now) {
                sent.push((reminder_id, text));
                r.remind_time = None;
            }
        }
    }
    assert_eq!(
        sent,
        vec![(1, "Do your entry: task 1".to_string()), (2, "Do your entry: task 2".to_string())]
    );
}
