use fred::commands::boop::{boop_count_message, current_score_message, leaderboard_message, next_boop_score};
use fred::commands::checks::{
    administrator_outcome, reminder_master_outcome, reminder_master_step, reminder_setting_outcome,
    MasterRoleStep,
};
use fred::commands::entries::{
    entries_to_fetch, entry_created_message, entry_list_message, entry_list_user_ids,
    notebooker_outcome, plan_entry, EntryQuery, ViewOptions,
};
use fred::commands::fun::boop::{leaderboard_message as board_message, leaderboard_user_ids};
use fred::commands::fun::RPSOptions::{Paper, Rock, Scissors};
use fred::commands::fun::{hand_from_roll, hand_roll_bounds, rps, rps_response};
use fred::commands::misc::{resources_response, uptime_message, uptime_reply, Resources};
use fred::commands::reminder::{
    plan_reminder, reminder_created_message, reminder_created_reply, reminder_list_message,
    reminder_list_reply, reminder_target,
    reminder_list_user_ids, reminder_time_left, reminders_to_fetch, ReminderQuery,
    ViewOptions as ReminderView,
};
use fred::commands::robot::team_location;
use fred::commands::settings::{new_guild_settings, settings_message};
use fred::db::entries::Entry;
use fred::db::guilds::Guild;
use fred::db::reminders::Reminder;
use fred::db::users::User;
use fred::fred_db::users::User as FredUser;
use fred::robotevents::{team_search_url, team_skills_url};
use fred::time::Timestamp;

fn ts(secs: i64) -> Timestamp {
    Timestamp::from_parts(secs, 0).unwrap()
}

fn entry(user_id: i32, end: i64, description: &str, active: bool) -> Entry {
    Entry { id: 1, end_time: ts(end), user_id, description: description.to_string(), remind: false, active }
}

fn reminder(user_id: i64, end: i64, description: &str, active: bool) -> Reminder {
    Reminder {
        id: 1,
        end_time: ts(end),
        user_id,
        guild_id: 1,
        description: description.to_string(),
        remind_time: None,
        active,
    }
}

#[test]
fn rps_replies() {
    assert_eq!(rps_response(Rock, Paper), "Paper, I win!");
    assert_eq!(rps_response(Rock, Scissors), "Scissors, you win!");
    assert_eq!(rps_response(Rock, Rock), "Rock, it's a tie!");
    assert_eq!(rps_response(Paper, Scissors), "Scissors, I win!");
    assert_eq!(rps_response(Paper, Rock), "Rock, you win.");
    assert_eq!(rps_response(Paper, Paper), "Paper, it's a tie!");
    assert_eq!(rps_response(Scissors, Rock), "Rock, I win!");
    assert_eq!(rps_response(Scissors, Paper), "Paper, you win!");
    assert_eq!(rps_response(Scissors, Scissors), "Scissors, it's a tie!");
    assert_eq!(hand_roll_bounds(), (1, 3));
    assert_eq!(hand_from_roll(1), Rock);
    assert_eq!(hand_from_roll(2), Paper);
    assert_eq!(hand_from_roll(3), Scissors);
    let mut seen = Vec::new();
    for _ in 0..300 {
        let (bot, reply) = rps(Rock).unwrap();
        assert_eq!(reply, rps_response(Rock, bot));
        if !seen.contains(&bot) {
            seen.push(bot);
        }
    }
    assert_eq!(seen.len(), 3);
}

#[test]
fn boop_scores() {
    assert_eq!(next_boop_score(0), Some(1));
    assert_eq!(next_boop_score(-3), Some(-2));
    assert_eq!(next_boop_score(i64::MAX), None);
    assert_eq!(current_score_message(12), "current score: 12");
    assert_eq!(boop_count_message(13), "Boop count: 13");
}

#[test]
fn leaderboards() {
    let users = vec![
        User { id: 1, user_id: 10, boop_score: 50, missed_entries: 0 },
        User { id: 2, user_id: 20, boop_score: 7, missed_entries: 1 },
    ];
    let names = vec!["ada".to_string(), "bob".to_string()];
    assert_eq!(leaderboard_message(&users, &names), "1. ada -- 502. bob -- 7");

    let users = vec![
        FredUser { id: 1, user_id: 10, boop_score: Some(50), rps_wins: None, missed_entries: None },
        FredUser { id: 2, user_id: -1, boop_score: None, rps_wins: None, missed_entries: None },
        FredUser { id: 3, user_id: -2, boop_score: Some(3), rps_wins: None, missed_entries: None },
    ];
    assert_eq!(leaderboard_user_ids(&users), vec![10, u64::MAX - 1]);
    let names = vec!["ada".to_string(), "cy".to_string()];
    assert_eq!(board_message(&users, &names), "1. ada -- 50\n2. cy -- 3\n");
}

#[test]
fn entry_commands() {
    assert_eq!(entries_to_fetch(None), EntryQuery::ActiveForUser);
    assert_eq!(entries_to_fetch(Some(ViewOptions::Author)), EntryQuery::ActiveForUser);
    assert_eq!(entries_to_fetch(Some(ViewOptions::Expired)), EntryQuery::AllForUser);
    assert_eq!(entries_to_fetch(Some(ViewOptions::AllUsers)), EntryQuery::Active);
    assert_eq!(entries_to_fetch(Some(ViewOptions::All)), EntryQuery::All);

    let now = ts(1_700_000_000);
    let plan = plan_entry(&now, 24, None).unwrap();
    assert_eq!(plan.end_time.secs(), 1_700_000_000 + 24 * 3600);
    assert!(!plan.remind);
    assert!(plan_entry(&now, -2, Some(true)).unwrap().remind);
    assert_eq!(plan_entry(&now, i64::MAX, None), None);
    assert_eq!(plan_entry(&now, 3_000_000_000, None), None);

    assert_eq!(
        entry_created_message(7, 3, "chapter 2"),
        "\n                **User:** <@7>\n                **Time to complete:** 3 hours\n                **Description:** chapter 2\n                "
    );
    assert!(notebooker_outcome(true).passed);
    let denied = notebooker_outcome(false);
    assert!(!denied.passed);
    assert_eq!(denied.reply.unwrap(), "You aren't a notebooker");
}

#[test]
fn entry_list() {
    let entries = vec![
        entry(4, 1_000_000 + 2 * 3600 + 5 * 60, "design", true),
        entry(5, 1_000_000, "old", false),
        entry(6, 1_000_000 - 90, "late", true),
        entry(7, 1_000_000 + 90 * 60, "build", true),
    ];
    assert_eq!(entry_list_user_ids(&entries), vec![4, 5, 6, 7]);
    let names = vec!["ada".to_string(), "bo".to_string(), "cy".to_string(), "di".to_string()];
    let nows = vec![ts(1_000_000); 4];
    assert_eq!(
        entry_list_message(&entries, &names, &nows),
        "1. ada -- design -- time left - 2:5\n2. bo -- old -- time left - 0:0\n3. cy -- late -- time left - 0:-1\n4. di -- build -- time left - 1:30\n"
    );
    let overdue = vec![entry(8, 1_000_000 - 2 * 3600 - 15 * 60, "lost", false)];
    assert_eq!(
        entry_list_message(&overdue, &vec!["ed".to_string()], &vec![ts(1_000_000)]),
        "1. ed -- lost -- time left - -2:-15\n"
    );
}

#[test]
fn reminder_commands() {
    assert_eq!(reminders_to_fetch(None), ReminderQuery::ActiveForUser);
    assert_eq!(reminders_to_fetch(Some(ReminderView::AuthorExpired)), ReminderQuery::AllForUser);
    assert_eq!(reminders_to_fetch(Some(ReminderView::All)), ReminderQuery::Active);
    assert_eq!(reminders_to_fetch(Some(ReminderView::AllExpired)), ReminderQuery::All);

    let now = ts(1_700_000_000);
    let plan = plan_reminder(&now, 5, Some(2)).unwrap();
    assert_eq!(plan.end_time.secs(), 1_700_000_000 + 5 * 3600);
    assert_eq!(plan.remind_time.unwrap().secs(), 1_700_000_000 + 3 * 3600);
    assert_eq!(plan_reminder(&now, 5, None).unwrap().remind_time, None);
    assert_eq!(plan_reminder(&now, i64::MAX, None), None);

    assert_eq!(
        reminder_created_reply(9, 5, "test", &plan).unwrap(),
        "\n                **User:** <@9>\n                **Time to complete:** 5h\n                **Description:** test\n                **Remind:** 2h\n                "
    );
    let plain = plan_reminder(&now, 26, None).unwrap();
    assert_eq!(
        reminder_created_reply(9, 26, "x", &plain).unwrap(),
        reminder_created_message(9, "1day 2h", "x", None)
    );
    let negative = plan_reminder(&now, -1, None).unwrap();
    assert_eq!(reminder_created_reply(9, -1, "x", &negative), None);
    let early = plan_reminder(&now, 1, Some(-1)).unwrap();
    assert_eq!(reminder_created_reply(9, 1, "x", &early), None);
}

#[test]
fn reminder_list() {
    let reminders = vec![
        reminder(3, 1_000_000 + 90, "a", true),
        reminder(4, 1_000_000, "b", false),
        reminder(5, 999_000, "c", false),
    ];
    assert_eq!(reminder_list_user_ids(&reminders), vec![3, 4, 5]);
    let now = ts(1_000_000);
    let lefts: Vec<String> = reminders.iter().map(|r| reminder_time_left(r, &now).unwrap()).collect();
    assert_eq!(lefts, vec!["1m 30s".to_string(), "0s".to_string(), "expired".to_string()]);
    assert_eq!(reminder_time_left(&reminders[0], &ts(1_000_091)), None);
    let names = vec!["ada".to_string(), "bo".to_string(), "cy".to_string()];
    let msg = reminder_list_message(&reminders, &names, &lefts);
    assert_eq!(
        msg,
        "1. ada -- a -- time left - 1m 30s\n2. bo -- b -- time left - 0s\n3. cy -- c -- time left - expired\n"
    );
    assert_eq!(reminder_list_reply(&reminders, &names, &vec![now; 3]).unwrap(), msg);
    assert_eq!(reminder_list_reply(&reminders, &names, &vec![ts(1_000_091), now, now]), None);
}

#[test]
fn reminder_targets() {
    assert_eq!(reminder_target(1, None, false), Some(1));
    assert_eq!(reminder_target(1, None, true), Some(1));
    assert_eq!(reminder_target(1, Some(2), true), Some(2));
    assert_eq!(reminder_target(1, Some(2), false), None);
}

#[test]
fn misc_commands() {
    for topic in [None, Some(Resources::General), Some(Resources::Building), Some(Resources::Programming), Some(Resources::Notebooking)] {
        assert_eq!(resources_response(topic, &ts(0), &ts(61)).unwrap(), "1m 1s seconds");
        assert_eq!(resources_response(topic, &ts(61), &ts(0)), None);
    }
    assert_eq!(uptime_message("3h"), "3h seconds");
    assert_eq!(uptime_reply(&ts(0), &ts(61)).unwrap(), "1m 1s seconds");
    assert_eq!(uptime_reply(&ts(61), &ts(0)), None);
}

#[test]
fn settings_command() {
    let stored = Guild { id: 4, guild_id: 99, reminder_master_role: Some(1), reminder_channel: Some(2) };
    let updated = new_guild_settings(99, None, Some(u64::MAX), stored);
    assert_eq!(updated, Guild { id: 0, guild_id: 99, reminder_master_role: Some(1), reminder_channel: Some(-1) });
    assert_eq!(
        settings_message("Lab", Some("Captain"), None),
        "\n                **Guild:** Lab\n                **Reminder Master Role:** Captain\n                **Reminder Channel:** None\n                "
    );
}

#[test]
fn guild_merge() {
    let new = Guild { id: 1, guild_id: 2, reminder_master_role: None, reminder_channel: Some(5) };
    let old = Guild { id: 3, guild_id: 4, reminder_master_role: Some(6), reminder_channel: Some(7) };
    assert_eq!(new.merge(old), Guild { id: 1, guild_id: 2, reminder_master_role: Some(6), reminder_channel: Some(5) });
    assert_eq!(old.merge(old), old);
    let empty = Guild { id: 9, guild_id: 9, reminder_master_role: None, reminder_channel: None };
    assert_eq!(new.merge(empty), new);
    assert_eq!(new.merge(old).merge(empty), new.merge(old.merge(empty)));
}

#[test]
fn checks() {
    let ok = administrator_outcome(true);
    assert!(ok.passed && ok.reply.is_none());
    assert_eq!(administrator_outcome(false).reply.unwrap(), "You aren't an administrator!");

    let with_role = Guild { id: 1, guild_id: 2, reminder_master_role: Some(-1), reminder_channel: None };
    match reminder_master_step(&with_role) {
        MasterRoleStep::TestRole(id) => assert_eq!(id, u64::MAX),
        MasterRoleStep::Decided(_) => panic!("expected a role to test"),
    }
    let without = Guild { id: 1, guild_id: 2, reminder_master_role: None, reminder_channel: Some(3) };
    match reminder_master_step(&without) {
        MasterRoleStep::Decided(c) => {
            assert!(!c.passed);
            assert_eq!(c.reply.unwrap(), "Your server does not have the reminder master role configured");
        }
        MasterRoleStep::TestRole(_) => panic!("expected a decision"),
    }
    assert!(reminder_master_outcome(true).passed);
    assert_eq!(
        reminder_master_outcome(false).reply.unwrap(),
        "You need the reminder master role to be able to make reminders for other people"
    );
    assert!(reminder_setting_outcome(Some(&without)).passed);
    assert_eq!(
        reminder_setting_outcome(Some(&with_role)).reply.unwrap(),
        "This server does not have the reminder channel configured."
    );
    assert_eq!(reminder_setting_outcome(None).reply.unwrap(), "There are no settings for this server.");
}

#[test]
fn robotevents_addresses() {
    assert_eq!(team_search_url("53A"), "https://www.robotevents.com/api/v2/teams?number=53A");
    assert_eq!(team_skills_url(1234), "https://www.robotevents.com/api/v2/teams/1234/skills");
    assert_eq!(team_skills_url(-1), "https://www.robotevents.com/api/v2/teams/-1/skills");
    assert_eq!(team_location("Austin", "Texas"), "Austin, Texas");
}
