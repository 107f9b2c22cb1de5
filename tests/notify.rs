use pino::{
    classify_notification, contains_text, mentions_media_player, notification_for,
    process_discord_notification, refreshes_media, same_text, Hint, MediaInfo, NotificationData,
};

fn media(title: Option<&str>, artist: Option<&str>, album: Option<&str>, status: Option<&str>) -> MediaInfo {
    MediaInfo {
        player: "spotify".to_string(),
        title: title.map(|s| s.to_string()),
        artist: artist.map(|s| s.to_string()),
        album: album.map(|s| s.to_string()),
        status: status.map(|s| s.to_string()),
    }
}

#[test]
fn report_of_a_full_notification() {
    let n = NotificationData {
        source: "System".to_string(),
        app_name: "mail".to_string(),
        summary: "New mail".to_string(),
        body: "From: a".to_string(),
        actions: vec!["open".to_string(), "dismiss".to_string()],
        hints: vec![
            Hint { key: "urgency".to_string(), value: None },
            Hint { key: "category".to_string(), value: Some("email".to_string()) },
        ],
    };
    let r = n.print();
    assert_eq!(r.command, vec!["-t", "New mail", "-m", "From: a"]);
    assert_eq!(
        r.text,
        "\n=== System Notification ===\nApp: mail\nSummary: New mail\nBody: From: a\n\
         Actions: open, dismiss\nAdditional Info:\n  category: email\n========================\n\n"
    );
}

#[test]
fn report_of_a_bare_notification() {
    let n = process_discord_notification("hi", "");
    let r = n.print();
    assert_eq!(r.command, vec!["-t", "Discord: hi", "-m", ""]);
    assert_eq!(
        r.text,
        "\n=== Discord Notification ===\nApp: Discord\nSummary: Discord: hi\n========================\n\n"
    );
}

#[test]
fn media_notification_bodies() {
    let full = media(Some("Song"), Some("Band"), Some("Record"), Some("Playing")).to_notification();
    assert_eq!(full.source, "Media");
    assert_eq!(full.app_name, "spotify");
    assert_eq!(full.summary, "spotify - Playing");
    assert_eq!(full.body, "Band - Song");
    assert_eq!(full.hints.len(), 1);
    assert_eq!(full.hints[0].key, "album");
    assert_eq!(full.hints[0].value.as_deref(), Some("Record"));
    assert!(full.actions.is_empty());

    let title_only = media(Some("Song"), None, Some(""), None).to_notification();
    assert_eq!(title_only.summary, "spotify - ");
    assert_eq!(title_only.body, "Song");
    assert!(title_only.hints.is_empty());

    let nothing = media(None, Some("Band"), None, Some("Paused")).to_notification();
    assert_eq!(nothing.body, "Now Playing");
}

#[test]
fn media_print_relays_the_announcement() {
    let r = media(Some("Song"), Some("Band"), None, Some("Playing")).print();
    assert_eq!(r.command, vec!["-t", "spotify - Playing", "-m", "Band - Song"]);
    assert_eq!(
        r.text,
        "\n=== Media Notification ===\nApp: spotify\nSummary: spotify - Playing\nBody: Band - Song\n========================\n\n"
    );
}

#[test]
fn discord_is_recognised_in_any_case() {
    let n = notification_for("DiscordCanary".to_string(), "sum".to_string(), "body".to_string(), vec!["x".to_string()], vec![]);
    assert_eq!(n.source, "Discord");
    assert_eq!(n.app_name, "Discord");
    assert_eq!(n.summary, "Discord: sum");
    assert!(n.actions.is_empty());
    let s = notification_for("mail".to_string(), "sum".to_string(), "body".to_string(), vec!["x".to_string()], vec![]);
    assert_eq!(s.source, "System");
    assert_eq!(s.app_name, "mail");
    assert_eq!(s.summary, "sum");
    assert_eq!(s.actions, vec!["x"]);
    let c = classify_notification("discord", "D".to_string(), "a".to_string(), "b".to_string(), vec![], vec![]);
    assert_eq!(c.summary, "Discord: a");
}

#[test]
fn media_players_are_recognised() {
    assert!(refreshes_media("Spotify"));
    assert!(refreshes_media("Mozilla FIREFOX"));
    assert!(!refreshes_media("mail"));
    assert!(mentions_media_player("vlc media player"));
    assert!(!mentions_media_player("Brave"));
}

#[test]
fn text_helpers() {
    assert!(same_text("abc", "abc"));
    assert!(!same_text("abc", "abd"));
    assert!(!same_text("ab", "abc"));
    assert!(contains_text("chromium-browser", "chromium"));
    assert!(contains_text("x", ""));
    assert!(!contains_text("mp", "mpv"));
}
