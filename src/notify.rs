use vstd::prelude::*;
use vstd::string::*;
use crate::text::{contains_spec, contains_text, lower_of, lowercase};

verus! {

/// One extra detail of a desktop notification: its key, and its text where
/// the value is a string.
pub struct Hint {
    pub key: String,
    pub value: Option<String>,
}

/// A desktop notification as the relay sees it.
pub struct NotificationData {
    pub source: String,
    pub app_name: String,
    pub summary: String,
    pub body: String,
    pub actions: Vec<String>,
    pub hints: Vec<Hint>,
}

/// What relaying a notification amounts to: run the popup with these
/// arguments, and print this text.
pub struct Report {
    pub command: Vec<String>,
    pub text: String,
}

/// The state of a media player, as its player interface reports it.
pub struct MediaInfo {
    pub player: String,
    pub title: Option<String>,
    pub artist: Option<String>,
    pub album: Option<String>,
    pub status: Option<String>,
}

/// `items` with `sep` between each two.
pub open spec fn join_spec(items: Seq<Seq<char>>, sep: Seq<char>) -> Seq<char>
    decreases items.len(),
{
    if items.len() == 0 {
        Seq::empty()
    } else if items.len() == 1 {
        items[0]
    } else {
        join_spec(items.drop_last(), sep) + sep + items.last()
    }
}

impl View for Hint {
    type V = (Seq<char>, Option<Seq<char>>);

    open spec fn view(&self) -> (Seq<char>, Option<Seq<char>>) {
        (
            self.key@,
            match self.value {
                Some(v) => Some(v@),
                None => None,
            },
        )
    }
}

pub open spec fn texts(v: Seq<String>) -> Seq<Seq<char>> {
    v.map_values(|a: String| a@)
}

pub open spec fn hint_views(v: Seq<Hint>) -> Seq<(Seq<char>, Option<Seq<char>>)> {
    v.map_values(|h: Hint| h@)
}

/// One line `  key: value` for each hint whose value is text.
pub open spec fn hint_lines(hints: Seq<(Seq<char>, Option<Seq<char>>)>) -> Seq<char>
    decreases hints.len(),
{
    if hints.len() == 0 {
        Seq::empty()
    } else {
        hint_lines(hints.drop_last()) + match hints.last().1 {
            Some(v) => "  "@ + hints.last().0 + ": "@ + v + "\n"@,
            None => Seq::empty(),
        }
    }
}

/// The text printed for a notification.
pub open spec fn report_text(
    source: Seq<char>,
    app_name: Seq<char>,
    summary: Seq<char>,
    body: Seq<char>,
    actions: Seq<Seq<char>>,
    hints: Seq<(Seq<char>, Option<Seq<char>>)>,
) -> Seq<char> {
    "\n=== "@ + source + " Notification ===\n"@ + "App: "@ + app_name + "\n"@ + "Summary: "@
        + summary + "\n"@ + (if body.len() > 0 {
        "Body: "@ + body + "\n"@
    } else {
        Seq::empty()
    }) + (if actions.len() > 0 {
        "Actions: "@ + join_spec(actions, ", "@) + "\n"@
    } else {
        Seq::empty()
    }) + (if hints.len() > 0 {
        "Additional Info:\n"@ + hint_lines(hints)
    } else {
        Seq::empty()
    }) + "========================\n\n"@
}

pub open spec fn notification_text(n: &NotificationData) -> Seq<char> {
    report_text(n.source@, n.app_name@, n.summary@, n.body@, texts(n.actions@), hint_views(n.hints@))
}

fn join(items: &Vec<String>, sep: &str) -> (r: String)
    ensures
        r@ == join_spec(texts(items@), sep@),
{
    let ghost vs = texts(items@);
    let mut out = String::new();
    let mut i: usize = 0;
    while i < items.len()
        invariant
            i <= items@.len(),
            vs == texts(items@),
            out@ == join_spec(vs.subrange(0, i as int), sep@),
        decreases items@.len() - i,
    {
        let ghost prefix = vs.subrange(0, i + 1);
        assert(prefix.drop_last() =~= vs.subrange(0, i as int));
        if i > 0 {
            out.append(sep);
        }
        out.append(items[i].as_str());
        i = i + 1;
    }
    assert(vs.subrange(0, items@.len() as int) =~= vs);
    out
}

fn append_hint_lines(out: &mut String, hints: &Vec<Hint>)
    ensures
        final(out)@ == old(out)@ + hint_lines(hint_views(hints@)),
{
    let ghost vs = hint_views(hints@);
    let mut i: usize = 0;
    while i < hints.len()
        invariant
            i <= hints@.len(),
            vs == hint_views(hints@),
            out@ == old(out)@ + hint_lines(vs.subrange(0, i as int)),
        decreases hints@.len() - i,
    {
        let ghost prefix = vs.subrange(0, i + 1);
        assert(prefix.drop_last() =~= vs.subrange(0, i as int));
        let hint = &hints[i];
        match &hint.value {
            Some(v) => {
                out.append("  ");
                out.append(hint.key.as_str());
                out.append(": ");
                out.append(v.as_str());
                out.append("\n");
            },
            None => {},
        }
        assert(out@ =~= old(out)@ + hint_lines(prefix));
        i = i + 1;
    }
    assert(vs.subrange(0, hints@.len() as int) =~= vs);
}

fn text_or_empty(value: &Option<String>) -> (r: String)
    ensures
        r@ == (match value {
            Some(v) => v@,
            None => Seq::<char>::empty(),
        }),
{
    match value {
        Some(v) => v.clone(),
        None => String::new(),
    }
}

/// The summary and body of a media notification for a player's state.
pub open spec fn media_summary(m: &MediaInfo) -> Seq<char> {
    m.player@ + " - "@ + match m.status {
        Some(s) => s@,
        None => Seq::empty(),
    }
}

pub open spec fn opt_text(o: Option<String>) -> Seq<char> {
    match o {
        Some(v) => v@,
        None => Seq::empty(),
    }
}

/// "artist - title" where both are known, the title where only it is, and
/// "Now Playing" otherwise.
pub open spec fn media_body(m: &MediaInfo) -> Seq<char> {
    let title = opt_text(m.title);
    let artist = opt_text(m.artist);
    if artist.len() > 0 && title.len() > 0 {
        artist + " - "@ + title
    } else if title.len() > 0 {
        title
    } else {
        "Now Playing"@
    }
}

/// The one detail of a media notification: the album, where it is known.
pub open spec fn media_hints(m: &MediaInfo) -> Seq<(Seq<char>, Option<Seq<char>>)> {
    if opt_text(m.album).len() > 0 {
        seq![("album"@, Some(opt_text(m.album)))]
    } else {
        Seq::empty()
    }
}

impl NotificationData {
    /// What relaying this notification does: run the popup with the summary
    /// as title and the body as message, and print the notification's details.
    pub fn print(&self) -> (r: Report)
        ensures
            r.command@.len() == 4,
            r.command@[0]@ == "-t"@,
            r.command@[1]@ == self.summary@,
            r.command@[2]@ == "-m"@,
            r.command@[3]@ == self.body@,
            r.text@ == notification_text(self),
    {
        let mut command: Vec<String> = Vec::new();
        command.push(String::from_str("-t"));
        command.push(self.summary.clone());
        command.push(String::from_str("-m"));
        command.push(self.body.clone());
        let mut text = String::from_str("\n=== ");
        text.append(self.source.as_str());
        text.append(" Notification ===\n");
        text.append("App: ");
        text.append(self.app_name.as_str());
        text.append("\n");
        text.append("Summary: ");
        text.append(self.summary.as_str());
        text.append("\n");
        let ghost head = text@;
        if self.body.as_str().unicode_len() > 0 {
            text.append("Body: ");
            text.append(self.body.as_str());
            text.append("\n");
        }
        let ghost with_body = text@;
        if self.actions.len() > 0 {
            text.append("Actions: ");
            let joined = join(&self.actions, ", ");
            text.append(joined.as_str());
            text.append("\n");
        }
        let ghost with_actions = text@;
        if self.hints.len() > 0 {
            text.append("Additional Info:\n");
            append_hint_lines(&mut text, &self.hints);
        }
        let ghost with_hints = text@;
        text.append("========================\n\n");
        assert(text@ =~= notification_text(self));
        Report { command, text }
    }
}

impl MediaInfo {
    /// The notification that announces this player's state.
    pub fn to_notification(&self) -> (r: NotificationData)
        ensures
            r.source@ == "Media"@,
            r.app_name@ == self.player@,
            r.summary@ == media_summary(self),
            r.body@ == media_body(self),
            r.actions@.len() == 0,
            hint_views(r.hints@) == media_hints(self),
    {
        let title = text_or_empty(&self.title);
        let artist = text_or_empty(&self.artist);
        let album = text_or_empty(&self.album);
        let status = text_or_empty(&self.status);
        let mut summary = self.player.clone();
        summary.append(" - ");
        summary.append(status.as_str());
        let body = if artist.as_str().unicode_len() > 0 && title.as_str().unicode_len() > 0 {
            let mut b = artist;
            b.append(" - ");
            b.append(title.as_str());
            b
        } else if title.as_str().unicode_len() > 0 {
            title
        } else {
            String::from_str("Now Playing")
        };
        let mut hints: Vec<Hint> = Vec::new();
        if album.as_str().unicode_len() > 0 {
            hints.push(Hint { key: String::from_str("album"), value: Some(album) });
        }
        assert(hint_views(hints@) =~= media_hints(self));
        NotificationData {
            source: String::from_str("Media"),
            app_name: self.player.clone(),
            summary,
            body,
            actions: Vec::new(),
            hints,
        }
    }

    /// What announcing this player's state does (see `NotificationData::print`).
    pub fn print(&self) -> (r: Report)
        ensures
            r.command@.len() == 4,
            r.command@[0]@ == "-t"@,
            r.command@[1]@ == media_summary(self),
            r.command@[2]@ == "-m"@,
            r.command@[3]@ == media_body(self),
            r.text@ == report_text(
                "Media"@,
                self.player@,
                media_summary(self),
                media_body(self),
                Seq::empty(),
                media_hints(self),
            ),
    {
        let notification = self.to_notification();
        assert(texts(notification.actions@) =~= Seq::<Seq<char>>::empty());
        notification.print()
    }
}

/// Whether a lower-cased application name mentions one of the media players
/// whose state is announced: spotify, mpv, vlc, chromium, firefox or brave.
pub open spec fn names_media_player(lowered: Seq<char>) -> bool {
    ||| contains_spec(lowered, "spotify"@)
    ||| contains_spec(lowered, "mpv"@)
    ||| contains_spec(lowered, "vlc"@)
    ||| contains_spec(lowered, "chromium"@)
    ||| contains_spec(lowered, "firefox"@)
    ||| contains_spec(lowered, "brave"@)
}

/// Whether a lower-cased application name mentions a known media player.
pub fn mentions_media_player(lowered: &str) -> (r: bool)
    ensures
        r == names_media_player(lowered@),
{
    contains_text(lowered, "spotify") || contains_text(lowered, "mpv") || contains_text(
        lowered,
        "vlc",
    ) || contains_text(lowered, "chromium") || contains_text(lowered, "firefox")
        || contains_text(lowered, "brave")
}

/// Whether a notification from `app_name` should also refresh the media
/// players' announcements: the name mentions a media player, case aside.
pub fn refreshes_media(app_name: &str) -> (r: bool)
    ensures
        r == names_media_player(lower_of(app_name@)),
{
    let lowered = lowercase(app_name);
    mentions_media_player(lowered.as_str())
}

/// A Discord message, marked as such.
pub fn process_discord_notification(summary: &str, body: &str) -> (r: NotificationData)
    ensures
        r.source@ == "Discord"@,
        r.app_name@ == "Discord"@,
        r.summary@ == "Discord: "@ + summary@,
        r.body@ == body@,
        r.actions@.len() == 0,
        r.hints@.len() == 0,
{
    let mut full = String::from_str("Discord: ");
    full.append(summary);
    NotificationData {
        source: String::from_str("Discord"),
        app_name: String::from_str("Discord"),
        summary: full,
        body: String::from_str(body),
        actions: Vec::new(),
        hints: Vec::new(),
    }
}

/// The notification relayed for an incoming desktop notification whose
/// lower-cased application name is `lowered`: a Discord message where the name
/// mentions discord, the notification as it came (from the system) otherwise.
pub fn classify_notification(
    lowered: &str,
    app_name: String,
    summary: String,
    body: String,
    actions: Vec<String>,
    hints: Vec<Hint>,
) -> (r: NotificationData)
    ensures
        contains_spec(lowered@, "discord"@) ==> {
            &&& r.source@ == "Discord"@
            &&& r.app_name@ == "Discord"@
            &&& r.summary@ == "Discord: "@ + summary@
            &&& r.body@ == body@
            &&& r.actions@.len() == 0
            &&& r.hints@.len() == 0
        },
        !contains_spec(lowered@, "discord"@) ==> {
            &&& r.source@ == "System"@
            &&& r.app_name == app_name
            &&& r.summary == summary
            &&& r.body == body
            &&& r.actions == actions
            &&& r.hints == hints
        },
{
    if contains_text(lowered, "discord") {
        process_discord_notification(summary.as_str(), body.as_str())
    } else {
        NotificationData { source: String::from_str("System"), app_name, summary, body, actions, hints }
    }
}

/// The notification relayed for an incoming desktop notification: see
/// `classify_notification`, with the application name lower-cased.
pub fn notification_for(
    app_name: String,
    summary: String,
    body: String,
    actions: Vec<String>,
    hints: Vec<Hint>,
) -> (r: NotificationData)
    ensures
        contains_spec(lower_of(app_name@), "discord"@) ==> {
            &&& r.source@ == "Discord"@
            &&& r.app_name@ == "Discord"@
            &&& r.summary@ == "Discord: "@ + summary@
            &&& r.body@ == body@
            &&& r.actions@.len() == 0
            &&& r.hints@.len() == 0
        },
        !contains_spec(lower_of(app_name@), "discord"@) ==> {
            &&& r.source@ == "System"@
            &&& r.app_name == app_name
            &&& r.summary == summary
            &&& r.body == body
            &&& r.actions == actions
            &&& r.hints == hints
        },
{
    let lowered = lowercase(app_name.as_str());
    classify_notification(lowered.as_str(), app_name, summary, body, actions, hints)
}

} // verus!
